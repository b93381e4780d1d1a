//! Interceptors: code that plugs into the request pipeline at its hook
//! points, the registries that hold them, and the dispatcher that calls
//! them.

pub mod context;
pub mod dispatch;
pub mod error;
pub mod hook;

use crate::config_bag::{texts, ConfigBag};
use crate::identity::first_index_of;
use context::InterceptorContext;
use dispatch::{absorb, conclude, intact, outcome, progress, Absorbed, HookReturn, Progress};
use error::{BoxError, InterceptorError};
use hook::{Hook, HookKind, Target};
use std::sync::Arc;
use vstd::prelude::*;
use vstd::string::StringExecFns;

verus! {

/// An interceptor injects code into the request pipeline.
///
/// An execution is one end-to-end invocation of an operation; an attempt is
/// one try at it. Each method is a hook: it is called at one point of the
/// pipeline, with the context in the phase of that point. A read hook
/// observes the context; a modify hook may replace one message in it. Every
/// hook does nothing unless it is overridden. Nothing is known of what an
/// overriding hook returns or does: the dispatcher handles every outcome.
pub trait Interceptor: Send + Sync {
    /// Called at the start of an execution, before anything else is done.
    /// The input is available. Errors are kept until every interceptor has
    /// had this hook called; execution then goes to `modify_before_completion`
    /// with the latest error in the place of the output.
    fn read_before_execution(&self, context: &InterceptorContext, cfg: &mut ConfigBag) -> (r: Result<
        (),
        BoxError,
    >)
        requires
            context.wf(),
            context@.phase == Hook::ReadBeforeExecution.phase(),
        default_ensures
            r is Ok,
            *final(cfg) == *old(cfg),
    {
        Ok(())
    }

    /// Called before the input is serialized; may replace the input by one of
    /// the same logical type. An error ends the group and takes execution to
    /// `modify_before_completion`.
    fn modify_before_serialization(&self, context: &mut InterceptorContext, cfg: &mut ConfigBag) -> (r: Result<
        (),
        BoxError,
    >)
        requires
            old(context).wf(),
            old(context)@.phase == Hook::ModifyBeforeSerialization.phase(),
        default_ensures
            r is Ok,
            *final(context) == *old(context),
            *final(cfg) == *old(cfg),
    {
        Ok(())
    }

    /// Called before the input is serialized. An error ends the group and
    /// takes execution to `modify_before_completion`.
    fn read_before_serialization(&self, context: &InterceptorContext, cfg: &mut ConfigBag) -> (r: Result<
        (),
        BoxError,
    >)
        requires
            context.wf(),
            context@.phase == Hook::ReadBeforeSerialization.phase(),
        default_ensures
            r is Ok,
            *final(cfg) == *old(cfg),
    {
        Ok(())
    }

    /// Called after the input was serialized into the request. An error ends
    /// the group and takes execution to `modify_before_completion`.
    fn read_after_serialization(&self, context: &InterceptorContext, cfg: &mut ConfigBag) -> (r: Result<
        (),
        BoxError,
    >)
        requires
            context.wf(),
            context@.phase == Hook::ReadAfterSerialization.phase(),
        default_ensures
            r is Ok,
            *final(cfg) == *old(cfg),
    {
        Ok(())
    }

    /// Called before the retry loop is entered; may change the request. An
    /// error ends the group and takes execution to `modify_before_completion`.
    fn modify_before_retry_loop(&self, context: &mut InterceptorContext, cfg: &mut ConfigBag) -> (r: Result<
        (),
        BoxError,
    >)
        requires
            old(context).wf(),
            old(context)@.phase == Hook::ModifyBeforeRetryLoop.phase(),
        default_ensures
            r is Ok,
            *final(context) == *old(context),
            *final(cfg) == *old(cfg),
    {
        Ok(())
    }

    /// Called at the start of each attempt. The request is as it stood before
    /// the retry loop: it holds no change made in an earlier attempt. Errors
    /// are kept until every interceptor has had this hook called; execution
    /// then goes to `modify_before_attempt_completion` with the latest error.
    fn read_before_attempt(&self, context: &InterceptorContext, cfg: &mut ConfigBag) -> (r: Result<
        (),
        BoxError,
    >)
        requires
            context.wf(),
            context@.phase == Hook::ReadBeforeAttempt.phase(),
        default_ensures
            r is Ok,
            *final(cfg) == *old(cfg),
    {
        Ok(())
    }

    /// Called before the request is signed; may change the request. An error
    /// ends the group and takes execution to `modify_before_attempt_completion`.
    fn modify_before_signing(&self, context: &mut InterceptorContext, cfg: &mut ConfigBag) -> (r: Result<
        (),
        BoxError,
    >)
        requires
            old(context).wf(),
            old(context)@.phase == Hook::ModifyBeforeSigning.phase(),
        default_ensures
            r is Ok,
            *final(context) == *old(context),
            *final(cfg) == *old(cfg),
    {
        Ok(())
    }

    /// Called before the request is signed. An error ends the group and takes
    /// execution to `modify_before_attempt_completion`.
    fn read_before_signing(&self, context: &InterceptorContext, cfg: &mut ConfigBag) -> (r: Result<
        (),
        BoxError,
    >)
        requires
            context.wf(),
            context@.phase == Hook::ReadBeforeSigning.phase(),
        default_ensures
            r is Ok,
            *final(cfg) == *old(cfg),
    {
        Ok(())
    }

    /// Called after the request was signed. An error ends the group and takes
    /// execution to `modify_before_attempt_completion`.
    fn read_after_signing(&self, context: &InterceptorContext, cfg: &mut ConfigBag) -> (r: Result<
        (),
        BoxError,
    >)
        requires
            context.wf(),
            context@.phase == Hook::ReadAfterSigning.phase(),
        default_ensures
            r is Ok,
            *final(cfg) == *old(cfg),
    {
        Ok(())
    }

    /// Called before the request is sent; may change the request. An error
    /// ends the group and takes execution to `modify_before_attempt_completion`.
    fn modify_before_transmit(&self, context: &mut InterceptorContext, cfg: &mut ConfigBag) -> (r: Result<
        (),
        BoxError,
    >)
        requires
            old(context).wf(),
            old(context)@.phase == Hook::ModifyBeforeTransmit.phase(),
        default_ensures
            r is Ok,
            *final(context) == *old(context),
            *final(cfg) == *old(cfg),
    {
        Ok(())
    }

    /// Called before the request is sent. An error ends the group and takes
    /// execution to `modify_before_attempt_completion`.
    fn read_before_transmit(&self, context: &InterceptorContext, cfg: &mut ConfigBag) -> (r: Result<
        (),
        BoxError,
    >)
        requires
            context.wf(),
            context@.phase == Hook::ReadBeforeTransmit.phase(),
        default_ensures
            r is Ok,
            *final(cfg) == *old(cfg),
    {
        Ok(())
    }

    /// Called after the response was received. An error ends the group and
    /// takes execution to `modify_before_attempt_completion`.
    fn read_after_transmit(&self, context: &InterceptorContext, cfg: &mut ConfigBag) -> (r: Result<
        (),
        BoxError,
    >)
        requires
            context.wf(),
            context@.phase == Hook::ReadAfterTransmit.phase(),
        default_ensures
            r is Ok,
            *final(cfg) == *old(cfg),
    {
        Ok(())
    }

    /// Called before the response is deserialized; may change the response.
    /// An error ends the group and takes execution to
    /// `modify_before_attempt_completion`.
    fn modify_before_deserialization(&self, context: &mut InterceptorContext, cfg: &mut ConfigBag) -> (r: Result<
        (),
        BoxError,
    >)
        requires
            old(context).wf(),
            old(context)@.phase == Hook::ModifyBeforeDeserialization.phase(),
        default_ensures
            r is Ok,
            *final(context) == *old(context),
            *final(cfg) == *old(cfg),
    {
        Ok(())
    }

    /// Called before the response is deserialized. An error ends the group
    /// and takes execution to `modify_before_attempt_completion`.
    fn read_before_deserialization(&self, context: &InterceptorContext, cfg: &mut ConfigBag) -> (r: Result<
        (),
        BoxError,
    >)
        requires
            context.wf(),
            context@.phase == Hook::ReadBeforeDeserialization.phase(),
        default_ensures
            r is Ok,
            *final(cfg) == *old(cfg),
    {
        Ok(())
    }

    /// Called after the response was deserialized. An error ends the group
    /// and takes execution to `modify_before_attempt_completion`.
    fn read_after_deserialization(&self, context: &InterceptorContext, cfg: &mut ConfigBag) -> (r: Result<
        (),
        BoxError,
    >)
        requires
            context.wf(),
            context@.phase == Hook::ReadAfterDeserialization.phase(),
        default_ensures
            r is Ok,
            *final(cfg) == *old(cfg),
    {
        Ok(())
    }

    /// Called when an attempt is completed; may replace the output by one of
    /// the same logical type, or put any error in its place. An error ends
    /// the group and takes execution to `read_after_attempt`.
    fn modify_before_attempt_completion(&self, context: &mut InterceptorContext, cfg: &mut ConfigBag) -> (r: Result<
        (),
        BoxError,
    >)
        requires
            old(context).wf(),
            old(context)@.phase == Hook::ModifyBeforeAttemptCompletion.phase(),
        default_ensures
            r is Ok,
            *final(context) == *old(context),
            *final(cfg) == *old(cfg),
    {
        Ok(())
    }

    /// Called when an attempt is completed. Errors are kept until every
    /// interceptor has had this hook called; the latest stands in the place
    /// of the attempt's output.
    fn read_after_attempt(&self, context: &InterceptorContext, cfg: &mut ConfigBag) -> (r: Result<
        (),
        BoxError,
    >)
        requires
            context.wf(),
            context@.phase == Hook::ReadAfterAttempt.phase(),
        default_ensures
            r is Ok,
            *final(cfg) == *old(cfg),
    {
        Ok(())
    }

    /// Called when the execution is completed; may replace the output by one
    /// of the same logical type, or put any error in its place. An error
    /// ends the group and takes execution to `read_after_execution`.
    fn modify_before_completion(&self, context: &mut InterceptorContext, cfg: &mut ConfigBag) -> (r: Result<
        (),
        BoxError,
    >)
        requires
            old(context).wf(),
            old(context)@.phase == Hook::ModifyBeforeCompletion.phase(),
        default_ensures
            r is Ok,
            *final(context) == *old(context),
            *final(cfg) == *old(cfg),
    {
        Ok(())
    }

    /// Called when the execution is completed. Errors are kept until every
    /// interceptor has had this hook called; the latest is what the caller
    /// gets.
    fn read_after_execution(&self, context: &InterceptorContext, cfg: &mut ConfigBag) -> (r: Result<
        (),
        BoxError,
    >)
        requires
            context.wf(),
            context@.phase == Hook::ReadAfterExecution.phase(),
        default_ensures
            r is Ok,
            *final(cfg) == *old(cfg),
    {
        Ok(())
    }
}

/// An interceptor that many calls may share.
pub struct SharedInterceptor(Arc<Box<dyn Interceptor>>);

impl Clone for SharedInterceptor {
    fn clone(&self) -> (r: Self)
        ensures
            r == *self,
    {
        SharedInterceptor(self.0.clone())
    }
}

impl SharedInterceptor {
    /// Create a new `SharedInterceptor` from `Interceptor`
    pub fn new<I: Interceptor + 'static>(interceptor: I) -> Self {
        let boxed: Box<dyn Interceptor> = Box::new(interceptor);
        SharedInterceptor(Arc::new(boxed))
    }

    /// Calls the interceptor's method for `hook`. A read hook leaves the
    /// context as it was; of a modify hook nothing is promised.
    pub fn invoke(&self, hook: Hook, context: &mut InterceptorContext, cfg: &mut ConfigBag) -> (r:
        Result<(), BoxError>)
        requires
            old(context).wf(),
            old(context)@.phase == hook.phase(),
        ensures
            hook.kind() is Read ==> *final(context) == *old(context),
    {
        match hook {
            Hook::ReadBeforeExecution => self.0.read_before_execution(context, cfg),
            Hook::ModifyBeforeSerialization => self.0.modify_before_serialization(context, cfg),
            Hook::ReadBeforeSerialization => self.0.read_before_serialization(context, cfg),
            Hook::ReadAfterSerialization => self.0.read_after_serialization(context, cfg),
            Hook::ModifyBeforeRetryLoop => self.0.modify_before_retry_loop(context, cfg),
            Hook::ReadBeforeAttempt => self.0.read_before_attempt(context, cfg),
            Hook::ModifyBeforeSigning => self.0.modify_before_signing(context, cfg),
            Hook::ReadBeforeSigning => self.0.read_before_signing(context, cfg),
            Hook::ReadAfterSigning => self.0.read_after_signing(context, cfg),
            Hook::ModifyBeforeTransmit => self.0.modify_before_transmit(context, cfg),
            Hook::ReadBeforeTransmit => self.0.read_before_transmit(context, cfg),
            Hook::ReadAfterTransmit => self.0.read_after_transmit(context, cfg),
            Hook::ModifyBeforeDeserialization => self.0.modify_before_deserialization(context, cfg),
            Hook::ReadBeforeDeserialization => self.0.read_before_deserialization(context, cfg),
            Hook::ReadAfterDeserialization => self.0.read_after_deserialization(context, cfg),
            Hook::ModifyBeforeAttemptCompletion => self.0.modify_before_attempt_completion(context, cfg),
            Hook::ReadAfterAttempt => self.0.read_after_attempt(context, cfg),
            Hook::ModifyBeforeCompletion => self.0.modify_before_completion(context, cfg),
            Hook::ReadAfterExecution => self.0.read_after_execution(context, cfg),
        }
    }
}

/// Collection of [`SharedInterceptor`] that allows for only registration
pub struct InterceptorRegistrar(Vec<SharedInterceptor>);

impl View for InterceptorRegistrar {
    type V = Seq<SharedInterceptor>;

    /// The registered interceptors, in the order of registration.
    closed spec fn view(&self) -> Seq<SharedInterceptor> {
        self.0@
    }
}

impl Default for InterceptorRegistrar {
    fn default() -> (r: Self)
        ensures
            r@ == Seq::<SharedInterceptor>::empty(),
    {
        InterceptorRegistrar(Vec::new())
    }
}

impl InterceptorRegistrar {
    /// Registers `interceptor` after those that are registered already. An
    /// interceptor registered twice is called twice.
    pub fn register(&mut self, interceptor: SharedInterceptor)
        ensures
            final(self)@ == old(self)@.push(interceptor),
    {
        self.0.push(interceptor);
    }

    /// Registers each of `interceptors`, in their order.
    pub fn extend(&mut self, interceptors: Vec<SharedInterceptor>)
        ensures
            final(self)@ == old(self)@ + interceptors@,
    {
        let mut interceptors = interceptors;
        let ghost all = interceptors@;
        self.0.append(&mut interceptors);
    }

    /// The number of registered interceptors.
    pub fn len(&self) -> (r: usize)
        ensures
            r == self@.len(),
    {
        self.0.len()
    }
}

/// An interceptor that is offered under a name: it is not called, but a
/// hook may ask for it to be registered.
pub struct OfferedInterceptor {
    pub name: String,
    pub interceptor: SharedInterceptor,
}

/// The interceptors of a call: those of the client, which apply to every
/// operation, those of the operation, and those that are offered for
/// registration during the call.
pub struct Interceptors {
    client_interceptors: InterceptorRegistrar,
    operation_interceptors: InterceptorRegistrar,
    offered: Vec<OfferedInterceptor>,
}

impl Default for Interceptors {
    fn default() -> (r: Self)
        ensures
            r.client() == Seq::<SharedInterceptor>::empty(),
            r.operation() == Seq::<SharedInterceptor>::empty(),
            r.offered_names() == Seq::<Seq<char>>::empty(),
    {
        let r = Interceptors {
            client_interceptors: InterceptorRegistrar::default(),
            operation_interceptors: InterceptorRegistrar::default(),
            offered: Vec::new(),
        };
        assert(r.offered_names() =~= Seq::<Seq<char>>::empty());
        r
    }
}

impl Interceptors {
    /// The interceptors of the client, in the order of registration.
    pub closed spec fn client(&self) -> Seq<SharedInterceptor> {
        self.client_interceptors@
    }

    /// The interceptors of the operation, in the order of registration.
    pub closed spec fn operation(&self) -> Seq<SharedInterceptor> {
        self.operation_interceptors@
    }

    /// The names under which interceptors are offered, in the order of the
    /// offering.
    pub closed spec fn offered_names(&self) -> Seq<Seq<char>> {
        Seq::new(self.offered@.len(), |i: int| self.offered@[i].name@)
    }

    /// The interceptor offered at `index`.
    pub closed spec fn spec_offered(&self, index: int) -> SharedInterceptor {
        self.offered@[index].interceptor
    }

    /// The interceptors that asking for `names`, in this order, registers:
    /// for each name the first interceptor offered under it, and none for a
    /// name under which none is offered. A name asked for twice is
    /// registered twice.
    pub open spec fn adopted(&self, names: Seq<Seq<char>>) -> Seq<SharedInterceptor>
        decreases names.len(),
    {
        if names.len() == 0 {
            Seq::empty()
        } else {
            let before = self.adopted(names.drop_last());
            match first_index_of(self.offered_names(), names.last()) {
                Some(k) => before.push(self.spec_offered(k)),
                None => before,
            }
        }
    }

    /// The order in which a dispatch pass calls the interceptors: those of
    /// the client first, then those of the operation, each in the order of
    /// registration, none left out and none merged.
    pub open spec fn call_order(&self) -> Seq<SharedInterceptor> {
        self.client() + self.operation()
    }

    /// The concatenated order: however many interceptors each registrar
    /// holds, every interceptor of the client comes before every interceptor
    /// of the operation, and each registrar's interceptors keep their order.
    pub proof fn lemma_client_before_operation(&self, i: int, j: int)
        requires
            0 <= i < self.client().len(),
            0 <= j < self.operation().len(),
        ensures
            self.call_order().len() == self.client().len() + self.operation().len(),
            self.call_order()[i] == self.client()[i],
            self.call_order()[self.client().len() + j] == self.operation()[j],
            i < self.client().len() + j,
    {
    }

    /// A registry without interceptors.
    pub fn new() -> (r: Self)
        ensures
            r.client() == Seq::<SharedInterceptor>::empty(),
            r.operation() == Seq::<SharedInterceptor>::empty(),
            r.offered_names() == Seq::<Seq<char>>::empty(),
    {
        Self::default()
    }

    /// Offers `interceptor` under `name`: it is not called unless a hook
    /// asks for it to be registered and the asking is adopted.
    pub fn offer(&mut self, name: &str, interceptor: SharedInterceptor)
        ensures
            final(self).offered_names() == old(self).offered_names().push(name@),
            final(self).spec_offered(old(self).offered_names().len() as int) == interceptor,
            forall|i: int|
                0 <= i < old(self).offered_names().len() ==> final(self).spec_offered(i) == old(
                    self,
                ).spec_offered(i),
            final(self).client() == old(self).client(),
            final(self).operation() == old(self).operation(),
    {
        self.offered.push(OfferedInterceptor { name: String::from_str(name), interceptor });
        assert(self.offered_names() =~= old(self).offered_names().push(name@));
    }

    /// The index of the first interceptor offered under `name`.
    fn find_offered(&self, name: &String) -> (r: Option<usize>)
        ensures
            match r {
                Some(k) => first_index_of(self.offered_names(), name@) == Some(k as int) && k
                    < self.offered@.len(),
                None => first_index_of(self.offered_names(), name@) is None,
            },
    {
        let mut i: usize = 0;
        assert(self.offered_names().skip(0) =~= self.offered_names());
        while i < self.offered.len()
            invariant
                i <= self.offered.len(),
                first_index_of(self.offered_names(), name@) == match first_index_of(
                    self.offered_names().skip(i as int),
                    name@,
                ) {
                    Some(k) => Some(k + i),
                    None => None,
                },
            decreases self.offered.len() - i,
        {
            let ghost rest = self.offered_names().skip(i as int);
            assert(rest[0] == self.offered@[i as int].name@);
            assert(rest.drop_first() =~= self.offered_names().skip(i + 1));
            if self.offered[i].name == *name {
                return Some(i);
            }
            i += 1;
        }
        assert(self.offered_names().skip(i as int).len() == 0);
        None
    }

    /// Registers, for the operation, the interceptors that were asked for
    /// under `names`, after those that are registered already. What is
    /// adopted is called from the next dispatch pass on: a pass takes its
    /// call order when it begins.
    pub fn adopt(&mut self, names: &Vec<String>)
        ensures
            final(self).operation() == old(self).operation() + old(self).adopted(texts(names@)),
            final(self).client() == old(self).client(),
            final(self).offered_names() == old(self).offered_names(),
            forall|i: int|
                0 <= i < old(self).offered_names().len() ==> final(self).spec_offered(i) == old(
                    self,
                ).spec_offered(i),
    {
        let mut i: usize = 0;
        assert(old(self).operation() + old(self).adopted(texts(names@).take(0)) =~= old(
            self,
        ).operation());
        while i < names.len()
            invariant
                i <= names.len(),
                self.offered == old(self).offered,
                self.client_interceptors == old(self).client_interceptors,
                self.operation() == old(self).operation() + old(self).adopted(
                    texts(names@).take(i as int),
                ),
            decreases names.len() - i,
        {
            let ghost upto = texts(names@).take(i + 1);
            assert(upto.drop_last() =~= texts(names@).take(i as int));
            assert(upto.last() == names[i as int]@);
            let ghost before = old(self).adopted(texts(names@).take(i as int));
            assert(self.offered_names() =~= old(self).offered_names());
            match self.find_offered(&names[i]) {
                Some(k) => {
                    let interceptor = self.offered[k].interceptor.clone();
                    self.operation_interceptors.register(interceptor);
                    assert(interceptor == old(self).spec_offered(k as int));
                    assert(old(self).adopted(upto) == before.push(interceptor));
                    assert(self.operation() =~= old(self).operation() + old(self).adopted(upto));
                },
                None => {
                    assert(old(self).adopted(upto) == before);
                },
            }
            i += 1;
        }
        assert(texts(names@).take(names.len() as int) =~= texts(names@));
    }

    /// The interceptors in the order in which a dispatch pass calls them. The
    /// list is a copy: what is registered after it was made is not in it.
    pub fn interceptors(&self) -> (r: Vec<SharedInterceptor>)
        ensures
            r@ == self.call_order(),
    {
        let mut all: Vec<SharedInterceptor> = Vec::new();
        let mut i: usize = 0;
        while i < self.client_interceptors.0.len()
            invariant
                i <= self.client_interceptors.0.len(),
                all@ == self.client_interceptors.0@.take(i as int),
            decreases self.client_interceptors.0.len() - i,
        {
            all.push(self.client_interceptors.0[i].clone());
            assert(self.client_interceptors.0@.take(i + 1) =~= self.client_interceptors.0@.take(
                i as int,
            ).push(self.client_interceptors.0@[i as int]));
            i += 1;
        }
        assert(self.client_interceptors.0@.take(i as int) =~= self.client_interceptors.0@);
        let mut j: usize = 0;
        while j < self.operation_interceptors.0.len()
            invariant
                j <= self.operation_interceptors.0.len(),
                all@ == self.client_interceptors.0@ + self.operation_interceptors.0@.take(j as int),
            decreases self.operation_interceptors.0.len() - j,
        {
            all.push(self.operation_interceptors.0[j].clone());
            assert(self.operation_interceptors.0@.take(j + 1) =~= self.operation_interceptors.0@.take(
                j as int,
            ).push(self.operation_interceptors.0@[j as int]));
            assert(all@ =~= self.client_interceptors.0@ + self.operation_interceptors.0@.take(
                j + 1,
            ));
            j += 1;
        }
        assert(self.operation_interceptors.0@.take(j as int) =~= self.operation_interceptors.0@);
        all
    }

    /// The registrar of the client's interceptors.
    pub fn client_interceptors_mut(&mut self) -> (r: &mut InterceptorRegistrar)
        ensures
            r@ == old(self).client(),
            final(self).client() == final(r)@,
            final(self).operation() == old(self).operation(),
            final(self).offered_names() == old(self).offered_names(),
    {
        &mut self.client_interceptors
    }

    /// The registrar of the operation's interceptors.
    pub fn operation_interceptors_mut(&mut self) -> (r: &mut InterceptorRegistrar)
        ensures
            r@ == old(self).operation(),
            final(self).operation() == final(r)@,
            final(self).client() == old(self).client(),
            final(self).offered_names() == old(self).offered_names(),
    {
        &mut self.operation_interceptors
    }

    /// Runs one dispatch pass: calls the method for `hook` of every
    /// interceptor, in the call order as it stands when the pass begins, and
    /// applies the error policy of the hook's group.
    ///
    /// What the pass returns is what `outcome` makes of what the hooks
    /// handed back, taken in the order of the calls; the pass calls every
    /// interceptor unless a call ends it, makes no call after one that ends
    /// it, and its error names `hook`. With no
    /// interceptor registered it returns `Ok` and changes nothing. A read
    /// hook never changes the context, so a pass of read hooks never ends in
    /// a type-constraint violation. Unless the pass ends in one, the context
    /// is left well formed and in its phase, and the input has kept its
    /// logical type.
    pub fn dispatch(&self, hook: Hook, context: &mut InterceptorContext, cfg: &mut ConfigBag) -> (r:
        Result<(), InterceptorError>)
        requires
            old(context).wf(),
            old(context)@.phase == hook.phase(),
        ensures
            exists|trace: Seq<HookReturn>|
                {
                    &&& trace.len() <= self.call_order().len()
                    &&& #[trigger] progress(hook, trace).invoked == trace.len()
                    &&& progress(hook, trace).stopped is None ==> trace.len()
                        == self.call_order().len()
                    &&& r == outcome(hook, trace)
                },
            self.call_order().len() == 0 ==> {
                &&& r is Ok
                &&& *final(context) == *old(context)
                &&& *final(cfg) == *old(cfg)
            },
            hook.kind() is Read ==> *final(context) == *old(context),
            hook.kind() is Read ==> !(r matches Err(InterceptorError::TypeConstraint { .. })),
            r matches Err(InterceptorError::Hook { hook: at, .. }) ==> at == hook,
            r matches Err(InterceptorError::TypeConstraint { hook: at }) ==> at == hook,
            !(r matches Err(InterceptorError::TypeConstraint { .. })) ==> {
                &&& final(context).wf()
                &&& final(context)@.phase == old(context)@.phase
                &&& hook.kind() == HookKind::Modify(Target::Input) ==> final(context)@.message_type(
                    Target::Input,
                ) == old(context)@.message_type(Target::Input)
            },
    {
        let snapshot = self.interceptors();
        let mut pending: Option<BoxError> = None;
        let ghost mut trace: Seq<HookReturn> = Seq::empty();
        let mut i: usize = 0;
        while i < snapshot.len()
            invariant
                i <= snapshot.len(),
                snapshot@ == self.call_order(),
                trace.len() == i,
                progress(hook, trace) == (Progress { pending, stopped: None, invoked: i as nat }),
                context.wf(),
                context@.phase == hook.phase(),
                old(context)@.phase == hook.phase(),
                hook.kind() is Read ==> *context == *old(context),
                i == 0 ==> *context == *old(context) && *cfg == *old(cfg),
                hook.kind() == HookKind::Modify(Target::Input) ==> context@.message_type(
                    Target::Input,
                ) == old(context)@.message_type(Target::Input),
            decreases snapshot.len() - i,
        {
            let kind = hook.kind();
            let before = match kind {
                HookKind::Read => None,
                HookKind::Modify(target) => context.message_type(target),
            };
            let ghost received = context@;
            let result = snapshot[i].invoke(hook, context, cfg);
            let kept = match kind {
                HookKind::Read => true,
                HookKind::Modify(target) => context.is_intact(hook.phase(), target, before),
            };
            proof {
                assert(kept == intact(hook, received, context@));
                assert(trace.push(HookReturn { result, intact: kept }).drop_last() =~= trace);
                trace = trace.push(HookReturn { result, intact: kept });
            }
            match absorb(hook, pending, result, kept) {
                Absorbed::Continue { pending: latest } => {
                    pending = latest;
                },
                Absorbed::Stop { error } => {
                    assert(progress(hook, trace).invoked == trace.len());
                    return Err(error);
                },
            }
            i += 1;
        }
        assert(progress(hook, trace).invoked == trace.len());
        conclude(hook, pending)
    }
}

} // verus!
