//! One call as a state machine: the step it is at, the context it holds,
//! and what becomes of both as the steps are taken.
//!
//! The machine takes by itself every step that needs no outside work: the
//! dispatch passes, the adoption of the interceptors that hooks asked for,
//! the checkpoint, the selection of an auth scheme, the signing, the
//! rewinding. Where a collaborator has to work, it stops and
//! says which; whoever drives the call does that work and hands in what
//! came of it. At every dispatch pass the context is in the phase of the
//! hook.

use super::auth::{
    lemma_selected, select_auth_scheme, selected, sign_with_identity, signed_from,
    signing_failed_from, static_options, usable, AuthError, AuthFailure,
};
use crate::identity::first_index_of;
use super::steps::{
    advance, after_attempt_pass, after_auth, after_pass, Event, Step,
};
use crate::auth::{scheme_names, AuthSchemeId};
use crate::config_bag::ConfigBag;
use crate::http::{Request, RequestView, Response};
use crate::identity::Identity;
use crate::interceptors::context::{
    AttemptCheckpoint, ContextView, Error, Input, InterceptorContext, Output, Phase,
};
use crate::interceptors::error::BoxError;
use crate::interceptors::hook::{Hook, Scope};
use crate::interceptors::Interceptors;
use vstd::prelude::*;

verus! {

/// Who holds the context of a call: the call itself, or, within the retry
/// loop, the checkpoint of the attempt.
#[derive(Debug)]
pub enum Held {
    Call(InterceptorContext),
    Attempt(AttemptCheckpoint),
}

impl Held {
    /// The context that is held.
    pub open spec fn spec_context(self) -> InterceptorContext {
        match self {
            Held::Call(context) => context,
            Held::Attempt(checkpoint) => checkpoint.spec_context(),
        }
    }

    /// The context that is held.
    pub fn context(&self) -> (r: &InterceptorContext)
        ensures
            *r == self.spec_context(),
    {
        match self {
            Held::Call(context) => context,
            Held::Attempt(checkpoint) => checkpoint.context(),
        }
    }
}

/// The work that a call waits for.
#[derive(Clone, Copy, Debug, PartialEq, Eq, Structural)]
pub enum Work {
    /// None: the machine can proceed by itself.
    Proceed,
    /// The codec is to serialize the input.
    Serialize,
    /// The identity of the selected auth scheme is to be resolved.
    ResolveIdentity,
    /// The transport is to send the request.
    Transmit,
    /// The codec is to deserialize the response.
    Deserialize,
    /// The retry policy is to decide on another attempt.
    DecideRetry,
    /// None: the call is over and its result can be taken.
    Finished,
}

/// Whether the step `step` is taken within the retry loop, where the
/// checkpoint holds the context.
pub open spec fn within_attempt(step: Step) -> bool {
    match step {
        Step::Dispatch(hook) => hook.scope() == Scope::Attempt,
        Step::Sign | Step::Transmit | Step::Deserialize | Step::DecideRetry | Step::Rewind => true,
        Step::Serialize | Step::Checkpoint => false,
        Step::Finish => false,
    }
}

/// The phase that the context is in when the step `step` is taken; `None`
/// for the steps that take it in any phase.
pub open spec fn phase_at(step: Step) -> Option<Phase> {
    match step {
        Step::Dispatch(hook) => Some(hook.phase()),
        Step::Serialize => Some(Phase::BeforeSerialization),
        Step::Checkpoint | Step::Sign | Step::Transmit => Some(Phase::BeforeTransmit),
        Step::Deserialize => Some(Phase::BeforeDeserialization),
        Step::DecideRetry => Some(Phase::AfterDeserialization),
        Step::Rewind | Step::Finish => None,
    }
}

/// The place of a step in the order of a call, by which every step that
/// the machine takes by itself leads to a later one.
pub open spec fn order(step: Step) -> nat {
    match step {
        Step::Dispatch(hook) => if hook.spec_position() <= 2 {
            hook.spec_position()
        } else if hook.spec_position() <= 4 {
            hook.spec_position() + 1
        } else if hook.spec_position() <= 7 {
            hook.spec_position() + 2
        } else if hook.spec_position() <= 10 {
            hook.spec_position() + 3
        } else if hook.spec_position() <= 13 {
            hook.spec_position() + 4
        } else if hook.spec_position() <= 16 {
            hook.spec_position() + 5
        } else {
            hook.spec_position() + 6
        },
        Step::Serialize => 3,
        Step::Checkpoint | Step::Rewind => 6,
        Step::Sign => 10,
        Step::Transmit => 14,
        Step::Deserialize => 18,
        Step::DecideRetry => 22,
        Step::Finish => 25,
    }
}

/// Where a call at `step` comes to rest when every dispatch pass on its way
/// returns `Ok`: the first step from `step` on that is not a dispatch pass.
pub open spec fn rest_after_passes(step: Step) -> Step
    decreases 26 - order(step),
{
    match step {
        Step::Dispatch(hook) => rest_after_passes(super::steps::after_hook(hook)),
        _ => step,
    }
}

/// Whether the step `step` is one at which a call waits, whatever else
/// holds: for a collaborator's work, or for its result to be taken.
pub open spec fn waits_at(step: Step) -> bool {
    step == Step::Serialize || step == Step::Transmit || step == Step::Deserialize || step
        == Step::DecideRetry || step == Step::Finish
}

/// What the error says where the configuration lacks an entry that
/// authentication reads.
pub open spec fn lacks_auth_message() -> Seq<char> {
    "the configuration lacks what authentication reads"@
}

/// What the error says where no scheme is registered any more under the
/// name that was selected.
pub open spec fn scheme_gone_message() -> Seq<char> {
    "the selected auth scheme is gone"@
}

/// What the error says where no identity resolver is registered for the
/// selected scheme.
pub open spec fn no_resolver_message() -> Seq<char> {
    "the selected auth scheme has no identity resolver"@
}

/// Whether `after` is `before` failed with `error`: in its last phase, with
/// `error` in the place of the output, and otherwise unchanged.
pub open spec fn failed_with(before: ContextView, after: ContextView, error: Error) -> bool {
    after == (ContextView {
        phase: Phase::AfterDeserialization,
        output_or_error: Some(Err(error)),
        ..before
    })
}

/// Whether `after` is `before` failed with a construction failure.
pub open spec fn resolution_failed(before: ContextView, after: ContextView) -> bool {
    &&& after.output_or_error matches Some(Err(Error::Auth(AuthError::ConstructionFailure(_))))
    &&& after == (ContextView {
        phase: Phase::AfterDeserialization,
        output_or_error: after.output_or_error,
        ..before
    })
}

/// Whether `after` is `before` failed with a construction failure that
/// says `message`.
pub open spec fn construction_failed(
    before: ContextView,
    after: ContextView,
    message: Seq<char>,
) -> bool {
    &&& resolution_failed(before, after)
    &&& after.output_or_error matches Some(Err(Error::Auth(AuthError::ConstructionFailure(source))))
    &&& source@ == message
}

/// Whether `base` is the context that an attempt starts from when its
/// checkpoint holds `pristine`: in `BeforeTransmit`, with a request equal
/// to the checkpointed one and nothing else.
pub open spec fn rewound_view(pristine: RequestView, base: ContextView) -> bool {
    &&& base.phase == Phase::BeforeTransmit
    &&& base.input is None
    &&& base.request is Some
    &&& base.request->0@ == pristine
    &&& base.response is None
    &&& base.output_or_error is None
}

/// The name of the scheme `selected`, if one is.
pub open spec fn name_of(selected: Option<AuthSchemeId>) -> Option<Seq<char>> {
    match selected {
        Some(id) => Some(id@),
        None => None,
    }
}

/// The attempt count after one more attempt has begun.
pub open spec fn one_more(attempts: u32) -> u32 {
    if attempts < u32::MAX {
        (attempts + 1) as u32
    } else {
        attempts
    }
}

/// What selecting an auth scheme makes of an attempt whose context is
/// `base`, where nothing disturbs the call: the step that the call comes to
/// rest at, its context, and the scheme chosen.
///
/// A configuration that lacks what authentication reads fails the attempt,
/// which comes to rest at the retry decision. With a fixed list of options
/// the configuration decides: the call waits at `Sign` for the identity of
/// the selected option, its context unchanged, or, where no option can be
/// used, it is over with `NoAuthSchemeMatched`. With a resolver of the
/// caller's own it is one of these three, and what is chosen can be used.
pub open spec fn selection(
    base: ContextView,
    step: Step,
    context: ContextView,
    chosen: Option<Seq<char>>,
    cfg: ConfigBag,
) -> bool {
    if !cfg.ready_for_auth() {
        &&& rest_after_passes(step) == Step::DecideRetry
        &&& construction_failed(base, context, lacks_auth_message())
    } else {
        match static_options(&cfg) {
            Some(names) => match selected(
                names,
                &cfg@.http_auth_schemes->0,
                &cfg@.identity_resolvers->0,
            ) {
                Some(i) => step == Step::Sign && chosen == Some(names[i]) && context == base,
                None => step == Step::Finish && failed_with(
                    base,
                    context,
                    Error::Auth(AuthError::NoAuthSchemeMatched),
                ),
            },
            None => {
                ||| {
                    &&& step == Step::Sign
                    &&& chosen is Some
                    &&& context == base
                    &&& usable(chosen->0, &cfg@.http_auth_schemes->0, &cfg@.identity_resolvers->0)
                }
                ||| rest_after_passes(step) == Step::DecideRetry && resolution_failed(base, context)
                ||| step == Step::Finish && failed_with(
                    base,
                    context,
                    Error::Auth(AuthError::NoAuthSchemeMatched),
                )
            },
        }
    }
}

/// Whether a call that was `before`, with passes leading it to `start`, has
/// entered or re-entered an attempt whose context began as `base`.
///
/// From `Checkpoint` the checkpoint is taken: it keeps the request of the
/// context, and the first attempt begins. From `Rewind` a further attempt
/// begins from the checkpointed request. From `Sign` the attempt goes on as
/// it is.
pub open spec fn entered(
    start: Step,
    before: Execution,
    base: ContextView,
    held: Held,
    attempts: u32,
) -> bool {
    &&& held is Attempt
    &&& match start {
        Step::Checkpoint => {
            &&& before.spec_held() is Call
            &&& base == before.spec_context()@
            &&& held->Attempt_0.pristine() == before.spec_context()@.request->0@
            &&& attempts == 1
        },
        Step::Rewind => {
            &&& before.spec_held() is Attempt
            &&& held->Attempt_0.pristine() == before.spec_held()->Attempt_0.pristine()
            &&& rewound_view(held->Attempt_0.pristine(), base)
            &&& attempts == one_more(before.spec_attempts())
        },
        Step::Sign => {
            &&& before.spec_selected() is None
            &&& base == before.spec_context()@
            &&& attempts == before.spec_attempts()
        },
        _ => false,
    }
}

/// Whether nothing stands to disturb a call as it proceeds: no interceptor
/// is registered, and none is asked for in the configuration.
pub open spec fn undisturbed(interceptors: &Interceptors, cfg: &ConfigBag) -> bool {
    &&& interceptors.call_order().len() == 0
    &&& cfg@.interceptor_registrations.len() == 0
}

/// Whether passes lead a call at `step` into the selection of an auth
/// scheme: to the checkpoint, to the rewinding, or to the signing.
pub open spec fn enters_at(start: Step) -> bool {
    start == Step::Checkpoint || start == Step::Rewind || start == Step::Sign
}

/// Whether a context `context`, held within the retry loop or not, is what
/// the step `step` is taken on: well formed, in the phase of the step, and
/// held by the checkpoint exactly within the retry loop. At the end the
/// context holds the output or the error in its place.
pub open spec fn fits(step: Step, held: Held) -> bool {
    let context = held.spec_context()@;
    match step {
        Step::Finish => context.output_or_error is Some,
        Step::Rewind => held is Attempt,
        _ => {
            &&& context.wf()
            &&& phase_at(step) == Some(context.phase)
            &&& (held is Attempt) == within_attempt(step)
        },
    }
}

/// One call under way.
#[derive(Debug)]
pub struct Execution {
    step: Step,
    held: Held,
    attempts: u32,
    selected: Option<AuthSchemeId>,
}

impl Execution {
    /// The step that the call is at.
    pub closed spec fn spec_step(&self) -> Step {
        self.step
    }

    /// Who holds the context, and the context.
    pub closed spec fn spec_held(&self) -> Held {
        self.held
    }

    /// The number of attempts begun.
    pub closed spec fn spec_attempts(&self) -> u32 {
        self.attempts
    }

    /// The name of the auth scheme whose identity the call waits for.
    pub closed spec fn spec_selected(&self) -> Option<Seq<char>> {
        match self.selected {
            Some(id) => Some(id@),
            None => None,
        }
    }

    /// The context that the call holds.
    pub open spec fn spec_context(&self) -> InterceptorContext {
        self.spec_held().spec_context()
    }

    /// The context is what the step is taken on, and an auth scheme is
    /// selected only while signing.
    pub open spec fn wf(&self) -> bool {
        &&& fits(self.spec_step(), self.spec_held())
        &&& self.spec_selected() is Some ==> self.spec_step() == Step::Sign
    }

    /// The work that the call waits for.
    pub open spec fn spec_work(&self) -> Work {
        match self.spec_step() {
            Step::Serialize => Work::Serialize,
            Step::Transmit => Work::Transmit,
            Step::Deserialize => Work::Deserialize,
            Step::DecideRetry => Work::DecideRetry,
            Step::Finish => Work::Finished,
            Step::Sign => if self.spec_selected() is Some {
                Work::ResolveIdentity
            } else {
                Work::Proceed
            },
            Step::Dispatch(_) | Step::Checkpoint | Step::Rewind => Work::Proceed,
        }
    }

    /// Begins a call: the context holds `input`, and the first step is the
    /// first dispatch pass.
    pub fn new(input: Input) -> (r: Self)
        ensures
            r.wf(),
            r.spec_step() == Step::Dispatch(Hook::ReadBeforeExecution),
            r.spec_held() is Call,
            r.spec_context()@ == (ContextView {
                phase: Phase::BeforeSerialization,
                input: Some(input),
                request: None,
                response: None,
                output_or_error: None,
            }),
            r.spec_attempts() == 0,
            r.spec_selected() is None,
    {
        Execution {
            step: Step::first(),
            held: Held::Call(InterceptorContext::new(input)),
            attempts: 0,
            selected: None,
        }
    }

    /// The step that the call is at.
    pub fn step(&self) -> (r: Step)
        ensures
            r == self.spec_step(),
    {
        self.step
    }

    /// The context that the call holds.
    pub fn context(&self) -> (r: &InterceptorContext)
        ensures
            *r == self.spec_context(),
    {
        self.held.context()
    }

    /// The number of attempts begun.
    pub fn attempts(&self) -> (r: u32)
        ensures
            r == self.spec_attempts(),
    {
        self.attempts
    }

    /// The auth scheme whose identity the call waits for.
    pub fn selected_scheme(&self) -> (r: Option<&AuthSchemeId>)
        ensures
            match r {
                Some(id) => self.spec_selected() == Some(id@),
                None => self.spec_selected() is None,
            },
    {
        self.selected.as_ref()
    }

    /// The work that the call waits for.
    pub fn work(&self) -> (r: Work)
        ensures
            r == self.spec_work(),
    {
        match self.step {
            Step::Serialize => Work::Serialize,
            Step::Transmit => Work::Transmit,
            Step::Deserialize => Work::Deserialize,
            Step::DecideRetry => Work::DecideRetry,
            Step::Finish => Work::Finished,
            Step::Sign => if self.selected.is_some() {
                Work::ResolveIdentity
            } else {
                Work::Proceed
            },
            Step::Dispatch(_) | Step::Checkpoint | Step::Rewind => Work::Proceed,
        }
    }

    /// Takes every step that needs no outside work, until the call waits for
    /// work or is over. Each dispatch pass finds the context well formed and
    /// in the phase of its hook. Before each pass the interceptors that were
    /// asked for in the configuration are adopted, so that what a hook asks
    /// for is called from the next pass on. A call that waits for work
    /// already is left as it is.
    ///
    /// The checkpointed request of an attempt stays as it is. Where no
    /// interceptor is registered and none is asked for, the configuration
    /// stays as it is, and the call comes to rest where its steps lead:
    /// at the next work if no attempt is entered on the way; otherwise as
    /// `entered` and `selection` say.
    pub fn proceed(self, interceptors: &mut Interceptors, cfg: &mut ConfigBag) -> (r: Self)
        requires
            self.wf(),
        ensures
            r.wf(),
            r.spec_work() != Work::Proceed,
            self.spec_work() != Work::Proceed ==> {
                &&& r == self
                &&& *final(cfg) == *old(cfg)
                &&& *final(interceptors) == *old(interceptors)
            },
            order(self.spec_step()) <= order(r.spec_step()),
            final(interceptors).client() == old(interceptors).client(),
            final(interceptors).offered_names() == old(interceptors).offered_names(),
            old(interceptors).operation().is_prefix_of(final(interceptors).operation()),
            self.spec_held() is Attempt ==> r.spec_held() is Attempt
                && r.spec_held()->Attempt_0.pristine() == self.spec_held()->Attempt_0.pristine(),
            undisturbed(old(interceptors), old(cfg)) ==> {
                &&& *final(cfg) == *old(cfg)
                &&& *final(interceptors) == *old(interceptors)
            },
            undisturbed(old(interceptors), old(cfg)) && waits_at(
                rest_after_passes(self.spec_step()),
            ) ==> {
                &&& r.spec_step() == rest_after_passes(self.spec_step())
                &&& r.spec_context() == self.spec_context()
                &&& r.spec_attempts() == self.spec_attempts()
            },
            undisturbed(old(interceptors), old(cfg)) && self.spec_work() == Work::Proceed
                && enters_at(rest_after_passes(self.spec_step())) ==> exists|base: ContextView|
                {
                    &&& #[trigger] entered(
                        rest_after_passes(self.spec_step()),
                        self,
                        base,
                        r.spec_held(),
                        r.spec_attempts(),
                    )
                    &&& selection(
                        base,
                        r.spec_step(),
                        r.spec_context()@,
                        r.spec_selected(),
                        *old(cfg),
                    )
                },
    {
        let Execution { step, held, attempts, selected } = self;
        let mut step = step;
        let mut held = held;
        let mut attempts = attempts;
        let mut selected = selected;
        let ghost start = rest_after_passes(self.spec_step());
        let ghost calm = undisturbed(old(interceptors), old(cfg));
        let ghost mut stage: int = if calm {
            0
        } else {
            3
        };
        let ghost mut base: ContextView = self.spec_context()@;
        loop
            invariant
                self.wf(),
                fits(step, held),
                start == rest_after_passes(self.spec_step()),
                calm == undisturbed(old(interceptors), old(cfg)),
                0 <= stage <= 3,
                stage != 3 <==> calm,
                stage != 3 ==> *cfg == *old(cfg) && *interceptors == *old(interceptors),
                interceptors.client() == old(interceptors).client(),
                interceptors.offered_names() == old(interceptors).offered_names(),
                old(interceptors).operation().is_prefix_of(interceptors.operation()),
                stage == 0 ==> {
                    &&& rest_after_passes(step) == start
                    &&& held.spec_context() == self.spec_context()
                    &&& (held is Attempt) == (self.spec_held() is Attempt)
                    &&& attempts == self.spec_attempts()
                    &&& name_of(selected) == self.spec_selected()
                },
                stage == 1 ==> {
                    &&& rest_after_passes(step) == Step::Sign
                    &&& selected is None
                    &&& held.spec_context()@ == base
                    &&& entered(start, self, base, held, attempts)
                },
                stage == 2 ==> {
                    &&& entered(start, self, base, held, attempts)
                    &&& selection(base, step, held.spec_context()@, name_of(selected), *cfg)
                },
                self.spec_held() is Attempt ==> held is Attempt && held->Attempt_0.pristine()
                    == self.spec_held()->Attempt_0.pristine(),
                selected is Some ==> step == Step::Sign,
                order(self.spec_step()) <= order(step),
                self.spec_work() != Work::Proceed ==> {
                    &&& (Execution { step, held, attempts, selected }) == self
                    &&& *cfg == *old(cfg)
                    &&& *interceptors == *old(interceptors)
                },
            ensures
                (Execution { step, held, attempts, selected }).wf(),
                (Execution { step, held, attempts, selected }).spec_work() != Work::Proceed,
                self.spec_work() != Work::Proceed ==> {
                    &&& (Execution { step, held, attempts, selected }) == self
                    &&& *cfg == *old(cfg)
                    &&& *interceptors == *old(interceptors)
                },
                order(self.spec_step()) <= order(step),
                interceptors.client() == old(interceptors).client(),
                interceptors.offered_names() == old(interceptors).offered_names(),
                old(interceptors).operation().is_prefix_of(interceptors.operation()),
                calm ==> *cfg == *old(cfg) && *interceptors == *old(interceptors),
                calm && waits_at(start) ==> {
                    &&& step == start
                    &&& held.spec_context() == self.spec_context()
                    &&& attempts == self.spec_attempts()
                },
                self.spec_held() is Attempt ==> held is Attempt && held->Attempt_0.pristine()
                    == self.spec_held()->Attempt_0.pristine(),
                calm && self.spec_work() == Work::Proceed && enters_at(start) ==> {
                    &&& entered(start, self, base, held, attempts)
                    &&& selection(base, step, held.spec_context()@, name_of(selected), *old(cfg))
                },
            decreases 26 - order(step), if selected is Some { 0int } else { 1int },
        {
            match step {
                Step::Dispatch(hook) => {
                    if cfg.interceptor_registrations().len() > 0 {
                        let names = cfg.take_interceptor_registrations();
                        interceptors.adopt(&names);
                    }
                    match held {
                        Held::Call(context) => {
                            let mut context = context;
                            let pass = interceptors.dispatch(hook, &mut context, cfg);
                            let (context, event) = after_pass(context, pass);
                            held = Held::Call(context);
                            step = step.next(event);
                        },
                        Held::Attempt(checkpoint) => {
                            let mut checkpoint = checkpoint;
                            let pass = interceptors.dispatch(hook, checkpoint.before_transmit(), cfg);
                            let (checkpoint, event) = after_attempt_pass(checkpoint, pass);
                            held = Held::Attempt(checkpoint);
                            step = step.next(event);
                        },
                    }
                },
                Step::Checkpoint => {
                    match held {
                        Held::Call(context) => {
                            held = Held::Attempt(AttemptCheckpoint::new(context));
                            attempts = 1;
                            step = step.next(Event::Completed);
                            proof {
                                reveal_with_fuel(rest_after_passes, 5);
                                if stage == 0 {
                                    stage = 1;
                                    base = held.spec_context()@;
                                }
                            }
                        },
                        Held::Attempt(_) => {
                            return unreached();
                        },
                    }
                },
                Step::Rewind => {
                    match held {
                        Held::Attempt(checkpoint) => {
                            held = Held::Attempt(checkpoint.rewind());
                            attempts = if attempts < u32::MAX {
                                attempts + 1
                            } else {
                                attempts
                            };
                            step = step.next(Event::Completed);
                            proof {
                                reveal_with_fuel(rest_after_passes, 5);
                                if stage == 0 {
                                    stage = 1;
                                    base = held.spec_context()@;
                                }
                            }
                        },
                        Held::Call(_) => {
                            return unreached();
                        },
                    }
                },
                Step::Sign => {
                    if selected.is_some() {
                        break ;
                    }
                    proof {
                        reveal_with_fuel(rest_after_passes, 5);
                        if stage == 0 {
                            base = held.spec_context()@;
                        }
                    }
                    match held {
                        Held::Attempt(checkpoint) => {
                            match Self::select(cfg) {
                                Ok(id) => {
                                    held = Held::Attempt(checkpoint);
                                    selected = Some(id);
                                },
                                Err(error) => {
                                    let (checkpoint, event) = after_auth(
                                        Err(AuthFailure { error, checkpoint }),
                                    );
                                    held = Held::Attempt(checkpoint);
                                    step = step.next(event);
                                },
                            }
                            proof {
                                if stage != 3 {
                                    stage = 2;
                                }
                            }
                        },
                        Held::Call(_) => {
                            return unreached();
                        },
                    }
                },
                Step::Serialize | Step::Transmit | Step::Deserialize | Step::DecideRetry
                | Step::Finish => {
                    break ;
                },
            }
        }
        let r = Execution { step, held, attempts, selected };
        proof {
            if calm && self.spec_work() == Work::Proceed && enters_at(start) {
                assert(entered(start, self, base, r.spec_held(), r.spec_attempts()));
                assert(selection(
                    base,
                    r.spec_step(),
                    r.spec_context()@,
                    r.spec_selected(),
                    *old(cfg),
                ));
            }
        }
        r
    }

    /// Selects the auth scheme of the attempt: the first of the resolved
    /// auth options that can be used. A configuration that lacks what
    /// authentication reads, and options that cannot be resolved, are
    /// construction failures. With a fixed list of options the
    /// configuration alone decides what is selected; in any case what is
    /// selected can be used.
    fn select(cfg: &ConfigBag) -> (r: Result<AuthSchemeId, AuthError>)
        ensures
            if !cfg.ready_for_auth() {
                &&& r matches Err(AuthError::ConstructionFailure(source))
                &&& source@ == "the configuration lacks what authentication reads"@
            } else {
                &&& static_options(cfg) matches Some(names) ==> match selected(
                    names,
                    &cfg@.http_auth_schemes->0,
                    &cfg@.identity_resolvers->0,
                ) {
                    None => r == Err::<AuthSchemeId, AuthError>(AuthError::NoAuthSchemeMatched),
                    Some(i) => r matches Ok(id) && id@ == names[i],
                }
                &&& r matches Ok(id) ==> usable(
                    id@,
                    &cfg@.http_auth_schemes->0,
                    &cfg@.identity_resolvers->0,
                )
            },
            r matches Err(error) ==> !(error is Signing),
    {
        if !cfg.is_ready_for_auth() {
            return Err(
                AuthError::ConstructionFailure(
                    BoxError::new("the configuration lacks what authentication reads"),
                ),
            );
        }
        let params = cfg.auth_option_resolver_params();
        match cfg.auth_option_resolver().resolve_auth_options(params) {
            Err(source) => Err(AuthError::ConstructionFailure(source)),
            Ok(options) => match select_auth_scheme(
                &options,
                cfg.http_auth_schemes(),
                cfg.identity_resolvers(),
            ) {
                Some(i) => {
                    proof {
                        lemma_selected(
                            scheme_names(options@),
                            &cfg@.http_auth_schemes->0,
                            &cfg@.identity_resolvers->0,
                        );
                    }
                    assert(scheme_names(options@)[i as int] == options[i as int]@);
                    Ok(options[i].duplicate())
                },
                None => Err(AuthError::NoAuthSchemeMatched),
            },
        }
    }

    /// Hands in what serializing the input came to: the request, with which
    /// the call moves on, or an error, which fails it.
    pub fn serialized(self, outcome: Result<Request, BoxError>) -> (r: Self)
        requires
            self.wf(),
            self.spec_step() == Step::Serialize,
        ensures
            r.wf(),
            r.spec_held() is Call,
            match outcome {
                Ok(request) => {
                    &&& r.spec_step() == advance(Step::Serialize, Event::Completed)
                    &&& r.spec_context()@ == (ContextView {
                        phase: Phase::BeforeTransmit,
                        input: None,
                        request: Some(request),
                        response: None,
                        output_or_error: None,
                    })
                },
                Err(source) => {
                    &&& r.spec_step() == advance(Step::Serialize, Event::Failed)
                    &&& r.spec_context()@ == (ContextView {
                        phase: Phase::AfterDeserialization,
                        output_or_error: Some(Err(Error::Collaborator(source))),
                        ..self.spec_context()@
                    })
                },
            },
    {
        let Execution { step, held, attempts, selected } = self;
        match held {
            Held::Call(context) => match outcome {
                Ok(request) => Execution {
                    step: step.next(Event::Completed),
                    held: Held::Call(context.into_before_transmit(request)),
                    attempts,
                    selected,
                },
                Err(source) => Execution {
                    step: step.next(Event::Failed),
                    held: Held::Call(context.fail(Error::Collaborator(source))),
                    attempts,
                    selected,
                },
            },
            Held::Attempt(_) => unreached(),
        }
    }

    /// Hands in what resolving the identity of the selected scheme came to.
    ///
    /// Without an identity the attempt fails with the resolver's error as a
    /// construction failure. With one, the attempt fails with a construction
    /// failure of the library's own where the configuration lacks what
    /// authentication reads, or where no scheme is registered under the
    /// selected name any more; the signer is not called then. Otherwise the
    /// scheme's signer signs the request: the call moves on with nothing
    /// changed but the request, or fails with the signer's error. The
    /// checkpointed request stays as it is.
    pub fn identity_resolved(self, cfg: &ConfigBag, identity: Result<Identity, BoxError>) -> (r:
        Self)
        requires
            self.wf(),
            self.spec_work() == Work::ResolveIdentity,
        ensures
            r.wf(),
            r.spec_selected() is None,
            r.spec_held() is Attempt,
            r.spec_attempts() == self.spec_attempts(),
            r.spec_held()->Attempt_0.pristine() == self.spec_held()->Attempt_0.pristine(),
            match identity {
                Err(source) => {
                    &&& r.spec_step() == advance(Step::Sign, Event::Failed)
                    &&& failed_with(
                        self.spec_context()@,
                        r.spec_context()@,
                        Error::Auth(AuthError::ConstructionFailure(source)),
                    )
                },
                Ok(_) => if !cfg.ready_for_auth() {
                    &&& r.spec_step() == advance(Step::Sign, Event::Failed)
                    &&& construction_failed(
                        self.spec_context()@,
                        r.spec_context()@,
                        lacks_auth_message(),
                    )
                } else if first_index_of(cfg@.http_auth_schemes->0@, self.spec_selected()->0)
                    is None {
                    &&& r.spec_step() == advance(Step::Sign, Event::Failed)
                    &&& construction_failed(
                        self.spec_context()@,
                        r.spec_context()@,
                        scheme_gone_message(),
                    )
                } else {
                    ||| {
                        &&& r.spec_step() == advance(Step::Sign, Event::Completed)
                        &&& signed_from(self.spec_context()@, r.spec_context()@)
                    }
                    ||| {
                        &&& r.spec_step() == advance(Step::Sign, Event::Failed)
                        &&& signing_failed_from(self.spec_context()@, r.spec_context()@)
                    }
                },
            },
    {
        let Execution { step, held, attempts, selected } = self;
        match held {
            Held::Attempt(checkpoint) => {
                let outcome = match (selected, identity) {
                    (None, _) => unreached(),
                    (Some(_), Err(source)) => Err(
                        AuthFailure { error: AuthError::ConstructionFailure(source), checkpoint },
                    ),
                    (Some(id), Ok(identity)) => {
                        if !cfg.is_ready_for_auth() {
                            Err(
                                AuthFailure {
                                    error: AuthError::ConstructionFailure(
                                        BoxError::new(
                                            "the configuration lacks what authentication reads",
                                        ),
                                    ),
                                    checkpoint,
                                },
                            )
                        } else {
                            match cfg.http_auth_schemes().scheme(&id) {
                                Some(scheme) => sign_with_identity(
                                    checkpoint,
                                    scheme,
                                    Ok(identity),
                                    cfg.properties(),
                                ),
                                None => Err(
                                    AuthFailure {
                                        error: AuthError::ConstructionFailure(
                                            BoxError::new("the selected auth scheme is gone"),
                                        ),
                                        checkpoint,
                                    },
                                ),
                            }
                        }
                    },
                };
                let (checkpoint, event) = after_auth(outcome);
                Execution {
                    step: step.next(event),
                    held: Held::Attempt(checkpoint),
                    attempts,
                    selected: None,
                }
            },
            Held::Call(_) => unreached(),
        }
    }

    /// Resolves the identity of the selected scheme with the resolver that
    /// the configuration holds for it, and hands in what came of it.
    ///
    /// The attempt fails with a construction failure of the library's own,
    /// and neither resolver nor signer is called, where the configuration
    /// lacks what authentication reads, where no scheme is registered under
    /// the selected name any more, or where no identity resolver is
    /// registered for that scheme. Otherwise the resolver is asked: the call
    /// moves on with nothing changed but the request, or fails with the
    /// resolver's or the signer's error. The checkpointed request stays as
    /// it is.
    pub fn resolve_identity(self, cfg: &ConfigBag) -> (r: Self)
        requires
            self.wf(),
            self.spec_work() == Work::ResolveIdentity,
        ensures
            r.wf(),
            r.spec_selected() is None,
            r.spec_held() is Attempt,
            r.spec_attempts() == self.spec_attempts(),
            r.spec_held()->Attempt_0.pristine() == self.spec_held()->Attempt_0.pristine(),
            if !cfg.ready_for_auth() {
                &&& r.spec_step() == advance(Step::Sign, Event::Failed)
                &&& construction_failed(
                    self.spec_context()@,
                    r.spec_context()@,
                    lacks_auth_message(),
                )
            } else {
                match first_index_of(cfg@.http_auth_schemes->0@, self.spec_selected()->0) {
                    None => {
                        &&& r.spec_step() == advance(Step::Sign, Event::Failed)
                        &&& construction_failed(
                            self.spec_context()@,
                            r.spec_context()@,
                            scheme_gone_message(),
                        )
                    },
                    Some(k) => if first_index_of(
                        cfg@.identity_resolvers->0@,
                        cfg@.http_auth_schemes->0.spec_scheme(k).spec_scheme_id(),
                    ) is None {
                        &&& r.spec_step() == advance(Step::Sign, Event::Failed)
                        &&& construction_failed(
                            self.spec_context()@,
                            r.spec_context()@,
                            no_resolver_message(),
                        )
                    } else {
                        ||| {
                            &&& r.spec_step() == advance(Step::Sign, Event::Completed)
                            &&& signed_from(self.spec_context()@, r.spec_context()@)
                        }
                        ||| {
                            &&& r.spec_step() == advance(Step::Sign, Event::Failed)
                            &&& signing_failed_from(self.spec_context()@, r.spec_context()@)
                        }
                        ||| {
                            &&& r.spec_step() == advance(Step::Sign, Event::Failed)
                            &&& resolution_failed(self.spec_context()@, r.spec_context()@)
                        }
                    },
                }
            },
    {
        let identity = match &self.selected {
            Some(id) => if cfg.is_ready_for_auth() {
                match cfg.http_auth_schemes().scheme(id) {
                    Some(scheme) => match scheme.identity_resolver(cfg.identity_resolvers()) {
                        Some(resolver) => resolver.resolve_identity(cfg.properties()),
                        None => Err(BoxError::new("the selected auth scheme has no identity resolver")),
                    },
                    None => Err(BoxError::new("the selected auth scheme is gone")),
                }
            } else {
                Err(BoxError::new("the configuration lacks what authentication reads"))
            },
            None => unreached(),
        };
        self.identity_resolved(cfg, identity)
    }

    /// Hands in what sending the request came to: the response, with which
    /// the attempt moves on, or an error, which fails it.
    pub fn transmitted(self, outcome: Result<Response, BoxError>) -> (r: Self)
        requires
            self.wf(),
            self.spec_step() == Step::Transmit,
        ensures
            r.wf(),
            r.spec_held() is Attempt,
            r.spec_held()->Attempt_0.pristine() == self.spec_held()->Attempt_0.pristine(),
            match outcome {
                Ok(response) => {
                    &&& r.spec_step() == advance(Step::Transmit, Event::Completed)
                    &&& r.spec_context()@ == (ContextView {
                        phase: Phase::BeforeDeserialization,
                        response: Some(response),
                        ..self.spec_context()@
                    })
                },
                Err(source) => {
                    &&& r.spec_step() == advance(Step::Transmit, Event::Failed)
                    &&& r.spec_context()@ == (ContextView {
                        phase: Phase::AfterDeserialization,
                        output_or_error: Some(Err(Error::Collaborator(source))),
                        ..self.spec_context()@
                    })
                },
            },
    {
        let Execution { step, held, attempts, selected } = self;
        match held {
            Held::Attempt(checkpoint) => match outcome {
                Ok(response) => Execution {
                    step: step.next(Event::Completed),
                    held: Held::Attempt(checkpoint.into_before_deserialization(response)),
                    attempts,
                    selected,
                },
                Err(source) => Execution {
                    step: step.next(Event::Failed),
                    held: Held::Attempt(checkpoint.fail(Error::Collaborator(source))),
                    attempts,
                    selected,
                },
            },
            Held::Call(_) => unreached(),
        }
    }

    /// Hands in what deserializing the response came to: the output, or the
    /// error that the service answered with. Either way the attempt moves on
    /// to its completion.
    pub fn deserialized(self, output_or_error: Result<Output, Error>) -> (r: Self)
        requires
            self.wf(),
            self.spec_step() == Step::Deserialize,
        ensures
            r.wf(),
            r.spec_held() is Attempt,
            r.spec_held()->Attempt_0.pristine() == self.spec_held()->Attempt_0.pristine(),
            r.spec_step() == advance(Step::Deserialize, Event::Completed),
            r.spec_context()@ == (ContextView {
                phase: Phase::AfterDeserialization,
                output_or_error: Some(output_or_error),
                ..self.spec_context()@
            }),
    {
        let Execution { step, held, attempts, selected } = self;
        match held {
            Held::Attempt(checkpoint) => Execution {
                step: step.next(Event::Completed),
                held: Held::Attempt(checkpoint.into_after_deserialization(output_or_error)),
                attempts,
                selected,
            },
            Held::Call(_) => unreached(),
        }
    }

    /// Hands in what the retry policy decided. For another attempt the call
    /// goes on to rewind its checkpoint; otherwise it leaves the retry loop
    /// with the context of the last attempt.
    pub fn retry_decided(self, retry: bool) -> (r: Self)
        requires
            self.wf(),
            self.spec_step() == Step::DecideRetry,
        ensures
            r.wf(),
            r.spec_context() == self.spec_context(),
            r.spec_attempts() == self.spec_attempts(),
            if retry {
                &&& r.spec_step() == Step::Rewind
                &&& r.spec_held() == self.spec_held()
            } else {
                &&& r.spec_step() == Step::Dispatch(Hook::ModifyBeforeCompletion)
                &&& r.spec_held() is Call
            },
    {
        let Execution { step, held, attempts, selected } = self;
        if retry {
            Execution { step: step.next(Event::Retry), held, attempts, selected }
        } else {
            match held {
                Held::Attempt(checkpoint) => Execution {
                    step: step.next(Event::Completed),
                    held: Held::Call(checkpoint.into_context()),
                    attempts,
                    selected,
                },
                Held::Call(_) => unreached(),
            }
        }
    }

    /// Ends the call: hands out the output, or the error in its place.
    pub fn finish(self) -> (r: Result<Output, Error>)
        requires
            self.wf(),
            self.spec_step() == Step::Finish,
        ensures
            r == self.spec_context()@.output_or_error->0,
    {
        match self.held {
            Held::Call(context) => context.finalize(),
            Held::Attempt(checkpoint) => checkpoint.into_context().finalize(),
        }
    }
}

} // verus!
