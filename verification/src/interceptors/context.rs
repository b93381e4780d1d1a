//! The execution context: the record of one call as it moves through the
//! phases, and the checkpoint that keeps one attempt's changes away from the
//! next.

use super::error::{BoxError, InterceptorError};
use crate::http::{header_value, Request, RequestView, Response};
use crate::orchestrator::auth::AuthError;
use crate::type_erasure::TypeErasedBox;
use vstd::prelude::*;

verus! {

/// The operation's input, of a type that only its codec knows.
pub type Input = TypeErasedBox;

/// The operation's output, of a type that only its codec knows.
pub type Output = TypeErasedBox;

/// What stands in the place of the output when a call fails.
#[derive(Debug)]
pub enum Error {
    /// The service answered with an error of the operation.
    Operation(TypeErasedBox),
    /// A hook failed, or broke the rule that binds what it may replace.
    Interceptor(InterceptorError),
    /// The attempt could not be authenticated.
    Auth(AuthError),
    /// A collaborator failed: the codec, the transport.
    Collaborator(BoxError),
}

/// The stages that a context passes through in one attempt, in order.
#[derive(Clone, Copy, Debug, PartialEq, Eq, Structural, Hash)]
pub enum Phase {
    /// The input is there; nothing has been serialized.
    BeforeSerialization,
    /// The request is there; nothing has been sent.
    BeforeTransmit,
    /// The response is there; nothing has been deserialized.
    BeforeDeserialization,
    /// The output, or the error in its place, is there.
    AfterDeserialization,
}

impl Phase {
    /// The place of the phase in the order of phases.
    pub open spec fn spec_rank(self) -> nat {
        match self {
            Phase::BeforeSerialization => 0,
            Phase::BeforeTransmit => 1,
            Phase::BeforeDeserialization => 2,
            Phase::AfterDeserialization => 3,
        }
    }

    /// The place of the phase in the order of phases.
    pub fn rank(self) -> (r: u8)
        ensures
            r == self.spec_rank(),
    {
        match self {
            Phase::BeforeSerialization => 0,
            Phase::BeforeTransmit => 1,
            Phase::BeforeDeserialization => 2,
            Phase::AfterDeserialization => 3,
        }
    }
}

/// The model of an `InterceptorContext`: its phase and the messages it holds.
pub struct ContextView {
    pub phase: Phase,
    pub input: Option<Input>,
    pub request: Option<Request>,
    pub response: Option<Response>,
    pub output_or_error: Option<Result<Output, Error>>,
}

impl ContextView {
    /// Which messages a context holds follows from its phase. Up to the
    /// response, each phase holds exactly what the pipeline has made so far.
    /// The last phase holds the output or the error in its place; it is also
    /// where a failure takes a context from any earlier phase, so it holds of
    /// the other messages what had been made by then: the input until a
    /// request replaced it, a response only beside a request.
    pub open spec fn wf(self) -> bool {
        match self.phase {
            Phase::BeforeSerialization => {
                &&& self.input is Some
                &&& self.request is None
                &&& self.response is None
                &&& self.output_or_error is None
            },
            Phase::BeforeTransmit => {
                &&& self.input is None
                &&& self.request is Some
                &&& self.response is None
                &&& self.output_or_error is None
            },
            Phase::BeforeDeserialization => {
                &&& self.input is None
                &&& self.request is Some
                &&& self.response is Some
                &&& self.output_or_error is None
            },
            Phase::AfterDeserialization => {
                &&& self.output_or_error is Some
                &&& (self.input is Some <==> self.request is None)
                &&& (self.response is Some ==> self.request is Some)
            },
        }
    }
}

/// The record of one call: the phase it is in, and the input, request,
/// response and output that exist in that phase.
#[derive(Debug)]
pub struct InterceptorContext {
    phase: Phase,
    input: Option<Input>,
    request: Option<Request>,
    response: Option<Response>,
    output_or_error: Option<Result<Output, Error>>,
}

impl View for InterceptorContext {
    type V = ContextView;

    closed spec fn view(&self) -> ContextView {
        ContextView {
            phase: self.phase,
            input: self.input,
            request: self.request,
            response: self.response,
            output_or_error: self.output_or_error,
        }
    }
}

impl InterceptorContext {
    /// The context holds what its phase says it holds.
    pub open spec fn wf(&self) -> bool {
        self@.wf()
    }

    /// Two contexts with the same model are the same context.
    pub proof fn lemma_view_injective(a: InterceptorContext, b: InterceptorContext)
        requires
            a@ == b@,
        ensures
            a == b,
    {
    }

    /// Starts a call: a context in `BeforeSerialization` that holds `input`.
    pub fn new(input: Input) -> (r: Self)
        ensures
            r.wf(),
            r@ == (ContextView {
                phase: Phase::BeforeSerialization,
                input: Some(input),
                request: None,
                response: None,
                output_or_error: None,
            }),
    {
        InterceptorContext {
            phase: Phase::BeforeSerialization,
            input: Some(input),
            request: None,
            response: None,
            output_or_error: None,
        }
    }

    /// The phase that the context is in.
    pub fn phase(&self) -> (r: Phase)
        ensures
            r == self@.phase,
    {
        self.phase
    }

    /// Whether the context holds what its phase says it holds.
    pub fn is_well_formed(&self) -> (r: bool)
        ensures
            r == self.wf(),
    {
        match self.phase {
            Phase::BeforeSerialization => self.input.is_some() && self.request.is_none()
                && self.response.is_none() && self.output_or_error.is_none(),
            Phase::BeforeTransmit => self.input.is_none() && self.request.is_some()
                && self.response.is_none() && self.output_or_error.is_none(),
            Phase::BeforeDeserialization => self.input.is_none() && self.request.is_some()
                && self.response.is_some() && self.output_or_error.is_none(),
            Phase::AfterDeserialization => self.output_or_error.is_some() && (self.input.is_some()
                == self.request.is_none()) && (self.response.is_none() || self.request.is_some()),
        }
    }

    /// Whether the context holds an input.
    pub fn has_input(&self) -> (r: bool)
        ensures
            r == (self@.input is Some),
    {
        self.input.is_some()
    }

    /// The input. It is there in `BeforeSerialization`, and later only where
    /// the call failed before a request was made.
    pub fn input(&self) -> (r: &Input)
        requires
            self@.input is Some,
        ensures
            *r == self@.input->0,
    {
        self.input.as_ref().unwrap()
    }

    /// The input, to be replaced by a value of the same logical type.
    pub fn input_mut(&mut self) -> (r: &mut Input)
        requires
            old(self)@.input is Some,
        ensures
            *r == old(self)@.input->0,
            final(self)@ == (ContextView { input: Some(*final(r)), ..old(self)@ }),
    {
        self.input.as_mut().unwrap()
    }

    /// The request. It is there from `BeforeTransmit` on.
    pub fn request(&self) -> (r: &Request)
        requires
            self@.request is Some,
        ensures
            *r == self@.request->0,
    {
        self.request.as_ref().unwrap()
    }

    /// The request, to be changed in place.
    pub fn request_mut(&mut self) -> (r: &mut Request)
        requires
            old(self)@.request is Some,
        ensures
            *r == old(self)@.request->0,
            final(self)@ == (ContextView { request: Some(*final(r)), ..old(self)@ }),
    {
        self.request.as_mut().unwrap()
    }

    /// The response. It is there from `BeforeDeserialization` on.
    pub fn response(&self) -> (r: &Response)
        requires
            self@.response is Some,
        ensures
            *r == self@.response->0,
    {
        self.response.as_ref().unwrap()
    }

    /// The response, to be changed in place.
    pub fn response_mut(&mut self) -> (r: &mut Response)
        requires
            old(self)@.response is Some,
        ensures
            *r == old(self)@.response->0,
            final(self)@ == (ContextView { response: Some(*final(r)), ..old(self)@ }),
    {
        self.response.as_mut().unwrap()
    }

    /// The output, or the error in its place. It is there in
    /// `AfterDeserialization`.
    pub fn output_or_error(&self) -> (r: &Result<Output, Error>)
        requires
            self@.output_or_error is Some,
        ensures
            *r == self@.output_or_error->0,
    {
        self.output_or_error.as_ref().unwrap()
    }

    /// The output or error, to be replaced.
    pub fn output_or_error_mut(&mut self) -> (r: &mut Result<Output, Error>)
        requires
            old(self)@.output_or_error is Some,
        ensures
            *r == old(self)@.output_or_error->0,
            final(self)@ == (ContextView { output_or_error: Some(*final(r)), ..old(self)@ }),
    {
        self.output_or_error.as_mut().unwrap()
    }

    /// Serialization is done: the request takes the place of the input, and
    /// the context moves on to `BeforeTransmit`.
    pub fn into_before_transmit(self, request: Request) -> (r: Self)
        requires
            self.wf(),
            self@.phase == Phase::BeforeSerialization,
        ensures
            r.wf(),
            r@ == (ContextView {
                phase: Phase::BeforeTransmit,
                input: None,
                request: Some(request),
                response: None,
                output_or_error: None,
            }),
    {
        InterceptorContext {
            phase: Phase::BeforeTransmit,
            input: None,
            request: Some(request),
            response: None,
            output_or_error: None,
        }
    }

    /// The transport has answered: the context takes the response and moves
    /// on to `BeforeDeserialization`.
    pub fn into_before_deserialization(self, response: Response) -> (r: Self)
        requires
            self.wf(),
            self@.phase == Phase::BeforeTransmit,
        ensures
            r.wf(),
            r@ == (ContextView {
                phase: Phase::BeforeDeserialization,
                response: Some(response),
                ..self@
            }),
    {
        let mut next = self;
        next.phase = Phase::BeforeDeserialization;
        next.response = Some(response);
        next
    }

    /// Deserialization is done: the context takes the output, or the error
    /// that the service answered with, and moves on to `AfterDeserialization`.
    pub fn into_after_deserialization(self, output_or_error: Result<Output, Error>) -> (r: Self)
        requires
            self.wf(),
            self@.phase == Phase::BeforeDeserialization,
        ensures
            r.wf(),
            r@ == (ContextView {
                phase: Phase::AfterDeserialization,
                output_or_error: Some(output_or_error),
                ..self@
            }),
    {
        let mut next = self;
        next.phase = Phase::AfterDeserialization;
        next.output_or_error = Some(output_or_error);
        next
    }

    /// The call has failed: `error` takes the place of the output, whatever
    /// stood there, and the context moves to `AfterDeserialization` from
    /// whichever phase it was in, keeping the messages made so far.
    pub fn fail(self, error: Error) -> (r: Self)
        ensures
            self.wf() ==> r.wf(),
            r@ == (ContextView {
                phase: Phase::AfterDeserialization,
                output_or_error: Some(Err(error)),
                ..self@
            }),
    {
        let mut next = self;
        next.phase = Phase::AfterDeserialization;
        next.output_or_error = Some(Err(error));
        next
    }

    /// Ends the call: hands out the output, or the error in its place.
    pub fn finalize(self) -> (r: Result<Output, Error>)
        requires
            self@.output_or_error is Some,
        ensures
            r == self@.output_or_error->0,
    {
        self.output_or_error.unwrap()
    }
}

/// The restart boundary of the retry loop. It holds the context of the
/// attempt under way and, beside it, a copy of the request as it stood when
/// the retry loop was entered. Nothing that an attempt does reaches the copy,
/// and each new attempt starts from it.
#[derive(Debug)]
pub struct AttemptCheckpoint {
    checkpointed_request: Request,
    context: InterceptorContext,
}

impl AttemptCheckpoint {
    /// The context of the attempt under way.
    pub closed spec fn spec_context(&self) -> InterceptorContext {
        self.context
    }

    /// The request as it stood when the checkpoint was taken.
    pub closed spec fn pristine(&self) -> RequestView {
        self.checkpointed_request@
    }

    /// The context of the attempt is well formed and past serialization, so
    /// that it holds a request.
    pub open spec fn wf(&self) -> bool {
        &&& self.spec_context().wf()
        &&& self.spec_context()@.request is Some
    }

    /// Whether `self` is what `rewind` makes of `failed`: a context in
    /// `BeforeTransmit` that holds a request equal to the one checkpointed
    /// and nothing else, beside the same checkpointed request.
    pub open spec fn is_rewind_of(&self, failed: &AttemptCheckpoint) -> bool {
        &&& self.pristine() == failed.pristine()
        &&& self.spec_context()@.phase == Phase::BeforeTransmit
        &&& self.spec_context()@.input is None
        &&& self.spec_context()@.request is Some
        &&& self.spec_context()@.request->0@ == failed.pristine()
        &&& self.spec_context()@.response is None
        &&& self.spec_context()@.output_or_error is None
    }

    /// Attempt isolation: whatever an attempt did to its request, the next
    /// attempt starts from the request as it stood when the checkpoint was
    /// taken. Where `failed` descends from `taken` by the operations of an
    /// attempt, all of which keep the checkpointed request, and `next` is
    /// `failed` rewound, every header of the request of `next` has the value
    /// it had in `taken`, and so has the body.
    pub proof fn lemma_attempt_isolation(
        taken: AttemptCheckpoint,
        failed: AttemptCheckpoint,
        next: AttemptCheckpoint,
        name: Seq<char>,
    )
        requires
            failed.pristine() == taken.pristine(),
            next.is_rewind_of(&failed),
        ensures
            next.wf(),
            next.spec_context()@.request->0@ == taken.pristine(),
            header_value(next.spec_context()@.request->0@.headers, name) == header_value(
                taken.pristine().headers,
                name,
            ),
            next.spec_context()@.request->0@.body == taken.pristine().body,
    {
    }

    /// Takes the checkpoint on entry to the retry loop: keeps a copy of the
    /// request beside the context.
    pub fn new(before_transmit: InterceptorContext) -> (r: Self)
        requires
            before_transmit.wf(),
            before_transmit@.phase == Phase::BeforeTransmit,
        ensures
            r.wf(),
            r.spec_context() == before_transmit,
            r.pristine() == before_transmit@.request->0@,
    {
        let checkpointed_request = before_transmit.request().duplicate();
        AttemptCheckpoint { checkpointed_request, context: before_transmit }
    }

    /// The context of the attempt under way.
    pub fn context(&self) -> (r: &InterceptorContext)
        ensures
            *r == self.spec_context(),
    {
        &self.context
    }

    /// The context of the attempt under way, for hooks and the signer to
    /// change. The checkpointed request is out of their reach.
    pub fn before_transmit(&mut self) -> (r: &mut InterceptorContext)
        ensures
            *r == old(self).spec_context(),
            final(self).spec_context() == *final(r),
            final(self).pristine() == old(self).pristine(),
    {
        &mut self.context
    }

    /// The transport has answered: the context of the attempt takes the
    /// response and moves on to `BeforeDeserialization`.
    pub fn into_before_deserialization(self, response: Response) -> (r: Self)
        requires
            self.spec_context().wf(),
            self.spec_context()@.phase == Phase::BeforeTransmit,
        ensures
            r.wf(),
            r.pristine() == self.pristine(),
            r.spec_context()@ == (ContextView {
                phase: Phase::BeforeDeserialization,
                response: Some(response),
                ..self.spec_context()@
            }),
    {
        AttemptCheckpoint {
            checkpointed_request: self.checkpointed_request,
            context: self.context.into_before_deserialization(response),
        }
    }

    /// Deserialization is done: the context of the attempt takes the output,
    /// or the error that the service answered with.
    pub fn into_after_deserialization(self, output_or_error: Result<Output, Error>) -> (r: Self)
        requires
            self.spec_context().wf(),
            self.spec_context()@.phase == Phase::BeforeDeserialization,
        ensures
            r.wf(),
            r.pristine() == self.pristine(),
            r.spec_context()@ == (ContextView {
                phase: Phase::AfterDeserialization,
                output_or_error: Some(output_or_error),
                ..self.spec_context()@
            }),
    {
        AttemptCheckpoint {
            checkpointed_request: self.checkpointed_request,
            context: self.context.into_after_deserialization(output_or_error),
        }
    }

    /// The attempt has failed: `error` takes the place of its output.
    pub fn fail(self, error: Error) -> (r: Self)
        ensures
            self.wf() ==> r.wf(),
            r.pristine() == self.pristine(),
            r.spec_context()@ == (ContextView {
                phase: Phase::AfterDeserialization,
                output_or_error: Some(Err(error)),
                ..self.spec_context()@
            }),
    {
        AttemptCheckpoint {
            checkpointed_request: self.checkpointed_request,
            context: self.context.fail(error),
        }
    }

    /// Starts a new attempt: the context goes back to `BeforeTransmit` with
    /// a copy of the checkpointed request. What the attempt before did to its
    /// request, and what it received, is gone.
    pub fn rewind(self) -> (r: Self)
        ensures
            r.wf(),
            r.is_rewind_of(&self),
    {
        let request = self.checkpointed_request.duplicate();
        AttemptCheckpoint {
            checkpointed_request: self.checkpointed_request,
            context: InterceptorContext {
                phase: Phase::BeforeTransmit,
                input: None,
                request: Some(request),
                response: None,
                output_or_error: None,
            },
        }
    }

    /// Leaves the retry loop: hands out the context of the last attempt.
    pub fn into_context(self) -> (r: InterceptorContext)
        ensures
            r == self.spec_context(),
    {
        self.context
    }
}

} // verus!
