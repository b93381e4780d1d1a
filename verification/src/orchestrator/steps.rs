//! The order of the steps of a call: which dispatch pass or which
//! collaborator's work comes next, given how the step before ended.
//!
//! The orchestrator performs a step, reports how it ended, and is told the
//! next step. The work of the collaborators (codec, signer, transport, retry
//! policy) is done by whoever drives the call; what is decided here is only
//! the order.

use super::auth::{AuthError, AuthFailure};
use crate::interceptors::context::{
    AttemptCheckpoint, ContextView, Error, InterceptorContext, Phase,
};
use crate::interceptors::error::InterceptorError;
use crate::interceptors::hook::{Hook, Scope};
use vstd::prelude::*;

verus! {

/// One step of a call.
#[derive(Clone, Copy, Debug, PartialEq, Eq, Structural)]
pub enum Step {
    /// Run the dispatch pass of a hook.
    Dispatch(Hook),
    /// Have the codec serialize the input into the request.
    Serialize,
    /// Take the attempt checkpoint: the retry loop is entered.
    Checkpoint,
    /// Authenticate the attempt: select a scheme, resolve its identity, sign.
    Sign,
    /// Have the transport send the request.
    Transmit,
    /// Have the codec deserialize the response.
    Deserialize,
    /// Ask the retry policy whether to try again.
    DecideRetry,
    /// Rewind the checkpoint for a new attempt.
    Rewind,
    /// Hand the output, or the error in its place, to the caller.
    Finish,
}

/// How a step ended.
#[derive(Clone, Copy, Debug, PartialEq, Eq, Structural)]
pub enum Event {
    /// The step did its work. For the retry decision: no further attempt.
    Completed,
    /// The step failed: a hook or a collaborator returned an error, which
    /// now stands in the place of the output.
    Failed,
    /// The step failed beyond mending: a modify hook broke its type
    /// constraint, or no auth scheme can be used. The call ends at once.
    Fatal,
    /// The retry policy asks for another attempt. Only the retry decision
    /// ends so; after any other step this counts as `Completed`.
    Retry,
}

/// The step that follows the dispatch pass of `hook` when it returns `Ok`.
pub open spec fn after_hook(hook: Hook) -> Step {
    match hook {
        Hook::ReadBeforeExecution => Step::Dispatch(Hook::ModifyBeforeSerialization),
        Hook::ModifyBeforeSerialization => Step::Dispatch(Hook::ReadBeforeSerialization),
        Hook::ReadBeforeSerialization => Step::Serialize,
        Hook::ReadAfterSerialization => Step::Dispatch(Hook::ModifyBeforeRetryLoop),
        Hook::ModifyBeforeRetryLoop => Step::Checkpoint,
        Hook::ReadBeforeAttempt => Step::Dispatch(Hook::ModifyBeforeSigning),
        Hook::ModifyBeforeSigning => Step::Dispatch(Hook::ReadBeforeSigning),
        Hook::ReadBeforeSigning => Step::Sign,
        Hook::ReadAfterSigning => Step::Dispatch(Hook::ModifyBeforeTransmit),
        Hook::ModifyBeforeTransmit => Step::Dispatch(Hook::ReadBeforeTransmit),
        Hook::ReadBeforeTransmit => Step::Transmit,
        Hook::ReadAfterTransmit => Step::Dispatch(Hook::ModifyBeforeDeserialization),
        Hook::ModifyBeforeDeserialization => Step::Dispatch(Hook::ReadBeforeDeserialization),
        Hook::ReadBeforeDeserialization => Step::Deserialize,
        Hook::ReadAfterDeserialization => Step::Dispatch(Hook::ModifyBeforeAttemptCompletion),
        Hook::ModifyBeforeAttemptCompletion => Step::Dispatch(Hook::ReadAfterAttempt),
        Hook::ReadAfterAttempt => Step::DecideRetry,
        Hook::ModifyBeforeCompletion => Step::Dispatch(Hook::ReadAfterExecution),
        Hook::ReadAfterExecution => Step::Finish,
    }
}

/// The step that follows the work of a collaborator when it succeeds.
pub open spec fn after_work(step: Step) -> Step {
    match step {
        Step::Dispatch(hook) => after_hook(hook),
        Step::Serialize => Step::Dispatch(Hook::ReadAfterSerialization),
        Step::Checkpoint => Step::Dispatch(Hook::ReadBeforeAttempt),
        Step::Sign => Step::Dispatch(Hook::ReadAfterSigning),
        Step::Transmit => Step::Dispatch(Hook::ReadAfterTransmit),
        Step::Deserialize => Step::Dispatch(Hook::ReadAfterDeserialization),
        Step::DecideRetry => Step::Dispatch(Hook::ModifyBeforeCompletion),
        Step::Rewind => Step::Dispatch(Hook::ReadBeforeAttempt),
        Step::Finish => Step::Finish,
    }
}

/// Where a failure takes the call. A failure in the completion hooks moves
/// on to what follows them. Any other failure jumps to the completion hook
/// of its scope: `modify_before_attempt_completion` within an attempt,
/// `modify_before_completion` outside of one.
pub open spec fn after_failure(step: Step) -> Step {
    match step {
        Step::Dispatch(Hook::ModifyBeforeAttemptCompletion) => Step::Dispatch(Hook::ReadAfterAttempt),
        Step::Dispatch(Hook::ReadAfterAttempt) => Step::DecideRetry,
        Step::Dispatch(Hook::ModifyBeforeCompletion) => Step::Dispatch(Hook::ReadAfterExecution),
        Step::Dispatch(Hook::ReadAfterExecution) => Step::Finish,
        Step::Dispatch(hook) => match hook.scope() {
            Scope::Attempt => Step::Dispatch(Hook::ModifyBeforeAttemptCompletion),
            Scope::Execution => Step::Dispatch(Hook::ModifyBeforeCompletion),
        },
        Step::Serialize | Step::Checkpoint => Step::Dispatch(Hook::ModifyBeforeCompletion),
        Step::Sign | Step::Transmit | Step::Deserialize | Step::Rewind => Step::Dispatch(
            Hook::ModifyBeforeAttemptCompletion,
        ),
        Step::DecideRetry => Step::Dispatch(Hook::ModifyBeforeCompletion),
        Step::Finish => Step::Finish,
    }
}

/// The step that follows `step` when it ended with `event`.
pub open spec fn advance(step: Step, event: Event) -> Step {
    match event {
        Event::Fatal => Step::Finish,
        Event::Failed => after_failure(step),
        Event::Retry => match step {
            Step::DecideRetry => Step::Rewind,
            _ => after_work(step),
        },
        Event::Completed => after_work(step),
    }
}

/// The first hook that is dispatched after `step` when every step
/// succeeds, if the call does not finish first.
pub open spec fn next_dispatch(step: Step) -> Option<Hook> {
    match after_work(step) {
        Step::Dispatch(hook) => Some(hook),
        Step::Finish => None,
        work => match after_work(work) {
            Step::Dispatch(hook) => Some(hook),
            _ => None,
        },
    }
}

impl Step {
    /// The step that a call begins with.
    pub fn first() -> (r: Step)
        ensures
            r == Step::Dispatch(Hook::ReadBeforeExecution),
    {
        Step::Dispatch(Hook::ReadBeforeExecution)
    }

    /// The step that follows `self` when it ended with `event`.
    pub fn next(self, event: Event) -> (r: Step)
        ensures
            r == advance(self, event),
    {
        match event {
            Event::Fatal => Step::Finish,
            Event::Failed => self.on_failure(),
            Event::Retry => match self {
                Step::DecideRetry => Step::Rewind,
                _ => self.on_success(),
            },
            Event::Completed => self.on_success(),
        }
    }

    fn on_success(self) -> (r: Step)
        ensures
            r == after_work(self),
    {
        match self {
            Step::Dispatch(hook) => match hook {
                Hook::ReadBeforeExecution => Step::Dispatch(Hook::ModifyBeforeSerialization),
                Hook::ModifyBeforeSerialization => Step::Dispatch(Hook::ReadBeforeSerialization),
                Hook::ReadBeforeSerialization => Step::Serialize,
                Hook::ReadAfterSerialization => Step::Dispatch(Hook::ModifyBeforeRetryLoop),
                Hook::ModifyBeforeRetryLoop => Step::Checkpoint,
                Hook::ReadBeforeAttempt => Step::Dispatch(Hook::ModifyBeforeSigning),
                Hook::ModifyBeforeSigning => Step::Dispatch(Hook::ReadBeforeSigning),
                Hook::ReadBeforeSigning => Step::Sign,
                Hook::ReadAfterSigning => Step::Dispatch(Hook::ModifyBeforeTransmit),
                Hook::ModifyBeforeTransmit => Step::Dispatch(Hook::ReadBeforeTransmit),
                Hook::ReadBeforeTransmit => Step::Transmit,
                Hook::ReadAfterTransmit => Step::Dispatch(Hook::ModifyBeforeDeserialization),
                Hook::ModifyBeforeDeserialization => Step::Dispatch(
                    Hook::ReadBeforeDeserialization,
                ),
                Hook::ReadBeforeDeserialization => Step::Deserialize,
                Hook::ReadAfterDeserialization => Step::Dispatch(
                    Hook::ModifyBeforeAttemptCompletion,
                ),
                Hook::ModifyBeforeAttemptCompletion => Step::Dispatch(Hook::ReadAfterAttempt),
                Hook::ReadAfterAttempt => Step::DecideRetry,
                Hook::ModifyBeforeCompletion => Step::Dispatch(Hook::ReadAfterExecution),
                Hook::ReadAfterExecution => Step::Finish,
            },
            Step::Serialize => Step::Dispatch(Hook::ReadAfterSerialization),
            Step::Checkpoint => Step::Dispatch(Hook::ReadBeforeAttempt),
            Step::Sign => Step::Dispatch(Hook::ReadAfterSigning),
            Step::Transmit => Step::Dispatch(Hook::ReadAfterTransmit),
            Step::Deserialize => Step::Dispatch(Hook::ReadAfterDeserialization),
            Step::DecideRetry => Step::Dispatch(Hook::ModifyBeforeCompletion),
            Step::Rewind => Step::Dispatch(Hook::ReadBeforeAttempt),
            Step::Finish => Step::Finish,
        }
    }

    fn on_failure(self) -> (r: Step)
        ensures
            r == after_failure(self),
    {
        match self {
            Step::Dispatch(Hook::ModifyBeforeAttemptCompletion) => Step::Dispatch(
                Hook::ReadAfterAttempt,
            ),
            Step::Dispatch(Hook::ReadAfterAttempt) => Step::DecideRetry,
            Step::Dispatch(Hook::ModifyBeforeCompletion) => Step::Dispatch(
                Hook::ReadAfterExecution,
            ),
            Step::Dispatch(Hook::ReadAfterExecution) => Step::Finish,
            Step::Dispatch(hook) => match hook.scope() {
                Scope::Attempt => Step::Dispatch(Hook::ModifyBeforeAttemptCompletion),
                Scope::Execution => Step::Dispatch(Hook::ModifyBeforeCompletion),
            },
            Step::Serialize | Step::Checkpoint => Step::Dispatch(Hook::ModifyBeforeCompletion),
            Step::Sign | Step::Transmit | Step::Deserialize | Step::Rewind => Step::Dispatch(
                Hook::ModifyBeforeAttemptCompletion,
            ),
            Step::DecideRetry => Step::Dispatch(Hook::ModifyBeforeCompletion),
            Step::Finish => Step::Finish,
        }
    }
}

/// How a dispatch pass that returned `pass` ended: a type-constraint
/// violation is fatal, any other error a failure.
pub open spec fn pass_event(pass: Result<(), InterceptorError>) -> Event {
    match pass {
        Ok(_) => Event::Completed,
        Err(InterceptorError::TypeConstraint { .. }) => Event::Fatal,
        Err(InterceptorError::Hook { .. }) => Event::Failed,
    }
}

/// What becomes of a context in which a dispatch pass returned `pass`: an
/// error of the pass takes the place of the output.
pub open spec fn context_after_pass(
    context: ContextView,
    pass: Result<(), InterceptorError>,
) -> ContextView {
    match pass {
        Ok(_) => context,
        Err(error) => ContextView {
            phase: Phase::AfterDeserialization,
            output_or_error: Some(Err(Error::Interceptor(error))),
            ..context
        },
    }
}

/// How authenticating an attempt ended: the attempt goes on where the
/// request was signed; a signer's error, and an identity or options that
/// could not be resolved, fail it; without a usable auth scheme the call
/// ends at once.
pub open spec fn auth_event(outcome: Result<AttemptCheckpoint, AuthFailure>) -> Event {
    match outcome {
        Ok(_) => Event::Completed,
        Err(failure) => match failure.error {
            AuthError::NoAuthSchemeMatched => Event::Fatal,
            AuthError::ConstructionFailure(_) | AuthError::Signing(_) => Event::Failed,
        },
    }
}

/// Settles a dispatch pass outside of the retry loop: says how it ended,
/// and puts its error, if it returned one, in the place of the output.
pub fn after_pass(context: InterceptorContext, pass: Result<(), InterceptorError>) -> (r: (
    InterceptorContext,
    Event,
))
    ensures
        r.1 == pass_event(pass),
        r.0@ == context_after_pass(context@, pass),
        pass is Ok ==> r.0 == context,
        context.wf() ==> r.0.wf(),
{
    match pass {
        Ok(_) => (context, Event::Completed),
        Err(error) => {
            let event = if error.is_type_constraint() {
                Event::Fatal
            } else {
                Event::Failed
            };
            (context.fail(Error::Interceptor(error)), event)
        },
    }
}

/// Settles a dispatch pass within an attempt: says how it ended, and puts
/// its error, if it returned one, in the place of the attempt's output. The
/// checkpointed request stays as it is.
pub fn after_attempt_pass(checkpoint: AttemptCheckpoint, pass: Result<(), InterceptorError>) -> (r:
    (AttemptCheckpoint, Event))
    ensures
        r.1 == pass_event(pass),
        r.0.spec_context()@ == context_after_pass(checkpoint.spec_context()@, pass),
        r.0.pristine() == checkpoint.pristine(),
        pass is Ok ==> r.0 == checkpoint,
        checkpoint.wf() ==> r.0.wf(),
{
    match pass {
        Ok(_) => (checkpoint, Event::Completed),
        Err(error) => {
            let event = if error.is_type_constraint() {
                Event::Fatal
            } else {
                Event::Failed
            };
            (checkpoint.fail(Error::Interceptor(error)), event)
        },
    }
}

/// Settles the authentication of an attempt: says how it ended, and puts
/// the error of a failure in the place of the attempt's output. The
/// checkpointed request stays as it is.
pub fn after_auth(outcome: Result<AttemptCheckpoint, AuthFailure>) -> (r: (
    AttemptCheckpoint,
    Event,
))
    ensures
        r.1 == auth_event(outcome),
        match outcome {
            Ok(signed) => r.0 == signed,
            Err(failure) => {
                &&& r.0.pristine() == failure.checkpoint.pristine()
                &&& r.0.spec_context()@ == (ContextView {
                    phase: Phase::AfterDeserialization,
                    output_or_error: Some(Err(Error::Auth(failure.error))),
                    ..failure.checkpoint.spec_context()@
                })
                &&& failure.checkpoint.wf() ==> r.0.wf()
            },
        },
{
    match outcome {
        Ok(signed) => (signed, Event::Completed),
        Err(failure) => {
            let event = match failure.error {
                AuthError::NoAuthSchemeMatched => Event::Fatal,
                AuthError::ConstructionFailure(_) | AuthError::Signing(_) => Event::Failed,
            };
            (failure.checkpoint.fail(Error::Auth(failure.error)), event)
        },
    }
}

/// Round trip: a call that succeeds at its first attempt dispatches every
/// hook exactly once, in the order of the phases, and each "after" hook
/// after the "before" hook that it is paired with.
///
/// The call begins with the hook at position 0. From the hook at any
/// position but the last, the steps that follow on success lead to the hook
/// at the next position, with no other hook in between; from the last they
/// lead to the end. No two hooks share a position, so the nineteen
/// positions are the nineteen hooks. A hook at a later position is bound to
/// the same or a later phase.
pub proof fn lemma_round_trip(hook: Hook, other: Hook)
    ensures
        Hook::ReadBeforeExecution.spec_position() == 0,
        hook.spec_position() < 19,
        hook.spec_position() == other.spec_position() ==> hook == other,
        hook.spec_position() < 18 ==> (next_dispatch(Step::Dispatch(hook)) matches Some(following)
            && following.spec_position() == hook.spec_position() + 1),
        hook.spec_position() == 18 ==> next_dispatch(Step::Dispatch(hook)) is None,
        hook.spec_position() <= other.spec_position() ==> hook.phase().spec_rank()
            <= other.phase().spec_rank(),
        hook.paired_after() matches Some(closing) ==> hook.spec_position()
            < closing.spec_position() && hook.spec_kind() is Read && closing.spec_kind() is Read,
{
}

/// A failure never takes a call back: from the dispatch pass of any hook,
/// it leads to a completion hook at a later position, to the retry decision
/// or to the end, and a fatal failure leads to the end at once.
pub proof fn lemma_failure_moves_forward(hook: Hook)
    ensures
        advance(Step::Dispatch(hook), Event::Fatal) == Step::Finish,
        match advance(Step::Dispatch(hook), Event::Failed) {
            Step::Dispatch(target) => {
                &&& hook.spec_position() < target.spec_position()
                &&& target == Hook::ModifyBeforeAttemptCompletion || target
                    == Hook::ReadAfterAttempt || target == Hook::ModifyBeforeCompletion || target
                    == Hook::ReadAfterExecution
            },
            Step::DecideRetry => hook == Hook::ReadAfterAttempt,
            Step::Finish => hook == Hook::ReadAfterExecution,
            _ => false,
        },
{
}

} // verus!
