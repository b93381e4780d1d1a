//! The table of hook points: for each, the phase it is bound to, whether it
//! reads or modifies, how errors within its group are handled, and where
//! execution goes from it.

use super::context::Phase;
use vstd::prelude::*;

verus! {

/// A hook point of the request pipeline, named as the method of
/// `Interceptor` that it calls.
#[derive(Clone, Copy, Debug, PartialEq, Eq, Structural, Hash)]
pub enum Hook {
    ReadBeforeExecution,
    ModifyBeforeSerialization,
    ReadBeforeSerialization,
    ReadAfterSerialization,
    ModifyBeforeRetryLoop,
    ReadBeforeAttempt,
    ModifyBeforeSigning,
    ReadBeforeSigning,
    ReadAfterSigning,
    ModifyBeforeTransmit,
    ReadBeforeTransmit,
    ReadAfterTransmit,
    ModifyBeforeDeserialization,
    ReadBeforeDeserialization,
    ReadAfterDeserialization,
    ModifyBeforeAttemptCompletion,
    ReadAfterAttempt,
    ModifyBeforeCompletion,
    ReadAfterExecution,
}

/// The message that a hook may replace.
#[derive(Clone, Copy, Debug, PartialEq, Eq, Structural)]
pub enum Target {
    Input,
    Request,
    Response,
    OutputOrError,
}

/// What a hook may do with the context.
#[derive(Clone, Copy, Debug, PartialEq, Eq, Structural)]
pub enum HookKind {
    /// The hook observes the context.
    Read,
    /// The hook may replace the named message by one of the same logical type.
    Modify(Target),
}

/// How a dispatch pass treats a hook that returns an error.
#[derive(Clone, Copy, Debug, PartialEq, Eq, Structural)]
pub enum ErrorPolicy {
    /// Every hook of the group runs; the latest error is kept and earlier
    /// ones are dropped.
    CollectThenJump,
    /// The first error ends the pass.
    FailFast,
}

/// Whether a hook belongs to the execution as a whole or to one attempt.
#[derive(Clone, Copy, Debug, PartialEq, Eq, Structural)]
pub enum Scope {
    Execution,
    Attempt,
}

impl Hook {
    /// The phase that the context is in when the hook runs.
    pub open spec fn spec_phase(self) -> Phase {
        match self {
            Hook::ReadBeforeExecution
            | Hook::ModifyBeforeSerialization
            | Hook::ReadBeforeSerialization => Phase::BeforeSerialization,
            Hook::ReadAfterSerialization
            | Hook::ModifyBeforeRetryLoop
            | Hook::ReadBeforeAttempt
            | Hook::ModifyBeforeSigning
            | Hook::ReadBeforeSigning
            | Hook::ReadAfterSigning
            | Hook::ModifyBeforeTransmit
            | Hook::ReadBeforeTransmit => Phase::BeforeTransmit,
            Hook::ReadAfterTransmit
            | Hook::ModifyBeforeDeserialization
            | Hook::ReadBeforeDeserialization => Phase::BeforeDeserialization,
            Hook::ReadAfterDeserialization
            | Hook::ModifyBeforeAttemptCompletion
            | Hook::ReadAfterAttempt
            | Hook::ModifyBeforeCompletion
            | Hook::ReadAfterExecution => Phase::AfterDeserialization,
        }
    }

    /// The phase that the context is in when the hook runs.
    #[verifier::when_used_as_spec(spec_phase)]
    pub fn phase(self) -> (r: Phase)
        ensures
            r == self.spec_phase(),
    {
        match self {
            Hook::ReadBeforeExecution
            | Hook::ModifyBeforeSerialization
            | Hook::ReadBeforeSerialization => Phase::BeforeSerialization,
            Hook::ReadAfterSerialization
            | Hook::ModifyBeforeRetryLoop
            | Hook::ReadBeforeAttempt
            | Hook::ModifyBeforeSigning
            | Hook::ReadBeforeSigning
            | Hook::ReadAfterSigning
            | Hook::ModifyBeforeTransmit
            | Hook::ReadBeforeTransmit => Phase::BeforeTransmit,
            Hook::ReadAfterTransmit
            | Hook::ModifyBeforeDeserialization
            | Hook::ReadBeforeDeserialization => Phase::BeforeDeserialization,
            Hook::ReadAfterDeserialization
            | Hook::ModifyBeforeAttemptCompletion
            | Hook::ReadAfterAttempt
            | Hook::ModifyBeforeCompletion
            | Hook::ReadAfterExecution => Phase::AfterDeserialization,
        }
    }

    /// Whether the hook reads, or which message it may replace.
    pub open spec fn spec_kind(self) -> HookKind {
        match self {
            Hook::ModifyBeforeSerialization => HookKind::Modify(Target::Input),
            Hook::ModifyBeforeRetryLoop | Hook::ModifyBeforeSigning | Hook::ModifyBeforeTransmit => {
                HookKind::Modify(Target::Request)
            },
            Hook::ModifyBeforeDeserialization => HookKind::Modify(Target::Response),
            Hook::ModifyBeforeAttemptCompletion | Hook::ModifyBeforeCompletion => HookKind::Modify(
                Target::OutputOrError,
            ),
            _ => HookKind::Read,
        }
    }

    /// Whether the hook reads, or which message it may replace.
    #[verifier::when_used_as_spec(spec_kind)]
    pub fn kind(self) -> (r: HookKind)
        ensures
            r == self.spec_kind(),
    {
        match self {
            Hook::ModifyBeforeSerialization => HookKind::Modify(Target::Input),
            Hook::ModifyBeforeRetryLoop | Hook::ModifyBeforeSigning | Hook::ModifyBeforeTransmit => {
                HookKind::Modify(Target::Request)
            },
            Hook::ModifyBeforeDeserialization => HookKind::Modify(Target::Response),
            Hook::ModifyBeforeAttemptCompletion | Hook::ModifyBeforeCompletion => HookKind::Modify(
                Target::OutputOrError,
            ),
            _ => HookKind::Read,
        }
    }

    /// How errors within the hook's group are handled: the read hooks that
    /// open and close an execution or an attempt let every interceptor see
    /// the call; every other group stops at its first error.
    pub open spec fn spec_policy(self) -> ErrorPolicy {
        match self {
            Hook::ReadBeforeExecution
            | Hook::ReadBeforeAttempt
            | Hook::ReadAfterAttempt
            | Hook::ReadAfterExecution => ErrorPolicy::CollectThenJump,
            _ => ErrorPolicy::FailFast,
        }
    }

    /// How errors within the hook's group are handled.
    #[verifier::when_used_as_spec(spec_policy)]
    pub fn policy(self) -> (r: ErrorPolicy)
        ensures
            r == self.spec_policy(),
    {
        match self {
            Hook::ReadBeforeExecution
            | Hook::ReadBeforeAttempt
            | Hook::ReadAfterAttempt
            | Hook::ReadAfterExecution => ErrorPolicy::CollectThenJump,
            _ => ErrorPolicy::FailFast,
        }
    }

    /// Whether the hook runs once per execution or once per attempt.
    pub open spec fn spec_scope(self) -> Scope {
        match self {
            Hook::ReadBeforeExecution
            | Hook::ModifyBeforeSerialization
            | Hook::ReadBeforeSerialization
            | Hook::ReadAfterSerialization
            | Hook::ModifyBeforeRetryLoop
            | Hook::ModifyBeforeCompletion
            | Hook::ReadAfterExecution => Scope::Execution,
            _ => Scope::Attempt,
        }
    }

    /// Whether the hook runs once per execution or once per attempt.
    #[verifier::when_used_as_spec(spec_scope)]
    pub fn scope(self) -> (r: Scope)
        ensures
            r == self.spec_scope(),
    {
        match self {
            Hook::ReadBeforeExecution
            | Hook::ModifyBeforeSerialization
            | Hook::ReadBeforeSerialization
            | Hook::ReadAfterSerialization
            | Hook::ModifyBeforeRetryLoop
            | Hook::ModifyBeforeCompletion
            | Hook::ReadAfterExecution => Scope::Execution,
            _ => Scope::Attempt,
        }
    }

    /// The place of the hook in a call that succeeds at its first attempt,
    /// counted from zero.
    pub open spec fn spec_position(self) -> nat {
        match self {
            Hook::ReadBeforeExecution => 0,
            Hook::ModifyBeforeSerialization => 1,
            Hook::ReadBeforeSerialization => 2,
            Hook::ReadAfterSerialization => 3,
            Hook::ModifyBeforeRetryLoop => 4,
            Hook::ReadBeforeAttempt => 5,
            Hook::ModifyBeforeSigning => 6,
            Hook::ReadBeforeSigning => 7,
            Hook::ReadAfterSigning => 8,
            Hook::ModifyBeforeTransmit => 9,
            Hook::ReadBeforeTransmit => 10,
            Hook::ReadAfterTransmit => 11,
            Hook::ModifyBeforeDeserialization => 12,
            Hook::ReadBeforeDeserialization => 13,
            Hook::ReadAfterDeserialization => 14,
            Hook::ModifyBeforeAttemptCompletion => 15,
            Hook::ReadAfterAttempt => 16,
            Hook::ModifyBeforeCompletion => 17,
            Hook::ReadAfterExecution => 18,
        }
    }

    /// The place of the hook in a call that succeeds at its first attempt,
    /// counted from zero.
    pub fn position(self) -> (r: u8)
        ensures
            r == self.spec_position(),
    {
        match self {
            Hook::ReadBeforeExecution => 0,
            Hook::ModifyBeforeSerialization => 1,
            Hook::ReadBeforeSerialization => 2,
            Hook::ReadAfterSerialization => 3,
            Hook::ModifyBeforeRetryLoop => 4,
            Hook::ReadBeforeAttempt => 5,
            Hook::ModifyBeforeSigning => 6,
            Hook::ReadBeforeSigning => 7,
            Hook::ReadAfterSigning => 8,
            Hook::ModifyBeforeTransmit => 9,
            Hook::ReadBeforeTransmit => 10,
            Hook::ReadAfterTransmit => 11,
            Hook::ModifyBeforeDeserialization => 12,
            Hook::ReadBeforeDeserialization => 13,
            Hook::ReadAfterDeserialization => 14,
            Hook::ModifyBeforeAttemptCompletion => 15,
            Hook::ReadAfterAttempt => 16,
            Hook::ModifyBeforeCompletion => 17,
            Hook::ReadAfterExecution => 18,
        }
    }

    /// The hook that closes what this hook opens: for each read hook named
    /// "before", the read hook named "after" the same thing.
    pub open spec fn spec_paired_after(self) -> Option<Hook> {
        match self {
            Hook::ReadBeforeExecution => Some(Hook::ReadAfterExecution),
            Hook::ReadBeforeSerialization => Some(Hook::ReadAfterSerialization),
            Hook::ReadBeforeAttempt => Some(Hook::ReadAfterAttempt),
            Hook::ReadBeforeSigning => Some(Hook::ReadAfterSigning),
            Hook::ReadBeforeTransmit => Some(Hook::ReadAfterTransmit),
            Hook::ReadBeforeDeserialization => Some(Hook::ReadAfterDeserialization),
            _ => None,
        }
    }

    /// The hook that closes what this hook opens, if it opens anything.
    #[verifier::when_used_as_spec(spec_paired_after)]
    pub fn paired_after(self) -> (r: Option<Hook>)
        ensures
            r == self.spec_paired_after(),
    {
        match self {
            Hook::ReadBeforeExecution => Some(Hook::ReadAfterExecution),
            Hook::ReadBeforeSerialization => Some(Hook::ReadAfterSerialization),
            Hook::ReadBeforeAttempt => Some(Hook::ReadAfterAttempt),
            Hook::ReadBeforeSigning => Some(Hook::ReadAfterSigning),
            Hook::ReadBeforeTransmit => Some(Hook::ReadAfterTransmit),
            Hook::ReadBeforeDeserialization => Some(Hook::ReadAfterDeserialization),
            _ => None,
        }
    }
}

} // verus!
