//! What a dispatch pass makes of what the hooks it calls hand back.

use super::context::{ContextView, InterceptorContext, Phase};
use super::error::{BoxError, InterceptorError};
use super::hook::{ErrorPolicy, Hook, HookKind, Target};
use vstd::prelude::*;

verus! {

/// Whether a message that was of type `before` may be followed by one of
/// type `after`. `None` stands for a message with no logical type of its
/// own to keep: a transport message, whose type is fixed, or an error in the
/// place of an output.
pub open spec fn spec_kept_type(before: Option<u64>, after: Option<u64>) -> bool {
    before is None || after is None || before == after
}

/// Whether a message that was of type `before` may be followed by one of
/// type `after`.
#[verifier::when_used_as_spec(spec_kept_type)]
pub fn kept_type(before: Option<u64>, after: Option<u64>) -> (r: bool)
    ensures
        r == spec_kept_type(before, after),
{
    match (before, after) {
        (Some(b), Some(a)) => b == a,
        _ => true,
    }
}

impl ContextView {
    /// The logical type of the message that a hook on `target` may replace.
    pub open spec fn message_type(self, target: Target) -> Option<u64> {
        match target {
            Target::Input => match self.input {
                Some(input) => Some(input@.type_id),
                None => None,
            },
            Target::Request | Target::Response => None,
            Target::OutputOrError => match self.output_or_error {
                Some(Ok(output)) => Some(output@.type_id),
                _ => None,
            },
        }
    }
}

/// Whether a hook that received the context `received` handed it back, as
/// `returned`, in a state that the dispatcher accepts: well formed, in the
/// hook's phase, and with the message that the hook may replace still of the
/// logical type it had.
pub open spec fn intact(hook: Hook, received: ContextView, returned: ContextView) -> bool {
    match hook.kind() {
        HookKind::Read => true,
        HookKind::Modify(target) => {
            &&& returned.wf()
            &&& returned.phase == hook.phase()
            &&& kept_type(received.message_type(target), returned.message_type(target))
        },
    }
}

impl InterceptorContext {
    /// The logical type of the message that a hook on `target` may replace.
    pub fn message_type(&self, target: Target) -> (r: Option<u64>)
        requires
            self.wf(),
        ensures
            r == self@.message_type(target),
    {
        match target {
            Target::Input => {
                if self.phase().rank() == 0 || self.has_input() {
                    Some(self.input().type_id())
                } else {
                    None
                }
            },
            Target::Request | Target::Response => None,
            Target::OutputOrError => {
                if self.phase().rank() == 3 {
                    match self.output_or_error() {
                        Ok(output) => Some(output.type_id()),
                        Err(_) => None,
                    }
                } else {
                    None
                }
            },
        }
    }

    /// Whether the context, as a hook on `target` handed it back, is well
    /// formed, in `phase`, and holds a message of the logical type `before`.
    pub fn is_intact(&self, phase: Phase, target: Target, before: Option<u64>) -> (r: bool)
        ensures
            r == {
                &&& self.wf()
                &&& self@.phase == phase
                &&& kept_type(before, self@.message_type(target))
            },
    {
        if self.is_well_formed() && self.phase() == phase {
            kept_type(before, self.message_type(target))
        } else {
            false
        }
    }
}

/// What one hook handed back: what it returned, and whether it left the
/// context intact.
pub struct HookReturn {
    pub result: Result<(), BoxError>,
    pub intact: bool,
}

/// What the dispatcher does after one hook has returned.
pub enum Absorbed {
    /// The pass goes on, with `pending` as the error kept so far.
    Continue { pending: Option<BoxError> },
    /// The pass ends here with `error`.
    Stop { error: InterceptorError },
}

/// The rule of the dispatcher for one return. A hook that did not leave the
/// context intact ends the pass with a type-constraint violation, whatever
/// the policy and whatever it returned. Otherwise a hook that returned `Ok`
/// changes nothing; one that returned an error ends the pass under
/// `FailFast`, and under `CollectThenJump` has its error take the place of
/// the one kept so far.
pub open spec fn absorbed(hook: Hook, pending: Option<BoxError>, ret: HookReturn) -> Absorbed {
    if !ret.intact {
        Absorbed::Stop { error: InterceptorError::TypeConstraint { hook } }
    } else {
        match ret.result {
            Ok(_) => Absorbed::Continue { pending },
            Err(source) => match hook.policy() {
                ErrorPolicy::CollectThenJump => Absorbed::Continue { pending: Some(source) },
                ErrorPolicy::FailFast => Absorbed::Stop {
                    error: InterceptorError::Hook { hook, source },
                },
            },
        }
    }
}

/// Applies the dispatcher's rule to what one hook handed back.
pub fn absorb(hook: Hook, pending: Option<BoxError>, result: Result<(), BoxError>, intact: bool) -> (r:
    Absorbed)
    ensures
        r == absorbed(hook, pending, HookReturn { result, intact }),
{
    if !intact {
        Absorbed::Stop { error: InterceptorError::TypeConstraint { hook } }
    } else {
        match result {
            Ok(_) => Absorbed::Continue { pending },
            Err(source) => match hook.policy() {
                ErrorPolicy::CollectThenJump => Absorbed::Continue { pending: Some(source) },
                ErrorPolicy::FailFast => Absorbed::Stop {
                    error: InterceptorError::Hook { hook, source },
                },
            },
        }
    }
}

/// How far a pass has come: the error kept so far, the error that ended the
/// pass if one did, and the number of hooks called.
pub struct Progress {
    pub pending: Option<BoxError>,
    pub stopped: Option<InterceptorError>,
    pub invoked: nat,
}

/// How far a pass over hooks that hand back `trace`, in this order, comes:
/// each return is absorbed in turn until one ends the pass; the hooks after
/// that one are not called.
pub open spec fn progress(hook: Hook, trace: Seq<HookReturn>) -> Progress
    decreases trace.len(),
{
    if trace.len() == 0 {
        Progress { pending: None, stopped: None, invoked: 0 }
    } else {
        let before = progress(hook, trace.drop_last());
        if before.stopped is Some {
            before
        } else {
            match absorbed(hook, before.pending, trace.last()) {
                Absorbed::Continue { pending } => Progress {
                    pending,
                    stopped: None,
                    invoked: before.invoked + 1,
                },
                Absorbed::Stop { error } => Progress {
                    pending: before.pending,
                    stopped: Some(error),
                    invoked: before.invoked + 1,
                },
            }
        }
    }
}

/// The result of a pass that ran to its end with `pending` as the error
/// kept.
pub open spec fn concluded(hook: Hook, pending: Option<BoxError>) -> Result<(), InterceptorError> {
    match pending {
        Some(source) => Err(InterceptorError::Hook { hook, source }),
        None => Ok(()),
    }
}

/// Ends a pass that no hook ended: the error kept, if there is one, is the
/// result of the pass.
pub fn conclude(hook: Hook, pending: Option<BoxError>) -> (r: Result<(), InterceptorError>)
    ensures
        r == concluded(hook, pending),
{
    match pending {
        Some(source) => Err(InterceptorError::Hook { hook, source }),
        None => Ok(()),
    }
}

/// The result of a pass over hooks that hand back `trace`.
pub open spec fn outcome(hook: Hook, trace: Seq<HookReturn>) -> Result<(), InterceptorError> {
    let reached = progress(hook, trace);
    match reached.stopped {
        Some(error) => Err(error),
        None => concluded(hook, reached.pending),
    }
}

/// The last error among `trace`, if a hook returned one.
pub open spec fn latest_error(trace: Seq<HookReturn>) -> Option<BoxError>
    decreases trace.len(),
{
    if trace.len() == 0 {
        None
    } else {
        match trace.last().result {
            Err(source) => Some(source),
            Ok(_) => latest_error(trace.drop_last()),
        }
    }
}

/// Once a hook has ended a pass, what comes after it in the trace changes
/// nothing.
pub proof fn lemma_stopped_stays(hook: Hook, trace: Seq<HookReturn>, n: int)
    requires
        0 <= n <= trace.len(),
        progress(hook, trace.take(n)).stopped is Some,
    ensures
        progress(hook, trace) == progress(hook, trace.take(n)),
    decreases trace.len(),
{
    if n < trace.len() {
        assert(trace.drop_last().take(n) =~= trace.take(n));
        lemma_stopped_stays(hook, trace.drop_last(), n);
    } else {
        assert(trace.take(n) =~= trace);
    }
}

/// While every hook returns `Ok` and leaves the context intact, a pass calls
/// each of them and keeps no error.
pub proof fn lemma_quiet_hooks(hook: Hook, trace: Seq<HookReturn>)
    requires
        forall|k: int| 0 <= k < trace.len() ==> trace[k].intact && trace[k].result is Ok,
    ensures
        progress(hook, trace) == (Progress {
            pending: None,
            stopped: None,
            invoked: trace.len(),
        }),
        outcome(hook, trace) == Ok::<(), InterceptorError>(()),
    decreases trace.len(),
{
    if trace.len() > 0 {
        lemma_quiet_hooks(hook, trace.drop_last());
    }
}

/// Under the collecting policy, a pass in which every hook leaves the
/// context intact calls every hook and keeps the last error returned.
pub proof fn lemma_collect_runs_all(hook: Hook, trace: Seq<HookReturn>)
    requires
        hook.policy() == ErrorPolicy::CollectThenJump,
        forall|k: int| 0 <= k < trace.len() ==> trace[k].intact,
    ensures
        progress(hook, trace) == (Progress {
            pending: latest_error(trace),
            stopped: None,
            invoked: trace.len(),
        }),
    decreases trace.len(),
{
    if trace.len() > 0 {
        lemma_collect_runs_all(hook, trace.drop_last());
    }
}

/// The last error of a trace is that of the hook after which every hook
/// returned `Ok`.
pub proof fn lemma_latest_error_at(trace: Seq<HookReturn>, j: int)
    requires
        0 <= j < trace.len(),
        trace[j].result is Err,
        forall|k: int| j < k < trace.len() ==> trace[k].result is Ok,
    ensures
        latest_error(trace) == Some(trace[j].result->Err_0),
    decreases trace.len(),
{
    if j < trace.len() - 1 {
        lemma_latest_error_at(trace.drop_last(), j);
    }
}

/// A hook that does nothing has no effect on a pass, wherever it stands
/// among the others: the error kept, the error that ends the pass and the
/// result are what they are without it.
pub proof fn lemma_noop_hook_changes_nothing(hook: Hook, trace: Seq<HookReturn>, at: int)
    requires
        0 <= at <= trace.len(),
    ensures
        ({
            let with_noop = trace.insert(at, HookReturn { result: Ok(()), intact: true });
            &&& progress(hook, with_noop).pending == progress(hook, trace).pending
            &&& progress(hook, with_noop).stopped == progress(hook, trace).stopped
            &&& outcome(hook, with_noop) == outcome(hook, trace)
        }),
    decreases trace.len(),
{
    let noop = HookReturn { result: Ok(()), intact: true };
    let with_noop = trace.insert(at, noop);
    if at == trace.len() {
        assert(with_noop.drop_last() =~= trace);
        assert(with_noop.last() == noop);
    } else {
        assert(with_noop.drop_last() =~= trace.drop_last().insert(at, noop));
        assert(with_noop.last() == trace.last());
        lemma_noop_hook_changes_nothing(hook, trace.drop_last(), at);
    }
}

/// Under the collecting policy every hook is called, although some fail,
/// and the error of the pass is that of the last hook that failed: where the
/// hooks at `i` and at `j`, `i` before `j`, both return an error and none
/// after `j` does, the pass calls all hooks and returns the error of `j`.
pub proof fn lemma_collect_keeps_latest_error(hook: Hook, trace: Seq<HookReturn>, i: int, j: int)
    requires
        hook.policy() == ErrorPolicy::CollectThenJump,
        0 <= i < j < trace.len(),
        forall|k: int| 0 <= k < trace.len() ==> trace[k].intact,
        trace[i].result is Err,
        trace[j].result is Err,
        forall|k: int| j < k < trace.len() ==> trace[k].result is Ok,
    ensures
        progress(hook, trace).invoked == trace.len(),
        outcome(hook, trace) == Err::<(), InterceptorError>(
            InterceptorError::Hook { hook, source: trace[j].result->Err_0 },
        ),
{
    lemma_collect_runs_all(hook, trace);
    lemma_latest_error_at(trace, j);
}

/// Under the fail-fast policy the first hook that returns an error ends the
/// pass: where the hook at `i` is the first to fail, exactly the hooks up to
/// `i` are called, none after it, and the pass returns the error of `i`.
pub proof fn lemma_fail_fast_stops_at_first_error(hook: Hook, trace: Seq<HookReturn>, i: int)
    requires
        hook.policy() == ErrorPolicy::FailFast,
        0 <= i < trace.len(),
        forall|k: int| 0 <= k < i ==> trace[k].intact && trace[k].result is Ok,
        trace[i].intact,
        trace[i].result is Err,
    ensures
        progress(hook, trace).invoked == i + 1,
        outcome(hook, trace) == Err::<(), InterceptorError>(
            InterceptorError::Hook { hook, source: trace[i].result->Err_0 },
        ),
{
    let upto = trace.take(i + 1);
    assert(upto.drop_last() =~= trace.take(i));
    assert(upto.last() == trace[i]);
    lemma_quiet_hooks(hook, trace.take(i));
    lemma_stopped_stays(hook, trace, i + 1);
}

/// A modify hook that hands back a message of another logical type ends the
/// pass at once with a type-constraint violation, under either policy and
/// whatever errors were kept before: where the hook at `i` is the first not
/// to leave the context intact, and the pass has come as far as `i`, exactly
/// the hooks up to `i` are called and the pass returns the violation.
pub proof fn lemma_type_violation_is_fatal(hook: Hook, trace: Seq<HookReturn>, i: int)
    requires
        0 <= i < trace.len(),
        !trace[i].intact,
        forall|k: int| 0 <= k < i ==> trace[k].intact,
        hook.policy() == ErrorPolicy::FailFast ==> forall|k: int|
            0 <= k < i ==> trace[k].result is Ok,
    ensures
        progress(hook, trace).invoked == i + 1,
        outcome(hook, trace) == Err::<(), InterceptorError>(
            InterceptorError::TypeConstraint { hook },
        ),
{
    let upto = trace.take(i + 1);
    assert(upto.drop_last() =~= trace.take(i));
    assert(upto.last() == trace[i]);
    match hook.policy() {
        ErrorPolicy::FailFast => {
            lemma_quiet_hooks(hook, trace.take(i));
        },
        ErrorPolicy::CollectThenJump => {
            lemma_collect_runs_all(hook, trace.take(i));
        },
    }
    lemma_stopped_stays(hook, trace, i + 1);
}

} // verus!
