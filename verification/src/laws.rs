//! Laws of the suppression state machine, stated over the specification
//! transitions and proved once for all inputs.

use vstd::prelude::*;

use crate::state::SuppressionState;
use crate::state::TickStep;
use crate::state::expiry_due;
use crate::state::spec_check_expiry;
use crate::state::spec_disable;
use crate::state::spec_enable;
use crate::state::spec_quit;
use crate::state::spec_status;
use crate::state::spec_tick_step;

verus! {

/// One completed control operation, with the arguments that matter to the
/// state: the instant a `Disable` was handled at and its optional duration.
pub enum ControlCall {
    Enable,
    Disable { now: u64, duration: Option<u64> },
    Status,
    Quit,
}

/// The state after one completed control operation.
pub open spec fn apply_call(s: SuppressionState, c: ControlCall) -> SuppressionState {
    match c {
        ControlCall::Enable => spec_enable(s),
        ControlCall::Disable { now, duration } => spec_disable(s, now, duration),
        ControlCall::Status => s,
        ControlCall::Quit => spec_quit(s),
    }
}

/// The state after a sequence of completed control operations, oldest first.
pub open spec fn apply_calls(s: SuppressionState, calls: Seq<ControlCall>) -> SuppressionState
    decreases calls.len(),
{
    if calls.len() == 0 {
        s
    } else {
        apply_call(apply_calls(s, calls.drop_last()), calls.last())
    }
}

/// Law: the control operations preserve the record's invariant — an
/// inactive state never carries a pending expiry.
pub proof fn lemma_calls_preserve_wf(s: SuppressionState, calls: Seq<ControlCall>)
    requires
        s.wf(),
    ensures
        apply_calls(s, calls).wf(),
    decreases calls.len(),
{
    if calls.len() > 0 {
        lemma_calls_preserve_wf(s, calls.drop_last());
    }
}

/// Law: over any nonempty run of `Enable`/`Disable` operations, `Status`
/// reports the most recently completed one's effect — `"Disabled"` after a
/// `Disable` with no later `Enable`, `"Enabled"` after an `Enable`.
pub proof fn lemma_status_reflects_last_call(s: SuppressionState, calls: Seq<ControlCall>)
    requires
        calls.len() > 0,
        forall|i: int| 0 <= i < calls.len() ==> (calls[i] is Enable || calls[i] is Disable),
    ensures
        calls.last() is Disable ==> spec_status(apply_calls(s, calls)) == "Disabled"@,
        calls.last() is Enable ==> spec_status(apply_calls(s, calls)) == "Enabled"@,
{
}

/// Law: `Disable` with duration `d` at instant `now` arms the expiry so
/// that, with no further operations, the deadline check leaves the state
/// suppressed at every instant up to and including `now + d`, and clears it
/// at every later instant — so `Status` flips back to `"Enabled"` no earlier
/// than `d` seconds after the call and no later than the first following
/// tick.
pub proof fn lemma_expiry_window(s: SuppressionState, now: u64, d: u64, t: u64)
    requires
        now + d <= u64::MAX,
    ensures
        ({
            let armed = spec_disable(s, now, Some(d));
            &&& armed.expiry == Some((now + d) as u64)
            &&& t <= now + d ==> spec_check_expiry(armed, t) == armed && spec_status(
                spec_check_expiry(armed, t),
            ) == "Disabled"@
            &&& t > now + d ==> expiry_due(armed, t) && spec_status(spec_check_expiry(armed, t))
                == "Enabled"@
        }),
{
}

/// Law: a second `Disable` issued before the first window elapses replaces
/// the pending expiry, leaving exactly the one armed at `t2 + d2`: the
/// deadline check fires strictly after `t2 + d2` and never before, so the
/// first window's deadline `t1 + d1` cannot fire on its own.
pub proof fn lemma_second_disable_replaces_expiry(
    s: SuppressionState,
    t1: u64,
    d1: u64,
    t2: u64,
    d2: u64,
    t: u64,
)
    requires
        t1 + d1 <= u64::MAX,
        t2 + d2 <= u64::MAX,
        t2 <= t1 + d1,
    ensures
        ({
            let rearmed = spec_disable(spec_disable(s, t1, Some(d1)), t2, Some(d2));
            &&& rearmed.expiry == Some((t2 + d2) as u64)
            &&& expiry_due(rearmed, t) <==> t > t2 + d2
        }),
{
}

/// Law: `Enable` cancels any pending expiry — right after
/// `Enable` following a `Disable`, no instant makes the deadline check
/// fire, and `Status` reports `"Enabled"` across any such check.
pub proof fn lemma_enable_cancels_expiry(s: SuppressionState, now: u64, d: u64, t: u64)
    requires
        now + d <= u64::MAX,
    ensures
        ({
            let cancelled = spec_enable(spec_disable(s, now, Some(d)));
            &&& !cancelled.active
            &&& cancelled.expiry is None
            &&& !expiry_due(cancelled, t)
            &&& spec_check_expiry(cancelled, t) == cancelled
            &&& spec_status(spec_check_expiry(cancelled, t)) == "Enabled"@
        }),
{
}

/// Law: `Enable` is idempotent — a second `Enable` leaves the state
/// exactly as the first did.
pub proof fn lemma_enable_idempotent(s: SuppressionState)
    ensures
        spec_enable(spec_enable(s)) == spec_enable(s),
{
}

/// Law: the deadline check fires at most once per suppression episode —
/// once it has fired, no later check fires again until a new `Disable` arms
/// a new expiry.
pub proof fn lemma_expiry_fires_at_most_once(s: SuppressionState, t1: u64, t2: u64)
    ensures
        expiry_due(s, t1) ==> !expiry_due(spec_check_expiry(s, t1), t2),
{
}

/// Law: `Quit` is terminal — the shutdown flag survives every later control
/// operation, and every later tick of the reassertion loop, at any instant,
/// decides to exit, so the daemon's loops wind down within one tick.
pub proof fn lemma_quit_is_terminal(s: SuppressionState, calls: Seq<ControlCall>, now: u64)
    ensures
        apply_calls(spec_quit(s), calls).shutdown_requested,
        spec_tick_step(apply_calls(spec_quit(s), calls), now) == TickStep::Exit,
    decreases calls.len(),
{
    if calls.len() > 0 {
        lemma_quit_is_terminal(s, calls.drop_last(), now);
    }
}

} // verus!
