//! The shared suppression record and its control operations.
//!
//! `SuppressionState` is the single source of truth that the request handlers
//! and the background reassertion loop agree on.  All instants are absolute
//! counts of whole seconds on the caller's clock; the caller samples its clock
//! and passes the value in, so every transition here is a pure function of the
//! old state and the arguments.

use vstd::prelude::*;

verus! {

/// The shared record of the daemon's suppression state.
///
/// Invariant ([`SuppressionState::wf`]): when suppression is not active, no
/// expiry is pending.  There is never more than one pending expiry, because
/// the record holds at most one.
#[derive(Clone, Copy, PartialEq, Eq, Debug)]
pub struct SuppressionState {
    /// True while screen-lock suppression is in effect.
    pub active: bool,
    /// Absolute instant (seconds) at which suppression must end;
    /// `None` means "suppress indefinitely until explicitly re-enabled".
    pub expiry: Option<u64>,
    /// Sentinel causing all loops to terminate.
    pub shutdown_requested: bool,
}

/// What the reassertion loop should do on one tick, decided under the lock.
/// Any external-tool call implied by the step happens after the decision,
/// outside the critical section.
#[derive(Clone, Copy, PartialEq, Eq, Structural, Debug)]
pub enum TickStep {
    /// Shutdown was requested: leave the loop.
    Exit,
    /// The pending expiry had passed; suppression was cleared this tick and
    /// the external tool is left alone.
    ClearedExpiry,
    /// Suppression is not active: nothing to do this tick.
    Idle,
    /// Suppression is active: ask the external probe whether the screen is
    /// locked, and deactivate the locker if it is not.
    Probe,
}

impl SuppressionState {
    /// Well-formedness: an inactive state has no pending expiry.
    pub open spec fn wf(self) -> bool {
        !self.active ==> self.expiry is None
    }
}

/// The state a daemon starts in: not suppressed, no expiry, not shutting down.
pub open spec fn initial_state() -> SuppressionState {
    SuppressionState { active: false, expiry: None, shutdown_requested: false }
}

/// Effect of the `Enable` operation: suppression is cleared and any pending
/// expiry is cancelled.  The shutdown flag is untouched.
pub open spec fn spec_enable(s: SuppressionState) -> SuppressionState {
    SuppressionState { active: false, expiry: None, ..s }
}

/// Effect of the `Disable` operation at instant `now`: suppression becomes
/// active; a supplied duration arms the single expiry at `now + duration`,
/// replacing any previous one; an absent duration suppresses indefinitely.
pub open spec fn spec_disable(s: SuppressionState, now: u64, duration: Option<u64>) -> SuppressionState {
    match duration {
        Some(d) => SuppressionState { active: true, expiry: Some((now + d) as u64), ..s },
        None => SuppressionState { active: true, expiry: None, ..s },
    }
}

/// Effect of the `Quit` operation: only the shutdown flag is raised.
pub open spec fn spec_quit(s: SuppressionState) -> SuppressionState {
    SuppressionState { shutdown_requested: true, ..s }
}

/// The string `Status` reports: `"Disabled"` while suppression is active,
/// `"Enabled"` otherwise.
pub open spec fn spec_status(s: SuppressionState) -> Seq<char> {
    if s.active { "Disabled"@ } else { "Enabled"@ }
}

/// Whether the pending expiry has passed at instant `now`: suppression is
/// active, bounded, and `now` is strictly past the deadline.
pub open spec fn expiry_due(s: SuppressionState, now: u64) -> bool {
    s.active && s.expiry is Some && now > s.expiry->0
}

/// Effect of one deadline check at instant `now`: a due expiry clears the
/// state exactly as `Enable` does; otherwise nothing changes.
pub open spec fn spec_check_expiry(s: SuppressionState, now: u64) -> SuppressionState {
    if expiry_due(s, now) { spec_enable(s) } else { s }
}

/// The step one tick of the reassertion loop decides on, in priority order:
/// shutdown, due expiry, inactive, probe.
pub open spec fn spec_tick_step(s: SuppressionState, now: u64) -> TickStep {
    if s.shutdown_requested {
        TickStep::Exit
    } else if expiry_due(s, now) {
        TickStep::ClearedExpiry
    } else if !s.active {
        TickStep::Idle
    } else {
        TickStep::Probe
    }
}

/// The state one tick of the reassertion loop leaves behind: only a due
/// expiry (observed while not shutting down) changes it.
pub open spec fn spec_tick_state(s: SuppressionState, now: u64) -> SuppressionState {
    if s.shutdown_requested { s } else { spec_check_expiry(s, now) }
}

impl SuppressionState {
    /// A fresh daemon state.
    pub fn new() -> (s: SuppressionState)
        ensures
            s == initial_state(),
            s.wf(),
    {
        SuppressionState { active: false, expiry: None, shutdown_requested: false }
    }

    /// `Enable`: clear suppression immediately and cancel any pending expiry.
    /// Acknowledges with `"ok"`.
    pub fn enable(&mut self) -> (reply: &'static str)
        ensures
            *final(self) == spec_enable(*old(self)),
            final(self).wf(),
            reply@ == "ok"@,
    {
        self.active = false;
        self.expiry = None;
        "ok"
    }

    /// `Disable`: make suppression active.  A supplied duration arms the one
    /// expiry at `now + duration`, replacing any previous one; an absent
    /// duration (including an unreadable one at the transport, mapped to
    /// `None` by the caller) suppresses indefinitely.  Acknowledges with
    /// `"ok"`.
    pub fn disable(&mut self, now: u64, duration: Option<u64>) -> (reply: &'static str)
        requires
            duration is Some ==> now + duration->0 <= u64::MAX,
        ensures
            *final(self) == spec_disable(*old(self), now, duration),
            final(self).wf(),
            final(self).active,
            reply@ == "ok"@,
    {
        self.active = true;
        match duration {
            Some(d) => {
                self.expiry = Some(now + d);
            }
            None => {
                self.expiry = None;
            }
        }
        "ok"
    }

    /// `Status`: report `"Disabled"` while suppression is active, `"Enabled"`
    /// otherwise.  Read-only; it never errors.
    pub fn status(&self) -> (reply: &'static str)
        ensures
            reply@ == spec_status(*self),
    {
        if self.active {
            "Disabled"
        } else {
            "Enabled"
        }
    }

    /// `Quit`: request shutdown; every loop observes the flag within one
    /// iteration.  Suppression fields are untouched.  Acknowledges with
    /// `"quitting"`.
    pub fn quit(&mut self) -> (reply: &'static str)
        ensures
            *final(self) == spec_quit(*old(self)),
            final(self).wf() == old(self).wf(),
            reply@ == "quitting"@,
    {
        self.shutdown_requested = true;
        "quitting"
    }

    /// Deadline check: if the pending expiry has passed at `now`, clear
    /// `active` and `expiry` together (the same transition `Enable` makes)
    /// and report that it fired; otherwise leave the state untouched.
    /// At most one expiry-driven transition can occur per `Disable`, because
    /// firing clears the only pending expiry.
    pub fn check_expiry(&mut self, now: u64) -> (fired: bool)
        ensures
            fired == expiry_due(*old(self), now),
            *final(self) == spec_check_expiry(*old(self), now),
            old(self).wf() ==> final(self).wf(),
    {
        if self.active {
            match self.expiry {
                Some(deadline) => {
                    if now > deadline {
                        self.active = false;
                        self.expiry = None;
                        return true;
                    }
                }
                None => {}
            }
        }
        false
    }

    /// One tick of the reassertion loop, up to the point where external calls
    /// would be made: observe the shutdown flag, then the deadline, then the
    /// active flag, and decide the step.  External-tool calls implied by
    /// `TickStep::Probe` are the caller's business, outside the lock.
    pub fn tick(&mut self, now: u64) -> (step: TickStep)
        ensures
            step == spec_tick_step(*old(self), now),
            *final(self) == spec_tick_state(*old(self), now),
            old(self).wf() ==> final(self).wf(),
    {
        if self.shutdown_requested {
            return TickStep::Exit;
        }
        if self.check_expiry(now) {
            return TickStep::ClearedExpiry;
        }
        if !self.active {
            return TickStep::Idle;
        }
        TickStep::Probe
    }
}

} // verus!
