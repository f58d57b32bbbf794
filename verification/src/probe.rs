//! Interpretation of the external lock probe, and the reassertion policy.
//!
//! The probe's entire contract is a substring match: any output containing
//! `"screen locked"` means the screen is locked, anything else means
//! unlocked.  No structured parsing is attempted.  The unverified shell runs
//! the probe and hands its captured output in as a string.

use vstd::prelude::*;

use crate::text::contains_seq;
use crate::text::str_contains;

verus! {

/// Whether the probe's captured output reports a locked screen: true exactly
/// when the output contains the substring `"screen locked"`.
pub fn probe_reports_locked(output: &str) -> (locked: bool)
    ensures
        locked == contains_seq(output@, "screen locked"@),
{
    str_contains(output, "screen locked")
}

/// The reassertion policy for an active tick: a screen found locked while
/// suppression is active is treated as the user's own doing and left alone;
/// only an unlocked screen gets the one-shot deactivate action.
pub fn should_deactivate(locked: bool) -> (deactivate: bool)
    ensures
        deactivate == !locked,
{
    !locked
}

} // verus!
