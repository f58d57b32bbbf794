//! Suppression state machine for a screen-lock inhibitor daemon.
//!
//! The daemon temporarily suppresses a screen-locking utility on request and
//! automatically re-enables it after a bounded time window.  This crate holds
//! the verified core: the shared suppression record and its four control
//! operations (`Enable`, `Disable`, `Status`, `Quit`), the deadline-check
//! expiry logic, the per-tick decision of the reassertion loop, the
//! interpretation of the external lock probe's output, and the command-line
//! argument parser.  The unverified shell around it (bus registration, process
//! spawning, threads) lives outside this crate and only exchanges plain values
//! with it.

pub mod cli;
pub mod laws;
pub mod probe;
pub mod state;
pub mod text;
