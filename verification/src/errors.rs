//! The two unrecoverable failure classes of the daemon. Everything else the
//! player control surface can report (a player being absent, a single volume
//! write failing) is a normal, recoverable condition that the caller logs or
//! retries, and is represented by ordinary `Option` / `Result` values at the
//! functions concerned.

use vstd::prelude::*;

verus! {

/// A failure that the daemon cannot recover from: the process terminates
/// with a diagnostic instead of polling on.
#[derive(Clone, Copy, Debug, PartialEq, Eq, Structural)]
pub enum FatalError {
    /// The player control surface transport itself cannot be reached.
    /// This is an environment failure, not a player being absent.
    TransportUnreachable,
    /// The target's current volume could not be read before planning a
    /// transition; without a baseline no transition can safely proceed.
    BaselineReadFailed,
}

} // verus!
