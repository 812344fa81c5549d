//! Compiled-in configuration: player identities, the two volume levels the
//! daemon moves between, the total budget of one volume transition, and the
//! poll interval of the monitor loop.

use vstd::prelude::*;

verus! {

/// Identity of the target player, whose volume is ducked and restored.
pub const TARGET_IDENTITY: &'static str = "Spotify";

/// Identity of the trigger player, whose playback activity causes ducking.
pub const TRIGGER_IDENTITY: &'static str = "Mozilla zen";

/// Volume percentage the target is lowered to while the trigger plays.
pub const LOWER_VOLUME: u8 = 45;

/// Volume percentage the target is restored to once the trigger stops.
pub const NORMAL_VOLUME: u8 = 80;

/// Total wall-clock budget of one volume transition, in nanoseconds (300 ms).
pub const TRANSITION_BUDGET_NANOS: u64 = 300_000_000;

/// Fixed interval between two polls of the monitor loop, in seconds. The
/// loop sleeps this long after every tick, whatever the tick observed.
pub const POLL_INTERVAL_SECS: u64 = 1;

} // verus!
