//! Playback state of the trigger player, reduced to the one question the
//! ducking decision needs — is it playing right now? — with a fail-safe
//! default: a status that cannot be read never forces a duck.

use vstd::prelude::*;

verus! {

/// A playback status as the player control surface reports it.
#[derive(Clone, Copy, Debug, PartialEq, Eq, Structural)]
pub enum RawStatus {
    Playing,
    Paused,
    Stopped,
}

/// The effective playback state the ducking decision works with.
#[derive(Clone, Copy, Debug, PartialEq, Eq, Structural)]
pub enum PlaybackState {
    Playing,
    NotPlaying,
}

/// Reduce a raw status reading to the effective playback state. The state
/// is `Playing` exactly when the reading succeeded and reported `Playing`;
/// everything else — paused, stopped, or a failed read (`None`) — counts as
/// `NotPlaying`, so a transient read error never causes a duck.
pub fn effective_playback(reading: Option<RawStatus>) -> (state: PlaybackState)
    ensures
        state == PlaybackState::Playing <==> reading == Some(RawStatus::Playing),
        reading is None ==> state == PlaybackState::NotPlaying,
{
    match reading {
        Some(RawStatus::Playing) => PlaybackState::Playing,
        _ => PlaybackState::NotPlaying,
    }
}

} // verus!
