//! The ducking state machine. Once per poll tick the monitor looks at the
//! target's presence and the trigger's playback state and decides whether to
//! duck, to restore, or to do nothing. The only state carried from tick to
//! tick is the `ducked` flag, and actions fire only when the observed
//! condition changes — never again while it stays the same — so a steady
//! state causes no redundant volume writes.

use vstd::prelude::*;

use crate::playback::PlaybackState;

verus! {

/// What the monitor asks its caller to do after one tick.
#[derive(Clone, Copy, Debug, PartialEq, Eq, Structural)]
pub enum Action {
    /// Lower the target's volume to the configured lower level.
    Duck,
    /// Bring the target's volume back to the configured normal level.
    Restore,
    /// Do nothing until the next tick.
    Hold,
}

/// The decision rule of one poll tick, given the current `ducked` flag, the
/// target's presence, and the trigger's state (`None` when the trigger
/// player is absent):
///
/// - target absent: no duck/restore decision is made for this tick, except
///   that a target that went away while ducked is restored at once, so it is
///   never left marked silent;
/// - trigger absent, or present and not playing: restore if ducked;
/// - trigger playing: duck if not yet ducked;
/// - anything else: hold.
pub open spec fn decide(ducked: bool, target_present: bool, trigger: Option<PlaybackState>) -> Action {
    if !target_present {
        if ducked {
            Action::Restore
        } else {
            Action::Hold
        }
    } else {
        match trigger {
            None => if ducked {
                Action::Restore
            } else {
                Action::Hold
            },
            Some(PlaybackState::Playing) => if ducked {
                Action::Hold
            } else {
                Action::Duck
            },
            Some(PlaybackState::NotPlaying) => if ducked {
                Action::Restore
            } else {
                Action::Hold
            },
        }
    }
}

/// The `ducked` flag after a tick: set by a duck, cleared by a restore, and
/// untouched by a hold.
pub open spec fn ducked_after(ducked: bool, target_present: bool, trigger: Option<
    PlaybackState,
>) -> bool {
    match decide(ducked, target_present, trigger) {
        Action::Duck => true,
        Action::Restore => false,
        Action::Hold => ducked,
    }
}

/// The playback monitor: the one piece of state the daemon carries across
/// polling ticks.
pub struct Monitor {
    /// True exactly while the last fired transition was a duck and no
    /// restore has fired since.
    pub ducked: bool,
}

impl Monitor {
    /// A fresh monitor starts in the normal, non-ducked state.
    pub fn new() -> (m: Monitor)
        ensures
            !m.ducked,
    {
        Monitor { ducked: false }
    }

    /// Evaluate one poll tick: return the action to perform and update the
    /// `ducked` flag accordingly. A duck fires only from the non-ducked
    /// state and a restore only from the ducked state, so the flag is true
    /// exactly between a duck and the following restore.
    pub fn tick(&mut self, target_present: bool, trigger: Option<PlaybackState>) -> (action:
        Action)
        ensures
            action == decide(old(self).ducked, target_present, trigger),
            final(self).ducked == ducked_after(old(self).ducked, target_present, trigger),
            action == Action::Duck ==> !old(self).ducked && final(self).ducked,
            action == Action::Restore ==> old(self).ducked && !final(self).ducked,
            action == Action::Hold ==> final(self).ducked == old(self).ducked,
    {
        let action = if !target_present {
            if self.ducked {
                Action::Restore
            } else {
                Action::Hold
            }
        } else {
            match trigger {
                None => if self.ducked {
                    Action::Restore
                } else {
                    Action::Hold
                },
                Some(PlaybackState::Playing) => if self.ducked {
                    Action::Hold
                } else {
                    Action::Duck
                },
                Some(PlaybackState::NotPlaying) => if self.ducked {
                    Action::Restore
                } else {
                    Action::Hold
                },
            }
        };
        match action {
            Action::Duck => {
                self.ducked = true;
            },
            Action::Restore => {
                self.ducked = false;
            },
            Action::Hold => {},
        }
        action
    }
}

/// Debounce: duck and restore fire on state transitions only. After any
/// tick, a second tick on the very same observation holds — whatever the
/// observation and whatever state the monitor was in — so a steady state
/// never fires the same action twice.
pub proof fn lemma_debounce(ducked: bool, target_present: bool, trigger: Option<PlaybackState>)
    ensures
        decide(ducked_after(ducked, target_present, trigger), target_present, trigger)
            == Action::Hold,
{
}

} // verus!
