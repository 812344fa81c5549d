use ducker::directory::{resolve_lookup, FindOutcome};
use ducker::errors::FatalError;
use ducker::monitor::{Action, Monitor};
use ducker::playback::{effective_playback, PlaybackState, RawStatus};

#[test]
fn debounce_over_a_poll_sequence() {
    let polls = [
        PlaybackState::NotPlaying,
        PlaybackState::Playing,
        PlaybackState::Playing,
        PlaybackState::Playing,
        PlaybackState::NotPlaying,
    ];
    let mut monitor = Monitor::new();
    let mut ducks: u32 = 0;
    let mut restores: u32 = 0;
    let mut actions = Vec::new();
    for state in polls {
        let action = monitor.tick(true, Some(state));
        match action {
            Action::Duck => ducks += 1,
            Action::Restore => restores += 1,
            Action::Hold => {}
        }
        actions.push(action);
    }
    assert_eq!(ducks, 1);
    assert_eq!(restores, 1);
    assert_eq!(actions[1], Action::Duck);
    assert_eq!(actions[4], Action::Restore);
    assert!(!monitor.ducked);
}

#[test]
fn unreadable_status_counts_as_not_playing() {
    assert_eq!(effective_playback(None), PlaybackState::NotPlaying);
}

#[test]
fn only_a_playing_report_counts_as_playing() {
    assert_eq!(
        effective_playback(Some(RawStatus::Playing)),
        PlaybackState::Playing
    );
    assert_eq!(
        effective_playback(Some(RawStatus::Paused)),
        PlaybackState::NotPlaying
    );
    assert_eq!(
        effective_playback(Some(RawStatus::Stopped)),
        PlaybackState::NotPlaying
    );
}

#[test]
fn unreadable_status_never_ducks() {
    let mut monitor = Monitor::new();
    let state = effective_playback(None);
    let action = monitor.tick(true, Some(state));
    assert_eq!(action, Action::Hold);
    assert!(!monitor.ducked);
}

#[test]
fn absent_target_means_no_action_even_while_trigger_plays() {
    let mut monitor = Monitor::new();
    let action = monitor.tick(false, Some(PlaybackState::Playing));
    assert_eq!(action, Action::Hold);
    assert!(!monitor.ducked);
}

#[test]
fn trigger_vanishing_while_ducked_restores_once() {
    let mut monitor = Monitor::new();
    assert_eq!(monitor.tick(true, Some(PlaybackState::Playing)), Action::Duck);
    assert!(monitor.ducked);
    // The trigger player goes away while the target is still present.
    assert_eq!(monitor.tick(true, None), Action::Restore);
    assert!(!monitor.ducked);
    // And only once: the next tick on the same observation holds.
    assert_eq!(monitor.tick(true, None), Action::Hold);
    assert!(!monitor.ducked);
}

#[test]
fn target_vanishing_while_ducked_restores_once() {
    let mut monitor = Monitor::new();
    assert_eq!(monitor.tick(true, Some(PlaybackState::Playing)), Action::Duck);
    assert_eq!(monitor.tick(false, None), Action::Restore);
    assert!(!monitor.ducked);
    assert_eq!(monitor.tick(false, None), Action::Hold);
}

#[test]
fn steady_playing_never_ducks_twice() {
    let mut monitor = Monitor::new();
    assert_eq!(monitor.tick(true, Some(PlaybackState::Playing)), Action::Duck);
    for _ in 0..10 {
        assert_eq!(monitor.tick(true, Some(PlaybackState::Playing)), Action::Hold);
        assert!(monitor.ducked);
    }
}

#[test]
fn steady_silence_never_restores() {
    let mut monitor = Monitor::new();
    for _ in 0..10 {
        assert_eq!(monitor.tick(true, Some(PlaybackState::NotPlaying)), Action::Hold);
        assert!(!monitor.ducked);
    }
}

#[test]
fn found_player_resolves_to_present() {
    assert_eq!(resolve_lookup(FindOutcome::Found), Ok(true));
}

#[test]
fn missing_player_is_a_normal_absence() {
    assert_eq!(resolve_lookup(FindOutcome::NotFound), Ok(false));
}

#[test]
fn unreachable_transport_is_fatal() {
    assert_eq!(
        resolve_lookup(FindOutcome::TransportFailure),
        Err(FatalError::TransportUnreachable)
    );
}
