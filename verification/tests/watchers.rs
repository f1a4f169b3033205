use lockwatch::message_loop::{
    decode_message, watch_messages, MessageLoopPhase, MessageLoopWatcher, SessionMessage,
    SESSION_CHANGE_MESSAGE, SESSION_LOCK_CODE, SESSION_UNLOCK_CODE,
};
use lockwatch::polling::{run_polls, PollWatcher};
use lockwatch::property_stream::{
    watch_property_stream, PropertyStreamPhase, PropertyStreamWatcher,
};
use lockwatch::LockStateChange;

fn lock_message() -> SessionMessage {
    SessionMessage {
        message: SESSION_CHANGE_MESSAGE,
        code: SESSION_LOCK_CODE,
    }
}

fn unlock_message() -> SessionMessage {
    SessionMessage {
        message: SESSION_CHANGE_MESSAGE,
        code: SESSION_UNLOCK_CODE,
    }
}

#[test]
fn polling_scenario_first_lock_then_repeats_then_unlock() {
    // Initial state unknown; the first poll observes "locked".
    let mut w = PollWatcher::new();
    assert_eq!(w.observe(true), Some(true));
    // The next four polls observe "locked" again: no further calls.
    for _ in 0..4 {
        assert_eq!(w.observe(true), None);
    }
    // The next poll observes "unlocked": exactly one notify(false).
    assert_eq!(w.observe(false), Some(false));
}

#[test]
fn polling_first_observation_emits_even_when_unlocked() {
    let mut w = PollWatcher::new();
    assert_eq!(w.observe(false), Some(false));
    assert_eq!(w.observe(false), None);
}

#[test]
fn polling_run_collapses_repeats() {
    let observations = vec![true, true, true, true, true, false];
    assert_eq!(run_polls(&observations), vec![true, false]);

    let observations = vec![false, true, true, false, false, true];
    assert_eq!(run_polls(&observations), vec![false, true, false, true]);

    let observations: Vec<bool> = vec![];
    assert_eq!(run_polls(&observations), Vec::<bool>::new());
}

#[test]
fn message_decode_lock_and_unlock() {
    assert_eq!(decode_message(lock_message()), Some(true));
    assert_eq!(decode_message(unlock_message()), Some(false));
}

#[test]
fn message_decode_ignores_unrelated() {
    // An unrelated message number, whatever its code.
    let unrelated = SessionMessage {
        message: 0x0010,
        code: SESSION_LOCK_CODE,
    };
    assert_eq!(decode_message(unrelated), None);
    // A session-change message with a state code that is neither lock
    // nor unlock (e.g. a remote-connect code).
    let other_code = SessionMessage {
        message: SESSION_CHANGE_MESSAGE,
        code: 0x9,
    };
    assert_eq!(decode_message(other_code), None);
    let zero = SessionMessage {
        message: 0,
        code: 0,
    };
    assert_eq!(decode_message(zero), None);
}

#[test]
fn message_watch_lock_then_unlock_notifies_twice() {
    // After a successful setup, a lock followed by an unlock produces
    // exactly two notifications, true then false.
    let msgs = vec![lock_message(), unlock_message()];
    let (w, notifies) = watch_messages(true, true, true, true, &msgs);
    assert_eq!(notifies, vec![true, false]);
    assert_eq!(w.phase, MessageLoopPhase::Stopped);
    assert!(!w.window_open);
    assert!(!w.session_registered);
}

#[test]
fn message_watch_drops_noise_between_transitions() {
    let msgs = vec![
        SessionMessage {
            message: 0x0113,
            code: 0,
        },
        lock_message(),
        SessionMessage {
            message: SESSION_CHANGE_MESSAGE,
            code: 0x5,
        },
        unlock_message(),
    ];
    let (_, notifies) = watch_messages(true, true, true, true, &msgs);
    assert_eq!(notifies, vec![true, false]);
}

#[test]
fn message_watch_failed_setup_is_silent_at_every_stage() {
    let msgs = vec![lock_message(), unlock_message()];
    for failed_stage in 0..4 {
        let (w, notifies) = watch_messages(
            failed_stage != 0,
            failed_stage != 1,
            failed_stage != 2,
            failed_stage != 3,
            &msgs,
        );
        assert_eq!(notifies, Vec::<bool>::new());
        assert_eq!(w.phase, MessageLoopPhase::Stopped);
        assert!(!w.window_open);
        assert!(!w.session_registered);
    }
}

#[test]
fn message_watch_registration_failure_releases_window() {
    // Drive the steps by hand: the window had been created when the
    // session registration failed, and the machine gives it up.
    let mut w = MessageLoopWatcher::new();
    assert!(w.module_resolved(true));
    assert!(w.class_registered(true));
    assert!(w.window_created(true));
    assert!(w.window_open);
    assert!(!w.session_registration_done(false));
    assert_eq!(w.phase, MessageLoopPhase::Stopped);
    assert!(!w.window_open);
    assert!(!w.session_registered);
}

#[test]
fn stream_passes_signals_through_without_dedup() {
    // The signal watcher does not de-duplicate: it passes every
    // well-formed change value through as it came.
    let signals = vec![Some(true), Some(true), Some(false), Some(false), Some(true)];
    let (_, notifies) = watch_property_stream(true, true, None, &signals);
    assert_eq!(notifies, vec![true, true, false, false, true]);
}

#[test]
fn stream_scenario_bus_delivers_only_changes() {
    // The property's raw timeline is true, true, false, false, true.
    // The bus signals only real changes, so the watcher receives the
    // values at positions 1, 3 and 5 of that timeline and notifies
    // true, false, true.
    let timeline = [true, true, false, false, true];
    let mut delivered: Vec<Option<bool>> = Vec::new();
    let mut previous: Option<bool> = None;
    for &value in timeline.iter() {
        if previous != Some(value) {
            delivered.push(Some(value));
            previous = Some(value);
        }
    }
    assert_eq!(delivered, vec![Some(true), Some(false), Some(true)]);
    let (_, notifies) = watch_property_stream(true, true, None, &delivered);
    assert_eq!(notifies, vec![true, false, true]);
}

#[test]
fn stream_skips_malformed_signals() {
    let signals = vec![Some(true), None, None, Some(false)];
    let (_, notifies) = watch_property_stream(true, true, None, &signals);
    assert_eq!(notifies, vec![true, false]);
}

#[test]
fn stream_all_malformed_is_silent() {
    let signals = vec![None, None, None];
    let (_, notifies) = watch_property_stream(true, true, None, &signals);
    assert_eq!(notifies, Vec::<bool>::new());
}

#[test]
fn stream_emits_initial_state_once() {
    // A session already locked when the watcher starts is reported at
    // once, before any change signal.
    let signals = vec![Some(false)];
    let (_, notifies) = watch_property_stream(true, true, Some(true), &signals);
    assert_eq!(notifies, vec![true, false]);
}

#[test]
fn stream_failed_initial_read_still_streams() {
    let signals = vec![Some(true)];
    let (_, notifies) = watch_property_stream(true, true, None, &signals);
    assert_eq!(notifies, vec![true]);
}

#[test]
fn stream_lock_then_unlock_notifies_twice() {
    // The signal-driven counterpart: after a successful setup, a lock
    // signal followed by an unlock signal gives exactly true then false.
    let signals = vec![Some(true), Some(false)];
    let (w, notifies) = watch_property_stream(true, true, None, &signals);
    assert_eq!(notifies, vec![true, false]);
    assert_eq!(w.phase, PropertyStreamPhase::Stopped);
    assert!(!w.connection_open);
}

#[test]
fn stream_failed_setup_is_silent() {
    let signals = vec![Some(true), Some(false)];
    for failed_stage in 0..2 {
        let (w, notifies) =
            watch_property_stream(failed_stage != 0, failed_stage != 1, Some(true), &signals);
        assert_eq!(notifies, Vec::<bool>::new());
        assert_eq!(w.phase, PropertyStreamPhase::Stopped);
        assert!(!w.connection_open);
    }
}

#[test]
fn stream_proxy_failure_releases_connection() {
    let mut w = PropertyStreamWatcher::new();
    assert!(w.connection_opened(true));
    assert!(w.connection_open);
    assert!(!w.proxy_built(false));
    assert_eq!(w.phase, PropertyStreamPhase::Stopped);
    assert!(!w.connection_open);
}

#[test]
fn lock_state_change_carries_the_state() {
    let change = LockStateChange { locked: true };
    assert!(change.locked);
    let change = LockStateChange { locked: false };
    assert!(!change.locked);
}
