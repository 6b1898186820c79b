use std::time::Duration;

use whiteout::event::WindowEvent;
use whiteout::policy::{
    key_press_dismisses, respond, step, Action, ExitReason, State, GRACE_PERIOD_NANOS,
};

const SECOND: u128 = 1_000_000_000;

const TIMES: [u128; 7] = [
    0,
    1,
    SECOND / 2,
    2 * SECOND - 1,
    2 * SECOND,
    3 * SECOND,
    u128::MAX,
];

fn key(is_escape: bool, has_text: bool) -> WindowEvent {
    WindowEvent::KeyboardInput { is_escape, has_text }
}

#[test]
fn grace_period_is_two_seconds() {
    assert_eq!(GRACE_PERIOD_NANOS, 2_000_000_000);
    assert_eq!(GRACE_PERIOD_NANOS, Duration::from_secs(2).as_nanos());
    assert_eq!(GRACE_PERIOD_NANOS, Duration::from_secs_f32(2.0).as_nanos());
}

#[test]
fn close_request_exits_at_any_time() {
    for elapsed in TIMES {
        assert_eq!(
            step(State::Armed, &WindowEvent::CloseRequested, elapsed),
            (State::Exiting, Action::Exit(ExitReason::CloseRequested))
        );
    }
}

#[test]
fn mouse_button_exits_at_any_time() {
    for elapsed in TIMES {
        assert_eq!(
            step(State::Armed, &WindowEvent::MouseInput, elapsed),
            (State::Exiting, Action::Exit(ExitReason::Mouse))
        );
    }
}

#[test]
fn escape_exits_even_at_time_zero() {
    for has_text in [false, true] {
        assert_eq!(
            step(State::Armed, &key(true, has_text), 0),
            (State::Exiting, Action::Exit(ExitReason::Keyboard))
        );
        for elapsed in TIMES {
            assert_eq!(
                step(State::Armed, &key(true, has_text), elapsed),
                (State::Exiting, Action::Exit(ExitReason::Keyboard))
            );
        }
    }
}

#[test]
fn key_within_grace_period_is_ignored() {
    for elapsed in [0, 1, SECOND / 2, SECOND, 2 * SECOND - 1] {
        for has_text in [false, true] {
            assert_eq!(
                step(State::Armed, &key(false, has_text), elapsed),
                (State::Armed, Action::Ignore)
            );
        }
    }
}

#[test]
fn key_without_text_is_ignored_at_any_time() {
    for elapsed in TIMES {
        assert_eq!(
            step(State::Armed, &key(false, false), elapsed),
            (State::Armed, Action::Ignore)
        );
    }
}

#[test]
fn key_with_text_after_grace_period_exits() {
    for elapsed in [2 * SECOND, 2 * SECOND + 1, 3 * SECOND, u128::MAX] {
        assert_eq!(
            step(State::Armed, &key(false, true), elapsed),
            (State::Exiting, Action::Exit(ExitReason::Keyboard))
        );
    }
}

#[test]
fn grace_period_ends_at_exactly_two_seconds() {
    assert!(!key_press_dismisses(false, true, 1_999_999_999));
    assert!(key_press_dismisses(false, true, 2_000_000_000));
}

#[test]
fn key_press_is_decided_for_every_combination() {
    assert!(key_press_dismisses(true, false, 0));
    assert!(key_press_dismisses(true, true, 0));
    assert!(key_press_dismisses(true, false, 5 * SECOND));
    assert!(key_press_dismisses(true, true, 5 * SECOND));
    assert!(!key_press_dismisses(false, false, 0));
    assert!(!key_press_dismisses(false, true, 0));
    assert!(!key_press_dismisses(false, false, 5 * SECOND));
    assert!(key_press_dismisses(false, true, 5 * SECOND));
}

#[test]
fn redraw_request_asks_for_a_redraw() {
    for elapsed in TIMES {
        assert_eq!(
            step(State::Armed, &WindowEvent::RedrawRequested, elapsed),
            (State::Armed, Action::Redraw)
        );
    }
}

#[test]
fn other_events_are_ignored() {
    for elapsed in TIMES {
        assert_eq!(
            step(State::Armed, &WindowEvent::Other, elapsed),
            (State::Armed, Action::Ignore)
        );
    }
}

#[test]
fn exiting_is_terminal() {
    let events = [
        WindowEvent::CloseRequested,
        WindowEvent::RedrawRequested,
        key(true, true),
        key(true, false),
        key(false, true),
        key(false, false),
        WindowEvent::MouseInput,
        WindowEvent::Other,
    ];
    for event in events {
        for elapsed in TIMES {
            assert_eq!(
                step(State::Exiting, &event, elapsed),
                (State::Exiting, Action::Ignore)
            );
        }
    }
}

#[test]
fn armed_machine_exits_exactly_when_told_to() {
    let events = [
        WindowEvent::CloseRequested,
        WindowEvent::RedrawRequested,
        key(true, true),
        key(true, false),
        key(false, true),
        key(false, false),
        WindowEvent::MouseInput,
        WindowEvent::Other,
    ];
    for event in events {
        for elapsed in TIMES {
            let (next, action) = step(State::Armed, &event, elapsed);
            assert_eq!(action, respond(&event, elapsed));
            assert_eq!(next == State::Exiting, matches!(action, Action::Exit(_)));
        }
    }
}

#[test]
fn respond_names_the_event_that_ends_the_session() {
    assert_eq!(
        respond(&WindowEvent::CloseRequested, 0),
        Action::Exit(ExitReason::CloseRequested)
    );
    assert_eq!(respond(&WindowEvent::MouseInput, 0), Action::Exit(ExitReason::Mouse));
    assert_eq!(respond(&key(true, false), 0), Action::Exit(ExitReason::Keyboard));
    assert_eq!(respond(&key(false, true), 3 * SECOND), Action::Exit(ExitReason::Keyboard));
    assert_eq!(respond(&key(false, true), SECOND), Action::Ignore);
    assert_eq!(respond(&WindowEvent::RedrawRequested, 0), Action::Redraw);
    assert_eq!(respond(&WindowEvent::Other, 0), Action::Ignore);
}

#[test]
fn exit_messages_name_the_event() {
    assert_eq!(
        ExitReason::CloseRequested.message(),
        "The close button was pressed; stopping"
    );
    assert_eq!(ExitReason::Keyboard.message(), "Keyboard event received; stopping");
    assert_eq!(ExitReason::Mouse.message(), "Mouse event received; stopping");
}
