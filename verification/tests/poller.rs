use xinputdj::xinput_handler::{
    get_button, start_xinput_thread, stop_xinput_thread, ButtonId, ButtonState, ControllerState,
    PollAction, PollerState, StickPosition, StickState, MAX_ERRORS,
};

fn idle_snapshot() -> ControllerState {
    let centre = StickPosition { radius: 0, bearing: 0 };
    ControllerState {
        sticks: StickState { left: centre, right: centre },
        buttons: ButtonState::released(),
    }
}

#[test]
fn poller_start_is_idempotent() {
    let mut poller = PollerState::new();
    assert_eq!(poller, PollerState { running: false, consecutive_errors: 0 });
    assert!(start_xinput_thread(&mut poller));
    assert!(poller.running);
    poller.consecutive_errors = 3;
    assert!(!start_xinput_thread(&mut poller));
    assert_eq!(poller, PollerState { running: true, consecutive_errors: 3 });
}

#[test]
fn poller_stop_and_restart() {
    let mut poller = PollerState { running: true, consecutive_errors: 2 };
    stop_xinput_thread(&mut poller);
    assert_eq!(poller, PollerState { running: false, consecutive_errors: 2 });
    assert!(start_xinput_thread(&mut poller));
    assert_eq!(poller, PollerState { running: true, consecutive_errors: 0 });
}

#[test]
fn good_read_is_forwarded_and_clears_errors() {
    let mut poller = PollerState { running: true, consecutive_errors: 4 };
    let snap = ControllerState {
        buttons: ButtonState { south: true, ..ButtonState::released() },
        ..idle_snapshot()
    };
    assert_eq!(poller.record_read(Some(snap)), PollAction::Forward(snap));
    assert_eq!(poller, PollerState { running: true, consecutive_errors: 0 });
}

#[test]
fn fifth_failure_in_a_row_disconnects() {
    assert_eq!(MAX_ERRORS, 5);
    let mut poller = PollerState::new();
    start_xinput_thread(&mut poller);
    for failures in 1..5 {
        assert_eq!(poller.record_read(None), PollAction::Retry);
        assert_eq!(poller, PollerState { running: true, consecutive_errors: failures });
    }
    assert_eq!(poller.record_read(None), PollAction::Disconnected);
    assert_eq!(poller, PollerState { running: false, consecutive_errors: 0 });
}

#[test]
fn good_read_between_failures_starts_the_count_again() {
    let mut poller = PollerState { running: true, consecutive_errors: 0 };
    for _ in 0..4 {
        assert_eq!(poller.record_read(None), PollAction::Retry);
    }
    assert_eq!(poller.record_read(Some(idle_snapshot())), PollAction::Forward(idle_snapshot()));
    for _ in 0..4 {
        assert_eq!(poller.record_read(None), PollAction::Retry);
    }
    assert!(poller.running);
    assert_eq!(poller.record_read(None), PollAction::Disconnected);
}

#[test]
fn overlong_error_count_disconnects_at_once() {
    let mut poller = PollerState { running: true, consecutive_errors: u32::MAX };
    assert_eq!(poller.record_read(None), PollAction::Disconnected);
    assert_eq!(poller, PollerState { running: false, consecutive_errors: 0 });
}

#[test]
fn every_button_is_read_from_its_own_field() {
    let ids = [
        ButtonId::South,
        ButtonId::East,
        ButtonId::West,
        ButtonId::North,
        ButtonId::Up,
        ButtonId::Down,
        ButtonId::Left,
        ButtonId::Right,
        ButtonId::L,
        ButtonId::Lt,
        ButtonId::R,
        ButtonId::Rt,
        ButtonId::LStick,
        ButtonId::RStick,
        ButtonId::Start,
        ButtonId::Select,
    ];
    let none = ButtonState::released();
    let singles = [
        ButtonState { south: true, ..none },
        ButtonState { east: true, ..none },
        ButtonState { west: true, ..none },
        ButtonState { north: true, ..none },
        ButtonState { up: true, ..none },
        ButtonState { down: true, ..none },
        ButtonState { left: true, ..none },
        ButtonState { right: true, ..none },
        ButtonState { l: true, ..none },
        ButtonState { lt: true, ..none },
        ButtonState { r: true, ..none },
        ButtonState { rt: true, ..none },
        ButtonState { l_stick: true, ..none },
        ButtonState { r_stick: true, ..none },
        ButtonState { start: true, ..none },
        ButtonState { select: true, ..none },
    ];
    for (i, buttons) in singles.iter().enumerate() {
        for (j, id) in ids.iter().enumerate() {
            assert_eq!(get_button(buttons, *id), i == j);
        }
    }
    for id in ids {
        assert!(!get_button(&none, id));
    }
}
