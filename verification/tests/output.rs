use chord2key::actions::{
    AxisList, KeyStateChange, OutputAction, Pulse, StateChange, Toggle,
};
use chord2key::actuator::{next_wait, pulse_time};
use chord2key::constants::{KeyCode, PressState, RelAxisCode};
use chord2key::events::{AbsAxisEvent, KeyEvent, RelAxisEvent};
use chord2key::output_state::{hands_off_action, OutputEvent, OutputState};

/// This test ensures that the package is imported correctly.
#[test]
fn evdev_io_can_import() {
    assert_eq!(chord2key::constants::KeyCode::KEY_ESC, chord2key::constants::KeyCode::KEY_ESC);
}

/// A pulse taps each key: up, down and up again, leaving it released.
#[test]
fn output_pulse_emits_taps() {
    let mut state = OutputState::init();
    let action = OutputAction::Pulse(Pulse::new(Some(vec![KeyCode::BTN_TRIGGER_HAPPY1]), None));
    let events = state.execute_event(&action);
    assert_eq!(
        events,
        vec![
            OutputEvent::Key(KeyCode::BTN_TRIGGER_HAPPY1, PressState::Up),
            OutputEvent::Key(KeyCode::BTN_TRIGGER_HAPPY1, PressState::Down),
            OutputEvent::Key(KeyCode::BTN_TRIGGER_HAPPY1, PressState::Up),
        ]
    );
    assert_eq!(state.key_state(KeyCode::BTN_TRIGGER_HAPPY1), PressState::Up);
}

/// A state change presses explicitly and stores axis velocity without
/// emitting motion by itself.
#[test]
fn output_state_change() {
    let mut state = OutputState::init();
    let action = OutputAction::StateChange(StateChange::new(
        Some(KeyStateChange { keys: vec![KeyCode::KEY_W], state: PressState::Down }),
        Some(AxisList(vec![RelAxisEvent::new(RelAxisCode::REL_X, 3)])),
    ));
    let events = state.execute_event(&action);
    assert_eq!(events, vec![OutputEvent::Key(KeyCode::KEY_W, PressState::Down)]);
    assert_eq!(state.key_state(KeyCode::KEY_W), PressState::Down);
    assert_eq!(state.axis_value(RelAxisCode::REL_X), 3);
}

/// A toggle flips press state each time, and flips an axis between the
/// given velocity and zero.
#[test]
fn output_toggle_flips() {
    let mut state = OutputState::init();
    let action = OutputAction::Toggle(Toggle::new(
        Some(vec![KeyCode::KEY_W]),
        Some(AxisList(vec![RelAxisEvent::new(RelAxisCode::REL_X, 4)])),
    ));

    let events = state.execute_event(&action);
    assert_eq!(events, vec![OutputEvent::Key(KeyCode::KEY_W, PressState::Down)]);
    assert_eq!(state.key_state(KeyCode::KEY_W), PressState::Down);
    assert_eq!(state.axis_value(RelAxisCode::REL_X), 4);

    let events = state.execute_event(&action);
    assert_eq!(events, vec![OutputEvent::Key(KeyCode::KEY_W, PressState::Up)]);
    assert_eq!(state.key_state(KeyCode::KEY_W), PressState::Up);
    assert_eq!(state.axis_value(RelAxisCode::REL_X), 0);
}

/// The integration step emits one motion event per axis with non-zero
/// stored velocity, and nothing else.
#[test]
fn output_pulse_rel_axes() {
    let mut state = OutputState::init();
    assert_eq!(state.pulse_rel_axes(), vec![]);
    let action = OutputAction::StateChange(StateChange::new(
        None,
        Some(AxisList(vec![
            RelAxisEvent::new(RelAxisCode::REL_X, 2),
            RelAxisEvent::new(RelAxisCode::REL_Y, -1),
        ])),
    ));
    state.execute_event(&action);
    assert_eq!(
        state.pulse_rel_axes(),
        vec![
            OutputEvent::RelAxis(RelAxisCode::REL_X, 2),
            OutputEvent::RelAxis(RelAxisCode::REL_Y, -1),
        ]
    );
    // Integration does not consume the stored velocity.
    assert_eq!(state.pulse_rel_axes().len(), 2);
}

/// Hands-off idempotence: the reset produces the same universal
/// key-release both times and leaves no key marked down and no velocity
/// stored.
#[test]
fn hands_off_idempotent() {
    let mut state = OutputState::init();
    // Engage some output first.
    state.execute_event(&OutputAction::Toggle(Toggle::new(
        Some(vec![KeyCode::KEY_W, KeyCode::BTN_LEFT]),
        Some(AxisList(vec![RelAxisEvent::new(RelAxisCode::REL_X, 9)])),
    )));
    assert_eq!(state.key_state(KeyCode::KEY_W), PressState::Down);

    let reset = OutputAction::StateChange(hands_off_action());
    let first = state.execute_event(&reset);
    let second = state.execute_event(&reset);
    assert_eq!(first, second);

    for key in [KeyCode::KEY_W, KeyCode::BTN_LEFT, KeyCode::KEY_ESC, KeyCode::BTN_TRIGGER_HAPPY4] {
        assert_eq!(state.key_state(key), PressState::Up);
    }
    for axis in [RelAxisCode::REL_X, RelAxisCode::REL_Y, RelAxisCode::REL_WHEEL] {
        assert_eq!(state.axis_value(axis), 0);
    }
    assert_eq!(state.pulse_rel_axes(), vec![]);
}

/// The action algebra is total: every shape converts into every other,
/// keys and axes passing through.
#[test]
fn action_algebra_conversions() {
    let sc = StateChange::new(
        Some(KeyStateChange { keys: vec![KeyCode::KEY_A], state: PressState::Up }),
        Some(AxisList(vec![RelAxisEvent::new(RelAxisCode::REL_X, 7)])),
    );
    let pulse = OutputAction::StateChange(sc.clone()).into_pulse();
    assert_eq!(pulse.keys, Some(vec![KeyCode::KEY_A]));
    assert_eq!(pulse.axes, Some(AxisList(vec![RelAxisEvent::new(RelAxisCode::REL_X, 7)])));

    // Pulse to state change assumes key-down.
    let sc2 = OutputAction::Pulse(pulse).into_state_change();
    assert_eq!(
        sc2.keys,
        Some(KeyStateChange { keys: vec![KeyCode::KEY_A], state: PressState::Down })
    );

    let toggle = OutputAction::StateChange(sc).into_toggle();
    assert_eq!(toggle.keys, Some(vec![KeyCode::KEY_A]));
    let sc3 = OutputAction::Toggle(toggle).into_state_change();
    assert_eq!(
        sc3.keys,
        Some(KeyStateChange { keys: vec![KeyCode::KEY_A], state: PressState::Down })
    );
}

/// Inverting a state change flips its keys and zeroes its axes.
#[test]
fn state_change_inverse() {
    let mut change = StateChange::new(
        Some(KeyStateChange { keys: vec![KeyCode::KEY_W], state: PressState::Down }),
        Some(AxisList(vec![RelAxisEvent::new(RelAxisCode::REL_X, 5)])),
    );
    change.inverse();
    assert_eq!(change.keys.as_ref().unwrap().state, PressState::Up);
    assert_eq!(change.axes.as_ref().unwrap().iter()[0].state(), 0);
    change.inverse();
    assert_eq!(change.keys.unwrap().state, PressState::Down);
}

/// Event accessors round-trip their construction values.
#[test]
fn event_accessors() {
    let kev = KeyEvent::new(KeyCode::KEY_W, PressState::Down);
    assert_eq!(kev.key(), KeyCode::KEY_W);
    assert_eq!(kev.state(), PressState::Down);

    let aev = AbsAxisEvent::new(chord2key::constants::AbsAxisCode::ABS_X, -5);
    assert_eq!(aev.axis(), chord2key::constants::AbsAxisCode::ABS_X);
    assert_eq!(aev.state(), -5);

    let mut rev = RelAxisEvent::new(RelAxisCode::REL_X, -5);
    assert_eq!(rev.axis(), RelAxisCode::REL_X);
    assert_eq!(rev.state(), -5);
    rev.set_state(10);
    assert_eq!(rev.state(), 10);
}

/// The actuator cadence: an early wakeup waits the remaining portion; a
/// late one integrates at once and starts a fresh full interval, so lateness
/// never accumulates.
#[test]
fn actuator_cadence() {
    assert_eq!(pulse_time(), 20);
    assert_eq!(next_wait(0, 20), (false, 20));
    assert_eq!(next_wait(7, 20), (false, 13));
    assert_eq!(next_wait(20, 20), (true, 20));
    assert_eq!(next_wait(33, 20), (true, 20));
}
