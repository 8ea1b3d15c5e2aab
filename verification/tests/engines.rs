use chord2key::actions::{Action, AxisList, OutputAction, Pulse};
use chord2key::chord_map::{ChordInput, ChordMap};
use chord2key::constants::{AbsAxisCode, KeyCode, PressState, RelAxisCode};
use chord2key::events::{AbsAxisEvent, InputEvent, KeyEvent, RelAxisEvent};
use chord2key::modifier_map::{ModifierInput, ModifierMap};
use chord2key::mouse_map::{MouseMap, MouseProfile};
use chord2key::thresholds::{AllAxisThresholds, AxisThreshold, ThresholdType, ThresholdedAxis};

fn pulse_action(key: KeyCode) -> Action {
    Action::OutputAction(OutputAction::Pulse(Pulse::new(Some(vec![key]), None)))
}

fn key_down(key: KeyCode) -> InputEvent {
    InputEvent::KeyEvent(KeyEvent::new(key, PressState::Down))
}

fn key_up(key: KeyCode) -> InputEvent {
    InputEvent::KeyEvent(KeyEvent::new(key, PressState::Up))
}

fn abs(axis: AbsAxisCode, value: i32) -> InputEvent {
    InputEvent::AbsAxisEvent(AbsAxisEvent::new(axis, value))
}

/// Chord round-trip: with mapping {A,B} -> X, pressing A then B and
/// releasing one of them resolves the accumulated chord to X exactly once.
#[test]
fn chord_round_trip() {
    let chord_map = vec![
        (
            vec![ChordInput::Key(KeyCode::BTN_SOUTH), ChordInput::Key(KeyCode::BTN_WEST)],
            pulse_action(KeyCode::KEY_X),
        ),
    ];
    let mut engine = ChordMap::init(chord_map, AllAxisThresholds::init(vec![]), 0);

    assert_eq!(engine.handle_event(&key_down(KeyCode::BTN_SOUTH)), None);
    assert_eq!(engine.handle_event(&key_down(KeyCode::BTN_WEST)), None);
    let resolved = engine.handle_event(&key_up(KeyCode::BTN_WEST));
    assert_eq!(resolved, Some(pulse_action(KeyCode::KEY_X)));

    // The engine is no longer primed: the second release resolves nothing.
    assert_eq!(engine.handle_event(&key_up(KeyCode::BTN_SOUTH)), None);
}

/// Resolution happens on the first release, whichever key goes up first:
/// the accumulated subset at that moment decides.
#[test]
fn chord_resolves_on_first_release() {
    let chord_map = vec![
        (
            vec![ChordInput::Key(KeyCode::BTN_SOUTH), ChordInput::Key(KeyCode::BTN_WEST)],
            pulse_action(KeyCode::KEY_X),
        ),
    ];
    let mut engine = ChordMap::init(chord_map, AllAxisThresholds::init(vec![]), 0);

    assert_eq!(engine.handle_event(&key_down(KeyCode::BTN_SOUTH)), None);
    assert_eq!(engine.handle_event(&key_down(KeyCode::BTN_WEST)), None);
    // The accumulation holds {A,B} at the first release, so the bound
    // action resolves here too.
    assert_eq!(
        engine.handle_event(&key_up(KeyCode::BTN_SOUTH)),
        Some(pulse_action(KeyCode::KEY_X))
    );
    assert_eq!(engine.handle_event(&key_up(KeyCode::BTN_WEST)), None);
}

/// A single-key release resolves only the chord the accumulation matches:
/// a lone key bound to nothing yields nothing.
#[test]
fn chord_unbound_subset_yields_nothing() {
    let chord_map = vec![
        (
            vec![ChordInput::Key(KeyCode::BTN_SOUTH), ChordInput::Key(KeyCode::BTN_WEST)],
            pulse_action(KeyCode::KEY_X),
        ),
    ];
    let mut engine = ChordMap::init(chord_map, AllAxisThresholds::init(vec![]), 0);

    assert_eq!(engine.handle_event(&key_down(KeyCode::BTN_SOUTH)), None);
    assert_eq!(engine.handle_event(&key_up(KeyCode::BTN_SOUTH)), None);
}

/// A key outside the chord-input universe never primes the engine.
#[test]
fn chord_ignores_untracked_keys() {
    let chord_map = vec![
        (vec![ChordInput::Key(KeyCode::BTN_SOUTH)], pulse_action(KeyCode::KEY_J)),
    ];
    let mut engine = ChordMap::init(chord_map, AllAxisThresholds::init(vec![]), 0);

    assert_eq!(engine.handle_event(&key_down(KeyCode::KEY_Q)), None);
    assert_eq!(engine.handle_event(&key_up(KeyCode::KEY_Q)), None);
}

/// An axis chord input resolves when the axis recedes into the dead zone.
#[test]
fn chord_axis_recede_resolves() {
    let rsu = ThresholdedAxis::new(AbsAxisCode::ABS_RY, ThresholdType::Greater);
    let chord_map = vec![
        (vec![ChordInput::ThresholdedAxis(rsu)], pulse_action(KeyCode::KEY_U)),
    ];
    let thresholds = AllAxisThresholds::init(vec![
        (AbsAxisCode::ABS_RY, AxisThreshold { dir: ThresholdType::Greater, threshold: 2000 }),
    ]);
    let mut engine = ChordMap::init(chord_map, thresholds, 0);

    // Crossing the boundary accumulates and primes; nothing resolves yet.
    assert_eq!(engine.handle_event(&abs(AbsAxisCode::ABS_RY, 4000)), None);
    // Holding past the boundary retriggers nothing.
    assert_eq!(engine.handle_event(&abs(AbsAxisCode::ABS_RY, 5000)), None);
    // Receding into the dead zone resolves the pending chord.
    assert_eq!(
        engine.handle_event(&abs(AbsAxisCode::ABS_RY, 0)),
        Some(pulse_action(KeyCode::KEY_U))
    );
}

/// clear_state zeroes the accumulation without resolving anything.
#[test]
fn chord_clear_state_resolves_nothing() {
    let chord_map = vec![
        (vec![ChordInput::Key(KeyCode::BTN_SOUTH)], pulse_action(KeyCode::KEY_J)),
    ];
    let mut engine = ChordMap::init(chord_map, AllAxisThresholds::init(vec![]), 0);
    assert_eq!(engine.handle_event(&key_down(KeyCode::BTN_SOUTH)), None);
    engine.clear_state();
    // The accumulation is gone, so the release resolves nothing.
    assert_eq!(engine.handle_event(&key_up(KeyCode::BTN_SOUTH)), None);
}

/// get_prev_action remembers the last resolved chord for repeats.
#[test]
fn chord_prev_action_remembered() {
    let chord_map = vec![
        (vec![ChordInput::Key(KeyCode::BTN_SOUTH)], pulse_action(KeyCode::KEY_J)),
    ];
    let mut engine = ChordMap::init(chord_map, AllAxisThresholds::init(vec![]), 0);
    assert_eq!(engine.get_prev_action(), None);
    engine.handle_event(&key_down(KeyCode::BTN_SOUTH));
    engine.handle_event(&key_up(KeyCode::BTN_SOUTH));
    assert_eq!(engine.get_prev_action(), Some(pulse_action(KeyCode::KEY_J)));
}

/// A modifier key dispatches its bound action on any press or release.
#[test]
fn modifier_key_dispatch() {
    let mapping = vec![
        (ModifierInput::Key(KeyCode::BTN_TR2), pulse_action(KeyCode::KEY_LEFTSHIFT)),
    ];
    let mut engine = ModifierMap::init(mapping, AllAxisThresholds::init(vec![]));

    assert_eq!(
        engine.handle_event(&key_down(KeyCode::BTN_TR2)),
        Some((pulse_action(KeyCode::KEY_LEFTSHIFT), None))
    );
    assert_eq!(
        engine.handle_event(&key_up(KeyCode::BTN_TR2)),
        Some((pulse_action(KeyCode::KEY_LEFTSHIFT), None))
    );
    assert_eq!(engine.handle_event(&key_down(KeyCode::BTN_SOUTH)), None);
}

/// A modifier axis dispatches on activation and deactivation, and a
/// direction swap dispatches the new action with the old one as secondary.
#[test]
fn modifier_axis_transitions() {
    let up = ThresholdedAxis::new(AbsAxisCode::ABS_Y, ThresholdType::Greater);
    let down = ThresholdedAxis::new(AbsAxisCode::ABS_Y, ThresholdType::Lesser);
    let mapping = vec![
        (ModifierInput::Axis(up), pulse_action(KeyCode::KEY_A)),
        (ModifierInput::Axis(down), pulse_action(KeyCode::KEY_B)),
    ];
    let thresholds = AllAxisThresholds::init(vec![
        (AbsAxisCode::ABS_Y, AxisThreshold { dir: ThresholdType::Greater, threshold: 2000 }),
        (AbsAxisCode::ABS_Y, AxisThreshold { dir: ThresholdType::Lesser, threshold: -2000 }),
    ]);
    let mut engine = ModifierMap::init(mapping, thresholds);

    // Activation.
    assert_eq!(
        engine.handle_event(&abs(AbsAxisCode::ABS_Y, 3000)),
        Some((pulse_action(KeyCode::KEY_A), None))
    );
    // Still past the same boundary: no change.
    assert_eq!(engine.handle_event(&abs(AbsAxisCode::ABS_Y, 4000)), None);
    // Swap to the opposite boundary: new action primary, old secondary.
    assert_eq!(
        engine.handle_event(&abs(AbsAxisCode::ABS_Y, -3000)),
        Some((pulse_action(KeyCode::KEY_B), Some(pulse_action(KeyCode::KEY_A))))
    );
    // Recede into the dead zone: the remembered action fires once more.
    assert_eq!(
        engine.handle_event(&abs(AbsAxisCode::ABS_Y, 0)),
        Some((pulse_action(KeyCode::KEY_B), None))
    );
    // Nothing remembered, nothing dispatched.
    assert_eq!(engine.handle_event(&abs(AbsAxisCode::ABS_Y, 0)), None);
}

fn velocity_action(axis: RelAxisCode, velocity: i32) -> Action {
    Action::OutputAction(OutputAction::StateChange(chord2key::actions::StateChange::new(
        None,
        Some(AxisList(vec![RelAxisEvent::new(axis, velocity)])),
    )))
}

/// Mouse linearity: slope 600 millionths, offset 0 and a boundary of 2000
/// turn a sample of 4000 into velocity 600 * (4000 - 2000) / 1_000_000 = 1,
/// the integer-rounded value of 1.2.
#[test]
fn mouse_linearity() {
    let greater = ThresholdedAxis::new(AbsAxisCode::ABS_X, ThresholdType::Greater);
    let profile = MouseProfile { code: RelAxisCode::REL_X, slope: 600, offset: 0 };
    let thresholds = AllAxisThresholds::init(vec![
        (AbsAxisCode::ABS_X, AxisThreshold { dir: ThresholdType::Greater, threshold: 2000 }),
    ]);
    let mut engine = MouseMap::init(vec![(greater, profile)], thresholds);

    assert_eq!(
        engine.handle_event(&abs(AbsAxisCode::ABS_X, 4000)),
        Some((velocity_action(RelAxisCode::REL_X, 1), None))
    );
    // Further past the boundary the velocity grows linearly.
    assert_eq!(
        engine.handle_event(&abs(AbsAxisCode::ABS_X, 12000)),
        Some((velocity_action(RelAxisCode::REL_X, 6), None))
    );
    // Receding zeroes the axis.
    assert_eq!(
        engine.handle_event(&abs(AbsAxisCode::ABS_X, 0)),
        Some((velocity_action(RelAxisCode::REL_X, 0), None))
    );
}

/// The velocity formula truncates toward zero on the negative side too.
#[test]
fn mouse_velocity_negative_truncation() {
    let lesser = ThresholdedAxis::new(AbsAxisCode::ABS_X, ThresholdType::Lesser);
    let profile = MouseProfile { code: RelAxisCode::REL_X, slope: 600, offset: 0 };
    let thresholds = AllAxisThresholds::init(vec![
        (AbsAxisCode::ABS_X, AxisThreshold { dir: ThresholdType::Lesser, threshold: -2000 }),
    ]);
    let mut engine = MouseMap::init(vec![(lesser, profile)], thresholds);

    // 600 * (-4000 - -2000) / 1_000_000 = -1.2, truncated to -1.
    assert_eq!(
        engine.handle_event(&abs(AbsAxisCode::ABS_X, -4000)),
        Some((velocity_action(RelAxisCode::REL_X, -1), None))
    );
}

/// The mouse profile offset shifts the emitted velocity.
#[test]
fn mouse_velocity_offset() {
    let greater = ThresholdedAxis::new(AbsAxisCode::ABS_X, ThresholdType::Greater);
    let profile = MouseProfile { code: RelAxisCode::REL_X, slope: 1000000, offset: 5 };
    let thresholds = AllAxisThresholds::init(vec![
        (AbsAxisCode::ABS_X, AxisThreshold { dir: ThresholdType::Greater, threshold: 100 }),
    ]);
    let mut engine = MouseMap::init(vec![(greater, profile)], thresholds);

    // 1_000_000 * (103 - 100) / 1_000_000 + 5 = 8.
    assert_eq!(
        engine.handle_event(&abs(AbsAxisCode::ABS_X, 103)),
        Some((velocity_action(RelAxisCode::REL_X, 8), None))
    );
}

/// Relative-axis events pass through every engine untouched.
#[test]
fn rel_axis_events_ignored() {
    let mut chords = ChordMap::init(
        vec![(vec![ChordInput::Key(KeyCode::BTN_SOUTH)], pulse_action(KeyCode::KEY_J))],
        AllAxisThresholds::init(vec![]),
        0,
    );
    let mut modifiers = ModifierMap::init(vec![], AllAxisThresholds::init(vec![]));
    let mut mouse = MouseMap::init(vec![], AllAxisThresholds::init(vec![]));
    let ev = InputEvent::RelAxisEvent(RelAxisEvent::new(RelAxisCode::REL_X, 5));
    assert_eq!(chords.handle_event(&ev), None);
    assert_eq!(modifiers.handle_event(&ev), None);
    assert_eq!(mouse.handle_event(&ev), None);
}
