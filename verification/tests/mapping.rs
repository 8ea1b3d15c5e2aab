use chord2key::actions::{Action, InnerAction, OutputAction, OutputActionType, Pulse, Toggle};
use chord2key::chord_map::ChordInput;
use chord2key::configuration::Configuration;
use chord2key::constants::{KeyCode, PressState};
use chord2key::events::{InputEvent, KeyEvent};
use chord2key::mapper::{Mapper, MapperBuilder, MapperError};
use chord2key::output_state::hands_off_action;
use chord2key::constants::{AbsAxisCode, RelAxisCode};
use chord2key::events::{AbsAxisEvent, RelAxisEvent};
use chord2key::mouse_map::MouseProfile;
use chord2key::thresholds::{AxisThreshold, ThresholdType, ThresholdedAxis};

/// This test ensures that the package is imported correctly.
#[test]
fn can_import() {
    assert_eq!(chord2key::constants::KeyCode::KEY_ESC, chord2key::constants::KeyCode::KEY_ESC);
}

/// This test ensures that the package is imported correctly.
#[test]
fn mapping_can_import() {
    assert_eq!(chord2key::constants::KeyCode::KEY_ESC, chord2key::constants::KeyCode::KEY_ESC);
}

fn pulse_action(key: KeyCode) -> Action {
    Action::OutputAction(OutputAction::Pulse(Pulse::new(Some(vec![key]), None)))
}

fn key_down(key: KeyCode) -> InputEvent {
    InputEvent::KeyEvent(KeyEvent::new(key, PressState::Down))
}

fn key_up(key: KeyCode) -> InputEvent {
    InputEvent::KeyEvent(KeyEvent::new(key, PressState::Up))
}

/// A minimal configuration: one chord key mapped to one pulsed key, plus
/// the given extra chord bindings.
fn simple_config(device: &str, extra: Vec<(Vec<ChordInput>, Action)>) -> Configuration {
    let mut chord_mapping = vec![
        (
            vec![ChordInput::Key(KeyCode::BTN_TRIGGER_HAPPY1)],
            pulse_action(KeyCode::BTN_TRIGGER_HAPPY2),
        ),
    ];
    chord_mapping.extend(extra);
    Configuration {
        device_name: device.to_owned(),
        axis_thresholds: vec![],
        chord_inputs: vec![ChordInput::Key(KeyCode::BTN_TRIGGER_HAPPY1)],
        chord_mapping,
        modifier_mapping: vec![],
        mouse_mapping: vec![],
    }
}

fn build_single(config: Configuration, path: &str) -> Mapper {
    let mut builder = MapperBuilder::new(path.to_owned());
    let pending = builder.next_pending().unwrap();
    assert_eq!(pending, path);
    builder.add_config(pending, config).unwrap();
    assert_eq!(builder.next_pending(), None);
    builder.finish().unwrap()
}

/// A one-to-one mapping: pressing and releasing the bound key emits its
/// pulse.
#[test]
fn mapper_single_keypress() {
    let mut mapper = build_single(simple_config("test device", vec![]), "one_to_one.json");
    assert_eq!(mapper.get_input_name(), "test device");

    let out = mapper.handle_event(&key_down(KeyCode::BTN_TRIGGER_HAPPY1));
    assert_eq!(out, vec![]);
    let out = mapper.handle_event(&key_up(KeyCode::BTN_TRIGGER_HAPPY1));
    assert_eq!(
        out,
        vec![OutputAction::Pulse(Pulse::new(Some(vec![KeyCode::BTN_TRIGGER_HAPPY2]), None))]
    );
}

/// A multi-key chord resolves on the first release and only then.
#[test]
fn mapper_multiple_keypress() {
    let config = Configuration {
        device_name: "test device".to_owned(),
        axis_thresholds: vec![],
        chord_inputs: vec![],
        chord_mapping: vec![
            (
                vec![
                    ChordInput::Key(KeyCode::BTN_TRIGGER_HAPPY1),
                    ChordInput::Key(KeyCode::BTN_TRIGGER_HAPPY2),
                    ChordInput::Key(KeyCode::BTN_TRIGGER_HAPPY3),
                ],
                pulse_action(KeyCode::BTN_TRIGGER_HAPPY4),
            ),
        ],
        modifier_mapping: vec![],
        mouse_mapping: vec![],
    };
    let mut mapper = build_single(config, "multiple_to_one.json");

    assert_eq!(mapper.handle_event(&key_down(KeyCode::BTN_TRIGGER_HAPPY1)), vec![]);
    assert_eq!(mapper.handle_event(&key_down(KeyCode::BTN_TRIGGER_HAPPY2)), vec![]);
    assert_eq!(mapper.handle_event(&key_down(KeyCode::BTN_TRIGGER_HAPPY3)), vec![]);
    assert_eq!(
        mapper.handle_event(&key_up(KeyCode::BTN_TRIGGER_HAPPY2)),
        vec![OutputAction::Pulse(Pulse::new(Some(vec![KeyCode::BTN_TRIGGER_HAPPY4]), None))]
    );
    assert_eq!(mapper.handle_event(&key_up(KeyCode::BTN_TRIGGER_HAPPY1)), vec![]);
    assert_eq!(mapper.handle_event(&key_up(KeyCode::BTN_TRIGGER_HAPPY3)), vec![]);
}

/// Repeat-last-chord re-forwards the previous chord's action, coerced into
/// the requested shape.
#[test]
fn mapper_repeat_last_chord() {
    let mut config = simple_config("test device", vec![]);
    config.modifier_mapping = vec![
        (
            chord2key::modifier_map::ModifierInput::Key(KeyCode::BTN_START),
            Action::InnerAction(InnerAction::RepeatLastChord(OutputActionType::Toggle)),
        ),
    ];
    let mut mapper = build_single(config, "repeat.json");

    mapper.handle_event(&key_down(KeyCode::BTN_TRIGGER_HAPPY1));
    mapper.handle_event(&key_up(KeyCode::BTN_TRIGGER_HAPPY1));
    let out = mapper.handle_event(&key_down(KeyCode::BTN_START));
    assert_eq!(
        out,
        vec![OutputAction::Toggle(Toggle::new(Some(vec![KeyCode::BTN_TRIGGER_HAPPY2]), None))]
    );
}

/// Config-graph dedup: a configuration whose switch target points back at
/// itself loads exactly once and construction terminates.
#[test]
fn config_graph_self_loop() {
    let config = simple_config(
        "test device",
        vec![
            (
                vec![ChordInput::Key(KeyCode::BTN_Z)],
                Action::InnerAction(InnerAction::SwitchConfig("self.json".to_owned())),
            ),
        ],
    );
    let mut builder = MapperBuilder::new("self.json".to_owned());
    let mut loaded = 0;
    while let Some(path) = builder.next_pending() {
        builder.add_config(path, config.clone()).unwrap();
        loaded += 1;
        assert!(loaded <= 1, "a self-referential configuration must not be loaded twice");
    }
    let mapper = builder.finish().unwrap();
    assert_eq!(mapper.current_config(), 0);
    assert_eq!(loaded, 1);
}

/// Config-graph dedup across a two-configuration cycle: each side loads
/// once and construction terminates.
#[test]
fn config_graph_cycle() {
    let config_a = simple_config(
        "test device",
        vec![
            (
                vec![ChordInput::Key(KeyCode::BTN_Z)],
                Action::InnerAction(InnerAction::SwitchConfig("b.json".to_owned())),
            ),
        ],
    );
    let config_b = simple_config(
        "test device",
        vec![
            (
                vec![ChordInput::Key(KeyCode::BTN_Z)],
                Action::InnerAction(InnerAction::SwitchConfig("a.json".to_owned())),
            ),
        ],
    );
    let mut builder = MapperBuilder::new("a.json".to_owned());
    let mut loaded = 0;
    while let Some(path) = builder.next_pending() {
        let config = if path == "a.json" { config_a.clone() } else { config_b.clone() };
        builder.add_config(path, config).unwrap();
        loaded += 1;
        assert!(loaded <= 2);
    }
    builder.finish().unwrap();
    assert_eq!(loaded, 2);
}

/// Hot-swapping configurations emits the hands-off reset and clears the new
/// chord engine's accumulation.
#[test]
fn mapper_switch_emits_hands_off() {
    let config_a = simple_config(
        "test device",
        vec![
            (
                vec![ChordInput::Key(KeyCode::BTN_Z)],
                Action::InnerAction(InnerAction::SwitchConfig("b.json".to_owned())),
            ),
        ],
    );
    let config_b = simple_config("test device", vec![]);
    let mut builder = MapperBuilder::new("a.json".to_owned());
    while let Some(path) = builder.next_pending() {
        let config = if path == "a.json" { config_a.clone() } else { config_b.clone() };
        builder.add_config(path, config).unwrap();
    }
    let mut mapper = builder.finish().unwrap();
    assert_eq!(mapper.current_config(), 0);

    mapper.handle_event(&key_down(KeyCode::BTN_Z));
    let out = mapper.handle_event(&key_up(KeyCode::BTN_Z));
    assert_eq!(out, vec![OutputAction::StateChange(hands_off_action())]);
    assert_eq!(mapper.current_config(), 1);
}

/// A configuration declaring a different device identity is fatal to
/// construction.
#[test]
fn mapper_device_mismatch() {
    let config_a = simple_config(
        "device one",
        vec![
            (
                vec![ChordInput::Key(KeyCode::BTN_Z)],
                Action::InnerAction(InnerAction::SwitchConfig("b.json".to_owned())),
            ),
        ],
    );
    let config_b = simple_config("device two", vec![]);
    let mut builder = MapperBuilder::new("a.json".to_owned());
    let first = builder.next_pending().unwrap();
    builder.add_config(first, config_a).unwrap();
    let second = builder.next_pending().unwrap();
    assert_eq!(second, "b.json");
    assert_eq!(builder.add_config(second, config_b), Err(MapperError::DeviceMismatch));
}

/// Sealing an empty builder reports that nothing was loaded.
#[test]
fn mapper_no_configuration() {
    let builder = MapperBuilder::new("root.json".to_owned());
    assert!(matches!(builder.finish(), Err(MapperError::NoConfiguration)));
}

/// Sealing with a switch target never handed in reports the unloaded
/// configuration.
#[test]
fn mapper_unloaded_configuration() {
    let config = simple_config(
        "test device",
        vec![
            (
                vec![ChordInput::Key(KeyCode::BTN_Z)],
                Action::InnerAction(InnerAction::SwitchConfig("missing.json".to_owned())),
            ),
        ],
    );
    let mut builder = MapperBuilder::new("a.json".to_owned());
    let first = builder.next_pending().unwrap();
    builder.add_config(first, config).unwrap();
    assert!(matches!(builder.finish(), Err(MapperError::UnloadedConfiguration)));
}

/// Axis events route through the modifier and mouse engines of the active
/// configuration, a direction swap dispatching both actions in order.
#[test]
fn mapper_axis_routing() {
    let up = ThresholdedAxis::new(AbsAxisCode::ABS_Y, ThresholdType::Greater);
    let down = ThresholdedAxis::new(AbsAxisCode::ABS_Y, ThresholdType::Lesser);
    let config = Configuration {
        device_name: "test device".to_owned(),
        axis_thresholds: vec![
            (AbsAxisCode::ABS_Y, AxisThreshold { dir: ThresholdType::Greater, threshold: 2000 }),
            (AbsAxisCode::ABS_Y, AxisThreshold { dir: ThresholdType::Lesser, threshold: -2000 }),
            (AbsAxisCode::ABS_X, AxisThreshold { dir: ThresholdType::Greater, threshold: 2000 }),
        ],
        chord_inputs: vec![],
        chord_mapping: vec![],
        modifier_mapping: vec![
            (chord2key::modifier_map::ModifierInput::Axis(up), pulse_action(KeyCode::KEY_A)),
            (chord2key::modifier_map::ModifierInput::Axis(down), pulse_action(KeyCode::KEY_B)),
        ],
        mouse_mapping: vec![
            (
                ThresholdedAxis::new(AbsAxisCode::ABS_X, ThresholdType::Greater),
                MouseProfile { code: RelAxisCode::REL_X, slope: 600, offset: 0 },
            ),
        ],
    };
    let mut mapper = build_single(config, "axes.json");

    // Modifier activation, then a swap dispatching new and old in order.
    let out = mapper.handle_event(&InputEvent::AbsAxisEvent(AbsAxisEvent::new(
        AbsAxisCode::ABS_Y,
        3000,
    )));
    assert_eq!(out, vec![OutputAction::Pulse(Pulse::new(Some(vec![KeyCode::KEY_A]), None))]);
    let out = mapper.handle_event(&InputEvent::AbsAxisEvent(AbsAxisEvent::new(
        AbsAxisCode::ABS_Y,
        -3000,
    )));
    assert_eq!(
        out,
        vec![
            OutputAction::Pulse(Pulse::new(Some(vec![KeyCode::KEY_B]), None)),
            OutputAction::Pulse(Pulse::new(Some(vec![KeyCode::KEY_A]), None)),
        ]
    );

    // The mouse engine turns the X axis into velocity.
    let out = mapper.handle_event(&InputEvent::AbsAxisEvent(AbsAxisEvent::new(
        AbsAxisCode::ABS_X,
        4000,
    )));
    assert_eq!(
        out,
        vec![OutputAction::StateChange(chord2key::actions::StateChange::new(
            None,
            Some(chord2key::actions::AxisList(vec![RelAxisEvent::new(RelAxisCode::REL_X, 1)])),
        ))]
    );

    // Relative-axis input passes through every engine untouched.
    let out = mapper.handle_event(&InputEvent::RelAxisEvent(RelAxisEvent::new(
        RelAxisCode::REL_X,
        5,
    )));
    assert_eq!(out, vec![]);
}

/// The built-in profiles carry their device names.
#[test]
fn default_configurations() {
    assert_eq!(
        String::from("Nintendo Switch Combined Joy-Cons"),
        Configuration::joycon_default().device_name
    );
    assert_eq!(
        String::from("Nintendo Switch Pro Controller"),
        Configuration::pro_default().device_name
    );
}
