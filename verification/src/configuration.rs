//! Configuration records: what a loaded configuration file provides to
//! build one engine triple — the device identity, the axis boundaries, the
//! chord-input seed and the three mapping tables — together with the two
//! built-in controller profiles.

use crate::actions::{Action, InnerAction, OutputActionType, Pulse, Toggle};
use crate::chord_map::{ChordInput, ChordMapInput};
use crate::constants::{AbsAxisCode, KeyCode, RelAxisCode};
use crate::modifier_map::{ModifierInput, ModifierMapInput};
use crate::mouse_map::{MouseMapInput, MouseProfile};
use crate::thresholds::{AxisThreshold, ThresholdType};
use vstd::prelude::*;

verus! {

/// One loaded configuration, immutable once built.
#[derive(Debug, Clone)]
pub struct Configuration {
    /// The name of the input device this configuration applies to.
    pub device_name: String,
    /// The boundaries that make analog axis input digital. Analogous to
    /// axis dead zones.
    pub axis_thresholds: Vec<(AbsAxisCode, AxisThreshold)>,
    /// All inputs that should be considered for chording.
    pub chord_inputs: Vec<ChordInput>,
    /// Mapping of chords to actions.
    pub chord_mapping: ChordMapInput,
    /// Mapping of modifiers to actions.
    pub modifier_mapping: ModifierMapInput,
    /// Mapping of absolute-axis inputs to mouse profiles.
    pub mouse_mapping: MouseMapInput,
}

impl Configuration {
    /// Validity: every mouse profile stays inside the arithmetic the
    /// velocity formula needs.
    pub open spec fn wf(self) -> bool {
        forall|i: int|
            0 <= i < self.mouse_mapping@.len() ==> (#[trigger] self.mouse_mapping@[i]).1.wf()
    }
}

/// A one-key list.
fn one_key(k: KeyCode) -> (r: Vec<KeyCode>)
    ensures
        r@ == seq![k],
{
    let mut v: Vec<KeyCode> = Vec::new();
    v.push(k);
    proof {
        assert(v@ =~= seq![k]);
    }
    v
}

/// A chord of one input.
fn chord1(a: ChordInput) -> (r: Vec<ChordInput>)
    ensures
        r@ == seq![a],
{
    let mut v: Vec<ChordInput> = Vec::new();
    v.push(a);
    proof {
        assert(v@ =~= seq![a]);
    }
    v
}

/// A chord of two inputs.
fn chord2(a: ChordInput, b: ChordInput) -> (r: Vec<ChordInput>)
    ensures
        r@ == seq![a, b],
{
    let mut v = chord1(a);
    v.push(b);
    proof {
        assert(v@ =~= seq![a, b]);
    }
    v
}

/// A chord of three inputs.
fn chord3(a: ChordInput, b: ChordInput, c: ChordInput) -> (r: Vec<ChordInput>)
    ensures
        r@ == seq![a, b, c],
{
    let mut v = chord2(a, b);
    v.push(c);
    proof {
        assert(v@ =~= seq![a, b, c]);
    }
    v
}

/// A chord of five inputs.
fn chord5(a: ChordInput, b: ChordInput, c: ChordInput, d: ChordInput, e: ChordInput) -> (r: Vec<
    ChordInput,
>)
    ensures
        r@ == seq![a, b, c, d, e],
{
    let mut v = chord3(a, b, c);
    v.push(d);
    v.push(e);
    proof {
        assert(v@ =~= seq![a, b, c, d, e]);
    }
    v
}

/// A key pulse bound to a chord.
fn pulse_chord(chord: Vec<ChordInput>, key: KeyCode) -> (r: (Vec<ChordInput>, Action))
    ensures
        r.0 == chord,
        r.1@ == crate::actions::ActionView::OutputAction(
            crate::actions::OutputActionView::Pulse(
                crate::actions::KeysAxesView {
                    keys: Some(seq![key]),
                    axes: None::<Seq<crate::events::RelAxisEvent>>,
                },
            ),
        ),
{
    (
        chord,
        Action::OutputAction(crate::actions::OutputAction::Pulse(Pulse::new(Some(one_key(key)), None))),
    )
}

/// A key toggle bound to a chord.
fn toggle_chord(chord: Vec<ChordInput>, key: KeyCode) -> (r: (Vec<ChordInput>, Action))
    ensures
        r.0 == chord,
{
    (
        chord,
        Action::OutputAction(
            crate::actions::OutputAction::Toggle(Toggle::new(Some(one_key(key)), None)),
        ),
    )
}

/// The shared modifier table of the built-in profiles: shoulder buttons as
/// common modifier keys, and the start button repeating the last chord.
fn standard_modifier_mapping() -> ModifierMapInput {
    let mut m: ModifierMapInput = Vec::new();
    m.push(
        (
            ModifierInput::Key(KeyCode::BTN_TR2),
            Action::OutputAction(
                crate::actions::OutputAction::Toggle(
                    Toggle::new(Some(one_key(KeyCode::KEY_LEFTSHIFT)), None),
                ),
            ),
        ),
    );
    m.push(
        (
            ModifierInput::Key(KeyCode::BTN_TL2),
            Action::OutputAction(
                crate::actions::OutputAction::Toggle(
                    Toggle::new(Some(one_key(KeyCode::KEY_LEFTCTRL)), None),
                ),
            ),
        ),
    );
    m.push(
        (
            ModifierInput::Key(KeyCode::BTN_TL),
            Action::OutputAction(
                crate::actions::OutputAction::Toggle(
                    Toggle::new(Some(one_key(KeyCode::KEY_LEFTMETA)), None),
                ),
            ),
        ),
    );
    m.push(
        (
            ModifierInput::Key(KeyCode::BTN_TR),
            Action::OutputAction(
                crate::actions::OutputAction::Toggle(
                    Toggle::new(Some(one_key(KeyCode::KEY_LEFTALT)), None),
                ),
            ),
        ),
    );
    m.push(
        (
            ModifierInput::Key(KeyCode::BTN_START),
            Action::InnerAction(InnerAction::RepeatLastChord(OutputActionType::Toggle)),
        ),
    );
    m
}

/// The shared mouse table of the built-in profiles: the left stick drives
/// the pointer. The raw axes report roughly -32768..32767 while motion is
/// integrated every pulse, so the sensitivity is 600 millionths per raw
/// unit to bring those ranges down to a usable speed.
fn standard_mouse_mapping() -> (r: MouseMapInput)
    ensures
        forall|i: int| 0 <= i < r@.len() ==> (#[trigger] r@[i]).1.wf(),
{
    let sensitivity: i64 = 600;
    let mut m: MouseMapInput = Vec::new();
    m.push(
        (
            crate::thresholds::ThresholdedAxis::new(AbsAxisCode::ABS_X, ThresholdType::Greater),
            MouseProfile { code: RelAxisCode::REL_X, slope: sensitivity, offset: 0 },
        ),
    );
    m.push(
        (
            crate::thresholds::ThresholdedAxis::new(AbsAxisCode::ABS_X, ThresholdType::Lesser),
            MouseProfile { code: RelAxisCode::REL_X, slope: sensitivity, offset: 0 },
        ),
    );
    m.push(
        (
            crate::thresholds::ThresholdedAxis::new(AbsAxisCode::ABS_Y, ThresholdType::Greater),
            MouseProfile { code: RelAxisCode::REL_Y, slope: sensitivity, offset: 0 },
        ),
    );
    m.push(
        (
            crate::thresholds::ThresholdedAxis::new(AbsAxisCode::ABS_Y, ThresholdType::Lesser),
            MouseProfile { code: RelAxisCode::REL_Y, slope: sensitivity, offset: 0 },
        ),
    );
    m
}

/// The shared chord table of the built-in profiles, over the given aliases
/// for the directional inputs and the given hot-swap target.
#[verifier::rlimit(100)]
fn standard_chord_mapping(
    right: ChordInput,
    left: ChordInput,
    up: ChordInput,
    down: ChordInput,
    swap_path: &str,
) -> ChordMapInput {
    let b: ChordInput = ChordInput::Key(KeyCode::BTN_SOUTH);
    let y: ChordInput = ChordInput::Key(KeyCode::BTN_WEST);
    let x: ChordInput = ChordInput::Key(KeyCode::BTN_NORTH);
    let a: ChordInput = ChordInput::Key(KeyCode::BTN_EAST);

    // Right stick movements.
    let rsu: ChordInput = ChordInput::ThresholdedAxis(
        crate::thresholds::ThresholdedAxis::new(AbsAxisCode::ABS_RY, ThresholdType::Lesser),
    );
    let rsd: ChordInput = ChordInput::ThresholdedAxis(
        crate::thresholds::ThresholdedAxis::new(AbsAxisCode::ABS_RY, ThresholdType::Greater),
    );
    let rsr: ChordInput = ChordInput::ThresholdedAxis(
        crate::thresholds::ThresholdedAxis::new(AbsAxisCode::ABS_RX, ThresholdType::Greater),
    );
    let rsl: ChordInput = ChordInput::ThresholdedAxis(
        crate::thresholds::ThresholdedAxis::new(AbsAxisCode::ABS_RX, ThresholdType::Lesser),
    );

    // Stick clicks and auxiliary buttons.
    let rsc: ChordInput = ChordInput::Key(KeyCode::BTN_THUMBR);
    let lsc: ChordInput = ChordInput::Key(KeyCode::BTN_THUMBL);
    let minus: ChordInput = ChordInput::Key(KeyCode::BTN_SELECT);
    let home: ChordInput = ChordInput::Key(KeyCode::BTN_MODE);
    let capture: ChordInput = ChordInput::Key(KeyCode::BTN_Z);

    let mut m: ChordMapInput = Vec::new();
    // Hot-swaps the configuration.
    m.push(
        (
            chord5(capture, a, b, x, y),
            Action::InnerAction(InnerAction::SwitchConfig(swap_path.to_owned())),
        ),
    );
    m.push(pulse_chord(chord2(up, rsd), KeyCode::KEY_APOSTROPHE));
    m.push(pulse_chord(chord1(right), KeyCode::KEY_0));
    m.push(pulse_chord(chord2(right, rsu), KeyCode::KEY_1));
    m.push(pulse_chord(chord3(right, rsu, rsr), KeyCode::KEY_2));
    m.push(pulse_chord(chord2(right, rsr), KeyCode::KEY_3));
    m.push(pulse_chord(chord3(right, rsr, rsd), KeyCode::KEY_4));
    m.push(pulse_chord(chord2(right, rsd), KeyCode::KEY_5));
    m.push(pulse_chord(chord3(right, rsd, rsl), KeyCode::KEY_6));
    m.push(pulse_chord(chord2(right, rsl), KeyCode::KEY_7));
    m.push(pulse_chord(chord3(right, rsl, rsu), KeyCode::KEY_8));
    m.push(pulse_chord(chord2(right, rsc), KeyCode::KEY_9));
    m.push(pulse_chord(chord2(down, b), KeyCode::KEY_A));
    m.push(pulse_chord(chord2(up, b), KeyCode::KEY_B));
    m.push(pulse_chord(chord2(right, a), KeyCode::KEY_C));
    m.push(pulse_chord(chord1(down), KeyCode::KEY_D));
    m.push(pulse_chord(chord2(up, x), KeyCode::KEY_E));
    m.push(pulse_chord(chord2(a, b), KeyCode::KEY_F));
    m.push(pulse_chord(chord2(x, y), KeyCode::KEY_G));
    m.push(pulse_chord(chord1(y), KeyCode::KEY_H));
    m.push(pulse_chord(chord2(right, x), KeyCode::KEY_I));
    m.push(pulse_chord(chord1(b), KeyCode::KEY_J));
    m.push(pulse_chord(chord1(x), KeyCode::KEY_K));
    m.push(pulse_chord(chord1(a), KeyCode::KEY_L));
    m.push(pulse_chord(chord3(right, a, b), KeyCode::KEY_M));
    m.push(pulse_chord(chord2(y, b), KeyCode::KEY_N));
    m.push(pulse_chord(chord2(right, b), KeyCode::KEY_O));
    m.push(pulse_chord(chord2(down, a), KeyCode::KEY_P));
    m.push(pulse_chord(chord3(right, x, y), KeyCode::KEY_Q));
    m.push(pulse_chord(chord3(down, y, b), KeyCode::KEY_R));
    m.push(pulse_chord(chord2(right, y), KeyCode::KEY_S));
    m.push(pulse_chord(chord2(x, a), KeyCode::KEY_T));
    m.push(pulse_chord(chord1(up), KeyCode::KEY_U));
    m.push(pulse_chord(chord2(up, y), KeyCode::KEY_V));
    m.push(pulse_chord(chord2(up, a), KeyCode::KEY_W));
    m.push(pulse_chord(chord2(down, x), KeyCode::KEY_X));
    m.push(pulse_chord(chord2(down, y), KeyCode::KEY_Y));
    m.push(pulse_chord(chord3(right, a, x), KeyCode::KEY_Z));
    m.push(pulse_chord(chord2(minus, a), KeyCode::KEY_LEFTBRACE));
    m.push(pulse_chord(chord2(minus, y), KeyCode::KEY_RIGHTBRACE));
    m.push(pulse_chord(chord3(minus, x, a), KeyCode::KEY_SEMICOLON));
    m.push(pulse_chord(chord2(minus, b), KeyCode::KEY_EQUAL));
    m.push(pulse_chord(chord3(minus, a, b), KeyCode::KEY_COMMA));
    m.push(pulse_chord(chord3(minus, b, y), KeyCode::KEY_DOT));
    m.push(pulse_chord(chord2(minus, x), KeyCode::KEY_MINUS));
    m.push(pulse_chord(chord3(minus, x, y), KeyCode::KEY_SLASH));
    m.push(pulse_chord(chord2(up, rsl), KeyCode::KEY_BACKSLASH));
    m.push(pulse_chord(chord2(up, rsr), KeyCode::KEY_SPACE));
    m.push(pulse_chord(chord2(left, rsu), KeyCode::KEY_UP));
    m.push(pulse_chord(chord2(left, rsd), KeyCode::KEY_DOWN));
    m.push(pulse_chord(chord2(left, rsl), KeyCode::KEY_LEFT));
    m.push(pulse_chord(chord2(left, rsr), KeyCode::KEY_RIGHT));
    m.push(pulse_chord(chord1(minus), KeyCode::KEY_BACKSPACE));
    m.push(pulse_chord(chord1(home), KeyCode::KEY_ENTER));
    m.push(pulse_chord(chord1(capture), KeyCode::KEY_ESC));
    m.push(pulse_chord(chord2(capture, home), KeyCode::KEY_TAB));
    m.push(pulse_chord(chord1(lsc), KeyCode::BTN_LEFT));
    m.push(toggle_chord(chord2(lsc, b), KeyCode::BTN_LEFT));
    m.push(pulse_chord(chord2(lsc, y), KeyCode::BTN_RIGHT));
    m.push(toggle_chord(chord3(lsc, b, y), KeyCode::BTN_RIGHT));
    m
}

/// The chord-input seed shared by the built-in profiles, over the given
/// aliases for the directional inputs.
fn standard_chord_inputs(
    right: ChordInput,
    left: ChordInput,
    up: ChordInput,
    down: ChordInput,
) -> Vec<ChordInput> {
    let mut v: Vec<ChordInput> = Vec::new();
    v.push(ChordInput::Key(KeyCode::BTN_SOUTH));
    v.push(ChordInput::Key(KeyCode::BTN_WEST));
    v.push(ChordInput::Key(KeyCode::BTN_NORTH));
    v.push(ChordInput::Key(KeyCode::BTN_EAST));
    v.push(right);
    v.push(left);
    v.push(up);
    v.push(down);
    v.push(
        ChordInput::ThresholdedAxis(
            crate::thresholds::ThresholdedAxis::new(AbsAxisCode::ABS_RY, ThresholdType::Lesser),
        ),
    );
    v.push(
        ChordInput::ThresholdedAxis(
            crate::thresholds::ThresholdedAxis::new(AbsAxisCode::ABS_RY, ThresholdType::Greater),
        ),
    );
    v.push(
        ChordInput::ThresholdedAxis(
            crate::thresholds::ThresholdedAxis::new(AbsAxisCode::ABS_RX, ThresholdType::Greater),
        ),
    );
    v.push(
        ChordInput::ThresholdedAxis(
            crate::thresholds::ThresholdedAxis::new(AbsAxisCode::ABS_RX, ThresholdType::Lesser),
        ),
    );
    v.push(ChordInput::Key(KeyCode::BTN_THUMBR));
    v.push(ChordInput::Key(KeyCode::BTN_THUMBL));
    v.push(ChordInput::Key(KeyCode::BTN_SELECT));
    v.push(ChordInput::Key(KeyCode::BTN_MODE));
    v.push(ChordInput::Key(KeyCode::BTN_Z));
    v
}

impl Configuration {
    /// The built-in configuration for combined joy-con controllers, mapped
    /// to the keyboard.
    pub fn joycon_default() -> (r: Self)
        ensures
            r.device_name@ == "Nintendo Switch Combined Joy-Cons"@,
            r.wf(),
    {
        let device_name = "Nintendo Switch Combined Joy-Cons".to_owned();

        // The absolute axes report their value between -32768 and 32767;
        // these boundaries carve a quadrilateral dead zone where low-value
        // axis events count as zero.
        let mut axis_thresholds: Vec<(AbsAxisCode, AxisThreshold)> = Vec::new();
        axis_thresholds.push(
            (AbsAxisCode::ABS_X, AxisThreshold { dir: ThresholdType::Greater, threshold: 6000 }),
        );
        axis_thresholds.push(
            (AbsAxisCode::ABS_X, AxisThreshold { dir: ThresholdType::Lesser, threshold: -6000 }),
        );
        axis_thresholds.push(
            (AbsAxisCode::ABS_Y, AxisThreshold { dir: ThresholdType::Greater, threshold: 6000 }),
        );
        axis_thresholds.push(
            (AbsAxisCode::ABS_Y, AxisThreshold { dir: ThresholdType::Lesser, threshold: -6000 }),
        );
        axis_thresholds.push(
            (AbsAxisCode::ABS_RX, AxisThreshold { dir: ThresholdType::Greater, threshold: 16000 }),
        );
        axis_thresholds.push(
            (AbsAxisCode::ABS_RX, AxisThreshold { dir: ThresholdType::Lesser, threshold: -16000 }),
        );
        axis_thresholds.push(
            (AbsAxisCode::ABS_RY, AxisThreshold { dir: ThresholdType::Greater, threshold: 16000 }),
        );
        axis_thresholds.push(
            (AbsAxisCode::ABS_RY, AxisThreshold { dir: ThresholdType::Lesser, threshold: -16000 }),
        );

        // The joy-con directional pad is reported as buttons.
        let right: ChordInput = ChordInput::Key(KeyCode::BTN_DPAD_RIGHT);
        let left: ChordInput = ChordInput::Key(KeyCode::BTN_DPAD_LEFT);
        let up: ChordInput = ChordInput::Key(KeyCode::BTN_DPAD_UP);
        let down: ChordInput = ChordInput::Key(KeyCode::BTN_DPAD_DOWN);

        Self {
            device_name,
            axis_thresholds,
            chord_inputs: standard_chord_inputs(right, left, up, down),
            chord_mapping: standard_chord_mapping(right, left, up, down, "joycon_blank.json"),
            modifier_mapping: standard_modifier_mapping(),
            mouse_mapping: standard_mouse_mapping(),
        }
    }

    /// The built-in configuration for the pro controller, mapped to the
    /// keyboard.
    pub fn pro_default() -> (r: Self)
        ensures
            r.device_name@ == "Nintendo Switch Pro Controller"@,
            r.wf(),
    {
        let device_name = "Nintendo Switch Pro Controller".to_owned();

        let mut axis_thresholds: Vec<(AbsAxisCode, AxisThreshold)> = Vec::new();
        axis_thresholds.push(
            (AbsAxisCode::ABS_X, AxisThreshold { dir: ThresholdType::Greater, threshold: 2000 }),
        );
        axis_thresholds.push(
            (AbsAxisCode::ABS_X, AxisThreshold { dir: ThresholdType::Lesser, threshold: -2000 }),
        );
        axis_thresholds.push(
            (AbsAxisCode::ABS_Y, AxisThreshold { dir: ThresholdType::Greater, threshold: 2000 }),
        );
        axis_thresholds.push(
            (AbsAxisCode::ABS_Y, AxisThreshold { dir: ThresholdType::Lesser, threshold: -2000 }),
        );
        axis_thresholds.push(
            (AbsAxisCode::ABS_RX, AxisThreshold { dir: ThresholdType::Greater, threshold: 16000 }),
        );
        axis_thresholds.push(
            (AbsAxisCode::ABS_RX, AxisThreshold { dir: ThresholdType::Lesser, threshold: -16000 }),
        );
        axis_thresholds.push(
            (AbsAxisCode::ABS_RY, AxisThreshold { dir: ThresholdType::Greater, threshold: 16000 }),
        );
        axis_thresholds.push(
            (AbsAxisCode::ABS_RY, AxisThreshold { dir: ThresholdType::Lesser, threshold: -16000 }),
        );
        // The pro controller directional pad is reported as hat-axis values
        // of -1, 0 and 1, so inclusive boundaries of magnitude one define
        // what counts as pressed.
        axis_thresholds.push(
            (AbsAxisCode::ABS_HAT0X, AxisThreshold { dir: ThresholdType::Greater, threshold: 1 }),
        );
        axis_thresholds.push(
            (AbsAxisCode::ABS_HAT0X, AxisThreshold { dir: ThresholdType::Lesser, threshold: -1 }),
        );
        axis_thresholds.push(
            (AbsAxisCode::ABS_HAT0Y, AxisThreshold { dir: ThresholdType::Greater, threshold: 1 }),
        );
        axis_thresholds.push(
            (AbsAxisCode::ABS_HAT0Y, AxisThreshold { dir: ThresholdType::Lesser, threshold: -1 }),
        );

        // The pro controller directional pad arrives as hat axes.
        let right: ChordInput = ChordInput::ThresholdedAxis(
            crate::thresholds::ThresholdedAxis::new(AbsAxisCode::ABS_HAT0X, ThresholdType::Greater),
        );
        let left: ChordInput = ChordInput::ThresholdedAxis(
            crate::thresholds::ThresholdedAxis::new(AbsAxisCode::ABS_HAT0X, ThresholdType::Lesser),
        );
        let up: ChordInput = ChordInput::ThresholdedAxis(
            crate::thresholds::ThresholdedAxis::new(AbsAxisCode::ABS_HAT0Y, ThresholdType::Lesser),
        );
        let down: ChordInput = ChordInput::ThresholdedAxis(
            crate::thresholds::ThresholdedAxis::new(AbsAxisCode::ABS_HAT0Y, ThresholdType::Greater),
        );

        Self {
            device_name,
            axis_thresholds,
            chord_inputs: standard_chord_inputs(right, left, up, down),
            chord_mapping: standard_chord_mapping(right, left, up, down, "pro_blank.json"),
            modifier_mapping: standard_modifier_mapping(),
            mouse_mapping: standard_mouse_mapping(),
        }
    }
}

} // verus!
