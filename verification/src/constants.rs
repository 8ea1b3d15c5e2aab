//! Input and output code spaces: digital key codes, absolute-axis codes and
//! relative-axis codes, together with the press state of a key and the raw
//! sample type of an axis.

use crate::assoc::EqKey;
use vstd::prelude::*;

verus! {

/// The raw signed sample carried by an axis event.
pub type AxisState = i32;

/// Whether a key is pressed or released.
#[derive(Copy, Clone, Debug, PartialEq, Eq, Structural, Hash)]
pub enum PressState {
    Down,
    Up,
}

impl PressState {
    pub open spec fn spec_opposite(self) -> Self {
        match self {
            Self::Down => Self::Up,
            Self::Up => Self::Down,
        }
    }
}

/// A digital key or button of the key space this library drives.
#[derive(Copy, Clone, Debug, PartialEq, Eq, Structural, Hash)]
#[allow(non_camel_case_types)]
pub enum KeyCode {
    KEY_ESC,
    KEY_0,
    KEY_1,
    KEY_2,
    KEY_3,
    KEY_4,
    KEY_5,
    KEY_6,
    KEY_7,
    KEY_8,
    KEY_9,
    KEY_A,
    KEY_B,
    KEY_C,
    KEY_D,
    KEY_E,
    KEY_F,
    KEY_G,
    KEY_H,
    KEY_I,
    KEY_J,
    KEY_K,
    KEY_L,
    KEY_M,
    KEY_N,
    KEY_O,
    KEY_P,
    KEY_Q,
    KEY_R,
    KEY_S,
    KEY_T,
    KEY_U,
    KEY_V,
    KEY_W,
    KEY_X,
    KEY_Y,
    KEY_Z,
    KEY_APOSTROPHE,
    KEY_LEFTBRACE,
    KEY_RIGHTBRACE,
    KEY_SEMICOLON,
    KEY_EQUAL,
    KEY_COMMA,
    KEY_DOT,
    KEY_MINUS,
    KEY_SLASH,
    KEY_BACKSLASH,
    KEY_SPACE,
    KEY_UP,
    KEY_DOWN,
    KEY_LEFT,
    KEY_RIGHT,
    KEY_BACKSPACE,
    KEY_ENTER,
    KEY_TAB,
    KEY_LEFTSHIFT,
    KEY_LEFTCTRL,
    KEY_LEFTMETA,
    KEY_LEFTALT,
    BTN_SOUTH,
    BTN_EAST,
    BTN_NORTH,
    BTN_WEST,
    BTN_Z,
    BTN_TL,
    BTN_TR,
    BTN_TL2,
    BTN_TR2,
    BTN_SELECT,
    BTN_START,
    BTN_MODE,
    BTN_THUMBL,
    BTN_THUMBR,
    BTN_DPAD_UP,
    BTN_DPAD_DOWN,
    BTN_DPAD_LEFT,
    BTN_DPAD_RIGHT,
    BTN_LEFT,
    BTN_RIGHT,
    BTN_TRIGGER_HAPPY1,
    BTN_TRIGGER_HAPPY2,
    BTN_TRIGGER_HAPPY3,
    BTN_TRIGGER_HAPPY4,
}

impl EqKey for KeyCode {
    fn eq_key(&self, other: &Self) -> (r: bool)
        ensures
            r == (*self == *other),
    {
        *self == *other
    }
}

/// An absolute (positional) axis of an input device.
#[derive(Copy, Clone, Debug, PartialEq, Eq, Structural, Hash)]
#[allow(non_camel_case_types)]
pub enum AbsAxisCode {
    ABS_X,
    ABS_Y,
    ABS_Z,
    ABS_RX,
    ABS_RY,
    ABS_RZ,
    ABS_THROTTLE,
    ABS_RUDDER,
    ABS_WHEEL,
    ABS_GAS,
    ABS_BRAKE,
    ABS_HAT0X,
    ABS_HAT0Y,
}

impl EqKey for AbsAxisCode {
    fn eq_key(&self, other: &Self) -> (r: bool)
        ensures
            r == (*self == *other),
    {
        *self == *other
    }
}

/// A relative (motion) axis of an output device.
#[derive(Copy, Clone, Debug, PartialEq, Eq, Structural, Hash)]
#[allow(non_camel_case_types)]
pub enum RelAxisCode {
    REL_X,
    REL_Y,
    REL_Z,
    REL_RX,
    REL_RY,
    REL_RZ,
    REL_HWHEEL,
    REL_DIAL,
    REL_WHEEL,
    REL_MISC,
}

impl EqKey for RelAxisCode {
    fn eq_key(&self, other: &Self) -> (r: bool)
        ensures
            r == (*self == *other),
    {
        *self == *other
    }
}

/// The whole key space, in a fixed order.
pub open spec fn key_code_list() -> Seq<KeyCode> {
    seq![
        KeyCode::KEY_ESC,
        KeyCode::KEY_0,
        KeyCode::KEY_1,
        KeyCode::KEY_2,
        KeyCode::KEY_3,
        KeyCode::KEY_4,
        KeyCode::KEY_5,
        KeyCode::KEY_6,
        KeyCode::KEY_7,
        KeyCode::KEY_8,
        KeyCode::KEY_9,
        KeyCode::KEY_A,
        KeyCode::KEY_B,
        KeyCode::KEY_C,
        KeyCode::KEY_D,
        KeyCode::KEY_E,
        KeyCode::KEY_F,
        KeyCode::KEY_G,
        KeyCode::KEY_H,
        KeyCode::KEY_I,
        KeyCode::KEY_J,
        KeyCode::KEY_K,
        KeyCode::KEY_L,
        KeyCode::KEY_M,
        KeyCode::KEY_N,
        KeyCode::KEY_O,
        KeyCode::KEY_P,
        KeyCode::KEY_Q,
        KeyCode::KEY_R,
        KeyCode::KEY_S,
        KeyCode::KEY_T,
        KeyCode::KEY_U,
        KeyCode::KEY_V,
        KeyCode::KEY_W,
        KeyCode::KEY_X,
        KeyCode::KEY_Y,
        KeyCode::KEY_Z,
        KeyCode::KEY_APOSTROPHE,
        KeyCode::KEY_LEFTBRACE,
        KeyCode::KEY_RIGHTBRACE,
        KeyCode::KEY_SEMICOLON,
        KeyCode::KEY_EQUAL,
        KeyCode::KEY_COMMA,
        KeyCode::KEY_DOT,
        KeyCode::KEY_MINUS,
        KeyCode::KEY_SLASH,
        KeyCode::KEY_BACKSLASH,
        KeyCode::KEY_SPACE,
        KeyCode::KEY_UP,
        KeyCode::KEY_DOWN,
        KeyCode::KEY_LEFT,
        KeyCode::KEY_RIGHT,
        KeyCode::KEY_BACKSPACE,
        KeyCode::KEY_ENTER,
        KeyCode::KEY_TAB,
        KeyCode::KEY_LEFTSHIFT,
        KeyCode::KEY_LEFTCTRL,
        KeyCode::KEY_LEFTMETA,
        KeyCode::KEY_LEFTALT,
        KeyCode::BTN_SOUTH,
        KeyCode::BTN_EAST,
        KeyCode::BTN_NORTH,
        KeyCode::BTN_WEST,
        KeyCode::BTN_Z,
        KeyCode::BTN_TL,
        KeyCode::BTN_TR,
        KeyCode::BTN_TL2,
        KeyCode::BTN_TR2,
        KeyCode::BTN_SELECT,
        KeyCode::BTN_START,
        KeyCode::BTN_MODE,
        KeyCode::BTN_THUMBL,
        KeyCode::BTN_THUMBR,
        KeyCode::BTN_DPAD_UP,
        KeyCode::BTN_DPAD_DOWN,
        KeyCode::BTN_DPAD_LEFT,
        KeyCode::BTN_DPAD_RIGHT,
        KeyCode::BTN_LEFT,
        KeyCode::BTN_RIGHT,
        KeyCode::BTN_TRIGGER_HAPPY1,
        KeyCode::BTN_TRIGGER_HAPPY2,
        KeyCode::BTN_TRIGGER_HAPPY3,
        KeyCode::BTN_TRIGGER_HAPPY4,
    ]
}

/// Position of a key code in `key_code_list`.
pub open spec fn key_code_ix(k: KeyCode) -> int {
    match k {
        KeyCode::KEY_ESC => 0,
        KeyCode::KEY_0 => 1,
        KeyCode::KEY_1 => 2,
        KeyCode::KEY_2 => 3,
        KeyCode::KEY_3 => 4,
        KeyCode::KEY_4 => 5,
        KeyCode::KEY_5 => 6,
        KeyCode::KEY_6 => 7,
        KeyCode::KEY_7 => 8,
        KeyCode::KEY_8 => 9,
        KeyCode::KEY_9 => 10,
        KeyCode::KEY_A => 11,
        KeyCode::KEY_B => 12,
        KeyCode::KEY_C => 13,
        KeyCode::KEY_D => 14,
        KeyCode::KEY_E => 15,
        KeyCode::KEY_F => 16,
        KeyCode::KEY_G => 17,
        KeyCode::KEY_H => 18,
        KeyCode::KEY_I => 19,
        KeyCode::KEY_J => 20,
        KeyCode::KEY_K => 21,
        KeyCode::KEY_L => 22,
        KeyCode::KEY_M => 23,
        KeyCode::KEY_N => 24,
        KeyCode::KEY_O => 25,
        KeyCode::KEY_P => 26,
        KeyCode::KEY_Q => 27,
        KeyCode::KEY_R => 28,
        KeyCode::KEY_S => 29,
        KeyCode::KEY_T => 30,
        KeyCode::KEY_U => 31,
        KeyCode::KEY_V => 32,
        KeyCode::KEY_W => 33,
        KeyCode::KEY_X => 34,
        KeyCode::KEY_Y => 35,
        KeyCode::KEY_Z => 36,
        KeyCode::KEY_APOSTROPHE => 37,
        KeyCode::KEY_LEFTBRACE => 38,
        KeyCode::KEY_RIGHTBRACE => 39,
        KeyCode::KEY_SEMICOLON => 40,
        KeyCode::KEY_EQUAL => 41,
        KeyCode::KEY_COMMA => 42,
        KeyCode::KEY_DOT => 43,
        KeyCode::KEY_MINUS => 44,
        KeyCode::KEY_SLASH => 45,
        KeyCode::KEY_BACKSLASH => 46,
        KeyCode::KEY_SPACE => 47,
        KeyCode::KEY_UP => 48,
        KeyCode::KEY_DOWN => 49,
        KeyCode::KEY_LEFT => 50,
        KeyCode::KEY_RIGHT => 51,
        KeyCode::KEY_BACKSPACE => 52,
        KeyCode::KEY_ENTER => 53,
        KeyCode::KEY_TAB => 54,
        KeyCode::KEY_LEFTSHIFT => 55,
        KeyCode::KEY_LEFTCTRL => 56,
        KeyCode::KEY_LEFTMETA => 57,
        KeyCode::KEY_LEFTALT => 58,
        KeyCode::BTN_SOUTH => 59,
        KeyCode::BTN_EAST => 60,
        KeyCode::BTN_NORTH => 61,
        KeyCode::BTN_WEST => 62,
        KeyCode::BTN_Z => 63,
        KeyCode::BTN_TL => 64,
        KeyCode::BTN_TR => 65,
        KeyCode::BTN_TL2 => 66,
        KeyCode::BTN_TR2 => 67,
        KeyCode::BTN_SELECT => 68,
        KeyCode::BTN_START => 69,
        KeyCode::BTN_MODE => 70,
        KeyCode::BTN_THUMBL => 71,
        KeyCode::BTN_THUMBR => 72,
        KeyCode::BTN_DPAD_UP => 73,
        KeyCode::BTN_DPAD_DOWN => 74,
        KeyCode::BTN_DPAD_LEFT => 75,
        KeyCode::BTN_DPAD_RIGHT => 76,
        KeyCode::BTN_LEFT => 77,
        KeyCode::BTN_RIGHT => 78,
        KeyCode::BTN_TRIGGER_HAPPY1 => 79,
        KeyCode::BTN_TRIGGER_HAPPY2 => 80,
        KeyCode::BTN_TRIGGER_HAPPY3 => 81,
        KeyCode::BTN_TRIGGER_HAPPY4 => 82,
    }
}

/// Every key code stands in `key_code_list`, at its `key_code_ix` position.
pub proof fn lemma_key_code_list_complete()
    ensures
        forall|k: KeyCode| #[trigger] key_code_list().contains(k),
{
    assert forall|k: KeyCode| #[trigger] key_code_list().contains(k) by {
        assert(0 <= key_code_ix(k) < key_code_list().len());
        assert(key_code_list()[key_code_ix(k)] == k);
    }
}

/// The whole relative-axis space, in a fixed order.
pub open spec fn rel_axis_code_list() -> Seq<RelAxisCode> {
    seq![
        RelAxisCode::REL_X,
        RelAxisCode::REL_Y,
        RelAxisCode::REL_Z,
        RelAxisCode::REL_RX,
        RelAxisCode::REL_RY,
        RelAxisCode::REL_RZ,
        RelAxisCode::REL_HWHEEL,
        RelAxisCode::REL_DIAL,
        RelAxisCode::REL_WHEEL,
        RelAxisCode::REL_MISC,
    ]
}

/// Position of a relative-axis code in `rel_axis_code_list`.
pub open spec fn rel_axis_code_ix(a: RelAxisCode) -> int {
    match a {
        RelAxisCode::REL_X => 0,
        RelAxisCode::REL_Y => 1,
        RelAxisCode::REL_Z => 2,
        RelAxisCode::REL_RX => 3,
        RelAxisCode::REL_RY => 4,
        RelAxisCode::REL_RZ => 5,
        RelAxisCode::REL_HWHEEL => 6,
        RelAxisCode::REL_DIAL => 7,
        RelAxisCode::REL_WHEEL => 8,
        RelAxisCode::REL_MISC => 9,
    }
}

/// Every relative-axis code stands in `rel_axis_code_list`.
pub proof fn lemma_rel_axis_code_list_complete()
    ensures
        forall|a: RelAxisCode| #[trigger] rel_axis_code_list().contains(a),
{
    assert forall|a: RelAxisCode| #[trigger] rel_axis_code_list().contains(a) by {
        assert(0 <= rel_axis_code_ix(a) < rel_axis_code_list().len());
        assert(rel_axis_code_list()[rel_axis_code_ix(a)] == a);
    }
}

/// The key codes of the output key space, as a vector.
#[verifier::rlimit(100)]
pub fn all_key_codes() -> (r: Vec<KeyCode>)
    ensures
        r@ == key_code_list(),
{
    let mut v: Vec<KeyCode> = Vec::new();
    v.push(KeyCode::KEY_ESC);
    v.push(KeyCode::KEY_0);
    v.push(KeyCode::KEY_1);
    v.push(KeyCode::KEY_2);
    v.push(KeyCode::KEY_3);
    v.push(KeyCode::KEY_4);
    v.push(KeyCode::KEY_5);
    v.push(KeyCode::KEY_6);
    v.push(KeyCode::KEY_7);
    v.push(KeyCode::KEY_8);
    v.push(KeyCode::KEY_9);
    v.push(KeyCode::KEY_A);
    v.push(KeyCode::KEY_B);
    v.push(KeyCode::KEY_C);
    v.push(KeyCode::KEY_D);
    v.push(KeyCode::KEY_E);
    v.push(KeyCode::KEY_F);
    v.push(KeyCode::KEY_G);
    v.push(KeyCode::KEY_H);
    v.push(KeyCode::KEY_I);
    v.push(KeyCode::KEY_J);
    v.push(KeyCode::KEY_K);
    v.push(KeyCode::KEY_L);
    v.push(KeyCode::KEY_M);
    v.push(KeyCode::KEY_N);
    v.push(KeyCode::KEY_O);
    v.push(KeyCode::KEY_P);
    v.push(KeyCode::KEY_Q);
    v.push(KeyCode::KEY_R);
    v.push(KeyCode::KEY_S);
    v.push(KeyCode::KEY_T);
    v.push(KeyCode::KEY_U);
    v.push(KeyCode::KEY_V);
    v.push(KeyCode::KEY_W);
    v.push(KeyCode::KEY_X);
    v.push(KeyCode::KEY_Y);
    v.push(KeyCode::KEY_Z);
    v.push(KeyCode::KEY_APOSTROPHE);
    v.push(KeyCode::KEY_LEFTBRACE);
    v.push(KeyCode::KEY_RIGHTBRACE);
    v.push(KeyCode::KEY_SEMICOLON);
    v.push(KeyCode::KEY_EQUAL);
    v.push(KeyCode::KEY_COMMA);
    v.push(KeyCode::KEY_DOT);
    v.push(KeyCode::KEY_MINUS);
    v.push(KeyCode::KEY_SLASH);
    v.push(KeyCode::KEY_BACKSLASH);
    v.push(KeyCode::KEY_SPACE);
    v.push(KeyCode::KEY_UP);
    v.push(KeyCode::KEY_DOWN);
    v.push(KeyCode::KEY_LEFT);
    v.push(KeyCode::KEY_RIGHT);
    v.push(KeyCode::KEY_BACKSPACE);
    v.push(KeyCode::KEY_ENTER);
    v.push(KeyCode::KEY_TAB);
    v.push(KeyCode::KEY_LEFTSHIFT);
    v.push(KeyCode::KEY_LEFTCTRL);
    v.push(KeyCode::KEY_LEFTMETA);
    v.push(KeyCode::KEY_LEFTALT);
    v.push(KeyCode::BTN_SOUTH);
    v.push(KeyCode::BTN_EAST);
    v.push(KeyCode::BTN_NORTH);
    v.push(KeyCode::BTN_WEST);
    v.push(KeyCode::BTN_Z);
    v.push(KeyCode::BTN_TL);
    v.push(KeyCode::BTN_TR);
    v.push(KeyCode::BTN_TL2);
    v.push(KeyCode::BTN_TR2);
    v.push(KeyCode::BTN_SELECT);
    v.push(KeyCode::BTN_START);
    v.push(KeyCode::BTN_MODE);
    v.push(KeyCode::BTN_THUMBL);
    v.push(KeyCode::BTN_THUMBR);
    v.push(KeyCode::BTN_DPAD_UP);
    v.push(KeyCode::BTN_DPAD_DOWN);
    v.push(KeyCode::BTN_DPAD_LEFT);
    v.push(KeyCode::BTN_DPAD_RIGHT);
    v.push(KeyCode::BTN_LEFT);
    v.push(KeyCode::BTN_RIGHT);
    v.push(KeyCode::BTN_TRIGGER_HAPPY1);
    v.push(KeyCode::BTN_TRIGGER_HAPPY2);
    v.push(KeyCode::BTN_TRIGGER_HAPPY3);
    v.push(KeyCode::BTN_TRIGGER_HAPPY4);
    proof {
        assert(v@ =~= key_code_list());
    }
    v
}

/// The relative-axis codes of the output axis space, as a vector.
pub fn all_rel_axis_codes() -> (r: Vec<RelAxisCode>)
    ensures
        r@ == rel_axis_code_list(),
{
    let mut v: Vec<RelAxisCode> = Vec::new();
    v.push(RelAxisCode::REL_X);
    v.push(RelAxisCode::REL_Y);
    v.push(RelAxisCode::REL_Z);
    v.push(RelAxisCode::REL_RX);
    v.push(RelAxisCode::REL_RY);
    v.push(RelAxisCode::REL_RZ);
    v.push(RelAxisCode::REL_HWHEEL);
    v.push(RelAxisCode::REL_DIAL);
    v.push(RelAxisCode::REL_WHEEL);
    v.push(RelAxisCode::REL_MISC);
    proof {
        assert(v@ =~= rel_axis_code_list());
    }
    v
}

} // verus!
