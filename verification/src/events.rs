//! Normalized input events: the closed set of event shapes the engines
//! consume, reduced to the relevant code and value of each hardware event.

use crate::constants::{AbsAxisCode, AxisState, KeyCode, PressState, RelAxisCode};
use vstd::prelude::*;

verus! {

/// The relevant data of a key event: the key and its press state.
#[derive(Copy, Clone, Debug, PartialEq, Eq, Structural, Hash)]
pub struct KeyEvent {
    pub key: KeyCode,
    pub state: PressState,
}

impl KeyEvent {
    /// Creates a new KeyEvent with the specified key and state.
    pub fn new(key: KeyCode, state: PressState) -> (r: Self)
        ensures
            r == (KeyEvent { key, state }),
    {
        Self { key, state }
    }

    /// The key the event reports on.
    pub fn key(&self) -> (r: KeyCode)
        ensures
            r == self.key,
    {
        self.key
    }

    /// The press state the event reports.
    pub fn state(&self) -> (r: PressState)
        ensures
            r == self.state,
    {
        self.state
    }
}

/// The relevant data of a relative-axis event: the axis and its value.
#[derive(Copy, Clone, Debug, PartialEq, Eq, Structural, Hash)]
pub struct RelAxisEvent {
    pub axis: RelAxisCode,
    pub state: AxisState,
}

impl RelAxisEvent {
    /// Creates a new RelAxisEvent with the specified axis and value.
    pub fn new(axis: RelAxisCode, val: AxisState) -> (r: Self)
        ensures
            r == (RelAxisEvent { axis, state: val }),
    {
        Self { axis, state: val }
    }

    /// The axis the event reports on.
    pub fn axis(&self) -> (r: RelAxisCode)
        ensures
            r == self.axis,
    {
        self.axis
    }

    /// The value the event reports.
    pub fn state(&self) -> (r: AxisState)
        ensures
            r == self.state,
    {
        self.state
    }

    /// Replaces the value of the event.
    pub fn set_state(&mut self, state: AxisState)
        ensures
            *final(self) == (RelAxisEvent { axis: old(self).axis, state }),
    {
        self.state = state;
    }
}

/// The relevant data of an absolute-axis event: the axis and its value.
#[derive(Copy, Clone, Debug, PartialEq, Eq, Structural, Hash)]
pub struct AbsAxisEvent {
    pub axis: AbsAxisCode,
    pub state: AxisState,
}

impl AbsAxisEvent {
    /// Creates a new AbsAxisEvent with the specified axis and value.
    pub fn new(axis: AbsAxisCode, state: AxisState) -> (r: Self)
        ensures
            r == (AbsAxisEvent { axis, state }),
    {
        Self { axis, state }
    }

    /// The axis the event reports on.
    pub fn axis(&self) -> (r: AbsAxisCode)
        ensures
            r == self.axis,
    {
        self.axis
    }

    /// The value the event reports.
    pub fn state(&self) -> (r: AxisState)
        ensures
            r == self.state,
    {
        self.state
    }
}

/// The different types of input events used by this library.
#[derive(Copy, Clone, Debug, PartialEq, Eq, Structural, Hash)]
pub enum InputEvent {
    KeyEvent(KeyEvent),
    RelAxisEvent(RelAxisEvent),
    AbsAxisEvent(AbsAxisEvent),
}

} // verus!
