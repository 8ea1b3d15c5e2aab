//! Actions: the output events the engines produce, the engine-facing inner
//! actions, and the total conversion algebra between output-action shapes.

use crate::assoc::clone_vec_copy;
use crate::constants::{AxisState, KeyCode, PressState, RelAxisCode};
use crate::events::RelAxisEvent;
use vstd::prelude::*;

verus! {

/// A list of key codes.
pub type KeyList = Vec<KeyCode>;

/// A list of relative axes and the value to drive each with.
#[derive(Debug, Clone, PartialEq, Eq, Hash)]
pub struct AxisList(pub Vec<RelAxisEvent>);

impl View for AxisList {
    type V = Seq<RelAxisEvent>;

    open spec fn view(&self) -> Seq<RelAxisEvent> {
        self.0@
    }
}

impl AxisList {
    /// Builds a list from pairs of axis code and value.
    pub fn from_pairs(pairs: Vec<(RelAxisCode, AxisState)>) -> (r: Self)
        ensures
            r@ == pairs@.map_values(|p: (RelAxisCode, AxisState)| RelAxisEvent {
                axis: p.0,
                state: p.1,
            }),
    {
        let mut entries: Vec<RelAxisEvent> = Vec::new();
        let n = pairs.len();
        for i in 0..n
            invariant
                n == pairs@.len(),
                entries@ == pairs@.subrange(0, i as int).map_values(
                    |p: (RelAxisCode, AxisState)| RelAxisEvent { axis: p.0, state: p.1 },
                ),
        {
            entries.push(RelAxisEvent::new(pairs[i].0, pairs[i].1));
            proof {
                assert(entries@ =~= pairs@.subrange(0, i as int + 1).map_values(
                    |p: (RelAxisCode, AxisState)| RelAxisEvent { axis: p.0, state: p.1 },
                ));
            }
        }
        proof {
            assert(pairs@.subrange(0, n as int) =~= pairs@);
        }
        Self(entries)
    }

    /// Sets every axis value in the list to zero: the inverse of any motion.
    pub fn inverse(&mut self)
        ensures
            final(self)@ == old(self)@.map_values(|e: RelAxisEvent| RelAxisEvent {
                axis: e.axis,
                state: 0,
            }),
    {
        let n = self.0.len();
        for i in 0..n
            invariant
                n == self.0@.len(),
                self.0@.len() == old(self).0@.len(),
                forall|j: int| i <= j < n ==> self.0@[j] == old(self).0@[j],
                forall|j: int| 0 <= j < i ==> self.0@[j] == (RelAxisEvent {
                    axis: old(self).0@[j].axis,
                    state: 0i32,
                }),
        {
            let axis = self.0[i].axis;
            self.0.set(i, RelAxisEvent { axis, state: 0 });
        }
        proof {
            assert(final(self)@ =~= old(self)@.map_values(|e: RelAxisEvent| RelAxisEvent {
                axis: e.axis,
                state: 0,
            }));
        }
    }

    /// The axis events within the list.
    pub fn iter(&self) -> (r: &Vec<RelAxisEvent>)
        ensures
            r@ == self@,
    {
        &self.0
    }

    /// Mutable access to the axis events within the list.
    pub fn iter_mut(&mut self) -> (r: &mut Vec<RelAxisEvent>)
        ensures
            *r == old(self).0,
            final(self).0 == *final(r),
    {
        &mut self.0
    }
}

/// A copy of an axis list.
pub fn clone_axis_list(a: &AxisList) -> (r: AxisList)
    ensures
        r@ == a@,
{
    AxisList(clone_vec_copy(&a.0))
}

/// The data of a change of key state: the keys and the state to put them in.
#[derive(Debug, Clone, PartialEq, Eq, Hash)]
pub struct KeyStateChange {
    pub keys: KeyList,
    pub state: PressState,
}

/// The mathematical value of a [`KeyStateChange`].
pub struct KeyStateChangeView {
    pub keys: Seq<KeyCode>,
    pub state: PressState,
}

impl View for KeyStateChange {
    type V = KeyStateChangeView;

    open spec fn view(&self) -> KeyStateChangeView {
        KeyStateChangeView { keys: self.keys@, state: self.state }
    }
}

impl KeyStateChange {
    /// Flips the press state of the change, keeping the keys.
    pub fn inverse(&mut self)
        ensures
            final(self)@ == (KeyStateChangeView {
                keys: old(self)@.keys,
                state: old(self)@.state.spec_opposite(),
            }),
    {
        match self.state {
            PressState::Down => {
                self.state = PressState::Up;
            },
            PressState::Up => {
                self.state = PressState::Down;
            },
        }
    }
}

/// A copy of a key-state change.
pub fn clone_key_state_change(k: &KeyStateChange) -> (r: KeyStateChange)
    ensures
        r@ == k@,
{
    KeyStateChange { keys: clone_vec_copy(&k.keys), state: k.state }
}

/// An output action that sets an explicit press or axis-velocity state.
#[derive(Debug, Clone, PartialEq, Eq, Hash)]
pub struct StateChange {
    pub keys: Option<KeyStateChange>,
    pub axes: Option<AxisList>,
}

/// The mathematical value of a [`StateChange`].
pub struct StateChangeView {
    pub keys: Option<KeyStateChangeView>,
    pub axes: Option<Seq<RelAxisEvent>>,
}

impl View for StateChange {
    type V = StateChangeView;

    open spec fn view(&self) -> StateChangeView {
        StateChangeView {
            keys: match self.keys {
                Some(k) => Some(k@),
                None => None,
            },
            axes: match self.axes {
                Some(a) => Some(a@),
                None => None,
            },
        }
    }
}

impl StateChange {
    /// Creates a new StateChange.
    pub fn new(keys: Option<KeyStateChange>, axes: Option<AxisList>) -> (r: Self)
        ensures
            r == (StateChange { keys, axes }),
    {
        Self { keys, axes }
    }

    /// Inverts the change to its reciprocal: the press state of its keys is
    /// flipped and every axis value is set to zero.
    pub fn inverse(&mut self)
        ensures
            final(self)@.keys == match old(self)@.keys {
                Some(k) => Some(
                    KeyStateChangeView { keys: k.keys, state: k.state.spec_opposite() },
                ),
                None => None::<KeyStateChangeView>,
            },
            final(self)@.axes == match old(self)@.axes {
                Some(a) => Some(
                    a.map_values(|e: RelAxisEvent| RelAxisEvent { axis: e.axis, state: 0 }),
                ),
                None => None::<Seq<RelAxisEvent>>,
            },
    {
        if let Some(change) = self.keys.as_mut() {
            change.inverse();
        }
        if let Some(change) = self.axes.as_mut() {
            change.inverse();
        }
    }
}

/// A copy of a state change.
pub fn clone_state_change(s: &StateChange) -> (r: StateChange)
    ensures
        r@ == s@,
{
    StateChange {
        keys: match &s.keys {
            Some(k) => Some(clone_key_state_change(k)),
            None => None,
        },
        axes: match &s.axes {
            Some(a) => Some(clone_axis_list(a)),
            None => None,
        },
    }
}

/// A momentary tap: each key goes down and up in sequence, each axis gets a
/// one-shot delta.
#[derive(Debug, Clone, PartialEq, Eq, Hash)]
pub struct Pulse {
    pub keys: Option<KeyList>,
    pub axes: Option<AxisList>,
}

/// The mathematical value of a [`Pulse`] or a [`Toggle`].
pub struct KeysAxesView {
    pub keys: Option<Seq<KeyCode>>,
    pub axes: Option<Seq<RelAxisEvent>>,
}

impl View for Pulse {
    type V = KeysAxesView;

    open spec fn view(&self) -> KeysAxesView {
        KeysAxesView {
            keys: match self.keys {
                Some(k) => Some(k@),
                None => None,
            },
            axes: match self.axes {
                Some(a) => Some(a@),
                None => None,
            },
        }
    }
}

impl Pulse {
    /// Creates a new Pulse.
    pub fn new(keys: Option<KeyList>, axes: Option<AxisList>) -> (r: Self)
        ensures
            r == (Pulse { keys, axes }),
    {
        Self { keys, axes }
    }
}

/// A copy of a pulse.
pub fn clone_pulse(p: &Pulse) -> (r: Pulse)
    ensures
        r@ == p@,
{
    Pulse {
        keys: match &p.keys {
            Some(k) => Some(clone_vec_copy(k)),
            None => None,
        },
        axes: match &p.axes {
            Some(a) => Some(clone_axis_list(a)),
            None => None,
        },
    }
}

/// An output action that flips state: each key's press state is inverted,
/// each axis flips between the given value and zero.
#[derive(Debug, Clone, PartialEq, Eq, Hash)]
pub struct Toggle {
    pub keys: Option<KeyList>,
    pub axes: Option<AxisList>,
}

impl View for Toggle {
    type V = KeysAxesView;

    open spec fn view(&self) -> KeysAxesView {
        KeysAxesView {
            keys: match self.keys {
                Some(k) => Some(k@),
                None => None,
            },
            axes: match self.axes {
                Some(a) => Some(a@),
                None => None,
            },
        }
    }
}

impl Toggle {
    /// Creates a new Toggle.
    pub fn new(keys: Option<KeyList>, axes: Option<AxisList>) -> (r: Self)
        ensures
            r == (Toggle { keys, axes }),
    {
        Self { keys, axes }
    }
}

/// A copy of a toggle.
pub fn clone_toggle(t: &Toggle) -> (r: Toggle)
    ensures
        r@ == t@,
{
    Toggle {
        keys: match &t.keys {
            Some(k) => Some(clone_vec_copy(k)),
            None => None,
        },
        axes: match &t.axes {
            Some(a) => Some(clone_axis_list(a)),
            None => None,
        },
    }
}

/// An action that can be sent to the output device to simulate keyboard and
/// mouse input.
#[derive(Debug, Clone, PartialEq, Eq, Hash)]
pub enum OutputAction {
    StateChange(StateChange),
    Pulse(Pulse),
    Toggle(Toggle),
}

/// The mathematical value of an [`OutputAction`].
pub enum OutputActionView {
    StateChange(StateChangeView),
    Pulse(KeysAxesView),
    Toggle(KeysAxesView),
}

impl View for OutputAction {
    type V = OutputActionView;

    open spec fn view(&self) -> OutputActionView {
        match self {
            OutputAction::StateChange(sc) => OutputActionView::StateChange(sc@),
            OutputAction::Pulse(p) => OutputActionView::Pulse(p@),
            OutputAction::Toggle(t) => OutputActionView::Toggle(t@),
        }
    }
}

/// The shape of an output action, without the action's data.
#[derive(Copy, Clone, Debug, PartialEq, Eq, Structural, Hash)]
pub enum OutputActionType {
    StateChange,
    Pulse,
    Toggle,
}

/// The pulse shape of an output action: a state change or a toggle keeps its
/// key list and axis payload, dropping any explicit press direction.
pub open spec fn spec_pulse_of(oa: OutputActionView) -> KeysAxesView {
    match oa {
        OutputActionView::Pulse(p) => p,
        OutputActionView::StateChange(sc) => KeysAxesView {
            keys: match sc.keys {
                Some(k) => Some(k.keys),
                None => None,
            },
            axes: sc.axes,
        },
        OutputActionView::Toggle(t) => t,
    }
}

/// The state-change shape of an output action: a pulse or a toggle presses
/// its keys down; axis payloads pass through unchanged.
pub open spec fn spec_state_change_of(oa: OutputActionView) -> StateChangeView {
    match oa {
        OutputActionView::StateChange(sc) => sc,
        OutputActionView::Pulse(p) => StateChangeView {
            keys: match p.keys {
                Some(keys) => Some(KeyStateChangeView { keys, state: PressState::Down }),
                None => None,
            },
            axes: p.axes,
        },
        OutputActionView::Toggle(t) => StateChangeView {
            keys: match t.keys {
                Some(keys) => Some(KeyStateChangeView { keys, state: PressState::Down }),
                None => None,
            },
            axes: t.axes,
        },
    }
}

/// The toggle shape of an output action: a state change drops its explicit
/// press direction; axis payloads pass through unchanged.
pub open spec fn spec_toggle_of(oa: OutputActionView) -> KeysAxesView {
    match oa {
        OutputActionView::Toggle(t) => t,
        OutputActionView::Pulse(p) => KeysAxesView { keys: p.keys, axes: p.axes },
        OutputActionView::StateChange(sc) => KeysAxesView {
            keys: match sc.keys {
                Some(k) => Some(k.keys),
                None => None,
            },
            axes: sc.axes,
        },
    }
}

impl OutputAction {
    /// Converts the action into its pulse shape.
    pub fn into_pulse(self) -> (r: Pulse)
        ensures
            r@ == spec_pulse_of(self@),
    {
        match self {
            OutputAction::Pulse(p) => p,
            OutputAction::StateChange(sc) => Pulse {
                keys: match sc.keys {
                    Some(ksc) => Some(ksc.keys),
                    None => None,
                },
                axes: sc.axes,
            },
            OutputAction::Toggle(t) => Pulse { keys: t.keys, axes: t.axes },
        }
    }

    /// Converts the action into its state-change shape.
    pub fn into_state_change(self) -> (r: StateChange)
        ensures
            r@ == spec_state_change_of(self@),
    {
        match self {
            OutputAction::StateChange(sc) => sc,
            OutputAction::Pulse(p) => StateChange {
                keys: match p.keys {
                    Some(keys) => Some(KeyStateChange { keys, state: PressState::Down }),
                    None => None,
                },
                axes: p.axes,
            },
            OutputAction::Toggle(t) => StateChange {
                keys: match t.keys {
                    Some(keys) => Some(KeyStateChange { keys, state: PressState::Down }),
                    None => None,
                },
                axes: t.axes,
            },
        }
    }

    /// Converts the action into its toggle shape.
    pub fn into_toggle(self) -> (r: Toggle)
        ensures
            r@ == spec_toggle_of(self@),
    {
        match self {
            OutputAction::Toggle(t) => t,
            OutputAction::Pulse(p) => Toggle { keys: p.keys, axes: p.axes },
            OutputAction::StateChange(sc) => Toggle {
                keys: match sc.keys {
                    Some(ksc) => Some(ksc.keys),
                    None => None,
                },
                axes: sc.axes,
            },
        }
    }
}

/// A copy of an output action.
pub fn clone_output_action(a: &OutputAction) -> (r: OutputAction)
    ensures
        r@ == a@,
{
    match a {
        OutputAction::StateChange(sc) => OutputAction::StateChange(clone_state_change(sc)),
        OutputAction::Pulse(p) => OutputAction::Pulse(clone_pulse(p)),
        OutputAction::Toggle(t) => OutputAction::Toggle(clone_toggle(t)),
    }
}

/// Actions that act on or depend on the internal state of the mapper.
#[derive(Debug, Clone, PartialEq, Eq, Hash)]
pub enum InnerAction {
    /// Repeat the last emitted chord in the given output shape, converting
    /// if necessary.
    RepeatLastChord(OutputActionType),
    /// Switch to the loaded configuration registered under the given
    /// canonical path.
    SwitchConfig(String),
}

/// The mathematical value of an [`InnerAction`].
pub enum InnerActionView {
    RepeatLastChord(OutputActionType),
    SwitchConfig(Seq<char>),
}

impl View for InnerAction {
    type V = InnerActionView;

    open spec fn view(&self) -> InnerActionView {
        match self {
            InnerAction::RepeatLastChord(t) => InnerActionView::RepeatLastChord(*t),
            InnerAction::SwitchConfig(p) => InnerActionView::SwitchConfig(p@),
        }
    }
}

/// A copy of an inner action.
pub fn clone_inner_action(a: &InnerAction) -> (r: InnerAction)
    ensures
        r@ == a@,
{
    match a {
        InnerAction::RepeatLastChord(t) => InnerAction::RepeatLastChord(*t),
        InnerAction::SwitchConfig(p) => InnerAction::SwitchConfig(p.clone()),
    }
}

/// A user action bound to an input: either a device-facing output action or
/// an engine-facing inner action.
#[derive(Debug, Clone, PartialEq, Eq, Hash)]
pub enum Action {
    OutputAction(OutputAction),
    InnerAction(InnerAction),
}

/// The mathematical value of an [`Action`].
pub enum ActionView {
    OutputAction(OutputActionView),
    InnerAction(InnerActionView),
}

impl View for Action {
    type V = ActionView;

    open spec fn view(&self) -> ActionView {
        match self {
            Action::OutputAction(oa) => ActionView::OutputAction(oa@),
            Action::InnerAction(ia) => ActionView::InnerAction(ia@),
        }
    }
}

/// The values of a list of output actions.
pub open spec fn spec_out_view(s: Seq<OutputAction>) -> Seq<OutputActionView> {
    s.map_values(|a: OutputAction| a@)
}

/// The value of an optional action.
pub open spec fn spec_opt_act_view(o: Option<Action>) -> Option<ActionView> {
    match o {
        Some(a) => Some(a@),
        None => None,
    }
}

/// A copy of an action.
pub fn clone_action(a: &Action) -> (r: Action)
    ensures
        r@ == a@,
{
    match a {
        Action::OutputAction(oa) => Action::OutputAction(clone_output_action(oa)),
        Action::InnerAction(ia) => Action::InnerAction(clone_inner_action(ia)),
    }
}

} // verus!
