//! The modifier engine: a one-shot dispatcher without accumulation. Each
//! tracked input triggers its bound action directly on activation,
//! deactivation or direction swap; only per-axis direction memory is kept.

use crate::actions::{clone_action, Action, ActionView};
use crate::assoc::{assoc_get, assoc_put, get_entry, put_entry, EqKey};
use crate::constants::{AbsAxisCode, KeyCode};
use crate::events::{AbsAxisEvent, InputEvent, KeyEvent};
use crate::thresholds::{spec_table_passing, AllAxisThresholds, AxisThresholds, ThresholdType, ThresholdedAxis};
use vstd::prelude::*;

verus! {

/// The input types that can drive a modifier.
#[derive(Copy, Clone, Debug, PartialEq, Eq, Structural, Hash)]
pub enum ModifierInput {
    Key(KeyCode),
    Axis(ThresholdedAxis),
}

impl EqKey for ModifierInput {
    fn eq_key(&self, other: &Self) -> (r: bool)
        ensures
            r == (*self == *other),
    {
        *self == *other
    }
}

/// A list of pairs mapping a [`ModifierInput`] to an [`Action`].
pub type ModifierMapInput = Vec<(ModifierInput, Action)>;

/// The mathematical value of a [`ModifierMap`].
pub struct ModifierMapView {
    pub mapping: Seq<(ModifierInput, Action)>,
    pub thresholds: Seq<(AbsAxisCode, AxisThresholds)>,
    pub states: Seq<(AbsAxisCode, Option<ThresholdType>)>,
}

/// The primary and optional secondary action of one dispatch, as values.
pub type ActionPairView = (ActionView, Option<ActionView>);

/// The value of an optional dispatched action pair.
pub open spec fn spec_pair_view(o: Option<(Action, Option<Action>)>) -> Option<ActionPairView> {
    match o {
        Some((a, Some(b))) => Some((a@, Some(b@))),
        Some((a, None)) => Some((a@, None)),
        None => None,
    }
}

/// The remembered direction of an axis: the table entry, or nothing for an
/// axis that is not tracked.
pub open spec fn spec_prev_state(
    states: Seq<(AbsAxisCode, Option<ThresholdType>)>,
    axis: AbsAxisCode,
) -> Option<ThresholdType> {
    match assoc_get(states, axis) {
        Some(s) => s,
        None => None,
    }
}

/// What an axis sample dispatches, from the remembered direction and the
/// currently passing threshold:
/// - still past the same boundary: nothing;
/// - swapped to the opposite boundary: the new direction's action as
///   primary and the old one's as secondary, so both can fire atomically;
/// - newly past a boundary: that direction's action;
/// - receded into the dead zone: the remembered direction's action;
/// - in the dead zone with nothing remembered: nothing.
pub open spec fn spec_modifier_axis_result(
    mapping: Seq<(ModifierInput, Action)>,
    prev: Option<ThresholdType>,
    passing: Option<ThresholdedAxis>,
    axis: AbsAxisCode,
) -> Option<ActionPairView> {
    match passing {
        Some(t) => match prev {
            Some(p) => {
                if p == t.threshold {
                    None
                } else {
                    let prev_act = assoc_get(
                        mapping,
                        ModifierInput::Axis(ThresholdedAxis { axis, threshold: p }),
                    );
                    let new_act = assoc_get(mapping, ModifierInput::Axis(t));
                    match new_act {
                        Some(n) => Some(
                            (
                                n@,
                                match prev_act {
                                    Some(a) => Some(a@),
                                    None => None,
                                },
                            ),
                        ),
                        None => match prev_act {
                            Some(a) => Some((a@, None)),
                            None => None,
                        },
                    }
                }
            },
            None => match assoc_get(mapping, ModifierInput::Axis(t)) {
                Some(a) => Some((a@, None)),
                None => None,
            },
        },
        None => match prev {
            Some(p) => match assoc_get(
                mapping,
                ModifierInput::Axis(ThresholdedAxis { axis, threshold: p }),
            ) {
                Some(a) => Some((a@, None)),
                None => None,
            },
            None => None,
        },
    }
}

/// The direction memory after an axis sample: the passing direction is
/// remembered, recession clears the memory, and a sample that changes
/// nothing leaves it as it was.
pub open spec fn spec_modifier_states_after(
    states: Seq<(AbsAxisCode, Option<ThresholdType>)>,
    prev: Option<ThresholdType>,
    passing: Option<ThresholdedAxis>,
    axis: AbsAxisCode,
) -> Seq<(AbsAxisCode, Option<ThresholdType>)> {
    match passing {
        Some(t) => {
            if prev == Some(t.threshold) {
                states
            } else {
                assoc_put(states, axis, Some(t.threshold))
            }
        },
        None => match prev {
            Some(_) => assoc_put(states, axis, None::<ThresholdType>),
            None => states,
        },
    }
}

/// The lookup table built from a configuration's modifier list: later
/// entries for one input replace earlier ones.
pub open spec fn spec_modifier_init_mapping(s: Seq<(ModifierInput, Action)>) -> Seq<
    (ModifierInput, Action),
>
    decreases s.len(),
{
    if s.len() == 0 {
        Seq::empty()
    } else {
        assoc_put(spec_modifier_init_mapping(s.drop_last()), s.last().0, s.last().1)
    }
}

/// The direction memory built from a configuration's modifier list: one
/// empty slot per tracked axis.
pub open spec fn spec_modifier_init_states(s: Seq<(ModifierInput, Action)>) -> Seq<
    (AbsAxisCode, Option<ThresholdType>),
>
    decreases s.len(),
{
    if s.len() == 0 {
        Seq::empty()
    } else {
        let prev = spec_modifier_init_states(s.drop_last());
        match s.last().0 {
            ModifierInput::Axis(ta) => assoc_put(prev, ta.axis, None::<ThresholdType>),
            ModifierInput::Key(_) => prev,
        }
    }
}

/// The stateless-except-axis-memory one-shot dispatcher.
pub struct ModifierMap {
    modifier_mapping: Vec<(ModifierInput, Action)>,
    axis_thresholds: AllAxisThresholds,
    axis_states: Vec<(AbsAxisCode, Option<ThresholdType>)>,
}

impl View for ModifierMap {
    type V = ModifierMapView;

    closed spec fn view(&self) -> ModifierMapView {
        ModifierMapView {
            mapping: self.modifier_mapping@,
            thresholds: self.axis_thresholds@,
            states: self.axis_states@,
        }
    }
}

impl ModifierMap {
    /// Builds the dispatcher from a configuration's modifier list and the
    /// configured axis boundaries.
    pub fn init(modifier_map: ModifierMapInput, all_a_t: AllAxisThresholds) -> (r: Self)
        ensures
            r@.mapping == spec_modifier_init_mapping(modifier_map@),
            r@.states == spec_modifier_init_states(modifier_map@),
            r@.thresholds == all_a_t@,
    {
        let mut modifier_mapping: Vec<(ModifierInput, Action)> = Vec::new();
        let mut axis_states: Vec<(AbsAxisCode, Option<ThresholdType>)> = Vec::new();
        let mut rest = modifier_map;
        let ghost all = rest@;
        let n = rest.len();
        for i in 0..n
            invariant
                n == all.len(),
                rest@ == all.subrange(i as int, n as int),
                modifier_mapping@ == spec_modifier_init_mapping(all.subrange(0, i as int)),
                axis_states@ == spec_modifier_init_states(all.subrange(0, i as int)),
        {
            let (input, output) = rest.remove(0);
            put_entry(&mut modifier_mapping, input, output);
            if let ModifierInput::Axis(ta) = input {
                put_entry(&mut axis_states, ta.code(), None);
            }
            proof {
                assert(all.subrange(0, i as int + 1).drop_last() =~= all.subrange(0, i as int));
                assert(all.subrange(0, i as int + 1).last() == all[i as int]);
                assert(rest@ =~= all.subrange(i as int + 1, n as int));
            }
        }
        proof {
            assert(all.subrange(0, n as int) =~= all);
        }
        Self { modifier_mapping, axis_thresholds: all_a_t, axis_states }
    }

    /// A key event dispatches the action bound to that key, whatever the
    /// press direction; at most one action comes out.
    fn handle_key(&mut self, ev: &KeyEvent) -> (r: Option<(Action, Option<Action>)>)
        ensures
            *final(self) == *old(self),
            spec_pair_view(r) == match assoc_get(old(self)@.mapping, ModifierInput::Key(ev.key)) {
                Some(a) => Some((a@, None::<ActionView>)),
                None => None::<ActionPairView>,
            },
    {
        match get_entry(&self.modifier_mapping, &ModifierInput::Key(ev.key())) {
            Some(a) => Some((clone_action(a), None)),
            None => None,
        }
    }

    /// An axis event dispatches per the transition between the remembered
    /// direction and the currently passing threshold, and updates the
    /// memory.
    fn handle_axis(&mut self, ev: &AbsAxisEvent) -> (r: Option<(Action, Option<Action>)>)
        ensures
            final(self)@.mapping == old(self)@.mapping,
            final(self)@.thresholds == old(self)@.thresholds,
            final(self)@.states == spec_modifier_states_after(
                old(self)@.states,
                spec_prev_state(old(self)@.states, ev.axis),
                spec_passing_t(old(self)@.thresholds, *ev),
                ev.axis,
            ),
            spec_pair_view(r) == spec_modifier_axis_result(
                old(self)@.mapping,
                spec_prev_state(old(self)@.states, ev.axis),
                spec_passing_t(old(self)@.thresholds, *ev),
                ev.axis,
            ),
    {
        let prev_state: Option<ThresholdType> = match get_entry(&self.axis_states, &ev.axis()) {
            Some(s) => *s,
            None => None,
        };
        match self.axis_thresholds.get_passing(ev) {
            Some(thresholded_axis) => match prev_state {
                Some(prev_threshold) => {
                    if prev_threshold == thresholded_axis.threshold() {
                        // The axis is still past the same boundary.
                        None
                    } else {
                        // The axis swapped boundaries.
                        let prev_act = match get_entry(
                            &self.modifier_mapping,
                            &ModifierInput::Axis(ThresholdedAxis::new(ev.axis(), prev_threshold)),
                        ) {
                            Some(a) => Some(clone_action(a)),
                            None => None,
                        };
                        let new_act = match get_entry(
                            &self.modifier_mapping,
                            &ModifierInput::Axis(thresholded_axis),
                        ) {
                            Some(a) => Some(clone_action(a)),
                            None => None,
                        };
                        put_entry(
                            &mut self.axis_states,
                            ev.axis(),
                            Some(thresholded_axis.threshold()),
                        );
                        match new_act {
                            Some(new_act) => Some((new_act, prev_act)),
                            None => match prev_act {
                                Some(act) => Some((act, None)),
                                None => None,
                            },
                        }
                    }
                },
                None => {
                    // The axis newly passed a boundary.
                    put_entry(&mut self.axis_states, ev.axis(), Some(thresholded_axis.threshold()));
                    match get_entry(&self.modifier_mapping, &ModifierInput::Axis(thresholded_axis))
                    {
                        Some(a) => Some((clone_action(a), None)),
                        None => None,
                    }
                },
            },
            None => match prev_state {
                Some(threshold_type) => {
                    // The axis receded into the dead zone.
                    put_entry(&mut self.axis_states, ev.axis(), None);
                    match get_entry(
                        &self.modifier_mapping,
                        &ModifierInput::Axis(ThresholdedAxis::new(ev.axis(), threshold_type)),
                    ) {
                        Some(a) => Some((clone_action(a), None)),
                        None => None,
                    }
                },
                None => None,
            },
        }
    }

    /// Routes one input event: key and absolute-axis events are handled,
    /// relative-axis events pass through untouched.
    pub fn handle_event(&mut self, ev: &InputEvent) -> (r: Option<(Action, Option<Action>)>)
        ensures
            final(self)@.mapping == old(self)@.mapping,
            final(self)@.thresholds == old(self)@.thresholds,
            match *ev {
                InputEvent::KeyEvent(kev) => final(self)@.states == old(self)@.states
                    && spec_pair_view(r) == match assoc_get(
                    old(self)@.mapping,
                    ModifierInput::Key(kev.key),
                ) {
                    Some(a) => Some((a@, None::<ActionView>)),
                    None => None::<ActionPairView>,
                },
                InputEvent::AbsAxisEvent(aev) => final(self)@.states == spec_modifier_states_after(
                    old(self)@.states,
                    spec_prev_state(old(self)@.states, aev.axis),
                    spec_passing_t(old(self)@.thresholds, aev),
                    aev.axis,
                ) && spec_pair_view(r) == spec_modifier_axis_result(
                    old(self)@.mapping,
                    spec_prev_state(old(self)@.states, aev.axis),
                    spec_passing_t(old(self)@.thresholds, aev),
                    aev.axis,
                ),
                InputEvent::RelAxisEvent(_) => final(self)@.states == old(self)@.states && r
                    is None,
            },
    {
        match ev {
            InputEvent::KeyEvent(kev) => self.handle_key(kev),
            InputEvent::AbsAxisEvent(aev) => self.handle_axis(aev),
            InputEvent::RelAxisEvent(_) => None,
        }
    }

    /// The actions of the lookup table, in table order.
    pub fn actions(&self) -> (r: Vec<Action>)
        ensures
            r@.map_values(|a: Action| a@) == self@.mapping.map_values(
                |p: (ModifierInput, Action)| p.1@,
            ),
    {
        let mut r: Vec<Action> = Vec::new();
        let n = self.modifier_mapping.len();
        for i in 0..n
            invariant
                n == self.modifier_mapping@.len(),
                r@.len() == i,
                forall|j: int| 0 <= j < i ==> (#[trigger] r@[j])@ == self.modifier_mapping@[j].1@,
        {
            r.push(clone_action(&self.modifier_mapping[i].1));
        }
        proof {
            assert(r@.map_values(|a: Action| a@) =~= self@.mapping.map_values(
                |p: (ModifierInput, Action)| p.1@,
            ));
        }
        r
    }
}

/// The passing threshold identity a boundary table reports for an event.
pub open spec fn spec_passing_t(
    table: Seq<(AbsAxisCode, AxisThresholds)>,
    ev: AbsAxisEvent,
) -> Option<ThresholdedAxis> {
    match spec_table_passing(table, ev.axis, ev.state) {
        Some(p) => Some(p.0),
        None => None,
    }
}

} // verus!
