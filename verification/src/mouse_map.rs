//! The mouse engine: the same transition detection as the modifier engine,
//! but emitting continuously-valued velocity actions through a linear
//! profile instead of discrete table lookups.

use crate::actions::{
    Action, ActionView, AxisList, OutputAction, OutputActionView, StateChange, StateChangeView,
};
use crate::assoc::{assoc_get, assoc_put, get_entry, put_entry};
use crate::constants::{AbsAxisCode, AxisState, RelAxisCode};
use crate::events::{AbsAxisEvent, InputEvent, RelAxisEvent};
use crate::modifier_map::{
    spec_modifier_states_after, spec_passing_t, spec_prev_state, ActionPairView, spec_pair_view,
};
use crate::thresholds::{spec_table_passing, AllAxisThresholds, AxisThresholds, ThresholdType, ThresholdedAxis};
use vstd::prelude::*;

verus! {

/// The input type used for mouse mapping: a thresholded axis, so that dead
/// zones apply.
pub type MouseInput = ThresholdedAxis;

/// A linear velocity profile for mouse movement.
///
/// The emitted velocity follows
/// `velocity = slope * (axis_value - boundary_value) / 1_000_000 + offset`:
/// the slope is given in millionths, so that sub-unit sensitivities of the
/// high raw axis ranges stay exact integer arithmetic.
#[derive(Copy, Clone, Debug, PartialEq, Eq, Structural, Hash)]
pub struct MouseProfile {
    /// The relative axis to drive when emitting mouse events.
    pub code: RelAxisCode,
    /// The linear sensitivity of the mouse, in millionths per raw unit.
    pub slope: i64,
    /// The linear offset of the mouse, in output units.
    pub offset: i64,
}

/// A list of pairs mapping a [`MouseInput`] to a [`MouseProfile`].
pub type MouseMapInput = Vec<(MouseInput, MouseProfile)>;

impl MouseProfile {
    /// Validity: slope and offset small enough that the velocity formula
    /// stays inside 64-bit arithmetic for any raw sample.
    pub open spec fn wf(self) -> bool {
        -1000000000 <= self.slope <= 1000000000 && -2000000000 <= self.offset <= 2000000000
    }
}

/// The slope term of the velocity formula, with the division truncated
/// toward zero.
pub open spec fn spec_scaled(slope: int, state: int) -> int {
    let p = slope * state;
    if p >= 0 {
        p / 1000000
    } else {
        -((-p) / 1000000)
    }
}

/// The emitted velocity: the linear formula, saturated to the output's
/// 32-bit axis unit.
pub open spec fn spec_velocity(slope: int, offset: int, state: int) -> int {
    let v = spec_scaled(slope, state) + offset;
    if v > 0x7fffffff {
        0x7fffffff
    } else if v < -0x80000000 {
        -0x80000000
    } else {
        v
    }
}

/// The state-change action that sets the profile's target axis to the
/// velocity computed for a sample `state` raw units past the boundary.
pub open spec fn spec_velocity_action(profile: MouseProfile, state: int) -> ActionView {
    ActionView::OutputAction(
        OutputActionView::StateChange(
            StateChangeView {
                keys: None,
                axes: Some(
                    seq![
                        RelAxisEvent {
                            axis: profile.code,
                            state: spec_velocity(
                                profile.slope as int,
                                profile.offset as int,
                                state,
                            ) as i32,
                        }
                    ],
                ),
            },
        ),
    )
}

/// The state-change action that zeroes the profile's target axis.
pub open spec fn spec_zeroed_action(profile: MouseProfile) -> ActionView {
    ActionView::OutputAction(
        OutputActionView::StateChange(
            StateChangeView {
                keys: None,
                axes: Some(seq![RelAxisEvent { axis: profile.code, state: 0i32 }]),
            },
        ),
    )
}

/// What an axis sample makes the mouse engine emit, from the remembered
/// direction and the currently passing threshold with its boundary value:
/// - still past the same boundary: a fresh velocity for the sample;
/// - swapped boundaries: the new direction's velocity as primary and a zero
///   for the old direction as secondary;
/// - newly past a boundary: that direction's velocity;
/// - receded into the dead zone: a zero for the remembered direction;
/// - in the dead zone with nothing remembered: nothing.
pub open spec fn spec_mouse_axis_result(
    mapping: Seq<(MouseInput, MouseProfile)>,
    prev: Option<ThresholdType>,
    passing: Option<(ThresholdedAxis, AxisState)>,
    axis: AbsAxisCode,
    raw: AxisState,
) -> Option<ActionPairView> {
    match passing {
        Some((t, tv)) => {
            let rel = raw - tv;
            match prev {
                Some(p) => {
                    if p == t.threshold {
                        match assoc_get(mapping, t) {
                            Some(profile) => Some(
                                (spec_velocity_action(profile, rel), None::<ActionView>),
                            ),
                            None => None,
                        }
                    } else {
                        let prev_act = match assoc_get(
                            mapping,
                            ThresholdedAxis { axis, threshold: p },
                        ) {
                            Some(profile) => Some(spec_zeroed_action(profile)),
                            None => None,
                        };
                        match assoc_get(mapping, t) {
                            Some(profile) => Some((spec_velocity_action(profile, rel), prev_act)),
                            None => match prev_act {
                                Some(a) => Some((a, None)),
                                None => None,
                            },
                        }
                    }
                },
                None => match assoc_get(mapping, t) {
                    Some(profile) => Some((spec_velocity_action(profile, rel), None::<ActionView>)),
                    None => None,
                },
            }
        },
        None => match prev {
            Some(p) => match assoc_get(mapping, ThresholdedAxis { axis, threshold: p }) {
                Some(profile) => Some((spec_zeroed_action(profile), None::<ActionView>)),
                None => None,
            },
            None => None,
        },
    }
}

/// The lookup table built from a configuration's mouse list: later entries
/// for one input replace earlier ones.
pub open spec fn spec_mouse_init_mapping(s: Seq<(MouseInput, MouseProfile)>) -> Seq<
    (MouseInput, MouseProfile),
>
    decreases s.len(),
{
    if s.len() == 0 {
        Seq::empty()
    } else {
        assoc_put(spec_mouse_init_mapping(s.drop_last()), s.last().0, s.last().1)
    }
}

/// The direction memory built from a configuration's mouse list: one empty
/// slot per tracked axis.
pub open spec fn spec_mouse_init_states(s: Seq<(MouseInput, MouseProfile)>) -> Seq<
    (AbsAxisCode, Option<ThresholdType>),
>
    decreases s.len(),
{
    if s.len() == 0 {
        Seq::empty()
    } else {
        assoc_put(spec_mouse_init_states(s.drop_last()), s.last().0.axis, None::<ThresholdType>)
    }
}

impl MouseProfile {
    /// The velocity for a sample `state` raw units past the boundary.
    fn compute_velocity(&self, state: i64) -> (r: AxisState)
        requires
            self.wf(),
            -0x100000000 <= state <= 0x100000000,
        ensures
            r == spec_velocity(self.slope as int, self.offset as int, state as int),
    {
        proof {
            assert(-0x4000000000000000 <= (self.slope as int) * (state as int)
                <= 0x4000000000000000) by (nonlinear_arith)
                requires
                    -1000000000 <= self.slope <= 1000000000,
                    -0x100000000 <= state <= 0x100000000,
            ;
        }
        let prod: i64 = self.slope * state;
        let neg = prod < 0;
        let mag: u64 = if neg {
            (-prod) as u64
        } else {
            prod as u64
        };
        let q: i64 = (mag / 1000000u64) as i64;
        let scaled: i64 = if neg {
            -q
        } else {
            q
        };
        let v: i64 = scaled + self.offset;
        if v > 0x7fffffff {
            0x7fffffff
        } else if v < -0x80000000 {
            -0x80000000
        } else {
            v as i32
        }
    }

    /// The state-change action carrying the velocity for a sample `state`
    /// raw units past the boundary.
    pub fn map_state_to_action(&self, state: i64) -> (r: Action)
        requires
            self.wf(),
            -0x100000000 <= state <= 0x100000000,
        ensures
            r@ == spec_velocity_action(*self, state as int),
    {
        let velocity = self.compute_velocity(state);
        let mut axes: Vec<RelAxisEvent> = Vec::new();
        axes.push(RelAxisEvent::new(self.code, velocity));
        let r = Action::OutputAction(
            OutputAction::StateChange(StateChange::new(None, Some(AxisList(axes)))),
        );
        proof {
            assert(r@ == spec_velocity_action(*self, state as int));
        }
        r
    }

    /// The state-change action that zeroes this profile's target axis.
    pub fn zeroed(&self) -> (r: Action)
        ensures
            r@ == spec_zeroed_action(*self),
    {
        let mut axes: Vec<RelAxisEvent> = Vec::new();
        axes.push(RelAxisEvent::new(self.code, 0));
        let r = Action::OutputAction(
            OutputAction::StateChange(StateChange::new(None, Some(AxisList(axes)))),
        );
        proof {
            assert(r@ == spec_zeroed_action(*self));
        }
        r
    }
}

/// The mathematical value of a [`MouseMap`].
pub struct MouseMapView {
    pub mapping: Seq<(MouseInput, MouseProfile)>,
    pub thresholds: Seq<(AbsAxisCode, AxisThresholds)>,
    pub states: Seq<(AbsAxisCode, Option<ThresholdType>)>,
}

impl MouseMapView {
    /// Validity: every configured profile stays inside the arithmetic the
    /// velocity formula needs.
    pub open spec fn wf(self) -> bool {
        forall|i: int| 0 <= i < self.mapping.len() ==> (#[trigger] self.mapping[i]).1.wf()
    }
}

/// The velocity dispatcher.
pub struct MouseMap {
    mouse_mapping: Vec<(MouseInput, MouseProfile)>,
    axis_thresholds: AllAxisThresholds,
    axis_states: Vec<(AbsAxisCode, Option<ThresholdType>)>,
}

impl View for MouseMap {
    type V = MouseMapView;

    closed spec fn view(&self) -> MouseMapView {
        MouseMapView {
            mapping: self.mouse_mapping@,
            thresholds: self.axis_thresholds@,
            states: self.axis_states@,
        }
    }
}

impl MouseMap {
    /// Builds the dispatcher from a configuration's mouse list and the
    /// configured axis boundaries.
    pub fn init(mouse_map: MouseMapInput, all_a_t: AllAxisThresholds) -> (r: Self)
        requires
            forall|i: int| 0 <= i < mouse_map@.len() ==> (#[trigger] mouse_map@[i]).1.wf(),
        ensures
            r@.mapping == spec_mouse_init_mapping(mouse_map@),
            r@.states == spec_mouse_init_states(mouse_map@),
            r@.thresholds == all_a_t@,
            r@.wf(),
    {
        let mut mouse_mapping: Vec<(MouseInput, MouseProfile)> = Vec::new();
        let mut axis_states: Vec<(AbsAxisCode, Option<ThresholdType>)> = Vec::new();
        let n = mouse_map.len();
        for i in 0..n
            invariant
                n == mouse_map@.len(),
                forall|j: int| 0 <= j < n ==> (#[trigger] mouse_map@[j]).1.wf(),
                mouse_mapping@ == spec_mouse_init_mapping(mouse_map@.subrange(0, i as int)),
                axis_states@ == spec_mouse_init_states(mouse_map@.subrange(0, i as int)),
                forall|j: int| 0 <= j < mouse_mapping@.len() ==> (#[trigger] mouse_mapping@[j]).1.wf(),
        {
            let (input, output) = mouse_map[i];
            let ghost pre_mapping = mouse_mapping@;
            put_entry(&mut mouse_mapping, input, output);
            put_entry(&mut axis_states, input.code(), None);
            proof {
                assert(mouse_map@.subrange(0, i as int + 1).drop_last() =~= mouse_map@.subrange(
                    0,
                    i as int,
                ));
                assert(mouse_map@.subrange(0, i as int + 1).last() == mouse_map@[i as int]);
                assert forall|j: int|
                    0 <= j < mouse_mapping@.len() implies (#[trigger] mouse_mapping@[j]).1.wf() by {
                    crate::assoc::lemma_assoc_find(pre_mapping, input);
                }
            }
        }
        proof {
            assert(mouse_map@.subrange(0, n as int) =~= mouse_map@);
        }
        Self { mouse_mapping, axis_thresholds: all_a_t, axis_states }
    }

    /// An axis event dispatches per the transition between the remembered
    /// direction and the currently passing threshold, and updates the
    /// memory.
    fn handle_axis(&mut self, ev: &AbsAxisEvent) -> (r: Option<(Action, Option<Action>)>)
        requires
            old(self)@.wf(),
        ensures
            final(self)@.mapping == old(self)@.mapping,
            final(self)@.thresholds == old(self)@.thresholds,
            final(self)@.states == spec_modifier_states_after(
                old(self)@.states,
                spec_prev_state(old(self)@.states, ev.axis),
                spec_passing_t(old(self)@.thresholds, *ev),
                ev.axis,
            ),
            spec_pair_view(r) == spec_mouse_axis_result(
                old(self)@.mapping,
                spec_prev_state(old(self)@.states, ev.axis),
                spec_table_passing(old(self)@.thresholds, ev.axis, ev.state),
                ev.axis,
                ev.state,
            ),
    {
        let prev_state: Option<ThresholdType> = match get_entry(&self.axis_states, &ev.axis()) {
            Some(s) => *s,
            None => None,
        };
        match self.axis_thresholds.get_passing_with_state(ev) {
            Some((t_axis, t_val)) => {
                let axis_val: i64 = (ev.state() as i64) - (t_val as i64);
                match prev_state {
                    Some(prev_threshold) => {
                        if prev_threshold == t_axis.threshold() {
                            // The axis is still past the same boundary.
                            match get_entry(&self.mouse_mapping, &t_axis) {
                                Some(profile) => {
                                    proof {
                                        wf_entry(old(self)@.mapping, t_axis);
                                    }
                                    Some((profile.map_state_to_action(axis_val), None))
                                },
                                None => None,
                            }
                        } else {
                            // The axis swapped boundaries.
                            let prev_act = match get_entry(
                                &self.mouse_mapping,
                                &ThresholdedAxis::new(ev.axis(), prev_threshold),
                            ) {
                                Some(p) => Some(p.zeroed()),
                                None => None,
                            };
                            let new_act = match get_entry(&self.mouse_mapping, &t_axis) {
                                Some(profile) => {
                                    proof {
                                        wf_entry(old(self)@.mapping, t_axis);
                                    }
                                    Some(profile.map_state_to_action(axis_val))
                                },
                                None => None,
                            };
                            put_entry(&mut self.axis_states, ev.axis(), Some(t_axis.threshold()));
                            match new_act {
                                Some(new_act) => Some((new_act, prev_act)),
                                None => match prev_act {
                                    Some(act) => Some((act, None)),
                                    None => None,
                                },
                            }
                        }
                    },
                    None => {
                        // The axis newly passed a boundary.
                        put_entry(&mut self.axis_states, ev.axis(), Some(t_axis.threshold()));
                        match get_entry(&self.mouse_mapping, &t_axis) {
                            Some(profile) => {
                                proof {
                                    wf_entry(old(self)@.mapping, t_axis);
                                }
                                Some((profile.map_state_to_action(axis_val), None))
                            },
                            None => None,
                        }
                    },
                }
            },
            None => match prev_state {
                Some(prev_threshold) => {
                    // The axis receded into the dead zone.
                    put_entry(&mut self.axis_states, ev.axis(), None);
                    match get_entry(
                        &self.mouse_mapping,
                        &ThresholdedAxis::new(ev.axis(), prev_threshold),
                    ) {
                        Some(p) => Some((p.zeroed(), None)),
                        None => None,
                    }
                },
                None => None,
            },
        }
    }

    /// Routes one input event: only absolute-axis events drive the mouse.
    pub fn handle_event(&mut self, ev: &InputEvent) -> (r: Option<(Action, Option<Action>)>)
        requires
            old(self)@.wf(),
        ensures
            final(self)@.mapping == old(self)@.mapping,
            final(self)@.thresholds == old(self)@.thresholds,
            match *ev {
                InputEvent::AbsAxisEvent(aev) => final(self)@.states == spec_modifier_states_after(
                    old(self)@.states,
                    spec_prev_state(old(self)@.states, aev.axis),
                    spec_passing_t(old(self)@.thresholds, aev),
                    aev.axis,
                ) && spec_pair_view(r) == spec_mouse_axis_result(
                    old(self)@.mapping,
                    spec_prev_state(old(self)@.states, aev.axis),
                    spec_table_passing(old(self)@.thresholds, aev.axis, aev.state),
                    aev.axis,
                    aev.state,
                ),
                _ => final(self)@.states == old(self)@.states && r is None,
            },
    {
        match ev {
            InputEvent::KeyEvent(_) => None,
            InputEvent::AbsAxisEvent(aev) => self.handle_axis(aev),
            InputEvent::RelAxisEvent(_) => None,
        }
    }
}

/// The profile a valid table holds for a key is itself valid.
proof fn wf_entry(mapping: Seq<(MouseInput, MouseProfile)>, k: MouseInput)
    requires
        forall|i: int| 0 <= i < mapping.len() ==> (#[trigger] mapping[i]).1.wf(),
        assoc_get(mapping, k) is Some,
    ensures
        assoc_get(mapping, k)->0.wf(),
{
    crate::assoc::lemma_assoc_find(mapping, k);
}

} // verus!
