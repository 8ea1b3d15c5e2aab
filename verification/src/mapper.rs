//! The orchestration layer: a graph of loaded configurations, each with its
//! three engines; events route through the active configuration's chord,
//! modifier and mouse engines in that fixed order, the resulting actions are
//! resolved at once, and a configuration swap performs the hands-off reset.

use crate::actions::{
    spec_opt_act_view, spec_out_view, spec_pulse_of, spec_state_change_of, spec_toggle_of, Action,
    ActionView, InnerAction, InnerActionView, OutputAction, OutputActionType, OutputActionView,
};
use crate::assoc::{assoc_get, assoc_has, lemma_assoc_find_at, lemma_assoc_find_none,
    lemma_assoc_has_push};
use crate::attribute_set::{spec_dedup, AttributeSetView};
use crate::chord_map::{
    spec_chord_inputs, spec_chord_table, spec_emit, spec_handle_axis, spec_handle_key, ChordMap,
    ChordMapView,
};
use crate::configuration::Configuration;
use crate::events::InputEvent;
use crate::modifier_map::{
    spec_modifier_axis_result, spec_modifier_init_mapping, spec_modifier_init_states,
    spec_modifier_states_after, spec_pair_view, spec_passing_t, spec_prev_state, ActionPairView,
    ModifierInput, ModifierMap, ModifierMapView,
};
use crate::mouse_map::{
    spec_mouse_axis_result, spec_mouse_init_mapping, spec_mouse_init_states, MouseMap,
    MouseMapView,
};
use crate::output_state::{hands_off_action, spec_hands_off_view};
use crate::thresholds::{spec_table_passing, AllAxisThresholds};
use vstd::prelude::*;

verus! {

/// The failures of configuration-graph construction, all fatal to it.
#[derive(Copy, Clone, Debug, PartialEq, Eq, Structural, Hash)]
pub enum MapperError {
    /// A configuration declared a device identity different from the ones
    /// loaded before it.
    DeviceMismatch,
    /// No configuration was loaded at all.
    NoConfiguration,
    /// A switch target was never handed to the builder.
    UnloadedConfiguration,
}

/// One configuration's engine triple.
struct Maps {
    chords: ChordMap,
    modifiers: ModifierMap,
    mouse: MouseMap,
}

/// The mathematical value of one engine triple.
pub struct MapsView {
    pub chords: ChordMapView,
    pub modifiers: ModifierMapView,
    pub mouse: MouseMapView,
}

impl View for Maps {
    type V = MapsView;

    closed spec fn view(&self) -> MapsView {
        MapsView { chords: self.chords@, modifiers: self.modifiers@, mouse: self.mouse@ }
    }
}

/// The mathematical value of a [`Mapper`]: the device identity, the active
/// configuration index, the loaded engine triples, and the canonical-path
/// registry.
pub struct MapperView {
    pub device: Seq<char>,
    pub current: int,
    pub configs: Seq<MapsView>,
    pub paths: Seq<(Seq<char>, usize)>,
}

/// Whether an action's switch target, if it has one, is registered.
pub open spec fn spec_action_registered(a: ActionView, paths: Seq<(Seq<char>, usize)>) -> bool {
    match a {
        ActionView::InnerAction(InnerActionView::SwitchConfig(p)) => assoc_has(paths, p),
        _ => true,
    }
}

/// The coercion of the repeat-last-chord algebra: the remembered output
/// action, reshaped into the requested kind.
pub open spec fn spec_convert(kind: OutputActionType, oa: OutputActionView) -> OutputActionView {
    match kind {
        OutputActionType::Pulse => OutputActionView::Pulse(spec_pulse_of(oa)),
        OutputActionType::StateChange => OutputActionView::StateChange(spec_state_change_of(oa)),
        OutputActionType::Toggle => OutputActionView::Toggle(spec_toggle_of(oa)),
    }
}

/// What resolving one action does: an output action is forwarded verbatim;
/// a repeat request re-forwards the previous chord's action in the
/// requested shape; a configuration swap activates the registered index,
/// zeroes the new chord engine's accumulation without dispatch, and
/// forwards the hands-off reset.
pub open spec fn spec_handle_action(m: MapperView, a: ActionView, out: Seq<OutputActionView>) -> (
    MapperView,
    Seq<OutputActionView>,
) {
    match a {
        ActionView::OutputAction(oa) => (m, out.push(oa)),
        ActionView::InnerAction(ia) => match ia {
            InnerActionView::RepeatLastChord(kind) => {
                let c = m.configs[m.current];
                match assoc_get(c.chords.table, c.chords.prev) {
                    Some(prev_act) => match prev_act@ {
                        ActionView::OutputAction(oa) => (m, out.push(spec_convert(kind, oa))),
                        ActionView::InnerAction(_) => (m, out),
                    },
                    None => (m, out),
                }
            },
            InnerActionView::SwitchConfig(p) => {
                let idx = assoc_get(m.paths, p)->0 as int;
                let c = m.configs[idx];
                let cleared = MapsView {
                    chords: ChordMapView {
                        state: Seq::new(c.chords.state.len(), |i: int| false),
                        ..c.chords
                    },
                    ..c
                };
                (
                    MapperView { current: idx, configs: m.configs.update(idx, cleared), ..m },
                    out.push(OutputActionView::StateChange(spec_hands_off_view())),
                )
            },
        },
    }
}

/// Resolving an optional action.
pub open spec fn spec_opt_dispatch(
    m: MapperView,
    o: Option<ActionView>,
    out: Seq<OutputActionView>,
) -> (MapperView, Seq<OutputActionView>) {
    match o {
        Some(a) => spec_handle_action(m, a, out),
        None => (m, out),
    }
}

/// Resolving a primary action and its optional secondary, in order.
pub open spec fn spec_pair_dispatch(
    m: MapperView,
    o: Option<ActionPairView>,
    out: Seq<OutputActionView>,
) -> (MapperView, Seq<OutputActionView>) {
    match o {
        Some((a, b)) => {
            let (m1, out1) = spec_handle_action(m, a, out);
            spec_opt_dispatch(m1, b, out1)
        },
        None => (m, out),
    }
}

/// One step of the chord engine on an event.
pub open spec fn spec_chord_step(v: ChordMapView, ev: InputEvent) -> (
    ChordMapView,
    Option<Action>,
) {
    match ev {
        InputEvent::KeyEvent(kev) => spec_handle_key(v, kev.key, kev.state),
        InputEvent::AbsAxisEvent(aev) => spec_handle_axis(v, aev.axis, aev.state),
        InputEvent::RelAxisEvent(_) => (v, None),
    }
}

/// One step of the modifier engine on an event.
pub open spec fn spec_modifier_step(v: ModifierMapView, ev: InputEvent) -> (
    ModifierMapView,
    Option<ActionPairView>,
) {
    match ev {
        InputEvent::KeyEvent(kev) => (
            v,
            match assoc_get(v.mapping, crate::modifier_map::ModifierInput::Key(kev.key)) {
                Some(a) => Some((a@, None::<ActionView>)),
                None => None,
            },
        ),
        InputEvent::AbsAxisEvent(aev) => (
            ModifierMapView {
                states: spec_modifier_states_after(
                    v.states,
                    spec_prev_state(v.states, aev.axis),
                    spec_passing_t(v.thresholds, aev),
                    aev.axis,
                ),
                ..v
            },
            spec_modifier_axis_result(
                v.mapping,
                spec_prev_state(v.states, aev.axis),
                spec_passing_t(v.thresholds, aev),
                aev.axis,
            ),
        ),
        InputEvent::RelAxisEvent(_) => (v, None),
    }
}

/// One step of the mouse engine on an event.
pub open spec fn spec_mouse_step(v: MouseMapView, ev: InputEvent) -> (
    MouseMapView,
    Option<ActionPairView>,
) {
    match ev {
        InputEvent::AbsAxisEvent(aev) => (
            MouseMapView {
                states: spec_modifier_states_after(
                    v.states,
                    spec_prev_state(v.states, aev.axis),
                    spec_passing_t(v.thresholds, aev),
                    aev.axis,
                ),
                ..v
            },
            spec_mouse_axis_result(
                v.mapping,
                spec_prev_state(v.states, aev.axis),
                spec_table_passing(v.thresholds, aev.axis, aev.state),
                aev.axis,
                aev.state,
            ),
        ),
        _ => (v, None),
    }
}

/// What one input event does to the whole mapper: the active
/// configuration's chord engine steps first and its action is resolved,
/// then — on whatever configuration is active after that — the modifier
/// engine, then the mouse engine, each action resolved as it appears.
pub open spec fn spec_mapper_handle_event(m: MapperView, ev: InputEvent) -> (
    MapperView,
    Seq<OutputActionView>,
) {
    let c0 = m.current;
    let (chords1, act) = spec_chord_step(m.configs[c0].chords, ev);
    let m1 = MapperView {
        configs: m.configs.update(c0, MapsView { chords: chords1, ..m.configs[c0] }),
        ..m
    };
    let (m2, out2) = spec_opt_dispatch(m1, spec_opt_act_view(act), Seq::empty());
    let c2 = m2.current;
    let (mods3, mact) = spec_modifier_step(m2.configs[c2].modifiers, ev);
    let m3 = MapperView {
        configs: m2.configs.update(c2, MapsView { modifiers: mods3, ..m2.configs[c2] }),
        ..m2
    };
    let (m4, out4) = spec_pair_dispatch(m3, mact, out2);
    let c4 = m4.current;
    let (mouse5, sact) = spec_mouse_step(m4.configs[c4].mouse, ev);
    let m5 = MapperView {
        configs: m4.configs.update(c4, MapsView { mouse: mouse5, ..m4.configs[c4] }),
        ..m4
    };
    spec_pair_dispatch(m5, sact, out4)
}

/// An action the chord table holds carries a registered switch target, so
/// whatever a chord step resolves does too.
proof fn lemma_chord_step_action_registered(
    v: ChordMapView,
    ev: InputEvent,
    paths: Seq<(Seq<char>, usize)>,
)
    requires
        forall|j: int|
            0 <= j < v.table.len() ==> spec_action_registered((#[trigger] v.table[j]).1@, paths),
    ensures
        match spec_chord_step(v, ev).1 {
            Some(a) => spec_action_registered(a@, paths),
            None => true,
        },
{
    assert forall|m: ChordMapView, a: Action|
        m.table == v.table && spec_emit(m).1 == Some(a) implies spec_action_registered(
        a@,
        paths,
    ) by {
        crate::assoc::lemma_assoc_find(m.table, m.state);
    }
    match spec_chord_step(v, ev).1 {
        Some(a) => {
            match ev {
                InputEvent::KeyEvent(kev) => {
                    assert(spec_emit(v).1 == Some(a));
                },
                InputEvent::AbsAxisEvent(aev) => {
                    let r = spec_handle_axis(v, aev.axis, aev.state);
                    let p1 = crate::chord_map::ChordInput::ThresholdedAxis(
                        crate::thresholds::ThresholdedAxis {
                            axis: aev.axis,
                            threshold: crate::thresholds::ThresholdType::Greater,
                        },
                    );
                    let p2 = crate::chord_map::ChordInput::ThresholdedAxis(
                        crate::thresholds::ThresholdedAxis {
                            axis: aev.axis,
                            threshold: crate::thresholds::ThresholdType::Lesser,
                        },
                    );
                    if v.inputs.items.contains(p1) || v.inputs.items.contains(p2) {
                        match spec_table_passing(v.thresholds, aev.axis, aev.state) {
                            Some(_) => {
                                assert(spec_emit(v).1 == Some(a));
                            },
                            None => {
                                let m1 = if crate::chord_map::spec_has(v.inputs, v.state, p1) {
                                    let (e, _) = spec_emit(v);
                                    ChordMapView {
                                        state: crate::chord_map::spec_bits_remove(
                                            v.inputs,
                                            e.state,
                                            p1,
                                        ),
                                        ..e
                                    }
                                } else {
                                    v
                                };
                                assert(m1.table == v.table);
                                assert(spec_emit(v).1 == Some(a) || spec_emit(m1).1 == Some(a));
                            },
                        }
                    }
                },
                InputEvent::RelAxisEvent(_) => {},
            }
        },
        None => {},
    }
}

/// An action the modifier table holds carries a registered switch target,
/// so whatever a modifier step dispatches does too.
proof fn lemma_modifier_step_action_registered(
    v: ModifierMapView,
    ev: InputEvent,
    paths: Seq<(Seq<char>, usize)>,
)
    requires
        forall|j: int|
            0 <= j < v.mapping.len() ==> spec_action_registered(
                (#[trigger] v.mapping[j]).1@,
                paths,
            ),
    ensures
        match spec_modifier_step(v, ev).1 {
            Some((a, Some(b))) => spec_action_registered(a, paths) && spec_action_registered(
                b,
                paths,
            ),
            Some((a, None)) => spec_action_registered(a, paths),
            None => true,
        },
{
    assert forall|k: crate::modifier_map::ModifierInput, a: Action|
        assoc_get(v.mapping, k) == Some(a) implies spec_action_registered(a@, paths) by {
        crate::assoc::lemma_assoc_find(v.mapping, k);
    }
}

/// What a mouse step dispatches is always a device-facing state change,
/// which carries no switch target.
proof fn lemma_mouse_step_action_registered(
    v: MouseMapView,
    ev: InputEvent,
    paths: Seq<(Seq<char>, usize)>,
)
    ensures
        match spec_mouse_step(v, ev).1 {
            Some((a, Some(b))) => spec_action_registered(a, paths) && spec_action_registered(
                b,
                paths,
            ),
            Some((a, None)) => spec_action_registered(a, paths),
            None => true,
        },
{
}

/// A mutable borrow of one engine triple.
fn maps_at(maps: &mut Vec<Maps>, i: usize) -> (element: &mut Maps)
    requires
        i < old(maps)@.len(),
    ensures
        *element == old(maps)@[i as int],
        final(maps)@ == old(maps)@.update(i as int, *final(element)),
{
    &mut maps[i]
}

/// First-match lookup of a canonical path in the registry.
fn find_path(v: &Vec<(String, usize)>, p: &String) -> (r: Option<usize>)
    ensures
        r == assoc_get(v@.map_values(|q: (String, usize)| (q.0@, q.1)), p@),
{
    let ghost pv = v@.map_values(|q: (String, usize)| (q.0@, q.1));
    let n = v.len();
    for i in 0..n
        invariant
            n == v@.len(),
            pv == v@.map_values(|q: (String, usize)| (q.0@, q.1)),
            forall|j: int| 0 <= j < i ==> (#[trigger] pv[j]).0 != p@,
    {
        proof {
            assert(pv[i as int] == (v@[i as int].0@, v@[i as int].1));
        }
        if v[i].0.eq(p) {
            proof {
                lemma_assoc_find_at(pv, p@, i as int);
            }
            return Some(v[i].1);
        }
    }
    proof {
        lemma_assoc_find_none(pv, p@);
    }
    None
}

/// Routes events to a graph of loaded configurations and resolves the
/// actions they produce.
pub struct Mapper {
    input_device_name: String,
    current_config_index: usize,
    mappings_vec: Vec<Maps>,
    paths_to_indices: Vec<(String, usize)>,
}

impl View for Mapper {
    type V = MapperView;

    closed spec fn view(&self) -> MapperView {
        MapperView {
            device: self.input_device_name@,
            current: self.current_config_index as int,
            configs: self.mappings_vec@.map_values(|m: Maps| m@),
            paths: self.paths_to_indices@.map_values(|q: (String, usize)| (q.0@, q.1)),
        }
    }
}

impl Mapper {
    /// Validity: at least one configuration, an active index in range,
    /// well-formed engines throughout, registry indices in range, and every
    /// switch target of every loaded table registered.
    pub closed spec fn wf(&self) -> bool {
        &&& 0 < self.mappings_vec@.len()
        &&& (self.current_config_index as int) < self.mappings_vec@.len()
        &&& forall|i: int|
            0 <= i < self.mappings_vec@.len() ==> (#[trigger] self.mappings_vec@[i]).chords.wf()
                && self.mappings_vec@[i].mouse@.wf()
        &&& forall|j: int|
            0 <= j < self.paths_to_indices@.len() ==> (
            #[trigger] self.paths_to_indices@[j]).1 < self.mappings_vec@.len()
        &&& forall|i: int, j: int|
            0 <= i < self.mappings_vec@.len() && 0 <= j < self.mappings_vec@[i].chords@.table.len()
                ==> spec_action_registered(
                (#[trigger] self.mappings_vec@[i].chords@.table[j]).1@,
                self@.paths,
            )
        &&& forall|i: int, j: int|
            0 <= i < self.mappings_vec@.len() && 0 <= j
                < self.mappings_vec@[i].modifiers@.mapping.len() ==> spec_action_registered(
                (#[trigger] self.mappings_vec@[i].modifiers@.mapping[j]).1@,
                self@.paths,
            )
    }

    /// The name of the input device the loaded configurations apply to.
    pub fn get_input_name(&self) -> (r: &str)
        ensures
            r@ == self@.device,
    {
        self.input_device_name.as_str()
    }

    /// The index of the active configuration.
    pub fn current_config(&self) -> (r: usize)
        ensures
            r as int == self@.current,
    {
        self.current_config_index
    }

    /// Resolves one action, appending whatever output it produces.
    fn handle_action(&mut self, action: Action, out: &mut Vec<OutputAction>)
        requires
            old(self).wf(),
            spec_action_registered(action@, old(self)@.paths),
        ensures
            final(self).wf(),
            final(self)@ == spec_handle_action(old(self)@, action@, spec_out_view(old(out)@)).0,
            spec_out_view(final(out)@) == spec_handle_action(
                old(self)@,
                action@,
                spec_out_view(old(out)@),
            ).1,
    {
        match action {
            Action::OutputAction(oa) => {
                out.push(oa);
                proof {
                    assert(spec_out_view(final(out)@) =~= spec_out_view(old(out)@).push(
                        final(out)@.last()@,
                    ));
                }
            },
            Action::InnerAction(ie) => {
                match ie {
                    InnerAction::RepeatLastChord(act_type) => {
                        let prev = self.mappings_vec[self.current_config_index].chords
                            .get_prev_action();
                        match prev {
                            Some(Action::OutputAction(act)) => {
                                let converted: OutputAction = match act_type {
                                    OutputActionType::Pulse => OutputAction::Pulse(
                                        act.into_pulse(),
                                    ),
                                    OutputActionType::StateChange => OutputAction::StateChange(
                                        act.into_state_change(),
                                    ),
                                    OutputActionType::Toggle => OutputAction::Toggle(
                                        act.into_toggle(),
                                    ),
                                };
                                out.push(converted);
                                proof {
                                    assert(spec_out_view(final(out)@) =~= spec_out_view(
                                        old(out)@,
                                    ).push(final(out)@.last()@));
                                }
                            },
                            _ => {},
                        }
                    },
                    InnerAction::SwitchConfig(path) => {
                        let idx = match find_path(&self.paths_to_indices, &path) {
                            Some(i) => i,
                            None => {
                                proof {
                                    assert(false);
                                }
                                0
                            },
                        };
                        proof {
                            crate::assoc::lemma_assoc_find(old(self)@.paths, path@);
                            let f = crate::assoc::assoc_find(old(self)@.paths, path@);
                            assert(old(self)@.paths[f] == (
                            self.paths_to_indices@[f].0@,
                            self.paths_to_indices@[f].1,
                            ));
                            assert(self.paths_to_indices@[f].1 < self.mappings_vec@.len());
                        }
                        self.current_config_index = idx;
                        let maps = maps_at(&mut self.mappings_vec, idx);
                        maps.chords.clear_state();
                        out.push(OutputAction::StateChange(hands_off_action()));
                        proof {
                            assert(final(self)@.configs =~= spec_handle_action(
                                old(self)@,
                                action@,
                                spec_out_view(old(out)@),
                            ).0.configs);
                            assert(spec_out_view(final(out)@) =~= spec_out_view(old(out)@).push(
                                final(out)@.last()@,
                            ));
                        }
                    },
                }
            },
        }
    }

    /// Steps the active configuration's chord engine on the event.
    fn step_chords(&mut self, ev: &InputEvent) -> (r: Option<Action>)
        requires
            old(self).wf(),
        ensures
            final(self).wf(),
            final(self)@ == (MapperView {
                configs: old(self)@.configs.update(
                    old(self)@.current,
                    MapsView {
                        chords: spec_chord_step(
                            old(self)@.configs[old(self)@.current].chords,
                            *ev,
                        ).0,
                        ..old(self)@.configs[old(self)@.current]
                    },
                ),
                ..old(self)@
            }),
            spec_opt_act_view(r) == spec_opt_act_view(
                spec_chord_step(old(self)@.configs[old(self)@.current].chords, *ev).1,
            ),
            match r {
                Some(a) => spec_action_registered(a@, old(self)@.paths),
                None => true,
            },
    {
        let idx = self.current_config_index;
        let ghost c0 = self.mappings_vec@[idx as int].chords@;
        let maps = maps_at(&mut self.mappings_vec, idx);
        let r = maps.chords.handle_event(ev);
        proof {
            lemma_chord_step_action_registered(c0, *ev, old(self)@.paths);
            assert(spec_chord_step(c0, *ev).0.table == c0.table);
            assert(final(self)@.configs =~= old(self)@.configs.update(
                old(self)@.current,
                MapsView {
                    chords: spec_chord_step(c0, *ev).0,
                    ..old(self)@.configs[old(self)@.current]
                },
            ));
        }
        r
    }

    /// Steps the active configuration's modifier engine on the event.
    fn step_modifiers(&mut self, ev: &InputEvent) -> (r: Option<(Action, Option<Action>)>)
        requires
            old(self).wf(),
        ensures
            final(self).wf(),
            final(self)@ == (MapperView {
                configs: old(self)@.configs.update(
                    old(self)@.current,
                    MapsView {
                        modifiers: spec_modifier_step(
                            old(self)@.configs[old(self)@.current].modifiers,
                            *ev,
                        ).0,
                        ..old(self)@.configs[old(self)@.current]
                    },
                ),
                ..old(self)@
            }),
            spec_pair_view(r) == spec_modifier_step(
                old(self)@.configs[old(self)@.current].modifiers,
                *ev,
            ).1,
            match r {
                Some((a, Some(b))) => spec_action_registered(a@, old(self)@.paths)
                    && spec_action_registered(b@, old(self)@.paths),
                Some((a, None)) => spec_action_registered(a@, old(self)@.paths),
                None => true,
            },
    {
        let idx = self.current_config_index;
        let ghost v0 = self.mappings_vec@[idx as int].modifiers@;
        let maps = maps_at(&mut self.mappings_vec, idx);
        let r = maps.modifiers.handle_event(ev);
        proof {
            lemma_modifier_step_action_registered(v0, *ev, old(self)@.paths);
            assert(final(self)@.configs =~= old(self)@.configs.update(
                old(self)@.current,
                MapsView {
                    modifiers: spec_modifier_step(v0, *ev).0,
                    ..old(self)@.configs[old(self)@.current]
                },
            ));
        }
        r
    }

    /// Steps the active configuration's mouse engine on the event.
    fn step_mouse(&mut self, ev: &InputEvent) -> (r: Option<(Action, Option<Action>)>)
        requires
            old(self).wf(),
        ensures
            final(self).wf(),
            final(self)@ == (MapperView {
                configs: old(self)@.configs.update(
                    old(self)@.current,
                    MapsView {
                        mouse: spec_mouse_step(
                            old(self)@.configs[old(self)@.current].mouse,
                            *ev,
                        ).0,
                        ..old(self)@.configs[old(self)@.current]
                    },
                ),
                ..old(self)@
            }),
            spec_pair_view(r) == spec_mouse_step(
                old(self)@.configs[old(self)@.current].mouse,
                *ev,
            ).1,
            match r {
                Some((a, Some(b))) => spec_action_registered(a@, old(self)@.paths)
                    && spec_action_registered(b@, old(self)@.paths),
                Some((a, None)) => spec_action_registered(a@, old(self)@.paths),
                None => true,
            },
    {
        let idx = self.current_config_index;
        let ghost v0 = self.mappings_vec@[idx as int].mouse@;
        let maps = maps_at(&mut self.mappings_vec, idx);
        let r = maps.mouse.handle_event(ev);
        proof {
            lemma_mouse_step_action_registered(v0, *ev, old(self)@.paths);
            assert(final(self)@.configs =~= old(self)@.configs.update(
                old(self)@.current,
                MapsView {
                    mouse: spec_mouse_step(v0, *ev).0,
                    ..old(self)@.configs[old(self)@.current]
                },
            ));
        }
        r
    }

    /// Routes one input event through the active configuration's chord,
    /// modifier and mouse engines in that fixed order, resolving each
    /// resulting action at once, and returns the output actions to forward
    /// to the actuator.
    #[verifier::rlimit(100)]
    pub fn handle_event(&mut self, ev: &InputEvent) -> (r: Vec<OutputAction>)
        requires
            old(self).wf(),
        ensures
            final(self).wf(),
            final(self)@ == spec_mapper_handle_event(old(self)@, *ev).0,
            spec_out_view(r@) == spec_mapper_handle_event(old(self)@, *ev).1,
    {
        let mut out: Vec<OutputAction> = Vec::new();
        let ghost m0 = self@;
        proof {
            assert(spec_out_view(out@) =~= Seq::<OutputActionView>::empty());
        }

        let ghost st1 = spec_chord_step(m0.configs[m0.current].chords, *ev);
        let ghost m1 = MapperView {
            configs: m0.configs.update(
                m0.current,
                MapsView { chords: st1.0, ..m0.configs[m0.current] },
            ),
            ..m0
        };
        let chord_act_opt = self.step_chords(ev);
        let ghost d2 = spec_opt_dispatch(m1, spec_opt_act_view(st1.1), Seq::empty());
        if let Some(action) = chord_act_opt {
            self.handle_action(action, &mut out);
        }
        proof {
            assert(self@ == d2.0);
            assert(spec_out_view(out@) == d2.1);
        }

        let ghost m2 = d2.0;
        let ghost st3 = spec_modifier_step(m2.configs[m2.current].modifiers, *ev);
        let ghost m3 = MapperView {
            configs: m2.configs.update(
                m2.current,
                MapsView { modifiers: st3.0, ..m2.configs[m2.current] },
            ),
            ..m2
        };
        let modifier_act_dbl_opt = self.step_modifiers(ev);
        let ghost d4 = spec_pair_dispatch(m3, st3.1, d2.1);
        if let Some((act, next_act_opt)) = modifier_act_dbl_opt {
            self.handle_action(act, &mut out);
            if let Some(next_act) = next_act_opt {
                self.handle_action(next_act, &mut out);
            }
        }
        proof {
            assert(self@ == d4.0);
            assert(spec_out_view(out@) == d4.1);
        }

        let ghost m4 = d4.0;
        let ghost st5 = spec_mouse_step(m4.configs[m4.current].mouse, *ev);
        let ghost m5 = MapperView {
            configs: m4.configs.update(
                m4.current,
                MapsView { mouse: st5.0, ..m4.configs[m4.current] },
            ),
            ..m4
        };
        let mouse_act_dbl_opt = self.step_mouse(ev);
        let ghost d6 = spec_pair_dispatch(m5, st5.1, d4.1);
        if let Some((act, next_act_opt)) = mouse_act_dbl_opt {
            self.handle_action(act, &mut out);
            if let Some(next_act) = next_act_opt {
                self.handle_action(next_act, &mut out);
            }
        }
        proof {
            assert(self@ == d6.0);
            assert(spec_out_view(out@) == d6.1);
            assert(spec_mapper_handle_event(m0, *ev) == d6);
        }

        out
    }
}

/// The engine triple one configuration builds, under the universe instance
/// id `id`.
pub open spec fn spec_built_maps(c: Configuration, id: u64) -> MapsView {
    let thresholds = AllAxisThresholds::spec_init(c.axis_thresholds@);
    let inputs = AttributeSetView { id, items: spec_dedup(spec_chord_inputs(c.chord_mapping@)) };
    MapsView {
        chords: ChordMapView {
            inputs,
            thresholds,
            table: spec_chord_table(inputs, c.chord_mapping@),
            primed: true,
            state: Seq::new(inputs.items.len(), |i: int| false),
            prev: Seq::new(inputs.items.len(), |i: int| false),
        },
        modifiers: ModifierMapView {
            mapping: spec_modifier_init_mapping(c.modifier_mapping@),
            thresholds,
            states: spec_modifier_init_states(c.modifier_mapping@),
        },
        mouse: MouseMapView {
            mapping: spec_mouse_init_mapping(c.mouse_mapping@),
            thresholds,
            states: spec_mouse_init_states(c.mouse_mapping@),
        },
    }
}

/// The switch-target actions of one loaded configuration, chord table
/// first, in table order.
pub open spec fn spec_maps_actions(m: MapsView) -> Seq<ActionView> {
    m.chords.table.map_values(|p: (Seq<bool>, Action)| p.1@) + m.modifiers.mapping.map_values(
        |p: (ModifierInput, Action)| p.1@,
    )
}

/// The load queue after one configuration's actions are scanned: each
/// not-yet-registered switch target is appended, in scan order.
pub open spec fn spec_enqueue(
    paths: Seq<(Seq<char>, usize)>,
    acts: Seq<ActionView>,
    queue: Seq<Seq<char>>,
) -> Seq<Seq<char>>
    decreases acts.len(),
{
    if acts.len() == 0 {
        queue
    } else {
        let q = spec_enqueue(paths, acts.drop_last(), queue);
        match acts.last() {
            ActionView::InnerAction(InnerActionView::SwitchConfig(p)) => if assoc_has(paths, p) {
                q
            } else {
                q.push(p)
            },
            _ => q,
        }
    }
}

/// Config-graph deduplication: scanning actions whose switch targets are
/// all registered already queues nothing, so a graph whose links point back
/// at loaded configurations — a self-reference included — drains its queue
/// and construction terminates.
pub proof fn lemma_enqueue_registered(
    paths: Seq<(Seq<char>, usize)>,
    acts: Seq<ActionView>,
    queue: Seq<Seq<char>>,
)
    requires
        forall|j: int|
            0 <= j < acts.len() ==> match #[trigger] acts[j] {
                ActionView::InnerAction(InnerActionView::SwitchConfig(p)) => assoc_has(paths, p),
                _ => true,
            },
    ensures
        spec_enqueue(paths, acts, queue) == queue,
    decreases acts.len(),
{
    if acts.len() > 0 {
        lemma_enqueue_registered(paths, acts.drop_last(), queue);
    }
}

/// The load queue with its registered head entries dropped: what remains to
/// be loaded.
pub open spec fn spec_drop_registered(
    queue: Seq<Seq<char>>,
    paths: Seq<(Seq<char>, usize)>,
) -> Seq<Seq<char>>
    decreases queue.len(),
{
    if queue.len() == 0 {
        queue
    } else if assoc_has(paths, queue[0]) {
        spec_drop_registered(queue.drop_first(), paths)
    } else {
        queue
    }
}

/// The mathematical value of a [`MapperBuilder`].
pub struct MapperBuilderView {
    pub device: Option<Seq<char>>,
    pub paths: Seq<(Seq<char>, usize)>,
    pub configs: Seq<MapsView>,
    pub queue: Seq<Seq<char>>,
}

/// Whether an action's switch target, if it has one, is registered or
/// still waiting in the load queue.
pub open spec fn spec_action_covered(
    a: ActionView,
    paths: Seq<(Seq<char>, usize)>,
    queue: Seq<Seq<char>>,
) -> bool {
    match a {
        ActionView::InnerAction(InnerActionView::SwitchConfig(p)) => assoc_has(paths, p)
            || queue.contains(p),
        _ => true,
    }
}

/// The breadth-first loader of a configuration graph: configurations are
/// handed in one at a time, each newly seen switch target joins the load
/// queue, and an already-registered canonical path is never loaded twice.
pub struct MapperBuilder {
    device_name: Option<String>,
    paths_to_indices: Vec<(String, usize)>,
    mappings_vec: Vec<Maps>,
    queue: Vec<String>,
}

impl View for MapperBuilder {
    type V = MapperBuilderView;

    closed spec fn view(&self) -> MapperBuilderView {
        MapperBuilderView {
            device: match self.device_name {
                Some(ref d) => Some(d@),
                None => None,
            },
            paths: self.paths_to_indices@.map_values(|q: (String, usize)| (q.0@, q.1)),
            configs: self.mappings_vec@.map_values(|m: Maps| m@),
            queue: self.queue@.map_values(|s: String| s@),
        }
    }
}

impl MapperBuilder {
    /// Validity: one registry entry per configuration in load order,
    /// well-formed engines, a device identity once anything is loaded, and
    /// every switch target of every loaded table registered or queued.
    pub closed spec fn wf(&self) -> bool {
        &&& self.mappings_vec@.len() == self.paths_to_indices@.len()
        &&& forall|i: int|
            0 <= i < self.mappings_vec@.len() ==> (#[trigger] self.mappings_vec@[i]).chords.wf()
                && self.mappings_vec@[i].mouse@.wf()
        &&& forall|j: int|
            0 <= j < self.paths_to_indices@.len() ==> (#[trigger] self.paths_to_indices@[j]).1 == j
        &&& (self.mappings_vec@.len() > 0 ==> self.device_name is Some)
        &&& forall|i: int, j: int|
            0 <= i < self.mappings_vec@.len() && 0 <= j < self.mappings_vec@[i].chords@.table.len()
                ==> spec_action_covered(
                (#[trigger] self.mappings_vec@[i].chords@.table[j]).1@,
                self@.paths,
                self@.queue,
            )
        &&& forall|i: int, j: int|
            0 <= i < self.mappings_vec@.len() && 0 <= j
                < self.mappings_vec@[i].modifiers@.mapping.len() ==> spec_action_covered(
                (#[trigger] self.mappings_vec@[i].modifiers@.mapping[j]).1@,
                self@.paths,
                self@.queue,
            )
    }

    /// A builder whose load queue holds the root configuration's canonical
    /// path.
    pub fn new(root: String) -> (r: Self)
        ensures
            r.wf(),
            r@ == (MapperBuilderView {
                device: None::<Seq<char>>,
                paths: Seq::empty(),
                configs: Seq::empty(),
                queue: seq![root@],
            }),
    {
        let mut queue: Vec<String> = Vec::new();
        queue.push(root);
        let r = MapperBuilder {
            device_name: None,
            paths_to_indices: Vec::new(),
            mappings_vec: Vec::new(),
            queue,
        };
        proof {
            assert(r@.paths =~= Seq::<(Seq<char>, usize)>::empty());
            assert(r@.configs =~= Seq::<MapsView>::empty());
            assert(r@.queue =~= seq![r.queue@[0]@]);
        }
        r
    }

    /// The next canonical path waiting to be loaded, dropping queue entries
    /// that are already registered; nothing is pending when the whole queue
    /// is already registered.
    pub fn next_pending(&mut self) -> (r: Option<String>)
        requires
            old(self).wf(),
        ensures
            final(self).wf(),
            final(self)@.device == old(self)@.device,
            final(self)@.paths == old(self)@.paths,
            final(self)@.configs == old(self)@.configs,
            final(self)@.queue == spec_drop_registered(old(self)@.queue, old(self)@.paths),
            match r {
                Some(p) => final(self)@.queue.len() > 0 && p@ == final(self)@.queue[0]
                    && !assoc_has(old(self)@.paths, p@),
                None => final(self)@.queue.len() == 0,
            },
    {
        while self.queue.len() > 0
            invariant
                self.wf(),
                self@.device == old(self)@.device,
                self@.paths == old(self)@.paths,
                self@.configs == old(self)@.configs,
                spec_drop_registered(old(self)@.queue, old(self)@.paths) == spec_drop_registered(
                    self@.queue,
                    self@.paths,
                ),
            decreases self.queue@.len(),
        {
            let registered = find_path(&self.paths_to_indices, &self.queue[0]).is_some();
            proof {
                assert(self@.queue[0] == self.queue@[0]@);
            }
            if registered {
                let ghost pre = self@.queue;
                let _ = self.queue.remove(0);
                proof {
                    assert(self@.queue =~= pre.drop_first());
                    lemma_covered_drop_registered_head(
                        self.mappings_vec@,
                        self@.paths,
                        pre,
                    );
                }
            } else {
                return Some(self.queue[0].clone());
            }
        }
        None
    }

    /// Loads one configuration under its canonical path: an
    /// already-registered path is skipped whole — never loaded twice — a
    /// device identity different from the loaded ones is fatal, and
    /// otherwise the configuration's engines are built, the path registered,
    /// and each not-yet-registered switch target queued.
    pub fn add_config(&mut self, path: String, config: Configuration) -> (r: Result<
        (),
        MapperError,
    >)
        requires
            old(self).wf(),
            config.wf(),
        ensures
            final(self).wf(),
            assoc_has(old(self)@.paths, path@) ==> r == Ok::<(), MapperError>(()) && final(self)@
                == old(self)@,
            !assoc_has(old(self)@.paths, path@) && old(self)@.device is Some
                && old(self)@.device->0 != config.device_name@ ==> r == Err::<(), MapperError>(
                MapperError::DeviceMismatch,
            ) && final(self)@ == old(self)@,
            !assoc_has(old(self)@.paths, path@) && (old(self)@.device is None
                || old(self)@.device->0 == config.device_name@) ==> r == Ok::<(), MapperError>(())
                && final(self)@ == (MapperBuilderView {
                device: Some(config.device_name@),
                paths: old(self)@.paths.push((path@, old(self)@.configs.len() as usize)),
                configs: old(self)@.configs.push(
                    spec_built_maps(config, old(self)@.configs.len() as u64),
                ),
                queue: spec_enqueue(
                    old(self)@.paths.push((path@, old(self)@.configs.len() as usize)),
                    spec_maps_actions(spec_built_maps(config, old(self)@.configs.len() as u64)),
                    old(self)@.queue,
                ),
            }),
    {
        if find_path(&self.paths_to_indices, &path).is_some() {
            return Ok(());
        }
        match &self.device_name {
            Some(n) => {
                if !n.eq(&config.device_name) {
                    return Err(MapperError::DeviceMismatch);
                }
            },
            None => {},
        }
        if self.device_name.is_none() {
            self.device_name = Some(config.device_name.clone());
        }
        let ghost old_v = old(self)@;
        let ghost id = old_v.configs.len() as u64;
        let Configuration {
            device_name: _,
            axis_thresholds,
            chord_inputs: _,
            chord_mapping,
            modifier_mapping,
            mouse_mapping,
        } = config;

        let idx = self.mappings_vec.len();
        let thresholds = AllAxisThresholds::init(axis_thresholds);
        let modifiers = ModifierMap::init(modifier_mapping, thresholds.clone());
        let mouse = MouseMap::init(mouse_mapping, thresholds.clone());
        let chords = ChordMap::init(chord_mapping, thresholds, idx as u64);
        let ghost maps_v = spec_built_maps(config, id);
        proof {
            assert(chords@ == maps_v.chords);
            assert(modifiers@ == maps_v.modifiers);
            assert(mouse@ == maps_v.mouse);
        }

        self.paths_to_indices.push((path, idx));
        let ghost paths2 = self@.paths;
        proof {
            assert(paths2 =~= old_v.paths.push((path@, idx)));
        }

        // Scan the new configuration's actions for switch targets.
        let mut acts = chords.actions();
        let mut more = modifiers.actions();
        acts.append(&mut more);
        let ghost av = acts@.map_values(|a: Action| a@);
        proof {
            assert(av =~= spec_maps_actions(maps_v));
        }
        let ghost q0 = self@.queue;
        let ghost dev = self.device_name;
        let n = acts.len();
        for i in 0..n
            invariant
                n == acts@.len(),
                av == acts@.map_values(|a: Action| a@),
                self@.queue == spec_enqueue(paths2, av.subrange(0, i as int), q0),
                self@.paths == paths2,
                self.paths_to_indices@ == old(self).paths_to_indices@.push((path, idx)),
                self.mappings_vec@ == old(self).mappings_vec@,
                self.device_name == dev,
        {
            let ghost q_pre = self@.queue;
            match &acts[i] {
                Action::InnerAction(InnerAction::SwitchConfig(p)) => {
                    if find_path(&self.paths_to_indices, p).is_none() {
                        self.queue.push(p.clone());
                        proof {
                            assert(self@.queue =~= q_pre.push(p@));
                        }
                    }
                },
                _ => {},
            }
            proof {
                assert(av.subrange(0, i as int + 1).drop_last() =~= av.subrange(0, i as int));
                assert(av.subrange(0, i as int + 1).last() == av[i as int]);
                assert(av[i as int] == acts@[i as int]@);
            }
        }
        proof {
            assert(av.subrange(0, n as int) =~= av);
        }

        self.mappings_vec.push(Maps { chords, modifiers, mouse });
        proof {
            assert(self@.configs =~= old_v.configs.push(maps_v));
            let qf = self@.queue;
            assert(qf == spec_enqueue(paths2, av, q0));
            lemma_enqueue_covers(paths2, av, q0);
            let new_len = self.mappings_vec@.len();
            let tlen = maps_v.chords.table.len();
            // Every switch target of the new configuration is covered.
            assert forall|i: int, j: int|
                0 <= i < new_len && 0 <= j
                    < self.mappings_vec@[i].chords@.table.len() implies spec_action_covered(
                (#[trigger] self.mappings_vec@[i].chords@.table[j]).1@,
                paths2,
                qf,
            ) by {
                if i < new_len - 1 {
                    assert(self.mappings_vec@[i] == old(self).mappings_vec@[i]);
                    assert(spec_action_covered(
                        self.mappings_vec@[i].chords@.table[j].1@,
                        old_v.paths,
                        q0,
                    ));
                    lemma_covered_grow(
                        self.mappings_vec@[i].chords@.table[j].1@,
                        old_v.paths,
                        paths2,
                        q0,
                        av,
                    );
                } else {
                    assert(self.mappings_vec@[i]@ == maps_v);
                    assert(av[j] == maps_v.chords.table[j].1@);
                    assert(spec_action_covered(av[j], paths2, qf));
                }
            }
            assert forall|i: int, j: int|
                0 <= i < new_len && 0 <= j
                    < self.mappings_vec@[i].modifiers@.mapping.len() implies spec_action_covered(
                (#[trigger] self.mappings_vec@[i].modifiers@.mapping[j]).1@,
                paths2,
                qf,
            ) by {
                if i < new_len - 1 {
                    assert(self.mappings_vec@[i] == old(self).mappings_vec@[i]);
                    assert(spec_action_covered(
                        self.mappings_vec@[i].modifiers@.mapping[j].1@,
                        old_v.paths,
                        q0,
                    ));
                    lemma_covered_grow(
                        self.mappings_vec@[i].modifiers@.mapping[j].1@,
                        old_v.paths,
                        paths2,
                        q0,
                        av,
                    );
                } else {
                    assert(self.mappings_vec@[i]@ == maps_v);
                    assert(av[tlen + j] == maps_v.modifiers.mapping[j].1@);
                    assert(spec_action_covered(av[tlen + j], paths2, qf));
                }
            }
        }
        Ok(())
    }

    /// Seals the graph: fails when nothing was loaded or a switch target was
    /// never handed in; otherwise the mapper starts on the first-loaded
    /// configuration.
    pub fn finish(self) -> (r: Result<Mapper, MapperError>)
        requires
            self.wf(),
        ensures
            match r {
                Ok(m) => m.wf() && self@.configs.len() > 0 && m@ == (MapperView {
                    device: self@.device->0,
                    current: 0,
                    configs: self@.configs,
                    paths: self@.paths,
                }),
                Err(e) => (e == MapperError::NoConfiguration && self@.configs.len() == 0) || (e
                    == MapperError::UnloadedConfiguration && exists|j: int|
                    0 <= j < self@.queue.len() && !assoc_has(
                        self@.paths,
                        #[trigger] self@.queue[j],
                    )),
            },
    {
        if self.mappings_vec.len() == 0 {
            return Err(MapperError::NoConfiguration);
        }
        let n = self.queue.len();
        for i in 0..n
            invariant
                self.wf(),
                n == self.queue@.len(),
                self.mappings_vec@.len() > 0,
                forall|j: int| 0 <= j < i ==> assoc_has(self@.paths, #[trigger] self@.queue[j]),
        {
            if find_path(&self.paths_to_indices, &self.queue[i]).is_none() {
                proof {
                    assert(self@.queue[i as int] == self.queue@[i as int]@);
                }
                return Err(MapperError::UnloadedConfiguration);
            }
            proof {
                assert(self@.queue[i as int] == self.queue@[i as int]@);
            }
        }
        let MapperBuilder { device_name, paths_to_indices, mappings_vec, queue: _ } = self;
        let device = match device_name {
            Some(d) => d,
            None => {
                proof {
                    assert(false);
                }
                vstd::pervasive::unreached()
            },
        };
        let m = Mapper {
            input_device_name: device,
            current_config_index: 0,
            mappings_vec,
            paths_to_indices,
        };
        proof {
            assert forall|i: int, j: int|
                0 <= i < m.mappings_vec@.len() && 0 <= j
                    < m.mappings_vec@[i].chords@.table.len() implies spec_action_registered(
                (#[trigger] m.mappings_vec@[i].chords@.table[j]).1@,
                m@.paths,
            ) by {
                lemma_covered_registered(
                    m.mappings_vec@[i].chords@.table[j].1@,
                    self@.paths,
                    self@.queue,
                );
            }
            assert forall|i: int, j: int|
                0 <= i < m.mappings_vec@.len() && 0 <= j
                    < m.mappings_vec@[i].modifiers@.mapping.len() implies spec_action_registered(
                (#[trigger] m.mappings_vec@[i].modifiers@.mapping[j]).1@,
                m@.paths,
            ) by {
                lemma_covered_registered(
                    m.mappings_vec@[i].modifiers@.mapping[j].1@,
                    self@.paths,
                    self@.queue,
                );
            }
        }
        Ok(m)
    }
}

/// A scan covers every action it scanned: each switch target ends up
/// registered or somewhere in the scanned queue.
proof fn lemma_enqueue_covers(
    paths: Seq<(Seq<char>, usize)>,
    acts: Seq<ActionView>,
    queue: Seq<Seq<char>>,
)
    ensures
        forall|j: int|
            0 <= j < acts.len() ==> spec_action_covered(
                #[trigger] acts[j],
                paths,
                spec_enqueue(paths, acts, queue),
            ),
    decreases acts.len(),
{
    if acts.len() > 0 {
        lemma_enqueue_covers(paths, acts.drop_last(), queue);
        let q = spec_enqueue(paths, acts.drop_last(), queue);
        let qf = spec_enqueue(paths, acts, queue);
        assert forall|j: int|
            0 <= j < acts.len() implies spec_action_covered(#[trigger] acts[j], paths, qf) by {
            if j < acts.len() - 1 {
                assert(acts.drop_last()[j] == acts[j]);
                assert(spec_action_covered(acts[j], paths, q));
                match acts[j] {
                    ActionView::InnerAction(InnerActionView::SwitchConfig(p)) => {
                        if !assoc_has(paths, p) {
                            let w = choose|w: int| 0 <= w < q.len() && q[w] == p;
                            match acts.last() {
                                ActionView::InnerAction(InnerActionView::SwitchConfig(p2)) => {
                                    if !assoc_has(paths, p2) {
                                        assert(q.push(p2)[w] == p);
                                    }
                                },
                                _ => {},
                            }
                        }
                    },
                    _ => {},
                }
            } else {
                match acts[j] {
                    ActionView::InnerAction(InnerActionView::SwitchConfig(p)) => {
                        if !assoc_has(paths, p) {
                            assert(qf == q.push(p));
                            assert(qf[q.len() as int] == p);
                        }
                    },
                    _ => {},
                }
            }
        }
    }
}

/// Coverage survives a registry growing by one entry and a queue growing by
/// one scan.
proof fn lemma_covered_grow(
    a: ActionView,
    paths: Seq<(Seq<char>, usize)>,
    paths2: Seq<(Seq<char>, usize)>,
    queue: Seq<Seq<char>>,
    acts: Seq<ActionView>,
)
    requires
        spec_action_covered(a, paths, queue),
        exists|e: (Seq<char>, usize)| paths2 == paths.push(e),
    ensures
        spec_action_covered(a, paths2, spec_enqueue(paths2, acts, queue)),
{
    match a {
        ActionView::InnerAction(InnerActionView::SwitchConfig(p)) => {
            if assoc_has(paths, p) {
                let e = choose|e: (Seq<char>, usize)| paths2 == paths.push(e);
                lemma_assoc_has_push(paths, e, p);
            } else {
                lemma_enqueue_contains(paths2, acts, queue, p);
            }
        },
        _ => {},
    }
}

/// When every queued path is registered, coverage is registration.
proof fn lemma_covered_registered(
    a: ActionView,
    paths: Seq<(Seq<char>, usize)>,
    queue: Seq<Seq<char>>,
)
    requires
        spec_action_covered(a, paths, queue),
        forall|j: int| 0 <= j < queue.len() ==> assoc_has(paths, #[trigger] queue[j]),
    ensures
        spec_action_registered(a, paths),
{
    match a {
        ActionView::InnerAction(InnerActionView::SwitchConfig(p)) => {
            if !assoc_has(paths, p) {
                let w = choose|w: int| 0 <= w < queue.len() && queue[w] == p;
                assert(assoc_has(paths, queue[w]));
            }
        },
        _ => {},
    }
}

/// A queued path stays queued through a scan: the scan only appends.
proof fn lemma_enqueue_contains(
    paths: Seq<(Seq<char>, usize)>,
    acts: Seq<ActionView>,
    queue: Seq<Seq<char>>,
    p: Seq<char>,
)
    requires
        queue.contains(p),
    ensures
        spec_enqueue(paths, acts, queue).contains(p),
    decreases acts.len(),
{
    if acts.len() > 0 {
        lemma_enqueue_contains(paths, acts.drop_last(), queue, p);
        let q = spec_enqueue(paths, acts.drop_last(), queue);
        let w = choose|w: int| 0 <= w < q.len() && q[w] == p;
        match acts.last() {
            ActionView::InnerAction(InnerActionView::SwitchConfig(p2)) => {
                if !assoc_has(paths, p2) {
                    assert(q.push(p2)[w] == p);
                }
            },
            _ => {},
        }
    }
}

/// Dropping a registered head entry from the queue keeps every loaded
/// switch target covered.
proof fn lemma_covered_drop_registered_head(
    maps: Seq<Maps>,
    paths: Seq<(Seq<char>, usize)>,
    queue: Seq<Seq<char>>,
)
    requires
        queue.len() > 0,
        assoc_has(paths, queue[0]),
        forall|i: int, j: int|
            0 <= i < maps.len() && 0 <= j < maps[i].chords@.table.len() ==> spec_action_covered(
                (#[trigger] maps[i].chords@.table[j]).1@,
                paths,
                queue,
            ),
        forall|i: int, j: int|
            0 <= i < maps.len() && 0 <= j < maps[i].modifiers@.mapping.len()
                ==> spec_action_covered(
                (#[trigger] maps[i].modifiers@.mapping[j]).1@,
                paths,
                queue,
            ),
    ensures
        forall|i: int, j: int|
            0 <= i < maps.len() && 0 <= j < maps[i].chords@.table.len() ==> spec_action_covered(
                (#[trigger] maps[i].chords@.table[j]).1@,
                paths,
                queue.drop_first(),
            ),
        forall|i: int, j: int|
            0 <= i < maps.len() && 0 <= j < maps[i].modifiers@.mapping.len()
                ==> spec_action_covered(
                (#[trigger] maps[i].modifiers@.mapping[j]).1@,
                paths,
                queue.drop_first(),
            ),
{
    assert forall|a: ActionView|
        spec_action_covered(a, paths, queue) implies spec_action_covered(
        a,
        paths,
        queue.drop_first(),
    ) by {
        match a {
            ActionView::InnerAction(InnerActionView::SwitchConfig(p)) => {
                if !assoc_has(paths, p) && queue.contains(p) {
                    let w = choose|w: int| 0 <= w < queue.len() && queue[w] == p;
                    assert(queue.drop_first()[w - 1] == p);
                }
            },
            _ => {},
        }
    }
}

} // verus!
