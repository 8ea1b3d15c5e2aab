//! The output-side state the actuator owns: per-key press bookkeeping and
//! per-axis stored velocity, together with the device events each output
//! action makes it emit.

use crate::actions::{
    AxisList, KeyStateChange, OutputAction, Pulse, StateChange, Toggle,
};
use crate::assoc::{assoc_get, assoc_put, get_entry, lemma_assoc_put_get, put_entry};
use crate::constants::{
    all_key_codes, all_rel_axis_codes, key_code_list, lemma_key_code_list_complete,
    lemma_rel_axis_code_list_complete, rel_axis_code_list, AxisState, KeyCode, PressState,
    RelAxisCode,
};
use crate::events::RelAxisEvent;
use vstd::prelude::*;

verus! {

/// One event the actuator hands to the operating system: a key edge or one
/// step of relative motion.
#[derive(Copy, Clone, Debug, PartialEq, Eq, Structural, Hash)]
pub enum OutputEvent {
    Key(KeyCode, PressState),
    RelAxis(RelAxisCode, AxisState),
}

/// The mathematical value of an [`OutputState`].
pub struct OutputStateView {
    pub keys: Seq<(KeyCode, PressState)>,
    pub axes: Seq<(RelAxisCode, AxisState)>,
}

/// The press state the bookkeeping answers for a key: its entry, or `Up`
/// for a key without one.
pub open spec fn key_state_of(keys: Seq<(KeyCode, PressState)>, k: KeyCode) -> PressState {
    match assoc_get(keys, k) {
        Some(s) => s,
        None => PressState::Up,
    }
}

/// The stored velocity of an axis: its entry, or zero for an axis without
/// one.
pub open spec fn axis_val_of(axes: Seq<(RelAxisCode, AxisState)>, a: RelAxisCode) -> AxisState {
    match assoc_get(axes, a) {
        Some(v) => v,
        None => 0,
    }
}

/// The bookkeeping after every key of the list is put into one state, in
/// list order.
pub open spec fn spec_set_keys(
    keys: Seq<(KeyCode, PressState)>,
    list: Seq<KeyCode>,
    st: PressState,
) -> Seq<(KeyCode, PressState)>
    decreases list.len(),
{
    if list.len() == 0 {
        keys
    } else {
        assoc_put(spec_set_keys(keys, list.drop_last(), st), list.last(), st)
    }
}

/// The stored velocities after every entry of the list is written, in list
/// order.
pub open spec fn spec_set_axes(
    axes: Seq<(RelAxisCode, AxisState)>,
    list: Seq<RelAxisEvent>,
) -> Seq<(RelAxisCode, AxisState)>
    decreases list.len(),
{
    if list.len() == 0 {
        axes
    } else {
        assoc_put(spec_set_axes(axes, list.drop_last()), list.last().axis, list.last().state)
    }
}

/// The key edges emitted when every key of the list is driven into one
/// state.
pub open spec fn spec_key_emits(list: Seq<KeyCode>, st: PressState) -> Seq<OutputEvent> {
    list.map_values(|k: KeyCode| OutputEvent::Key(k, st))
}

/// The bookkeeping and emissions of toggling every key of the list in
/// order: a key currently down goes up, any other goes down, later toggles
/// seeing the effect of earlier ones.
pub open spec fn spec_toggle_keys(keys: Seq<(KeyCode, PressState)>, list: Seq<KeyCode>) -> (
    Seq<(KeyCode, PressState)>,
    Seq<OutputEvent>,
)
    decreases list.len(),
{
    if list.len() == 0 {
        (keys, Seq::empty())
    } else {
        let (prev, ev) = spec_toggle_keys(keys, list.drop_last());
        let k = list.last();
        let st = key_state_of(prev, k).spec_opposite();
        (assoc_put(prev, k, st), ev.push(OutputEvent::Key(k, st)))
    }
}

/// The stored velocities after toggling every entry of the list in order:
/// an axis whose stored value equals the entry's value flips to zero, any
/// other takes the entry's value.
pub open spec fn spec_toggle_axes(
    axes: Seq<(RelAxisCode, AxisState)>,
    list: Seq<RelAxisEvent>,
) -> Seq<(RelAxisCode, AxisState)>
    decreases list.len(),
{
    if list.len() == 0 {
        axes
    } else {
        let prev = spec_toggle_axes(axes, list.drop_last());
        let e = list.last();
        if axis_val_of(prev, e.axis) == e.state {
            assoc_put(prev, e.axis, 0)
        } else {
            assoc_put(prev, e.axis, e.state)
        }
    }
}

/// One relative-motion event per axis whose stored velocity is non-zero,
/// in bookkeeping order.
pub open spec fn spec_pulses(axes: Seq<(RelAxisCode, AxisState)>) -> Seq<OutputEvent>
    decreases axes.len(),
{
    if axes.len() == 0 {
        Seq::empty()
    } else {
        let prev = spec_pulses(axes.drop_last());
        if axes.last().1 != 0 {
            prev.push(OutputEvent::RelAxis(axes.last().0, axes.last().1))
        } else {
            prev
        }
    }
}

/// What one state change does: listed keys take the explicit state with
/// one edge each; listed axis velocities are stored without emission.
pub open spec fn spec_execute_state_change(st: OutputStateView, sc: StateChange) -> (
    OutputStateView,
    Seq<OutputEvent>,
) {
    let (keys, ev) = match sc.keys {
        Some(ksc) => (
            spec_set_keys(st.keys, ksc.keys@, ksc.state),
            spec_key_emits(ksc.keys@, ksc.state),
        ),
        None => (st.keys, Seq::empty()),
    };
    let axes = match sc.axes {
        Some(al) => spec_set_axes(st.axes, al@),
        None => st.axes,
    };
    (OutputStateView { keys, axes }, ev)
}

/// What one pulse does: each listed key goes up, down and up again, each
/// listed axis gets one motion event without any stored state.
pub open spec fn spec_execute_pulse(st: OutputStateView, p: Pulse) -> (
    OutputStateView,
    Seq<OutputEvent>,
) {
    let (keys, kev) = match p.keys {
        Some(list) => (
            spec_set_keys(
                spec_set_keys(spec_set_keys(st.keys, list@, PressState::Up), list@, PressState::Down),
                list@,
                PressState::Up,
            ),
            spec_key_emits(list@, PressState::Up) + spec_key_emits(list@, PressState::Down)
                + spec_key_emits(list@, PressState::Up),
        ),
        None => (st.keys, Seq::empty()),
    };
    let aev = match p.axes {
        Some(al) => al@.map_values(|e: RelAxisEvent| OutputEvent::RelAxis(e.axis, e.state)),
        None => Seq::empty(),
    };
    (OutputStateView { keys, axes: st.axes }, kev + aev)
}

/// What one toggle does: each listed key flips its press state with one
/// edge, each listed axis flips between the entry's value and zero.
pub open spec fn spec_execute_toggle(st: OutputStateView, t: Toggle) -> (
    OutputStateView,
    Seq<OutputEvent>,
) {
    let (keys, ev) = match t.keys {
        Some(list) => spec_toggle_keys(st.keys, list@),
        None => (st.keys, Seq::empty()),
    };
    let axes = match t.axes {
        Some(al) => spec_toggle_axes(st.axes, al@),
        None => st.axes,
    };
    (OutputStateView { keys, axes }, ev)
}

/// What one output action does to the actuator state, and the events it
/// emits.
pub open spec fn spec_execute(st: OutputStateView, a: OutputAction) -> (
    OutputStateView,
    Seq<OutputEvent>,
) {
    match a {
        OutputAction::StateChange(sc) => spec_execute_state_change(st, sc),
        OutputAction::Pulse(p) => spec_execute_pulse(st, p),
        OutputAction::Toggle(t) => spec_execute_toggle(st, t),
    }
}

/// The actuator's output-side state: the saved press state of every key
/// and the stored velocity of every relative axis.
pub struct OutputState {
    key_states: Vec<(KeyCode, PressState)>,
    rel_axes_vals: Vec<(RelAxisCode, AxisState)>,
}

impl View for OutputState {
    type V = OutputStateView;

    closed spec fn view(&self) -> OutputStateView {
        OutputStateView { keys: self.key_states@, axes: self.rel_axes_vals@ }
    }
}

impl OutputState {
    /// A fresh state: every key up, every axis velocity zero.
    pub fn init() -> (r: Self)
        ensures
            r@.keys == key_code_list().map_values(|k: KeyCode| (k, PressState::Up)),
            r@.axes == rel_axis_code_list().map_values(|a: RelAxisCode| (a, 0i32)),
    {
        let keys = all_key_codes();
        let mut key_states: Vec<(KeyCode, PressState)> = Vec::new();
        let nk = keys.len();
        for i in 0..nk
            invariant
                nk == keys@.len(),
                keys@ == key_code_list(),
                key_states@ == key_code_list().subrange(0, i as int).map_values(
                    |k: KeyCode| (k, PressState::Up),
                ),
        {
            key_states.push((keys[i], PressState::Up));
            proof {
                assert(key_states@ =~= key_code_list().subrange(0, i as int + 1).map_values(
                    |k: KeyCode| (k, PressState::Up),
                ));
            }
        }
        let axes = all_rel_axis_codes();
        let mut rel_axes_vals: Vec<(RelAxisCode, AxisState)> = Vec::new();
        let na = axes.len();
        for i in 0..na
            invariant
                na == axes@.len(),
                axes@ == rel_axis_code_list(),
                rel_axes_vals@ == rel_axis_code_list().subrange(0, i as int).map_values(
                    |a: RelAxisCode| (a, 0i32),
                ),
        {
            rel_axes_vals.push((axes[i], 0));
            proof {
                assert(rel_axes_vals@ =~= rel_axis_code_list().subrange(0, i as int + 1).map_values(
                    |a: RelAxisCode| (a, 0i32),
                ));
            }
        }
        proof {
            assert(key_code_list().subrange(0, nk as int) =~= key_code_list());
            assert(rel_axis_code_list().subrange(0, na as int) =~= rel_axis_code_list());
        }
        Self { key_states, rel_axes_vals }
    }

    /// The saved press state of a key.
    pub fn key_state(&self, key: KeyCode) -> (r: PressState)
        ensures
            r == key_state_of(self@.keys, key),
    {
        match get_entry(&self.key_states, &key) {
            Some(s) => *s,
            None => PressState::Up,
        }
    }

    /// The stored velocity of an axis.
    pub fn axis_value(&self, axis: RelAxisCode) -> (r: AxisState)
        ensures
            r == axis_val_of(self@.axes, axis),
    {
        match get_entry(&self.rel_axes_vals, &axis) {
            Some(v) => *v,
            None => 0,
        }
    }

    /// Drives every key of the list into one state, one edge per key.
    fn set_keys(&mut self, list: &Vec<KeyCode>, st: PressState, out: &mut Vec<OutputEvent>)
        ensures
            final(self)@.keys == spec_set_keys(old(self)@.keys, list@, st),
            final(self)@.axes == old(self)@.axes,
            final(out)@ == old(out)@ + spec_key_emits(list@, st),
    {
        let n = list.len();
        proof {
            assert(out@ =~= old(out)@ + spec_key_emits(list@.subrange(0, 0), st));
        }
        for i in 0..n
            invariant
                n == list@.len(),
                self@.keys == spec_set_keys(old(self)@.keys, list@.subrange(0, i as int), st),
                self@.axes == old(self)@.axes,
                out@ == old(out)@ + spec_key_emits(list@.subrange(0, i as int), st),
        {
            put_entry(&mut self.key_states, list[i], st);
            out.push(OutputEvent::Key(list[i], st));
            proof {
                assert(list@.subrange(0, i as int + 1).drop_last() =~= list@.subrange(0, i as int));
                assert(out@ =~= old(out)@ + spec_key_emits(list@.subrange(0, i as int + 1), st));
            }
        }
        proof {
            assert(list@.subrange(0, n as int) =~= list@);
        }
    }

    /// Writes every velocity of the list into the stored state; a state
    /// change of axis velocity emits nothing by itself.
    fn set_axes(&mut self, list: &AxisList)
        ensures
            final(self)@.axes == spec_set_axes(old(self)@.axes, list@),
            final(self)@.keys == old(self)@.keys,
    {
        let n = list.0.len();
        for i in 0..n
            invariant
                n == list@.len(),
                self@.axes == spec_set_axes(old(self)@.axes, list@.subrange(0, i as int)),
                self@.keys == old(self)@.keys,
        {
            put_entry(&mut self.rel_axes_vals, list.0[i].axis, list.0[i].state);
            proof {
                assert(list@.subrange(0, i as int + 1).drop_last() =~= list@.subrange(0, i as int));
            }
        }
        proof {
            assert(list@.subrange(0, n as int) =~= list@);
        }
    }

    /// Executes a state change: explicit key edges, stored axis velocities.
    fn execute_state_change(&mut self, change: &StateChange, out: &mut Vec<OutputEvent>)
        ensures
            final(self)@ == spec_execute_state_change(old(self)@, *change).0,
            final(out)@ == old(out)@ + spec_execute_state_change(old(self)@, *change).1,
    {
        if let Some(keychange) = &change.keys {
            self.set_keys(&keychange.keys, keychange.state, out);
        }
        if let Some(axeschange) = &change.axes {
            self.set_axes(axeschange);
        }
        proof {
            assert(final(out)@ =~= old(out)@ + spec_execute_state_change(old(self)@, *change).1);
        }
    }

    /// Executes a pulse: each key up, down and up again; each axis one
    /// motion event, no stored state.
    fn execute_pulse(&mut self, pulse: &Pulse, out: &mut Vec<OutputEvent>)
        ensures
            final(self)@ == spec_execute_pulse(old(self)@, *pulse).0,
            final(out)@ == old(out)@ + spec_execute_pulse(old(self)@, *pulse).1,
    {
        if let Some(keycodes) = &pulse.keys {
            self.set_keys(keycodes, PressState::Up, out);
            self.set_keys(keycodes, PressState::Down, out);
            self.set_keys(keycodes, PressState::Up, out);
        }
        if let Some(axes) = &pulse.axes {
            let n = axes.0.len();
            let ghost mid = out@;
            for i in 0..n
                invariant
                    n == axes@.len(),
                    self@ == final(self)@,
                    out@ == mid + axes@.subrange(0, i as int).map_values(
                        |e: RelAxisEvent| OutputEvent::RelAxis(e.axis, e.state),
                    ),
            {
                out.push(OutputEvent::RelAxis(axes.0[i].axis, axes.0[i].state));
                proof {
                    assert(out@ =~= mid + axes@.subrange(0, i as int + 1).map_values(
                        |e: RelAxisEvent| OutputEvent::RelAxis(e.axis, e.state),
                    ));
                }
            }
            proof {
                assert(axes@.subrange(0, n as int) =~= axes@);
            }
        }
        proof {
            assert(final(out)@ =~= old(out)@ + spec_execute_pulse(old(self)@, *pulse).1);
        }
    }

    /// Executes a toggle: each key flips its saved press state, each axis
    /// flips between the given value and zero.
    fn execute_toggle(&mut self, toggle: &Toggle, out: &mut Vec<OutputEvent>)
        ensures
            final(self)@ == spec_execute_toggle(old(self)@, *toggle).0,
            final(out)@ == old(out)@ + spec_execute_toggle(old(self)@, *toggle).1,
    {
        if let Some(keys) = &toggle.keys {
            let n = keys.len();
            proof {
                assert(out@ =~= old(out)@ + spec_toggle_keys(old(self)@.keys, keys@.subrange(0, 0)).1);
            }
            for i in 0..n
                invariant
                    n == keys@.len(),
                    self@.keys == spec_toggle_keys(old(self)@.keys, keys@.subrange(0, i as int)).0,
                    self@.axes == old(self)@.axes,
                    out@ == old(out)@ + spec_toggle_keys(old(self)@.keys, keys@.subrange(0, i as int)).1,
            {
                let key = keys[i];
                let curr = self.key_state(key);
                let st = match curr {
                    PressState::Down => PressState::Up,
                    PressState::Up => PressState::Down,
                };
                put_entry(&mut self.key_states, key, st);
                out.push(OutputEvent::Key(key, st));
                proof {
                    assert(keys@.subrange(0, i as int + 1).drop_last() =~= keys@.subrange(
                        0,
                        i as int,
                    ));
                }
            }
            proof {
                assert(keys@.subrange(0, n as int) =~= keys@);
            }
        }
        if let Some(axes_change) = &toggle.axes {
            let ghost pre = self@;
            let n = axes_change.0.len();
            for i in 0..n
                invariant
                    n == axes_change@.len(),
                    self@.keys == pre.keys,
                    self@.axes == spec_toggle_axes(pre.axes, axes_change@.subrange(0, i as int)),
            {
                let e = axes_change.0[i];
                let curr = self.axis_value(e.axis);
                if curr == e.state {
                    put_entry(&mut self.rel_axes_vals, e.axis, 0);
                } else {
                    put_entry(&mut self.rel_axes_vals, e.axis, e.state);
                }
                proof {
                    assert(axes_change@.subrange(0, i as int + 1).drop_last()
                        =~= axes_change@.subrange(0, i as int));
                }
            }
            proof {
                assert(axes_change@.subrange(0, n as int) =~= axes_change@);
            }
        }
        proof {
            assert(final(out)@ =~= old(out)@ + spec_execute_toggle(old(self)@, *toggle).1);
        }
    }

    /// Executes one output action, returning the device events it emits.
    pub fn execute_event(&mut self, event: &OutputAction) -> (r: Vec<OutputEvent>)
        ensures
            final(self)@ == spec_execute(old(self)@, *event).0,
            r@ == spec_execute(old(self)@, *event).1,
    {
        let mut out: Vec<OutputEvent> = Vec::new();
        match event {
            OutputAction::StateChange(change) => self.execute_state_change(change, &mut out),
            OutputAction::Pulse(pulse) => self.execute_pulse(pulse, &mut out),
            OutputAction::Toggle(toggle) => self.execute_toggle(toggle, &mut out),
        }
        out
    }

    /// One relative-motion event per axis whose stored velocity is
    /// non-zero: the integration step the actuator runs at its cadence.
    pub fn pulse_rel_axes(&self) -> (r: Vec<OutputEvent>)
        ensures
            r@ == spec_pulses(self@.axes),
    {
        let mut out: Vec<OutputEvent> = Vec::new();
        let n = self.rel_axes_vals.len();
        for i in 0..n
            invariant
                n == self.rel_axes_vals@.len(),
                out@ == spec_pulses(self@.axes.subrange(0, i as int)),
        {
            let (axis, val) = self.rel_axes_vals[i];
            if val != 0 {
                out.push(OutputEvent::RelAxis(axis, val));
            }
            proof {
                assert(self@.axes.subrange(0, i as int + 1).drop_last() =~= self@.axes.subrange(
                    0,
                    i as int,
                ));
            }
        }
        proof {
            assert(self@.axes.subrange(0, n as int) =~= self@.axes);
        }
        out
    }
}

/// The value of the hands-off reset: one state change that releases every
/// key of the output key space and zeroes every relative axis.
pub open spec fn spec_hands_off_view() -> crate::actions::StateChangeView {
    crate::actions::StateChangeView {
        keys: Some(
            crate::actions::KeyStateChangeView { keys: key_code_list(), state: PressState::Up },
        ),
        axes: Some(
            rel_axis_code_list().map_values(|c: RelAxisCode| RelAxisEvent { axis: c, state: 0 }),
        ),
    }
}

/// Builds the hands-off reset action.
pub fn hands_off_action() -> (r: StateChange)
    ensures
        r@ == spec_hands_off_view(),
{
    let keys = all_key_codes();
    let codes = all_rel_axis_codes();
    let mut pairs: Vec<(RelAxisCode, AxisState)> = Vec::new();
    let n = codes.len();
    for i in 0..n
        invariant
            n == codes@.len(),
            codes@ == rel_axis_code_list(),
            pairs@ == rel_axis_code_list().subrange(0, i as int).map_values(
                |c: RelAxisCode| (c, 0i32),
            ),
    {
        pairs.push((codes[i], 0));
        proof {
            assert(pairs@ =~= rel_axis_code_list().subrange(0, i as int + 1).map_values(
                |c: RelAxisCode| (c, 0i32),
            ));
        }
    }
    proof {
        assert(rel_axis_code_list().subrange(0, n as int) =~= rel_axis_code_list());
    }
    let axes = AxisList::from_pairs(pairs);
    let r = StateChange::new(Some(KeyStateChange { keys, state: PressState::Up }), Some(axes));
    proof {
        assert(r@.axes->0 =~= spec_hands_off_view().axes->0);
    }
    r
}

/// The press state every key answers after a whole list is driven into one
/// state: a listed key answers that state, any other answers as before.
pub proof fn lemma_set_keys_lookup(
    keys: Seq<(KeyCode, PressState)>,
    list: Seq<KeyCode>,
    st: PressState,
)
    ensures
        forall|k: KeyCode| #[trigger]
            key_state_of(spec_set_keys(keys, list, st), k) == if list.contains(k) {
                st
            } else {
                key_state_of(keys, k)
            },
    decreases list.len(),
{
    if list.len() > 0 {
        lemma_set_keys_lookup(keys, list.drop_last(), st);
        let prev = spec_set_keys(keys, list.drop_last(), st);
        lemma_assoc_put_get(prev, list.last(), st);
        assert forall|k: KeyCode| #[trigger]
            key_state_of(spec_set_keys(keys, list, st), k) == (if list.contains(k) {
                st
            } else {
                key_state_of(keys, k)
            }) by {
            assert(key_state_of(prev, k) == if list.drop_last().contains(k) {
                st
            } else {
                key_state_of(keys, k)
            });
            if k == list.last() {
                assert(list[list.len() - 1] == k);
                assert(list.contains(k));
            } else {
                assert(key_state_of(spec_set_keys(keys, list, st), k) == key_state_of(prev, k));
                if list.contains(k) {
                    let w = choose|w: int| 0 <= w < list.len() && list[w] == k;
                    assert(list.drop_last()[w] == k);
                    assert(list.drop_last().contains(k));
                } else {
                    if list.drop_last().contains(k) {
                        let w = choose|w: int|
                            0 <= w < list.len() - 1 && list.drop_last()[w] == k;
                        assert(list[w] == k);
                        assert(list.contains(k));
                    }
                }
            }
        }
    }
}

/// The last velocity a list writes to an axis, if any.
pub open spec fn spec_axis_write(list: Seq<RelAxisEvent>, a: RelAxisCode) -> Option<AxisState>
    decreases list.len(),
{
    if list.len() == 0 {
        None
    } else if list.last().axis == a {
        Some(list.last().state)
    } else {
        spec_axis_write(list.drop_last(), a)
    }
}

/// The velocity every axis answers after a whole list is written: an axis
/// the list writes answers the last write, any other answers as before.
pub proof fn lemma_set_axes_lookup(axes: Seq<(RelAxisCode, AxisState)>, list: Seq<RelAxisEvent>)
    ensures
        forall|a: RelAxisCode| #[trigger]
            axis_val_of(spec_set_axes(axes, list), a) == match spec_axis_write(list, a) {
                Some(v) => v,
                None => axis_val_of(axes, a),
            },
    decreases list.len(),
{
    if list.len() > 0 {
        lemma_set_axes_lookup(axes, list.drop_last());
        let prev = spec_set_axes(axes, list.drop_last());
        lemma_assoc_put_get(prev, list.last().axis, list.last().state);
        assert forall|a: RelAxisCode| #[trigger]
            axis_val_of(spec_set_axes(axes, list), a) == (match spec_axis_write(list, a) {
                Some(v) => v,
                None => axis_val_of(axes, a),
            }) by {
            assert(axis_val_of(prev, a) == match spec_axis_write(list.drop_last(), a) {
                Some(v) => v,
                None => axis_val_of(axes, a),
            });
            if a != list.last().axis {
                assert(axis_val_of(spec_set_axes(axes, list), a) == axis_val_of(prev, a));
            }
        }
    }
}

/// A list all of whose writes are zero, and which writes the axis at all,
/// leaves the axis written zero.
pub proof fn lemma_axis_write_zero(list: Seq<RelAxisEvent>, a: RelAxisCode)
    requires
        forall|j: int| 0 <= j < list.len() ==> (#[trigger] list[j]).state == 0,
        exists|j: int| 0 <= j < list.len() && (#[trigger] list[j]).axis == a,
    ensures
        spec_axis_write(list, a) == Some(0i32),
    decreases list.len(),
{
    let j = choose|j: int| 0 <= j < list.len() && (#[trigger] list[j]).axis == a;
    if list.last().axis == a {
        assert(list[list.len() - 1].state == 0);
    } else {
        assert(list.drop_last()[j] == list[j]);
        lemma_axis_write_zero(list.drop_last(), a);
    }
}

/// Hands-off idempotence: applying the hands-off reset leaves every key of
/// the key space up and every axis velocity zero; applying it twice in a
/// row emits the same events both times and leaves the state answering the
/// same, with no key marked down.
pub proof fn lemma_hands_off_reset(st: OutputStateView, sc: StateChange)
    requires
        sc@ == spec_hands_off_view(),
    ensures
        ({
            let (st1, ev1) = spec_execute_state_change(st, sc);
            let (st2, ev2) = spec_execute_state_change(st1, sc);
            &&& forall|k: KeyCode| #[trigger] key_state_of(st1.keys, k) == PressState::Up
            &&& forall|a: RelAxisCode| #[trigger] axis_val_of(st1.axes, a) == 0
            &&& ev2 == ev1
            &&& forall|k: KeyCode| #[trigger] key_state_of(st2.keys, k) == PressState::Up
            &&& forall|a: RelAxisCode| #[trigger] axis_val_of(st2.axes, a) == 0
        }),
{
    let ksc = sc.keys->0;
    let al = sc.axes->0;
    assert(ksc.keys@ == key_code_list());
    assert(ksc.state == PressState::Up);
    assert(al@ == rel_axis_code_list().map_values(
        |c: RelAxisCode| RelAxisEvent { axis: c, state: 0 },
    ));
    lemma_key_code_list_complete();
    lemma_rel_axis_code_list_complete();
    let (st1, ev1) = spec_execute_state_change(st, sc);
    lemma_set_keys_lookup(st.keys, ksc.keys@, PressState::Up);
    lemma_set_keys_lookup(st1.keys, ksc.keys@, PressState::Up);
    lemma_set_axes_lookup(st.axes, al@);
    lemma_set_axes_lookup(st1.axes, al@);
    assert forall|a: RelAxisCode| #[trigger] axis_val_of(st1.axes, a) == 0 by {
        assert(rel_axis_code_list().contains(a));
        let w = choose|w: int|
            0 <= w < rel_axis_code_list().len() && rel_axis_code_list()[w] == a;
        assert(al@[w].axis == a);
        assert forall|j: int| 0 <= j < al@.len() implies (#[trigger] al@[j]).state == 0 by {
            assert(al@[j] == RelAxisEvent { axis: rel_axis_code_list()[j], state: 0 });
        }
        lemma_axis_write_zero(al@, a);
    }
    let (st2, ev2) = spec_execute_state_change(st1, sc);
    assert forall|a: RelAxisCode| #[trigger] axis_val_of(st2.axes, a) == 0 by {
        assert(rel_axis_code_list().contains(a));
        let w = choose|w: int|
            0 <= w < rel_axis_code_list().len() && rel_axis_code_list()[w] == a;
        assert(al@[w].axis == a);
        assert forall|j: int| 0 <= j < al@.len() implies (#[trigger] al@[j]).state == 0 by {
            assert(al@[j] == RelAxisEvent { axis: rel_axis_code_list()[j], state: 0 });
        }
        lemma_axis_write_zero(al@, a);
    }
}

} // verus!
