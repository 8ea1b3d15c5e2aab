//! The chord engine: accumulates the currently-active digital and
//! thresholded inputs into a subset of the chord-input universe, and on
//! release or recession resolves the accumulated subset against a table of
//! bound actions.

use crate::actions::{clone_action, spec_opt_act_view, Action, InnerAction};
use crate::assoc::{
    assoc_get, assoc_put, lemma_assoc_find_at, lemma_assoc_find_none, seq_find, seq_has, EqKey,
};
use crate::attribute_set::{AttributeSet, AttributeSetView, AttributeSubset};
use crate::constants::{AbsAxisCode, AxisState, KeyCode, PressState};
use crate::events::{AbsAxisEvent, InputEvent, KeyEvent};
use crate::thresholds::{
    spec_table_passing, AllAxisThresholds, AxisThresholds, ThresholdType, ThresholdedAxis,
};
use vstd::prelude::*;

verus! {

/// The input types a chord can be built from.
#[derive(Copy, Clone, Debug, PartialEq, Eq, Structural, Hash)]
pub enum ChordInput {
    Key(KeyCode),
    ThresholdedAxis(ThresholdedAxis),
}

impl EqKey for ChordInput {
    fn eq_key(&self, other: &Self) -> (r: bool)
        ensures
            r == (*self == *other),
    {
        *self == *other
    }
}

/// The type used to represent a chord: a subset of the chord-input
/// universe.
pub type Chord = AttributeSubset<ChordInput>;

/// A list of pairs mapping a list of [`ChordInput`] to an [`Action`].
pub type ChordMapInput = Vec<(Vec<ChordInput>, Action)>;

/// The mathematical value of a [`ChordMap`]: the chord-input universe, the
/// boundary table, the chord table keyed by membership bits, and the
/// engine's accumulation state.
pub struct ChordMapView {
    pub inputs: AttributeSetView<ChordInput>,
    pub thresholds: Seq<(AbsAxisCode, AxisThresholds)>,
    pub table: Seq<(Seq<bool>, Action)>,
    pub primed: bool,
    pub state: Seq<bool>,
    pub prev: Seq<bool>,
}

/// Whether the accumulation bits hold the input.
pub open spec fn spec_has(inputs: AttributeSetView<ChordInput>, bits: Seq<bool>, x: ChordInput) -> bool {
    seq_has(inputs.items, x) && bits[seq_find(inputs.items, x)]
}

/// The bits with the input's bit set; a non-member changes nothing.
pub open spec fn spec_bits_insert(
    inputs: AttributeSetView<ChordInput>,
    bits: Seq<bool>,
    x: ChordInput,
) -> Seq<bool> {
    if inputs.items.contains(x) {
        bits.update(seq_find(inputs.items, x), true)
    } else {
        bits
    }
}

/// The bits with the input's bit cleared; a non-member changes nothing.
pub open spec fn spec_bits_remove(
    inputs: AttributeSetView<ChordInput>,
    bits: Seq<bool>,
    x: ChordInput,
) -> Seq<bool> {
    if inputs.items.contains(x) {
        bits.update(seq_find(inputs.items, x), false)
    } else {
        bits
    }
}

/// Whether the action is a repeat-last-chord request, which must not
/// overwrite the remembered previous chord.
pub open spec fn spec_is_repeat(a: Action) -> bool {
    a matches Action::InnerAction(InnerAction::RepeatLastChord(_))
}

/// One resolution step: when the engine is primed and the accumulated
/// subset is bound, the bound action comes out, the engine unprimes, and —
/// unless the action is a repeat request — the subset is remembered as the
/// previous chord.
pub open spec fn spec_emit(m: ChordMapView) -> (ChordMapView, Option<Action>) {
    if m.primed {
        match assoc_get(m.table, m.state) {
            Some(a) => (
                ChordMapView {
                    primed: false,
                    prev: if spec_is_repeat(a) {
                        m.prev
                    } else {
                        m.state
                    },
                    ..m
                },
                Some(a),
            ),
            None => (m, None),
        }
    } else {
        (m, None)
    }
}

/// What a key event does: a press accumulates the key (when tracked) and
/// primes the engine; a release resolves the accumulated subset and then
/// drops the key from it.
pub open spec fn spec_handle_key(m: ChordMapView, key: KeyCode, ps: PressState) -> (
    ChordMapView,
    Option<Action>,
) {
    let ki = ChordInput::Key(key);
    match ps {
        PressState::Down => (
            if m.inputs.items.contains(ki) {
                ChordMapView { state: spec_bits_insert(m.inputs, m.state, ki), primed: true, ..m }
            } else {
                m
            },
            None,
        ),
        PressState::Up => {
            let (m1, act) = spec_emit(m);
            (ChordMapView { state: spec_bits_remove(m.inputs, m1.state, ki), ..m1 }, act)
        },
    }
}

/// What an absolute-axis event does: an axis no chord input tracks is
/// ignored; a threshold already held is a no-op; a newly passing threshold
/// resolves any pending chord built on the opposite direction, swaps the
/// bits and primes; recession into the dead zone resolves and drops each
/// held direction in turn, the second resolution overwriting the first.
pub open spec fn spec_handle_axis(m: ChordMapView, axis: AbsAxisCode, v: AxisState) -> (
    ChordMapView,
    Option<Action>,
) {
    let p1 = ChordInput::ThresholdedAxis(
        ThresholdedAxis { axis, threshold: ThresholdType::Greater },
    );
    let p2 = ChordInput::ThresholdedAxis(ThresholdedAxis { axis, threshold: ThresholdType::Lesser });
    if !(m.inputs.items.contains(p1) || m.inputs.items.contains(p2)) {
        (m, None)
    } else {
        match spec_table_passing(m.thresholds, axis, v) {
            Some(pt) => {
                let t = pt.0;
                let ti = ChordInput::ThresholdedAxis(t);
                let oi = ChordInput::ThresholdedAxis(
                    ThresholdedAxis { axis, threshold: t.threshold.spec_opposite() },
                );
                if spec_has(m.inputs, m.state, ti) {
                    (m, None)
                } else {
                    let held = spec_has(m.inputs, m.state, p1) || spec_has(m.inputs, m.state, p2);
                    let (m1, act) = if held {
                        let (e, a) = spec_emit(m);
                        (ChordMapView { state: spec_bits_remove(m.inputs, e.state, oi), ..e }, a)
                    } else {
                        (m, None)
                    };
                    (
                        ChordMapView {
                            state: spec_bits_insert(m.inputs, m1.state, ti),
                            primed: true,
                            ..m1
                        },
                        act,
                    )
                }
            },
            None => {
                let (m1, act1) = if spec_has(m.inputs, m.state, p1) {
                    let (e, a) = spec_emit(m);
                    (ChordMapView { state: spec_bits_remove(m.inputs, e.state, p1), ..e }, a)
                } else {
                    (m, None)
                };
                let (m2, act2) = if spec_has(m.inputs, m1.state, p2) {
                    let (e, a) = spec_emit(m1);
                    (ChordMapView { state: spec_bits_remove(m.inputs, e.state, p2), ..e }, a)
                } else {
                    (m1, act1)
                };
                (m2, act2)
            },
        }
    }
}

/// The chord inputs a configuration's chord list names, in order of
/// appearance, repeats included.
pub open spec fn spec_chord_inputs(s: Seq<(Vec<ChordInput>, Action)>) -> Seq<ChordInput>
    decreases s.len(),
{
    if s.len() == 0 {
        Seq::empty()
    } else {
        spec_chord_inputs(s.drop_last()) + s.last().0@
    }
}

/// The membership bits of a chord over the universe items: bit `i` is set
/// when the chord names item `i`.
pub open spec fn spec_member_bits(items: Seq<ChordInput>, xs: Seq<ChordInput>) -> Seq<bool> {
    Seq::new(items.len(), |i: int| xs.contains(items[i]))
}

/// The chord table built from a configuration's chord list: each chord is
/// keyed by its membership bits, later entries for one chord replacing
/// earlier ones.
pub open spec fn spec_chord_table(
    inputs: AttributeSetView<ChordInput>,
    s: Seq<(Vec<ChordInput>, Action)>,
) -> Seq<(Seq<bool>, Action)>
    decreases s.len(),
{
    if s.len() == 0 {
        Seq::empty()
    } else {
        assoc_put(
            spec_chord_table(inputs, s.drop_last()),
            spec_member_bits(inputs.items, s.last().0@),
            s.last().1,
        )
    }
}

/// The chord accumulator state machine.
pub struct ChordMap {
    chord_inputs: AttributeSet<ChordInput>,
    axis_thresholds: AllAxisThresholds,
    chord_mapping: Vec<(Chord, Action)>,
    primed: bool,
    state: Chord,
    prev_chord: Chord,
}

impl View for ChordMap {
    type V = ChordMapView;

    closed spec fn view(&self) -> ChordMapView {
        ChordMapView {
            inputs: self.chord_inputs@,
            thresholds: self.axis_thresholds@,
            table: self.chord_mapping@.map_values(|p: (Chord, Action)| (p.0@.bits, p.1)),
            primed: self.primed,
            state: self.state@.bits,
            prev: self.prev_chord@.bits,
        }
    }
}

impl ChordMap {
    /// Validity: every subset the engine keeps — the accumulation state,
    /// the previous chord and each table key — is a well-formed subset of
    /// the one chord-input universe.
    pub closed spec fn wf(&self) -> bool {
        &&& self.chord_inputs@.wf()
        &&& self.state@.parent == self.chord_inputs@
        &&& self.state@.wf()
        &&& self.prev_chord@.parent == self.chord_inputs@
        &&& self.prev_chord@.wf()
        &&& forall|i: int|
            0 <= i < self.chord_mapping@.len() ==> (#[trigger] self.chord_mapping@[i]).0@.parent
                == self.chord_inputs@ && self.chord_mapping@[i].0@.wf()
    }

    /// First-match lookup of a chord in the table; under validity the first
    /// match is by bits alone.
    fn get_action(&self, chord: &Chord) -> (r: Option<Action>)
        requires
            self.wf(),
            chord@.parent == self@.inputs,
        ensures
            spec_opt_act_view(r) == spec_opt_act_view(assoc_get(self@.table, chord@.bits)),
    {
        let ghost tv = self@.table;
        let n = self.chord_mapping.len();
        for i in 0..n
            invariant
                self.wf(),
                chord@.parent == self@.inputs,
                tv == self@.table,
                n == self.chord_mapping@.len(),
                forall|j: int| 0 <= j < i ==> (#[trigger] tv[j]).0 != chord@.bits,
        {
            proof {
                assert(tv[i as int] == (self.chord_mapping@[i as int].0@.bits,
                self.chord_mapping@[i as int].1));
            }
            if self.chord_mapping[i].0.equals(chord) {
                proof {
                    lemma_assoc_find_at(tv, chord@.bits, i as int);
                }
                return Some(clone_action(&self.chord_mapping[i].1));
            }
        }
        proof {
            lemma_assoc_find_none(tv, chord@.bits);
        }
        None
    }

    /// The actions of the chord table, in table order.
    pub fn actions(&self) -> (r: Vec<Action>)
        ensures
            r@.map_values(|a: Action| a@) == self@.table.map_values(
                |p: (Seq<bool>, Action)| p.1@,
            ),
    {
        let mut r: Vec<Action> = Vec::new();
        let n = self.chord_mapping.len();
        for i in 0..n
            invariant
                n == self.chord_mapping@.len(),
                r@.len() == i,
                forall|j: int| 0 <= j < i ==> (#[trigger] r@[j])@ == self.chord_mapping@[j].1@,
        {
            r.push(clone_action(&self.chord_mapping[i].1));
        }
        proof {
            assert forall|j: int| 0 <= j < n implies (#[trigger] self@.table[j]).1
                == self.chord_mapping@[j].1 by {
                assert(self@.table[j] == (self.chord_mapping@[j].0@.bits,
                self.chord_mapping@[j].1));
            }
            assert(r@.map_values(|a: Action| a@) =~= self@.table.map_values(
                |p: (Seq<bool>, Action)| p.1@,
            ));
        }
        r
    }

    /// The action bound to the remembered previous chord, if any.
    pub fn get_prev_action(&self) -> (r: Option<Action>)
        requires
            self.wf(),
        ensures
            spec_opt_act_view(r) == spec_opt_act_view(assoc_get(self@.table, self@.prev)),
    {
        self.get_action(&self.prev_chord)
    }

    /// Resolves the accumulated subset, if the engine is primed.
    fn emit_action(&mut self) -> (r: Option<Action>)
        requires
            old(self).wf(),
        ensures
            final(self).wf(),
            final(self)@ == spec_emit(old(self)@).0,
            spec_opt_act_view(r) == spec_opt_act_view(spec_emit(old(self)@).1),
    {
        if self.primed {
            let action = self.get_action(&self.state);
            match action {
                Some(action) => {
                    if !(matches!(action, Action::InnerAction(InnerAction::RepeatLastChord(_)))) {
                        let _ = self.prev_chord.copy_from(&self.state);
                    }
                    self.primed = false;
                    proof {
                        assert(final(self)@.table =~= old(self)@.table);
                    }
                    Some(action)
                },
                None => None,
            }
        } else {
            None
        }
    }

    /// A key press accumulates the key and primes the engine; a key release
    /// resolves the accumulated subset and drops the key from it.
    fn handle_key(&mut self, ev: &KeyEvent) -> (r: Option<Action>)
        requires
            old(self).wf(),
        ensures
            final(self).wf(),
            final(self)@ == spec_handle_key(old(self)@, ev.key, ev.state).0,
            spec_opt_act_view(r) == spec_opt_act_view(spec_handle_key(old(self)@, ev.key, ev.state).1),
    {
        let key = ChordInput::Key(ev.key());
        match ev.state() {
            PressState::Down => {
                if self.state.try_insert(&key).is_ok() {
                    self.primed = true;
                }
                proof {
                    assert(final(self)@.table =~= old(self)@.table);
                }
                None
            },
            PressState::Up => {
                let action = self.emit_action();
                self.state.remove(&key);
                proof {
                    assert(final(self)@.table =~= old(self)@.table);
                }
                action
            },
        }
    }

    /// An axis event drives the accumulated subset through the threshold
    /// transitions: swaps resolve the pending chord before the bits change,
    /// recession resolves and drops each held direction.
    fn handle_axis(&mut self, ev: &AbsAxisEvent) -> (r: Option<Action>)
        requires
            old(self).wf(),
        ensures
            final(self).wf(),
            final(self)@ == spec_handle_axis(old(self)@, ev.axis, ev.state).0,
            spec_opt_act_view(r) == spec_opt_act_view(
                spec_handle_axis(old(self)@, ev.axis, ev.state).1,
            ),
    {
        let (possible1, possible2) = ThresholdedAxis::all_possible(ev);
        let possible1 = ChordInput::ThresholdedAxis(possible1);
        let possible2 = ChordInput::ThresholdedAxis(possible2);

        if !(self.chord_inputs.contains(&possible1) || self.chord_inputs.contains(&possible2)) {
            return None;
        }
        let passing_t = self.axis_thresholds.get_passing(ev);

        let mut action: Option<Action> = None;
        match passing_t {
            Some(passing_t) => {
                let ti = ChordInput::ThresholdedAxis(passing_t);
                if self.state.contains(&ti) {
                    return None;
                }
                if self.state.contains(&possible1) || self.state.contains(&possible2) {
                    action = self.emit_action();
                    self.state.remove(&ChordInput::ThresholdedAxis(passing_t.opposite()));
                }
                self.primed = true;
                let _ = self.state.try_insert(&ti);
                proof {
                    assert(final(self)@.table =~= old(self)@.table);
                }
            },
            None => {
                if self.state.contains(&possible1) {
                    action = self.emit_action();
                    self.state.remove(&possible1);
                }
                if self.state.contains(&possible2) {
                    action = self.emit_action();
                    self.state.remove(&possible2);
                }
                proof {
                    assert(final(self)@.table =~= old(self)@.table);
                }
            },
        }

        action
    }

    /// Zeroes the accumulated subset without resolving or dispatching —
    /// used on configuration swap so no stale action fires.
    pub fn clear_state(&mut self)
        requires
            old(self).wf(),
        ensures
            final(self).wf(),
            final(self)@ == (ChordMapView {
                state: Seq::new(old(self)@.state.len(), |i: int| false),
                ..old(self)@
            }),
    {
        self.state.clear();
        proof {
            assert(final(self)@.table =~= old(self)@.table);
        }
    }

    /// Routes one input event: key and absolute-axis events drive the
    /// accumulator, relative-axis events pass through untouched.
    pub fn handle_event(&mut self, ev: &InputEvent) -> (r: Option<Action>)
        requires
            old(self).wf(),
        ensures
            final(self).wf(),
            match *ev {
                InputEvent::KeyEvent(kev) => final(self)@ == spec_handle_key(
                    old(self)@,
                    kev.key,
                    kev.state,
                ).0 && spec_opt_act_view(r) == spec_opt_act_view(
                    spec_handle_key(old(self)@, kev.key, kev.state).1,
                ),
                InputEvent::AbsAxisEvent(aev) => final(self)@ == spec_handle_axis(
                    old(self)@,
                    aev.axis,
                    aev.state,
                ).0 && spec_opt_act_view(r) == spec_opt_act_view(
                    spec_handle_axis(old(self)@, aev.axis, aev.state).1,
                ),
                InputEvent::RelAxisEvent(_) => final(self)@ == old(self)@ && r is None,
            },
    {
        match ev {
            InputEvent::KeyEvent(kev) => self.handle_key(kev),
            InputEvent::AbsAxisEvent(aev) => self.handle_axis(aev),
            InputEvent::RelAxisEvent(_) => None,
        }
    }

    /// Builds the engine from a configuration's chord list and the
    /// configured axis boundaries, under the universe instance id `id`: the
    /// universe indexes every input any chord names, the table keys each
    /// chord by its membership bits, and the engine starts primed with an
    /// empty accumulation.
    pub fn init(chord_map: ChordMapInput, all_a_t: AllAxisThresholds, id: u64) -> (r: Self)
        ensures
            r.wf(),
            r@.inputs.id == id,
            r@.inputs.items == crate::attribute_set::spec_dedup(spec_chord_inputs(chord_map@)),
            r@.thresholds == all_a_t@,
            r@.table == spec_chord_table(r@.inputs, chord_map@),
            r@.primed == true,
            r@.state == Seq::new(r@.inputs.items.len(), |i: int| false),
            r@.prev == Seq::new(r@.inputs.items.len(), |i: int| false),
    {
        // Gather every input any chord names.
        let mut flat: Vec<ChordInput> = Vec::new();
        let n = chord_map.len();
        for i in 0..n
            invariant
                n == chord_map@.len(),
                flat@ == spec_chord_inputs(chord_map@.subrange(0, i as int)),
        {
            let m = chord_map[i].0.len();
            for k in 0..m
                invariant
                    n == chord_map@.len(),
                    i < n,
                    m == chord_map@[i as int].0@.len(),
                    flat@ == spec_chord_inputs(chord_map@.subrange(0, i as int))
                        + chord_map@[i as int].0@.subrange(0, k as int),
            {
                flat.push(chord_map[i].0[k]);
                proof {
                    assert(flat@ =~= spec_chord_inputs(chord_map@.subrange(0, i as int))
                        + chord_map@[i as int].0@.subrange(0, k as int + 1));
                }
            }
            proof {
                assert(chord_map@.subrange(0, i as int + 1).drop_last() =~= chord_map@.subrange(
                    0,
                    i as int,
                ));
                assert(chord_map@.subrange(0, i as int + 1).last() == chord_map@[i as int]);
                assert(chord_map@[i as int].0@.subrange(0, m as int) =~= chord_map@[i as int].0@);
            }
        }
        proof {
            assert(chord_map@.subrange(0, n as int) =~= chord_map@);
        }
        let flat_len = flat.len();
        let chord_inputs = AttributeSet::<ChordInput>::from_capacity(flat, flat_len, id);

        let state = chord_inputs.empty_subset();
        let prev_chord = chord_inputs.empty_subset();

        // Key each chord by its membership bits.
        let mut chord_mapping: Vec<(Chord, Action)> = Vec::new();
        let mut rest = chord_map;
        let ghost all = rest@;
        for i in 0..n
            invariant
                n == all.len(),
                rest@ == all.subrange(i as int, n as int),
                chord_inputs@.wf(),
                chord_inputs@.items == crate::attribute_set::spec_dedup(spec_chord_inputs(all)),
                chord_inputs@.id == id,
                forall|j: int|
                    0 <= j < chord_mapping@.len() ==> (#[trigger] chord_mapping@[j]).0@.parent
                        == chord_inputs@ && chord_mapping@[j].0@.wf(),
                chord_mapping@.map_values(|p: (Chord, Action)| (p.0@.bits, p.1))
                    == spec_chord_table(chord_inputs@, all.subrange(0, i as int)),
        {
            let (chord_vec, act) = rest.remove(0);
            let key = chord_inputs.subset_from(&chord_vec);
            chord_table_put(&mut chord_mapping, key, act);
            proof {
                assert(all.subrange(0, i as int + 1).drop_last() =~= all.subrange(0, i as int));
                assert(all.subrange(0, i as int + 1).last() == all[i as int]);
                assert(rest@ =~= all.subrange(i as int + 1, n as int));
            }
        }
        proof {
            assert(all.subrange(0, n as int) =~= all);
        }

        Self {
            chord_inputs,
            axis_thresholds: all_a_t,
            chord_mapping,
            primed: true,
            state,
            prev_chord,
        }
    }
}

/// Rewrites the first table pair whose chord has the key's bits, or appends
/// one: the table update of one configured chord binding.
fn chord_table_put(table: &mut Vec<(Chord, Action)>, key: Chord, action: Action)
    requires
        key@.wf(),
        forall|j: int|
            0 <= j < old(table)@.len() ==> (#[trigger] old(table)@[j]).0@.parent == key@.parent
                && old(table)@[j].0@.wf(),
    ensures
        forall|j: int|
            0 <= j < final(table)@.len() ==> (#[trigger] final(table)@[j]).0@.parent == key@.parent
                && final(table)@[j].0@.wf(),
        final(table)@.map_values(|p: (Chord, Action)| (p.0@.bits, p.1)) == assoc_put(
            old(table)@.map_values(|p: (Chord, Action)| (p.0@.bits, p.1)),
            key@.bits,
            action,
        ),
{
    let ghost tv = table@.map_values(|p: (Chord, Action)| (p.0@.bits, p.1));
    let n = table.len();
    for i in 0..n
        invariant
            n == table@.len(),
            table@ == old(table)@,
            tv == table@.map_values(|p: (Chord, Action)| (p.0@.bits, p.1)),
            key@.wf(),
            forall|j: int|
                0 <= j < table@.len() ==> (#[trigger] table@[j]).0@.parent == key@.parent
                    && table@[j].0@.wf(),
            forall|j: int| 0 <= j < i ==> (#[trigger] tv[j]).0 != key@.bits,
    {
        proof {
            assert(tv[i as int] == (table@[i as int].0@.bits, table@[i as int].1));
        }
        if table[i].0.equals(&key) {
            proof {
                lemma_assoc_find_at(tv, key@.bits, i as int);
            }
            table.set(i, (key, action));
            proof {
                assert(final(table)@.map_values(|p: (Chord, Action)| (p.0@.bits, p.1))
                    =~= assoc_put(tv, key@.bits, action));
            }
            return;
        }
    }
    proof {
        lemma_assoc_find_none(tv, key@.bits);
    }
    table.push((key, action));
    proof {
        assert(final(table)@.map_values(|p: (Chord, Action)| (p.0@.bits, p.1)) =~= assoc_put(
            tv,
            key@.bits,
            action,
        ));
    }
}

} // verus!
