//! Threshold model: reducing a continuous absolute-axis sample to a digital
//! "crossed boundary in direction D" identity, with dead-zone merging.

use crate::assoc::{assoc_get, assoc_has, assoc_put, clone_vec_copy, get_entry, put_entry, EqKey};
use crate::constants::{AbsAxisCode, AxisState};
use crate::events::AbsAxisEvent;
use vstd::prelude::*;

verus! {

/// The two possible threshold boundary directions for a thresholded axis.
#[derive(Copy, Clone, Debug, PartialEq, Eq, Structural, Hash)]
pub enum ThresholdType {
    Greater,
    Lesser,
}

impl ThresholdType {
    pub open spec fn spec_opposite(self) -> Self {
        match self {
            Self::Greater => Self::Lesser,
            Self::Lesser => Self::Greater,
        }
    }

    /// Returns the opposite threshold direction to this one.
    pub fn opposite(&self) -> (r: Self)
        ensures
            r == self.spec_opposite(),
    {
        match self {
            Self::Greater => Self::Lesser,
            Self::Lesser => Self::Greater,
        }
    }
}

/// An axis identity that treats absolute-axis input as digital input: the
/// axis, together with the direction in which a boundary was crossed.
#[derive(Copy, Clone, Debug, PartialEq, Eq, Structural, Hash)]
pub struct ThresholdedAxis {
    pub axis: AbsAxisCode,
    pub threshold: ThresholdType,
}

impl ThresholdedAxis {
    /// Returns a new ThresholdedAxis.
    pub fn new(axis: AbsAxisCode, threshold: ThresholdType) -> (r: Self)
        ensures
            r == (ThresholdedAxis { axis, threshold }),
    {
        Self { axis, threshold }
    }

    /// Both threshold identities that could apply to the event's axis,
    /// independent of any configuration.
    pub fn all_possible(ev: &AbsAxisEvent) -> (r: (Self, Self))
        ensures
            r.0 == (ThresholdedAxis { axis: ev.axis, threshold: ThresholdType::Greater }),
            r.1 == (ThresholdedAxis { axis: ev.axis, threshold: ThresholdType::Lesser }),
    {
        (
            Self { axis: ev.axis(), threshold: ThresholdType::Greater },
            Self { axis: ev.axis(), threshold: ThresholdType::Lesser },
        )
    }

    pub open spec fn spec_opposite(self) -> Self {
        ThresholdedAxis { axis: self.axis, threshold: self.threshold.spec_opposite() }
    }

    /// The identity for the same axis with the opposite direction.
    pub fn opposite(&self) -> (r: Self)
        ensures
            r == self.spec_opposite(),
    {
        Self { axis: self.axis, threshold: self.threshold.opposite() }
    }

    /// The threshold direction.
    pub fn threshold(&self) -> (r: ThresholdType)
        ensures
            r == self.threshold,
    {
        self.threshold
    }

    /// The axis code.
    pub fn code(&self) -> (r: AbsAxisCode)
        ensures
            r == self.axis,
    {
        self.axis
    }
}

impl EqKey for ThresholdedAxis {
    fn eq_key(&self, other: &Self) -> (r: bool)
        ensures
            r == (*self == *other),
    {
        *self == *other
    }
}

/// A boundary for an absolute axis in one direction.
#[derive(Copy, Clone, Debug, PartialEq, Eq, Structural, Hash)]
pub struct AxisThreshold {
    /// The direction in which the axis passes the boundary.
    pub dir: ThresholdType,
    /// The value of the axis at the boundary.
    pub threshold: AxisState,
}

impl AxisThreshold {
    /// Whether the sample `v` passes this boundary: a `Greater` boundary
    /// passes at `v >= threshold`, a `Lesser` boundary at `v <= threshold`.
    pub open spec fn spec_passes(self, v: AxisState) -> bool {
        match self.dir {
            ThresholdType::Greater => v >= self.threshold,
            ThresholdType::Lesser => v <= self.threshold,
        }
    }

    /// Of two boundaries in the same direction, the value of the looser one:
    /// the boundary nearer zero, which a moving axis crosses first.
    pub open spec fn spec_loose_merged(dir: ThresholdType, a: AxisState, b: AxisState) -> AxisState {
        match dir {
            ThresholdType::Greater => if a >= b {
                b
            } else {
                a
            },
            ThresholdType::Lesser => if a <= b {
                b
            } else {
                a
            },
        }
    }

    /// Checks whether an absolute-axis event's value passes this boundary.
    pub fn is_passing(&self, axis_event: &AbsAxisEvent) -> (r: bool)
        ensures
            r == self.spec_passes(axis_event.state),
    {
        let state = axis_event.state();
        (self.dir == ThresholdType::Greater && state >= self.threshold) || (self.dir
            == ThresholdType::Lesser && state <= self.threshold)
    }

    /// Merges `other` into this boundary when the directions agree, keeping
    /// the looser of the two values; returns false and leaves this boundary
    /// unchanged when the directions differ.
    pub fn loose_match(&mut self, other: &AxisThreshold) -> (r: bool)
        ensures
            r == (old(self).dir == other.dir),
            r ==> *final(self) == (AxisThreshold {
                dir: old(self).dir,
                threshold: AxisThreshold::spec_loose_merged(
                    old(self).dir,
                    old(self).threshold,
                    other.threshold,
                ),
            }),
            !r ==> *final(self) == *old(self),
    {
        if self.dir == other.dir {
            match self.dir {
                ThresholdType::Greater => {
                    self.threshold = if self.threshold >= other.threshold {
                        other.threshold
                    } else {
                        self.threshold
                    };
                },
                ThresholdType::Lesser => {
                    self.threshold = if self.threshold <= other.threshold {
                        other.threshold
                    } else {
                        self.threshold
                    };
                },
            }
            return true;
        }
        false
    }
}

/// The configured boundaries of one axis: at most one per direction.
#[derive(Copy, Clone, Debug, PartialEq, Eq, Structural, Hash)]
pub struct AxisThresholds {
    pub first: AxisThreshold,
    pub second: Option<AxisThreshold>,
}

impl AxisThresholds {
    pub open spec fn spec_new(threshold: AxisThreshold) -> Self {
        AxisThresholds { first: threshold, second: None }
    }

    /// A single-boundary entry.
    pub fn new(threshold: AxisThreshold) -> (r: Self)
        ensures
            r == AxisThresholds::spec_new(threshold),
    {
        Self { first: threshold, second: None }
    }

    /// The threshold identity the sample `v` passes, if any, together with
    /// the boundary that was crossed. The first boundary wins when both pass.
    pub open spec fn spec_passing(self, axis: AbsAxisCode, v: AxisState) -> Option<
        (ThresholdedAxis, AxisState),
    > {
        if self.first.spec_passes(v) {
            Some((ThresholdedAxis { axis, threshold: self.first.dir }, self.first.threshold))
        } else if self.second is Some && self.second->0.spec_passes(v) {
            Some(
                (
                    ThresholdedAxis { axis, threshold: self.second->0.dir },
                    self.second->0.threshold,
                ),
            )
        } else {
            None
        }
    }

    /// The result of merging one more boundary into this entry: a boundary
    /// in an already-present direction keeps the looser value, a boundary in
    /// a new direction fills the second slot.
    pub open spec fn spec_loose_add(self, t: AxisThreshold) -> Self {
        if self.first.dir == t.dir {
            AxisThresholds {
                first: AxisThreshold {
                    dir: self.first.dir,
                    threshold: AxisThreshold::spec_loose_merged(
                        self.first.dir,
                        self.first.threshold,
                        t.threshold,
                    ),
                },
                second: self.second,
            }
        } else {
            match self.second {
                None => AxisThresholds { first: self.first, second: Some(t) },
                Some(second) => {
                    if second.dir == t.dir {
                        AxisThresholds {
                            first: self.first,
                            second: Some(
                                AxisThreshold {
                                    dir: second.dir,
                                    threshold: AxisThreshold::spec_loose_merged(
                                        second.dir,
                                        second.threshold,
                                        t.threshold,
                                    ),
                                },
                            ),
                        }
                    } else {
                        self
                    }
                },
            }
        }
    }

    /// The passing threshold identity for the event, if any.
    pub fn get_passing(&self, axis_event: &AbsAxisEvent) -> (r: Option<ThresholdedAxis>)
        ensures
            r == match self.spec_passing(axis_event.axis, axis_event.state) {
                Some(p) => Some(p.0),
                None => None::<ThresholdedAxis>,
            },
    {
        match self.get_passing_with_state(axis_event) {
            Some((t, _)) => Some(t),
            None => None,
        }
    }

    /// The passing threshold identity for the event, if any, together with
    /// the boundary value that was crossed.
    pub fn get_passing_with_state(&self, axis_event: &AbsAxisEvent) -> (r: Option<
        (ThresholdedAxis, AxisState),
    >)
        ensures
            r == self.spec_passing(axis_event.axis, axis_event.state),
    {
        if self.first.is_passing(axis_event) {
            return Some(
                (
                    ThresholdedAxis { axis: axis_event.axis(), threshold: self.first.dir },
                    self.first.threshold,
                ),
            );
        }
        if let Some(second) = self.second {
            if second.is_passing(axis_event) {
                return Some(
                    (
                        ThresholdedAxis { axis: axis_event.axis(), threshold: second.dir },
                        second.threshold,
                    ),
                );
            }
        }
        None
    }

    /// Merges a boundary into this entry, keeping the looser value of two
    /// boundaries in one direction.
    pub fn loose_add(&mut self, threshold: AxisThreshold)
        ensures
            *final(self) == old(self).spec_loose_add(threshold),
    {
        if !self.first.loose_match(&threshold) {
            if let Some(second) = self.second.as_mut() {
                second.loose_match(&threshold);
            } else {
                self.second = Some(threshold);
            }
        }
    }
}

/// What a boundary table answers for a sample on an axis: the entry of that
/// axis decides; an axis without an entry reports nothing.
pub open spec fn spec_table_passing(
    table: Seq<(AbsAxisCode, AxisThresholds)>,
    axis: AbsAxisCode,
    v: AxisState,
) -> Option<(ThresholdedAxis, AxisState)> {
    match assoc_get(table, axis) {
        Some(ths) => ths.spec_passing(axis, v),
        None => None,
    }
}

/// All configured axis boundaries, keyed by axis code.
#[derive(Debug)]
pub struct AllAxisThresholds {
    entries: Vec<(AbsAxisCode, AxisThresholds)>,
}

impl View for AllAxisThresholds {
    type V = Seq<(AbsAxisCode, AxisThresholds)>;

    closed spec fn view(&self) -> Seq<(AbsAxisCode, AxisThresholds)> {
        self.entries@
    }
}

impl Clone for AllAxisThresholds {
    /// A copy with the same entries.
    fn clone(&self) -> (r: Self)
        ensures
            r@ == self@,
    {
        AllAxisThresholds { entries: clone_vec_copy(&self.entries) }
    }
}

impl AllAxisThresholds {
    /// The table built from a configuration's boundary list, entry by entry:
    /// the first boundary of an axis makes its entry, later boundaries merge
    /// into it under the loosest-boundary rule.
    pub open spec fn spec_init(s: Seq<(AbsAxisCode, AxisThreshold)>) -> Seq<
        (AbsAxisCode, AxisThresholds),
    >
        decreases s.len(),
    {
        if s.len() == 0 {
            Seq::empty()
        } else {
            let prev = Self::spec_init(s.drop_last());
            let code = s.last().0;
            let t = s.last().1;
            match assoc_get(prev, code) {
                Some(stored) => assoc_put(prev, code, stored.spec_loose_add(t)),
                None => assoc_put(prev, code, AxisThresholds::spec_new(t)),
            }
        }
    }

    /// What the table answers for an event: the entry of the event's axis
    /// decides; an axis without an entry reports nothing.
    pub open spec fn spec_passing(self, axis: AbsAxisCode, v: AxisState) -> Option<
        (ThresholdedAxis, AxisState),
    > {
        spec_table_passing(self@, axis, v)
    }

    /// Builds the table from a list of per-axis boundaries.
    pub fn init(thresholds: Vec<(AbsAxisCode, AxisThreshold)>) -> (r: Self)
        ensures
            r@ == Self::spec_init(thresholds@),
    {
        let mut entries: Vec<(AbsAxisCode, AxisThresholds)> = Vec::new();
        let n = thresholds.len();
        for i in 0..n
            invariant
                n == thresholds@.len(),
                entries@ == Self::spec_init(thresholds@.subrange(0, i as int)),
        {
            let (code, threshold) = thresholds[i];
            let merged = match get_entry(&entries, &code) {
                Some(stored) => {
                    let mut stored = *stored;
                    stored.loose_add(threshold);
                    stored
                },
                None => AxisThresholds::new(threshold),
            };
            put_entry(&mut entries, code, merged);
            proof {
                assert(thresholds@.subrange(0, i as int + 1).drop_last() =~= thresholds@.subrange(
                    0,
                    i as int,
                ));
                assert(thresholds@.subrange(0, i as int + 1).last() == thresholds@[i as int]);
            }
        }
        proof {
            assert(thresholds@.subrange(0, n as int) =~= thresholds@);
        }
        Self { entries }
    }

    /// The passing threshold identity for the event, if any.
    pub fn get_passing(&self, axis_event: &AbsAxisEvent) -> (r: Option<ThresholdedAxis>)
        ensures
            r == match self.spec_passing(axis_event.axis, axis_event.state) {
                Some(p) => Some(p.0),
                None => None::<ThresholdedAxis>,
            },
    {
        match self.get_passing_with_state(axis_event) {
            Some((t, _)) => Some(t),
            None => None,
        }
    }

    /// The passing threshold identity for the event, if any, together with
    /// the boundary value that was crossed.
    pub fn get_passing_with_state(&self, axis_event: &AbsAxisEvent) -> (r: Option<
        (ThresholdedAxis, AxisState),
    >)
        ensures
            r == self.spec_passing(axis_event.axis, axis_event.state),
    {
        match get_entry(&self.entries, &axis_event.axis()) {
            Some(ths) => ths.get_passing_with_state(axis_event),
            None => None,
        }
    }

    /// Whether the event's axis has a configured boundary.
    pub fn has_threshold(&self, axis_event: &AbsAxisEvent) -> (r: bool)
        ensures
            r == assoc_has(self@, axis_event.axis),
    {
        get_entry(&self.entries, &axis_event.axis()).is_some()
    }

    /// The axis codes that have a configured boundary.
    pub fn codes(&self) -> (r: Vec<AbsAxisCode>)
        ensures
            r@ == self@.map_values(|p: (AbsAxisCode, AxisThresholds)| p.0),
    {
        let mut r: Vec<AbsAxisCode> = Vec::new();
        let n = self.entries.len();
        for i in 0..n
            invariant
                n == self.entries@.len(),
                r@ == self.entries@.subrange(0, i as int).map_values(
                    |p: (AbsAxisCode, AxisThresholds)| p.0,
                ),
        {
            r.push(self.entries[i].0);
            proof {
                assert(r@ =~= self.entries@.subrange(0, i as int + 1).map_values(
                    |p: (AbsAxisCode, AxisThresholds)| p.0,
                ));
            }
        }
        proof {
            assert(self.entries@.subrange(0, n as int) =~= self.entries@);
        }
        r
    }
}

/// The dead-zone merge laws: merging a boundary that is no looser than the
/// stored one (no nearer zero in its direction) leaves the entry unchanged;
/// merging a looser boundary replaces the stored value; a boundary in the
/// opposite direction never touches the stored one.
pub proof fn lemma_loose_add_merge(ths: AxisThresholds, t: AxisThreshold)
    ensures
        ths.first.dir == t.dir && ths.first.dir == ThresholdType::Greater && t.threshold
            >= ths.first.threshold ==> ths.spec_loose_add(t) == ths,
        ths.first.dir == t.dir && ths.first.dir == ThresholdType::Lesser && t.threshold
            <= ths.first.threshold ==> ths.spec_loose_add(t) == ths,
        ths.first.dir == t.dir && ths.first.dir == ThresholdType::Greater && t.threshold
            < ths.first.threshold ==> ths.spec_loose_add(t) == (AxisThresholds {
            first: AxisThreshold { dir: t.dir, threshold: t.threshold },
            second: ths.second,
        }),
        ths.first.dir == t.dir && ths.first.dir == ThresholdType::Lesser && t.threshold
            > ths.first.threshold ==> ths.spec_loose_add(t) == (AxisThresholds {
            first: AxisThreshold { dir: t.dir, threshold: t.threshold },
            second: ths.second,
        }),
        ths.first.dir != t.dir ==> ths.spec_loose_add(t).first == ths.first,
{
}

/// Merging the same boundary twice is the same as merging it once.
pub proof fn lemma_loose_add_idempotent(ths: AxisThresholds, t: AxisThreshold)
    ensures
        ths.spec_loose_add(t).spec_loose_add(t) == ths.spec_loose_add(t),
{
}

} // verus!
