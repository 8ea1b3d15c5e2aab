//! An immutable dense index over a set of distinct items, and mutable
//! bit-vector subsets of it.
//!
//! An [`AttributeSet`] assigns each distinct item of a source collection one
//! dense index. An [`AttributeSubset`] pairs a bit vector of that length
//! with its universe, so that membership, equality, clearing and copying are
//! cheap. Subset equality requires the same universe instance — told apart
//! by the numeric id given at construction — and identical bits.

use crate::assoc::{
    clone_vec_copy, lemma_seq_find, lemma_seq_find_nodup, seq_find, seq_has, vec_equal, vec_find,
    EqKey,
};
use crate::bitbuf::{bits_of, BitBuf};
use vstd::prelude::*;

verus! {

/// The recoverable failures of subset operations.
#[derive(Copy, Clone, Debug, PartialEq, Eq, Structural, Hash)]
pub enum SubsetError {
    /// The item is not a member of the subset's universe.
    NotMember,
    /// The other subset is bound to a different universe instance.
    MismatchedUniverse,
}

/// The source collection with every repeated item dropped, first
/// occurrences in order.
pub open spec fn spec_dedup<T>(s: Seq<T>) -> Seq<T>
    decreases s.len(),
{
    if s.len() == 0 {
        Seq::empty()
    } else {
        let prev = spec_dedup(s.drop_last());
        if prev.contains(s.last()) {
            prev
        } else {
            prev.push(s.last())
        }
    }
}

/// Deduplication assigns each distinct item of the source exactly one
/// position: the result has no repeated items, holds exactly the items of
/// the source, and is no longer than the source.
pub proof fn lemma_dedup_distinct<T>(s: Seq<T>)
    ensures
        forall|p: int, q: int|
            0 <= p < q < spec_dedup(s).len() ==> spec_dedup(s)[p] != spec_dedup(s)[q],
        forall|x: T| #[trigger] spec_dedup(s).contains(x) <==> s.contains(x),
        spec_dedup(s).len() <= s.len(),
    decreases s.len(),
{
    if s.len() > 0 {
        lemma_dedup_distinct(s.drop_last());
        let prev = spec_dedup(s.drop_last());
        assert forall|x: T| #[trigger] spec_dedup(s).contains(x) implies s.contains(x) by {
            if prev.contains(x) {
                assert(s.drop_last().contains(x));
                let w = choose|w: int| 0 <= w < s.drop_last().len() && s.drop_last()[w] == x;
                assert(s[w] == x);
            } else {
                assert(s[s.len() - 1] == x);
            }
        }
        assert forall|x: T| s.contains(x) implies #[trigger] spec_dedup(s).contains(x) by {
            let w = choose|w: int| 0 <= w < s.len() && s[w] == x;
            if w < s.len() - 1 {
                assert(s.drop_last()[w] == x);
                assert(prev.contains(x));
                if !prev.contains(s.last()) {
                    let v = choose|v: int| 0 <= v < prev.len() && prev[v] == x;
                    assert(spec_dedup(s)[v] == x);
                }
            } else {
                if prev.contains(s.last()) {
                    assert(prev.contains(x));
                } else {
                    assert(spec_dedup(s)[prev.len() as int] == x);
                }
            }
        }
        if !prev.contains(s.last()) {
            assert forall|p: int, q: int|
                0 <= p < q < spec_dedup(s).len() implies spec_dedup(s)[p] != spec_dedup(s)[q] by {
                if q == spec_dedup(s).len() - 1 {
                    assert(prev[p] == spec_dedup(s)[p]);
                    assert(prev.contains(prev[p]));
                }
            }
        }
    }
}

/// The mathematical value of an [`AttributeSet`]: its instance id and its
/// indexed items.
pub struct AttributeSetView<T> {
    pub id: u64,
    pub items: Seq<T>,
}

impl<T> AttributeSetView<T> {
    /// Validity: no item appears at two indices.
    pub open spec fn wf(self) -> bool {
        forall|p: int, q: int| 0 <= p < q < self.items.len() ==> self.items[p] != self.items[q]
    }
}

/// An immutable set of tracked items: each distinct item of the source
/// collection gets one dense index in `[0, n)`.
///
/// The `id` given at construction stands for the instance's identity:
/// subsets compare equal only when built from universes with one id, so a
/// caller gives every constructed universe a fresh id.
#[derive(Debug)]
pub struct AttributeSet<T: EqKey> {
    id: u64,
    items: Vec<T>,
}

impl<T: EqKey> View for AttributeSet<T> {
    type V = AttributeSetView<T>;

    closed spec fn view(&self) -> AttributeSetView<T> {
        AttributeSetView { id: self.id, items: self.items@ }
    }
}

impl<T: EqKey> Clone for AttributeSet<T> {
    /// A copy bound to the same instance id.
    fn clone(&self) -> (r: Self)
        ensures
            r@ == self@,
    {
        AttributeSet { id: self.id, items: clone_vec_copy(&self.items) }
    }
}

impl<T: EqKey> AttributeSet<T> {
    /// Creates a new AttributeSet under the instance id `id`, with a
    /// capacity hint for allocation. Repeated items collapse onto one index.
    pub fn from_capacity(set: Vec<T>, capacity: usize, id: u64) -> (r: Self)
        ensures
            r@.id == id,
            r@.items == spec_dedup(set@),
            r@.wf(),
    {
        let mut items: Vec<T> = Vec::with_capacity(capacity);
        let n = set.len();
        for i in 0..n
            invariant
                n == set@.len(),
                items@ == spec_dedup(set@.subrange(0, i as int)),
        {
            let x = set[i];
            let absent = vec_find(&items, &x).is_none();
            proof {
                lemma_seq_find(items@, x);
                assert(set@.subrange(0, i as int + 1).drop_last() =~= set@.subrange(0, i as int));
                assert(set@.subrange(0, i as int + 1).last() == set@[i as int]);
            }
            if absent {
                items.push(x);
            }
        }
        proof {
            assert(set@.subrange(0, n as int) =~= set@);
            lemma_dedup_distinct(set@);
        }
        Self { id, items }
    }

    /// Creates a new AttributeSet from a source collection, under the
    /// instance id `id`.
    pub fn from(set: Vec<T>, id: u64) -> (r: Self)
        ensures
            r@.id == id,
            r@.items == spec_dedup(set@),
            r@.wf(),
    {
        Self::from_capacity(set, 0, id)
    }

    /// The number of distinct items the set indexes.
    pub fn len(&self) -> (r: usize)
        ensures
            r == self@.items.len(),
    {
        self.items.len()
    }

    /// Whether the set contains an item.
    pub fn contains(&self, value: &T) -> (r: bool)
        ensures
            r == self@.items.contains(*value),
    {
        vec_find(&self.items, value).is_some()
    }

    /// The dense index assigned to an item, if it is a member.
    pub fn index_of(&self, value: &T) -> (r: Option<usize>)
        ensures
            match r {
                Some(i) => i == seq_find(self@.items, *value) && i < self@.items.len()
                    && self@.items[i as int] == *value,
                None => !self@.items.contains(*value),
            },
    {
        vec_find(&self.items, value)
    }

    /// The indexed items, in index order.
    pub fn iter(&self) -> (r: &Vec<T>)
        ensures
            r@ == self@.items,
    {
        &self.items
    }

    /// An empty subset bound to this set.
    pub fn empty_subset(&self) -> (r: AttributeSubset<T>)
        ensures
            r@.parent == self@,
            r@.bits == Seq::new(self@.items.len(), |i: int| false),
    {
        AttributeSubset { parent: self.clone(), bits: BitBuf::new_false(self.items.len()) }
    }

    /// A subset prefilled with the given items; items that are not members
    /// of this set are silently dropped. Consumes the source collection.
    pub fn subset_with(&self, items: Vec<T>) -> (r: AttributeSubset<T>)
        requires
            self@.wf(),
        ensures
            r@.parent == self@,
            r@.bits == Seq::new(self@.items.len(), |i: int| items@.contains(self@.items[i])),
    {
        self.subset_from(&items)
    }

    /// A subset prefilled with the given items; items that are not members
    /// of this set are silently dropped. Borrows the source collection.
    pub fn subset_from(&self, items: &Vec<T>) -> (r: AttributeSubset<T>)
        requires
            self@.wf(),
        ensures
            r@.parent == self@,
            r@.bits == Seq::new(self@.items.len(), |i: int| items@.contains(self@.items[i])),
    {
        let mut subset = self.empty_subset();
        let n = items.len();
        proof {
            assert(subset@.bits =~= Seq::new(
                self@.items.len(),
                |i: int| items@.subrange(0, 0).contains(self@.items[i]),
            ));
        }
        for k in 0..n
            invariant
                n == items@.len(),
                self@.wf(),
                subset@.parent == self@,
                subset@.bits == Seq::new(
                    self@.items.len(),
                    |i: int| items@.subrange(0, k as int).contains(self@.items[i]),
                ),
        {
            let x = items[k];
            let ghost old_bits = subset@.bits;
            let _ = subset.try_insert(&x);
            proof {
                lemma_seq_find(self@.items, x);
                assert forall|i: int| 0 <= i < self@.items.len() implies subset@.bits[i]
                    == items@.subrange(0, k as int + 1).contains(self@.items[i]) by {
                    lemma_seq_find_nodup(self@.items, i);
                    if self@.items[i] == x {
                        assert(items@.subrange(0, k as int + 1)[k as int] == x);
                    } else {
                        if items@.subrange(0, k as int + 1).contains(self@.items[i]) {
                            let w = choose|w: int|
                                0 <= w < k + 1 && (#[trigger] items@.subrange(0, k as int + 1)[w])
                                    == self@.items[i];
                            assert(items@.subrange(0, k as int)[w] == self@.items[i]);
                        } else if items@.subrange(0, k as int).contains(self@.items[i]) {
                            let w = choose|w: int|
                                0 <= w < k && (#[trigger] items@.subrange(0, k as int)[w])
                                    == self@.items[i];
                            assert(items@.subrange(0, k as int + 1)[w] == self@.items[i]);
                        }
                    }
                }
                assert(subset@.bits =~= Seq::new(
                    self@.items.len(),
                    |i: int| items@.subrange(0, k as int + 1).contains(self@.items[i]),
                ));
            }
        }
        proof {
            assert(items@.subrange(0, n as int) =~= items@);
        }
        subset
    }
}

/// The mathematical value of an [`AttributeSubset`]: its universe and its
/// bits, one per universe index.
pub struct AttributeSubsetView<T> {
    pub parent: AttributeSetView<T>,
    pub bits: Seq<bool>,
}

impl<T> AttributeSubsetView<T> {
    /// Validity: a valid universe, and one bit per universe item.
    pub open spec fn wf(self) -> bool {
        self.parent.wf() && self.bits.len() == self.parent.items.len()
    }

    /// Whether the subset holds the item: the item is a member of the
    /// universe and its bit is set.
    pub open spec fn has(self, x: T) -> bool {
        seq_has(self.parent.items, x) && self.bits[seq_find(self.parent.items, x)]
    }
}

/// Subset equality: the same universe instance — the same id over the same
/// items — and identical bits.
pub open spec fn spec_subset_eq<T>(a: AttributeSubsetView<T>, b: AttributeSubsetView<T>) -> bool {
    a.parent.id == b.parent.id && a.parent.items == b.parent.items && a.bits == b.bits
}

/// A compressed, mutable subset of a specific [`AttributeSet`].
pub struct AttributeSubset<T: EqKey> {
    parent: AttributeSet<T>,
    bits: BitBuf,
}

impl<T: EqKey> View for AttributeSubset<T> {
    type V = AttributeSubsetView<T>;

    closed spec fn view(&self) -> AttributeSubsetView<T> {
        AttributeSubsetView { parent: self.parent@, bits: bits_of(self.bits) }
    }
}

impl<T: EqKey> AttributeSubset<T> {
    /// Adds an item of the universe to the subset.
    ///
    /// Succeeds if and only if the item is a member of the universe; a
    /// non-member is reported, never a panic.
    pub fn try_insert(&mut self, item: &T) -> (r: Result<(), SubsetError>)
        requires
            old(self)@.wf(),
        ensures
            final(self)@.wf(),
            final(self)@.parent == old(self)@.parent,
            old(self)@.parent.items.contains(*item) ==> r == Ok::<(), SubsetError>(())
                && final(self)@.bits == old(self)@.bits.update(
                seq_find(old(self)@.parent.items, *item),
                true,
            ),
            !old(self)@.parent.items.contains(*item) ==> r == Err::<(), SubsetError>(
                SubsetError::NotMember,
            ) && final(self)@.bits == old(self)@.bits,
    {
        match vec_find(&self.parent.items, item) {
            Some(i) => {
                self.bits.set(i, true);
                Ok(())
            },
            None => Err(SubsetError::NotMember),
        }
    }

    /// Removes an item from the subset; a non-member is a no-op.
    pub fn remove(&mut self, item: &T)
        requires
            old(self)@.wf(),
        ensures
            final(self)@.wf(),
            final(self)@.parent == old(self)@.parent,
            old(self)@.parent.items.contains(*item) ==> final(self)@.bits == old(
                self,
            )@.bits.update(seq_find(old(self)@.parent.items, *item), false),
            !old(self)@.parent.items.contains(*item) ==> final(self)@.bits == old(self)@.bits,
    {
        if let Some(i) = vec_find(&self.parent.items, item) {
            self.bits.set(i, false);
        }
    }

    /// Whether the subset holds the item.
    pub fn contains(&self, item: &T) -> (r: bool)
        requires
            self@.wf(),
        ensures
            r == self@.has(*item),
    {
        match vec_find(&self.parent.items, item) {
            Some(i) => self.bits.get(i),
            None => false,
        }
    }

    /// Clears the subset: every bit goes false.
    pub fn clear(&mut self)
        ensures
            final(self)@.parent == old(self)@.parent,
            final(self)@.bits == Seq::new(old(self)@.bits.len(), |i: int| false),
    {
        self.bits.fill_false();
    }

    /// The items the subset holds, in universe index order.
    pub fn items(&self) -> (r: Vec<T>)
        requires
            self@.wf(),
        ensures
            r@ == spec_picked(self@.parent.items, self@.bits),
    {
        let mut r: Vec<T> = Vec::new();
        let n = self.parent.items.len();
        proof {
            assert(r@ =~= spec_picked(
                self@.parent.items.subrange(0, 0),
                self@.bits.subrange(0, 0),
            ));
        }
        for i in 0..n
            invariant
                self@.wf(),
                n == self@.parent.items.len(),
                r@ == spec_picked(
                    self@.parent.items.subrange(0, i as int),
                    self@.bits.subrange(0, i as int),
                ),
        {
            if self.bits.get(i) {
                r.push(self.parent.items[i]);
            }
            proof {
                assert(self@.parent.items.subrange(0, i as int + 1).drop_last()
                    =~= self@.parent.items.subrange(0, i as int));
                assert(self@.bits.subrange(0, i as int + 1).drop_last() =~= self@.bits.subrange(
                    0,
                    i as int,
                ));
            }
        }
        proof {
            assert(self@.parent.items.subrange(0, n as int) =~= self@.parent.items);
            assert(self@.bits.subrange(0, n as int) =~= self@.bits);
        }
        r
    }

    /// Copies the bits of another subset of the same universe instance;
    /// fails, changing nothing, if and only if the universes differ.
    pub fn copy_from(&mut self, other: &AttributeSubset<T>) -> (r: Result<(), SubsetError>)
        requires
            old(self)@.wf(),
            other@.wf(),
        ensures
            final(self)@.wf(),
            final(self)@.parent == old(self)@.parent,
            (old(self)@.parent.id == other@.parent.id && old(self)@.parent.items
                == other@.parent.items) ==> r == Ok::<(), SubsetError>(()) && final(self)@.bits
                == other@.bits,
            !(old(self)@.parent.id == other@.parent.id && old(self)@.parent.items
                == other@.parent.items) ==> r == Err::<(), SubsetError>(
                SubsetError::MismatchedUniverse,
            ) && final(self)@.bits == old(self)@.bits,
    {
        if self.parent.id == other.parent.id && vec_equal(&self.parent.items, &other.parent.items) {
            self.bits.copy_from(&other.bits);
            Ok(())
        } else {
            Err(SubsetError::MismatchedUniverse)
        }
    }

    /// Whether two subsets are equal: bound to the same universe instance,
    /// with identical bits.
    pub fn equals(&self, other: &AttributeSubset<T>) -> (r: bool)
        ensures
            r == spec_subset_eq(self@, other@),
    {
        self.parent.id == other.parent.id && vec_equal(&self.parent.items, &other.parent.items)
            && self.bits.equals(&other.bits)
    }
}

/// The items of `items` whose bit in `bits` is set, in order.
pub open spec fn spec_picked<T>(items: Seq<T>, bits: Seq<bool>) -> Seq<T>
    decreases items.len(),
{
    if items.len() == 0 || bits.len() != items.len() {
        Seq::empty()
    } else {
        let prev = spec_picked(items.drop_last(), bits.drop_last());
        if bits.last() {
            prev.push(items.last())
        } else {
            prev
        }
    }
}

/// Two subsets of one universe instance that hold the same items are equal,
/// whatever order the items went in.
pub proof fn lemma_subset_eq_of_same_items<T>(a: AttributeSubsetView<T>, b: AttributeSubsetView<T>)
    requires
        a.wf(),
        b.wf(),
        a.parent == b.parent,
        forall|x: T| #[trigger] a.has(x) == b.has(x),
    ensures
        spec_subset_eq(a, b),
{
    assert forall|i: int| 0 <= i < a.bits.len() implies a.bits[i] == b.bits[i] by {
        let x = a.parent.items[i];
        lemma_seq_find_nodup(a.parent.items, i);
        assert(a.has(x) == a.bits[i]);
        assert(b.has(x) == b.bits[i]);
    }
    assert(a.bits =~= b.bits);
}

/// Subsets of universes with different instance ids are never equal, even
/// over value-identical items.
pub proof fn lemma_subset_neq_of_different_universe<T>(
    a: AttributeSubsetView<T>,
    b: AttributeSubsetView<T>,
)
    requires
        a.parent.id != b.parent.id,
    ensures
        !spec_subset_eq(a, b),
{
}

} // verus!
