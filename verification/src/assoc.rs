//! Association-list primitives.
//!
//! The engines keep their lookup tables as vectors of key/value pairs with
//! first-match semantics: a lookup returns the first pair whose key matches,
//! and an update rewrites the first matching pair or appends a new one.

use vstd::prelude::*;

verus! {

/// Keys of the association lists: plain copyable values whose executable
/// equality agrees with mathematical equality.
pub trait EqKey: Sized + Copy {
    fn eq_key(&self, other: &Self) -> (r: bool)
        ensures
            r == (*self == *other),
    ;
}

impl EqKey for i32 {
    fn eq_key(&self, other: &Self) -> (r: bool)
        ensures
            r == (*self == *other),
    {
        *self == *other
    }
}

/// Index of the first pair in `s` whose key is `k`, or `s.len()` if none is.
pub open spec fn assoc_find<K, V>(s: Seq<(K, V)>, k: K) -> int
    decreases s.len(),
{
    if s.len() == 0 {
        0
    } else if s[0].0 == k {
        0
    } else {
        1 + assoc_find(s.drop_first(), k)
    }
}

pub open spec fn assoc_has<K, V>(s: Seq<(K, V)>, k: K) -> bool {
    assoc_find(s, k) < s.len()
}

/// The value bound to `k` in `s`, first match first.
pub open spec fn assoc_get<K, V>(s: Seq<(K, V)>, k: K) -> Option<V> {
    if assoc_has(s, k) {
        Some(s[assoc_find(s, k)].1)
    } else {
        None
    }
}

/// `s` with `k` bound to `v`: the first pair with key `k` is rewritten, or a
/// new pair is appended if no key matches.
pub open spec fn assoc_put<K, V>(s: Seq<(K, V)>, k: K, v: V) -> Seq<(K, V)> {
    if assoc_has(s, k) {
        s.update(assoc_find(s, k), (k, v))
    } else {
        s.push((k, v))
    }
}

pub proof fn lemma_assoc_find<K, V>(s: Seq<(K, V)>, k: K)
    ensures
        0 <= assoc_find(s, k) <= s.len(),
        assoc_has(s, k) ==> s[assoc_find(s, k)].0 == k,
        forall|j: int| 0 <= j < assoc_find(s, k) ==> (#[trigger] s[j]).0 != k,
    decreases s.len(),
{
    if s.len() > 0 && s[0].0 != k {
        lemma_assoc_find(s.drop_first(), k);
        assert forall|j: int| 0 <= j < assoc_find(s, k) implies (#[trigger] s[j]).0 != k by {
            if j > 0 {
                assert(s.drop_first()[j - 1] == s[j]);
            }
        }
    }
}

/// If the keys before position `i` all differ from `k` and the key at `i` is
/// `k`, then `i` is where `assoc_find` lands.
pub proof fn lemma_assoc_find_at<K, V>(s: Seq<(K, V)>, k: K, i: int)
    requires
        0 <= i < s.len(),
        s[i].0 == k,
        forall|j: int| 0 <= j < i ==> (#[trigger] s[j]).0 != k,
    ensures
        assoc_find(s, k) == i,
    decreases s.len(),
{
    if i > 0 {
        assert forall|j: int| 0 <= j < i - 1 implies (#[trigger] s.drop_first()[j]).0 != k by {
            assert(s.drop_first()[j] == s[j + 1]);
        }
        assert(s.drop_first()[i - 1] == s[i]);
        lemma_assoc_find_at(s.drop_first(), k, i - 1);
    }
}

/// If no key in `s` is `k`, `assoc_find` lands past the end.
pub proof fn lemma_assoc_find_none<K, V>(s: Seq<(K, V)>, k: K)
    requires
        forall|j: int| 0 <= j < s.len() ==> (#[trigger] s[j]).0 != k,
    ensures
        assoc_find(s, k) == s.len(),
        !assoc_has(s, k),
    decreases s.len(),
{
    if s.len() > 0 {
        assert forall|j: int| 0 <= j < s.drop_first().len() implies (#[trigger] s.drop_first()[j]).0
            != k by {
            assert(s.drop_first()[j] == s[j + 1]);
        }
        lemma_assoc_find_none(s.drop_first(), k);
    }
}

/// First-match lookup.
pub fn get_entry<'a, K: EqKey, V>(entries: &'a Vec<(K, V)>, k: &K) -> (r: Option<&'a V>)
    ensures
        match r {
            Some(v) => assoc_get(entries@, *k) == Some(*v),
            None => assoc_get(entries@, *k) is None,
        },
{
    let n = entries.len();
    for i in 0..n
        invariant
            n == entries@.len(),
            forall|j: int| 0 <= j < i ==> (#[trigger] entries@[j]).0 != *k,
    {
        if entries[i].0.eq_key(k) {
            proof {
                lemma_assoc_find_at(entries@, *k, i as int);
            }
            return Some(&entries[i].1);
        }
    }
    proof {
        lemma_assoc_find_none(entries@, *k);
    }
    None
}

/// Rewrites the first pair whose key is `k`, or appends one.
pub fn put_entry<K: EqKey, V>(entries: &mut Vec<(K, V)>, k: K, v: V)
    ensures
        final(entries)@ == assoc_put(old(entries)@, k, v),
{
    let n = entries.len();
    for i in 0..n
        invariant
            n == entries@.len(),
            entries@ == old(entries)@,
            forall|j: int| 0 <= j < i ==> (#[trigger] entries@[j]).0 != k,
    {
        if entries[i].0.eq_key(&k) {
            proof {
                lemma_assoc_find_at(entries@, k, i as int);
            }
            entries.set(i, (k, v));
            return;
        }
    }
    proof {
        lemma_assoc_find_none(entries@, k);
    }
    entries.push((k, v));
}

/// What lookups see after a `put`: the stored key answers the new value,
/// every other key answers as before.
pub proof fn lemma_assoc_put_get<K, V>(s: Seq<(K, V)>, k: K, v: V)
    ensures
        assoc_get(assoc_put(s, k, v), k) == Some(v),
        forall|k2: K| k2 != k ==> assoc_get(assoc_put(s, k, v), k2) == assoc_get(s, k2),
{
    lemma_assoc_find(s, k);
    let i = assoc_find(s, k);
    if i < s.len() {
        let t = s.update(i, (k, v));
        lemma_assoc_find_at(t, k, i);
        assert forall|k2: K| k2 != k implies assoc_get(t, k2) == assoc_get(s, k2) by {
            lemma_assoc_find(s, k2);
            let j2 = assoc_find(s, k2);
            if j2 < s.len() {
                lemma_assoc_find_at(t, k2, j2);
            } else {
                lemma_assoc_find_none(t, k2);
            }
        }
    } else {
        let t = s.push((k, v));
        lemma_assoc_find_at(t, k, s.len() as int);
        assert forall|k2: K| k2 != k implies assoc_get(t, k2) == assoc_get(s, k2) by {
            lemma_assoc_find(s, k2);
            let j2 = assoc_find(s, k2);
            if j2 < s.len() {
                lemma_assoc_find_at(t, k2, j2);
            } else {
                lemma_assoc_find_none(t, k2);
            }
        }
    }
}

/// A key a list answers stays answered, with the same value, after a pair
/// is appended.
pub proof fn lemma_assoc_has_push<K, V>(s: Seq<(K, V)>, e: (K, V), k: K)
    requires
        assoc_has(s, k),
    ensures
        assoc_has(s.push(e), k),
        assoc_get(s.push(e), k) == assoc_get(s, k),
{
    lemma_assoc_find(s, k);
    lemma_assoc_find_at(s.push(e), k, assoc_find(s, k));
}

/// Index of the first occurrence of `x` in `s`, or `s.len()` if none is.
pub open spec fn seq_find<T>(s: Seq<T>, x: T) -> int
    decreases s.len(),
{
    if s.len() == 0 {
        0
    } else if s[0] == x {
        0
    } else {
        1 + seq_find(s.drop_first(), x)
    }
}

pub open spec fn seq_has<T>(s: Seq<T>, x: T) -> bool {
    seq_find(s, x) < s.len()
}

pub proof fn lemma_seq_find<T>(s: Seq<T>, x: T)
    ensures
        0 <= seq_find(s, x) <= s.len(),
        seq_has(s, x) ==> s[seq_find(s, x)] == x,
        forall|j: int| 0 <= j < seq_find(s, x) ==> s[j] != x,
        seq_has(s, x) <==> s.contains(x),
    decreases s.len(),
{
    if s.len() > 0 && s[0] != x {
        lemma_seq_find(s.drop_first(), x);
        assert forall|j: int| 0 <= j < seq_find(s, x) implies s[j] != x by {
            if j > 0 {
                assert(s.drop_first()[j - 1] == s[j]);
            }
        }
        if s.contains(x) {
            let w = choose|w: int| 0 <= w < s.len() && s[w] == x;
            assert(s.drop_first()[w - 1] == s[w]);
        }
        if seq_has(s, x) {
            assert(s[seq_find(s, x)] == x);
        }
    }
}

/// If the entries before position `i` all differ from `x` and the entry at
/// `i` is `x`, then `i` is where `seq_find` lands.
pub proof fn lemma_seq_find_at<T>(s: Seq<T>, x: T, i: int)
    requires
        0 <= i < s.len(),
        s[i] == x,
        forall|j: int| 0 <= j < i ==> s[j] != x,
    ensures
        seq_find(s, x) == i,
    decreases s.len(),
{
    if i > 0 {
        assert forall|j: int| 0 <= j < i - 1 implies s.drop_first()[j] != x by {
            assert(s.drop_first()[j] == s[j + 1]);
        }
        assert(s.drop_first()[i - 1] == s[i]);
        lemma_seq_find_at(s.drop_first(), x, i - 1);
    }
}

/// In a sequence without duplicates, each entry is found at its own index.
pub proof fn lemma_seq_find_nodup<T>(s: Seq<T>, i: int)
    requires
        0 <= i < s.len(),
        forall|p: int, q: int| 0 <= p < q < s.len() ==> s[p] != s[q],
    ensures
        seq_find(s, s[i]) == i,
{
    lemma_seq_find_at(s, s[i], i);
}

/// First occurrence of `x` in `v`.
pub fn vec_find<T: EqKey>(v: &Vec<T>, x: &T) -> (r: Option<usize>)
    ensures
        match r {
            Some(i) => i == seq_find(v@, *x) && i < v@.len() && v@[i as int] == *x,
            None => !seq_has(v@, *x) && !v@.contains(*x),
        },
{
    let n = v.len();
    for i in 0..n
        invariant
            n == v@.len(),
            forall|j: int| 0 <= j < i ==> v@[j] != *x,
    {
        if v[i].eq_key(x) {
            proof {
                lemma_seq_find_at(v@, *x, i as int);
            }
            return Some(i);
        }
    }
    proof {
        lemma_seq_find(v@, *x);
    }
    None
}

/// Whether the vectors hold the same values in the same order.
pub fn vec_equal<T: EqKey>(a: &Vec<T>, b: &Vec<T>) -> (r: bool)
    ensures
        r == (a@ =~= b@),
{
    if a.len() != b.len() {
        return false;
    }
    let n = a.len();
    for i in 0..n
        invariant
            n == a@.len(),
            a@.len() == b@.len(),
            forall|j: int| 0 <= j < i ==> a@[j] == b@[j],
    {
        if !a[i].eq_key(&b[i]) {
            return false;
        }
    }
    true
}

/// A copy of a vector of copyable values.
pub fn clone_vec_copy<T: Copy>(v: &Vec<T>) -> (r: Vec<T>)
    ensures
        r@ == v@,
{
    let mut r: Vec<T> = Vec::new();
    let n = v.len();
    for i in 0..n
        invariant
            n == v@.len(),
            r@ == v@.subrange(0, i as int),
    {
        r.push(v[i]);
        proof {
            assert(r@ =~= v@.subrange(0, i as int + 1));
        }
    }
    proof {
        assert(r@ =~= v@);
    }
    r
}

} // verus!
