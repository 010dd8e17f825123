//! Association sequences and their abstractions.
//!
//! The narrative state keeps small key-value collections (story flags,
//! inventory stacks) and membership ledgers (visited locations, completed
//! outcomes) as vectors of entries. Contracts speak of them through two
//! abstractions: a `Map` folded from the entries with later entries winning,
//! and a `Set` of the elements. The lemmas here connect in-place updates,
//! appends and scans on the sequences to `insert` and `contains` on the
//! abstractions.

use vstd::prelude::*;

verus! {

/// The map an association sequence denotes: entries folded left to right,
/// a later entry with the same key overwriting an earlier one.
pub open spec fn assoc_map<K, V>(s: Seq<(K, V)>) -> Map<K, V>
    decreases s.len(),
{
    if s.len() == 0 {
        Map::empty()
    } else {
        assoc_map(s.drop_last()).insert(s.last().0, s.last().1)
    }
}

/// The set of elements a sequence denotes.
pub open spec fn elem_set<T>(s: Seq<T>) -> Set<T>
    decreases s.len(),
{
    if s.len() == 0 {
        Set::empty()
    } else {
        elem_set(s.drop_last()).insert(s.last())
    }
}

/// A key nowhere in the sequence is not in the map.
pub proof fn lemma_assoc_map_absent<K, V>(s: Seq<(K, V)>, k: K)
    requires
        forall|j: int| 0 <= j < s.len() ==> (#[trigger] s[j]).0 != k,
    ensures
        !assoc_map(s).contains_key(k),
    decreases s.len(),
{
    if s.len() > 0 {
        lemma_assoc_map_absent(s.drop_last(), k);
    }
}

/// If position `i` holds the last entry with key `k`, the map sends `k` to
/// that entry's value.
pub proof fn lemma_assoc_map_lookup<K, V>(s: Seq<(K, V)>, k: K, i: int)
    requires
        0 <= i < s.len(),
        s[i].0 == k,
        forall|j: int| i < j < s.len() ==> (#[trigger] s[j]).0 != k,
    ensures
        assoc_map(s).contains_key(k),
        assoc_map(s)[k] == s[i].1,
    decreases s.len(),
{
    if i == s.len() - 1 {
    } else {
        lemma_assoc_map_lookup(s.drop_last(), k, i);
    }
}

/// Overwriting the last entry with key `k` in place is `insert` on the map.
pub proof fn lemma_assoc_map_update<K, V>(s: Seq<(K, V)>, k: K, i: int, v: V)
    requires
        0 <= i < s.len(),
        s[i].0 == k,
        forall|j: int| i < j < s.len() ==> (#[trigger] s[j]).0 != k,
    ensures
        assoc_map(s.update(i, (k, v))) == assoc_map(s).insert(k, v),
    decreases s.len(),
{
    let t = s.update(i, (k, v));
    if i == s.len() - 1 {
        assert(t.drop_last() =~= s.drop_last());
        assert(assoc_map(t) =~= assoc_map(s).insert(k, v));
    } else {
        lemma_assoc_map_update(s.drop_last(), k, i, v);
        assert(t.drop_last() =~= s.drop_last().update(i, (k, v)));
        assert(assoc_map(t) =~= assoc_map(s).insert(k, v));
    }
}

/// An element is in the set exactly when it appears somewhere.
pub proof fn lemma_elem_set_contains<T>(s: Seq<T>, x: T)
    ensures
        elem_set(s).contains(x) <==> exists|j: int| 0 <= j < s.len() && s[j] == x,
    decreases s.len(),
{
    if s.len() > 0 {
        lemma_elem_set_contains(s.drop_last(), x);
        if elem_set(s).contains(x) {
            if x == s.last() {
                assert(s[s.len() - 1] == x);
            }
        }
        if exists|j: int| 0 <= j < s.len() && s[j] == x {
            let j = choose|j: int| 0 <= j < s.len() && s[j] == x;
            if j < s.len() - 1 {
                assert(s.drop_last()[j] == x);
            }
        }
    }
}

/// Appending an element already in the set leaves the set as it is;
/// appending a new one inserts it. Both directions are one `insert`.
pub proof fn lemma_elem_set_push<T>(s: Seq<T>, x: T)
    ensures
        elem_set(s.push(x)) == elem_set(s).insert(x),
{
    assert(s.push(x).drop_last() =~= s);
}

/// Appending an entry is `insert` on the map.
pub proof fn lemma_assoc_map_push<K, V>(s: Seq<(K, V)>, k: K, v: V)
    ensures
        assoc_map(s.push((k, v))) == assoc_map(s).insert(k, v),
{
    assert(s.push((k, v)).drop_last() =~= s);
}

} // verus!
