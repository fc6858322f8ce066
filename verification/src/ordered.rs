//! Address-ordered views of the ordered collections.

use std::collections::{BTreeMap, BTreeSet};
use vstd::prelude::*;
use vstd::std_specs::btree::*;
use vstd::std_specs::cmp::OrdSpec;
use vstd::std_specs::iter::IteratorSpec;

verus! {

broadcast use {vstd::std_specs::btree::group_btree_axioms, vstd::laws_cmp::group_laws_cmp};

/// Is the sequence strictly increasing?
pub open spec fn increasing(s: Seq<u64>) -> bool {
    forall|i: int, j: int| 0 <= i < j < s.len() ==> s[i] < s[j]
}

/// The sequence lists exactly the members of the set, in increasing order.
pub open spec fn lists(s: Seq<u64>, members: Set<u64>) -> bool {
    &&& increasing(s)
    &&& s.to_set() == members
    &&& s.len() == members.len()
    &&& s.no_duplicates()
}

/// The members of a finite set in increasing order.
pub open spec fn ascending(members: Set<u64>) -> Seq<u64> {
    choose|s: Seq<u64>| lists(s, members)
}

/// Only one sequence lists the members of a set in increasing order.
pub proof fn lemma_lists_unique(a: Seq<u64>, b: Seq<u64>, members: Set<u64>)
    requires
        lists(a, members),
        lists(b, members),
    ensures
        a == b,
    decreases a.len(),
{
    if a.len() == 0 {
        assert(a =~= b);
    } else {
        let m = a.last();
        assert(a.to_set().contains(a[a.len() - 1]));
        assert(b.to_set().contains(m));
        let k = choose|k: int| 0 <= k < b.len() && b[k] == m;
        assert(b.to_set().contains(b[b.len() - 1]));
        assert(a.to_set().contains(b.last()));
        let j = choose|j: int| 0 <= j < a.len() && a[j] == b.last();
        assert(b.last() == m) by {
            if j < a.len() - 1 {
                assert(a[j] < a[a.len() - 1]);
            }
            if k < b.len() - 1 {
                assert(b[k] < b[b.len() - 1]);
            }
        }
        let rest = members.remove(m);
        lemma_drop_last_lists(a, members);
        lemma_drop_last_lists(b, members);
        lemma_lists_unique(a.drop_last(), b.drop_last(), rest);
        assert(a =~= a.drop_last().push(m));
        assert(b =~= b.drop_last().push(m));
    }
}

/// A sequence that lists the members of a set in increasing order is the
/// one that [`ascending`] names.
pub proof fn lemma_ascending(s: Seq<u64>, members: Set<u64>)
    requires
        lists(s, members),
    ensures
        s == ascending(members),
{
    lemma_lists_unique(s, ascending(members), members);
}

proof fn lemma_drop_last_lists(a: Seq<u64>, members: Set<u64>)
    requires
        lists(a, members),
        a.len() > 0,
    ensures
        lists(a.drop_last(), members.remove(a.last())),
{
    let m = a.last();
    let d = a.drop_last();
    assert forall|y: u64| d.to_set().contains(y) <==> members.remove(m).contains(y) by {
        if d.contains(y) {
            let k = choose|k: int| 0 <= k < d.len() && d[k] == y;
            assert(a[k] == y);
            assert(a[k] < a[a.len() - 1]);
            assert(a.to_set().contains(a[k]));
        }
        if members.remove(m).contains(y) {
            assert(a.to_set().contains(y));
            let k = choose|k: int| 0 <= k < a.len() && a[k] == y;
            assert(k < a.len() - 1);
            assert(d[k] == y);
        }
    }
    assert(d.to_set() =~= members.remove(m));
    assert(a.to_set().contains(a[a.len() - 1]));
    vstd::seq_lib::seq_to_set_is_finite(a);
    assert(members.finite());
    assert forall|i: int, j: int| 0 <= i < j < d.len() implies d[i] < d[j] by {
        assert(d[i] == a[i]);
        assert(d[j] == a[j]);
    }
    assert(d.no_duplicates());
}

/// The members of a sequence with one more element.
pub proof fn lemma_push_to_set(s: Seq<u64>, x: u64)
    ensures
        s.push(x).to_set() == s.to_set().insert(x),
{
    let t = s.push(x);
    assert forall|y: u64| t.to_set().contains(y) <==> s.to_set().insert(x).contains(y) by {
        if t.contains(y) {
            let k = choose|k: int| 0 <= k < t.len() && t[k] == y;
            if k < s.len() {
                assert(s[k] == y);
            }
        }
        if s.contains(y) {
            let k = choose|k: int| 0 <= k < s.len() && s[k] == y;
            assert(t[k] == y);
        }
        if y == x {
            assert(t[t.len() - 1] == x);
        }
    }
    assert(t.to_set() =~= s.to_set().insert(x));
}

proof fn lemma_increasing_refs(refs: Seq<&u64>)
    requires
        increasing_seq(refs),
    ensures
        increasing(refs.unref()),
{
    let all = refs.unref();
    axiom_increasing_seq_meaning::<&u64>(refs);
    assert(all.len() == refs.len());
    assert forall|i: int, j: int| 0 <= i < j < all.len() implies all[i] < all[j] by {
        assert(0 <= i < j < refs.len());
        assert(OrdSpec::cmp_spec(&refs[i], &refs[j]) is Less);
        assert(all[i] == *refs[i]);
        assert(all[j] == *refs[j]);
    }
}

/// The keys of a map in increasing order.
pub fn sorted_keys<V>(m: &BTreeMap<u64, V>) -> (keys: Vec<u64>)
    ensures
        lists(keys@, m@.dom()),
{
    let mut keys: Vec<u64> = Vec::new();
    let ghost refs = m.keys().remaining();
    let ghost all = refs.unref();
    proof {
        lemma_increasing_refs(refs);
    }
    for k in it: m.keys()
        invariant
            it.seq().unref() == all,
            keys@ == all.take(it.index() + 0),
    {
        keys.push(*k);
        assert(all.take(it.index() + 1) =~= all.take(it.index() + 0).push(*k));
    }
    assert(keys@ =~= all);
    keys
}

/// The members of a set in increasing order.
pub fn sorted_members(m: &BTreeSet<u64>) -> (members: Vec<u64>)
    ensures
        lists(members@, m@),
{
    let mut members: Vec<u64> = Vec::new();
    let ghost refs = m.iter().remaining();
    let ghost all = refs.unref();
    proof {
        lemma_increasing_refs(refs);
    }
    for k in it: m.iter()
        invariant
            it.seq().unref() == all,
            members@ == all.take(it.index() + 0),
    {
        members.push(*k);
        assert(all.take(it.index() + 1) =~= all.take(it.index() + 0).push(*k));
    }
    assert(members@ =~= all);
    members
}


/// Adds a member to a set.
pub fn set_insert(set: &mut BTreeSet<u64>, member: u64)
    ensures
        final(set)@ == old(set)@.insert(member),
{
    set.insert(member);
}

/// Is `member` in the set?
pub fn set_contains(set: &BTreeSet<u64>, member: u64) -> (found: bool)
    ensures
        found == set@.contains(member),
{
    set.contains(&member)
}

/// Binds `key` to `value`, replacing an earlier binding.
pub fn map_insert<V>(map: &mut BTreeMap<u64, V>, key: u64, value: V)
    ensures
        final(map)@ == old(map)@.insert(key, value),
{
    map.insert(key, value);
}

/// Is `key` bound in the map?
pub fn map_contains<V>(map: &BTreeMap<u64, V>, key: u64) -> (found: bool)
    ensures
        found == map@.contains_key(key),
{
    map.contains_key(&key)
}

/// The value bound to `key`, if any.
pub fn map_get<V>(map: &BTreeMap<u64, V>, key: u64) -> (found: Option<&V>)
    ensures
        found is Some <==> map@.contains_key(key),
        found is Some ==> *found->Some_0 == map@[key],
{
    map.get(&key)
}

} // verus!
