//! Pruning utilities for hash maps keyed by timestamps.
use std::collections::{HashMap, HashSet};
use vstd::std_specs::iter::IteratorSpec;
use vstd::prelude::*;

verus! {

broadcast use vstd::std_specs::hash::group_hash_axioms;

/// `s` is in ascending order.
pub open spec fn ascending(s: Seq<u64>) -> bool {
    forall|i: int, j: int| 0 <= i <= j < s.len() ==> s[i] <= s[j]
}

/// The entries of `m` whose key is at least `cutoff` (all of `m` when `cutoff` is zero).
pub open spec fn ttl_pruned<V>(m: Map<u64, V>, cutoff: u64) -> Map<u64, V> {
    if cutoff > 0 {
        m.restrict(m.dom().filter(|k: u64| k >= cutoff))
    } else {
        m
    }
}

/// `after` keeps the `cap` entries of `before` with the largest keys (all of `before` when
/// it has no more than `cap` entries), values unchanged.
pub open spec fn keeps_newest<V>(before: Map<u64, V>, after: Map<u64, V>, cap: nat) -> bool {
    if before.dom().len() <= cap {
        after == before
    } else {
        &&& after.dom().subset_of(before.dom())
        &&& forall|k: u64| #[trigger] after.contains_key(k) ==> after[k] == before[k]
        &&& after.dom().len() == cap
        &&& forall|k: u64, j: u64|
            #[trigger] after.contains_key(k) && #[trigger] before.contains_key(j)
                && !after.contains_key(j) ==> j < k
    }
}

/// Sorts keys in ascending order (`<[u64]>::sort_unstable`). Trusted claim: the result is an
/// ascending permutation of the input.
#[verifier::external_body]
pub(crate) fn sort_keys(v: &mut Vec<u64>)
    ensures
        final(v)@.to_multiset() == old(v)@.to_multiset(),
        final(v)@.len() == old(v)@.len(),
        ascending(final(v)@),
{
    v.sort_unstable()
}

/// The keys of a map, each once.
pub fn keys_of<V>(m: &HashMap<u64, V>) -> (v: Vec<u64>)
    ensures
        v@.to_set() == m@.dom(),
        v@.no_duplicates(),
        v@.len() == m@.dom().len(),
{
    let ghost ks = vstd::std_specs::hash::spec_keys_iter(m).remaining();
    assert(ks.unref().to_set() == m@.dom());
    assert(ks.no_duplicates());
    let mut v: Vec<u64> = Vec::new();
    for k in it: m.keys()
        invariant
            it.seq() == ks,
            v@ == ks.take(it.index() as int).unref(),
            ks.unref().to_set() == m@.dom(),
            ks.no_duplicates(),
            ks.len() == m@.dom().len(),
    {
        v.push(*k);
        assert(v@ =~= ks.take(it.index() as int + 1).unref());
    }
    assert(ks.take(ks.len() as int) =~= ks);
    assert(v@ =~= ks.unref());
    assert(v@.no_duplicates());
    v
}

/// The keys of a map, each once.
pub fn map_keys<K: Copy, V>(m: &HashMap<K, V>) -> (v: Vec<K>)
    requires
        vstd::std_specs::hash::obeys_key_model::<K>(),
    ensures
        v@.to_set() == m@.dom(),
        v@.no_duplicates(),
        v@.len() == m@.dom().len(),
{
    let ghost ks = vstd::std_specs::hash::spec_keys_iter(m).remaining();
    assert(ks.unref().to_set() == m@.dom());
    assert(ks.no_duplicates());
    let mut v: Vec<K> = Vec::new();
    for k in it: m.keys()
        invariant
            it.seq() == ks,
            v@ == ks.take(it.index() as int).unref(),
            ks.unref().to_set() == m@.dom(),
            ks.no_duplicates(),
            ks.len() == m@.dom().len(),
    {
        v.push(*k);
        assert(v@ =~= ks.take(it.index() as int + 1).unref());
    }
    assert(ks.take(ks.len() as int) =~= ks);
    assert(v@ =~= ks.unref());
    assert(v@.no_duplicates());
    v
}

/// The elements of a set, each once.
pub fn set_elems<K: Copy>(m: &HashSet<K>) -> (v: Vec<K>)
    requires
        vstd::std_specs::hash::obeys_key_model::<K>(),
    ensures
        v@.to_set() == m@,
        v@.no_duplicates(),
        v@.len() == m@.len(),
{
    let ghost ks = vstd::std_specs::hash::spec_hash_keys_iter(m).remaining();
    assert(ks.unref().to_set() == m@);
    assert(ks.no_duplicates());
    let mut v: Vec<K> = Vec::new();
    for k in it: m.iter()
        invariant
            it.seq() == ks,
            v@ == ks.take(it.index() as int).unref(),
            ks.unref().to_set() == m@,
            ks.no_duplicates(),
            ks.len() == m@.len(),
    {
        v.push(*k);
        assert(v@ =~= ks.take(it.index() as int + 1).unref());
    }
    assert(ks.take(ks.len() as int) =~= ks);
    assert(v@ =~= ks.unref());
    assert(v@.no_duplicates());
    v
}

/// Removes the entries whose key is below `cutoff` (nothing when `cutoff` is zero).
pub fn prune_below<V>(m: &mut HashMap<u64, V>, cutoff: u64)
    ensures
        final(m)@ == ttl_pruned(old(m)@, cutoff),
{
    if cutoff == 0 {
        return;
    }
    let ghost start = m@;
    let keys = keys_of(m);
    let n = keys.len();
    let mut i: usize = 0;
    assert(keys@.subrange(0, n as int) =~= keys@);
    assert forall|k: u64| start.contains_key(k) implies keys@.contains(k) by {
        if start.contains_key(k) {
            assert(keys@.to_set().contains(k));
        }
    }
    while i < n
        invariant
            n == keys@.len(),
            keys@.to_set() == start.dom(),
            keys@.no_duplicates(),
            i <= n,
            forall|k: u64| #[trigger]
                m@.contains_key(k) <==> start.contains_key(k) && (k >= cutoff
                    || keys@.subrange(i as int, n as int).contains(k)),
            forall|k: u64| #[trigger] m@.contains_key(k) ==> m@[k] == start[k],
        decreases n - i,
    {
        let k = keys[i];
        if k < cutoff {
            m.remove(&k);
        }
        proof {
            let cur = keys@.subrange(i as int, n as int);
            let rest = keys@.subrange(i + 1, n as int);
            assert forall|x: u64| cur.contains(x) && x != k implies rest.contains(x) by {
                let j = choose|j: int| 0 <= j < cur.len() && #[trigger] cur[j] == x;
                assert(j != 0);
                assert(rest[j - 1] == x);
            }
            assert forall|x: u64| rest.contains(x) implies cur.contains(x) && x != k by {
                let j = choose|j: int| 0 <= j < rest.len() && #[trigger] rest[j] == x;
                assert(cur[j + 1] == x);
                assert(keys@[i + 1 + j] == x);
                assert(keys@[i as int] == k);
            }
        }
        i = i + 1;
    }
    assert(m@ =~= ttl_pruned(start, cutoff));
}

/// Keeps the `cap` entries with the largest keys, removing the others.
pub fn keep_newest<V>(m: &mut HashMap<u64, V>, cap: usize)
    ensures
        keeps_newest(old(m)@, final(m)@, cap as nat),
{
    let ghost start = m@;
    if m.len() <= cap {
        return;
    }
    let mut keys = keys_of(m);
    let ghost unsorted = keys@;
    sort_keys(&mut keys);
    proof {
        broadcast use vstd::seq_lib::to_multiset_contains;
        assert forall|x: u64| keys@.contains(x) <==> unsorted.contains(x) by {
            assert(keys@.to_multiset().count(x) == unsorted.to_multiset().count(x));
        }
        assert(keys@.to_set() =~= start.dom());
        unsorted.lemma_multiset_has_no_duplicates();
        keys@.lemma_multiset_has_no_duplicates_conv();
    }
    let n = keys.len();
    let excess = n - cap;
    let mut i: usize = 0;
    while i < excess
        invariant
            n == keys@.len(),
            excess == n - cap,
            keys@.to_set() == start.dom(),
            keys@.no_duplicates(),
            ascending(keys@),
            n == start.dom().len(),
            i <= excess,
            forall|k: u64| #[trigger]
                m@.contains_key(k) <==> start.contains_key(k) && !keys@.take(i as int).contains(k),
            forall|k: u64| #[trigger] m@.contains_key(k) ==> m@[k] == start[k],
            m@.dom().len() == n - i,
        decreases excess - i,
    {
        let k = keys[i];
        proof {
            assert(keys@.to_set().contains(k));
            assert(!keys@.take(i as int).contains(k)) by {
                let before = keys@.take(i as int);
                if before.contains(k) {
                    let j = choose|j: int| 0 <= j < before.len() && #[trigger] before[j] == k;
                    assert(keys@[j] == keys@[i as int]);
                }
            }
            assert(m@.contains_key(k));
        }
        m.remove(&k);
        proof {
            let before = keys@.take(i as int);
            let after = keys@.take(i + 1);
            assert forall|x: u64| after.contains(x) <==> before.contains(x) || x == k by {
                if after.contains(x) {
                    let j = choose|j: int| 0 <= j < after.len() && #[trigger] after[j] == x;
                    if j < i {
                        assert(before[j] == x);
                    }
                }
                if before.contains(x) {
                    let j = choose|j: int| 0 <= j < before.len() && #[trigger] before[j] == x;
                    assert(after[j] == x);
                }
                if x == k {
                    assert(after[i as int] == x);
                }
            }
        }
        i = i + 1;
    }
    proof {
        assert(m@.dom().subset_of(start.dom()));
        assert forall|k: u64, j: u64|
            #[trigger] m@.contains_key(k) && #[trigger] start.contains_key(j) && !m@.contains_key(
                j,
            ) implies j < k by {
            let removed = keys@.take(excess as int);
            assert(removed.contains(j));
            let a = choose|a: int| 0 <= a < removed.len() && #[trigger] removed[a] == j;
            assert(keys@.to_set().contains(k));
            let b = choose|b: int| 0 <= b < keys@.len() && #[trigger] keys@[b] == k;
            if b < excess {
                assert(removed[b] == k);
            }
            assert(keys@[a] <= keys@[b]);
            assert(keys@[a] != keys@[b]);
        }
    }
}

} // verus!
