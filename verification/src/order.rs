//! The ascending order of a finite set of keys, in which a patch collection
//! is walked.
use crate::record::Key;
use std::collections::BTreeMap;
use vstd::prelude::*;
use vstd::std_specs::btree::*;
use vstd::std_specs::cmp::OrdSpec;
use vstd::std_specs::iter::IteratorSpec;

verus! {

/// Every element is smaller than the ones after it.
pub open spec fn ascending(keys: Seq<Key>) -> bool {
    forall|i: int, j: int| 0 <= i < j < keys.len() ==> keys[i] < keys[j]
}

/// Whether `keys` holds exactly the elements of `set`, smallest first.
pub open spec fn lists(keys: Seq<Key>, set: Set<Key>) -> bool {
    ascending(keys) && keys.to_set() == set
}

/// The elements of a finite set of keys, smallest first.
pub open spec fn key_order(set: Set<Key>) -> Seq<Key> {
    choose|keys: Seq<Key>| lists(keys, set)
}

/// Two ascending sequences with the same elements are the same sequence.
pub proof fn lemma_order_unique(left: Seq<Key>, right: Seq<Key>)
    requires
        ascending(left),
        ascending(right),
        left.to_set() == right.to_set(),
    ensures
        left == right,
    decreases left.len(),
{
    if left.len() == 0 {
        if right.len() > 0 {
            assert(right.to_set().contains(right[0]));
            assert(left.to_set().contains(right[0]));
        }
        assert(left =~= right);
    } else {
        let top = left.last();
        assert(left.to_set().contains(top));
        assert(right.to_set().contains(top));
        assert(right.to_set().contains(right.last()));
        assert(left.to_set().contains(right.last()));
        assert(right.last() == top);
        let shorter = left.drop_last();
        let other = right.drop_last();
        assert forall|k: Key| shorter.to_set().contains(k) <==> other.to_set().contains(k) by {
            if shorter.to_set().contains(k) {
                let i = choose|i: int| 0 <= i < shorter.len() && shorter[i] == k;
                assert(left[i] == k);
                assert(left.to_set().contains(k));
                assert(right.to_set().contains(k));
                let j = choose|j: int| 0 <= j < right.len() && right[j] == k;
                assert(j < right.len() - 1);
                assert(other[j] == k);
            }
            if other.to_set().contains(k) {
                let j = choose|j: int| 0 <= j < other.len() && other[j] == k;
                assert(right[j] == k);
                assert(right.to_set().contains(k));
                assert(left.to_set().contains(k));
                let i = choose|i: int| 0 <= i < left.len() && left[i] == k;
                assert(i < left.len() - 1);
                assert(shorter[i] == k);
            }
        }
        assert(shorter.to_set() =~= other.to_set());
        lemma_order_unique(shorter, other);
        assert(left =~= shorter.push(top));
        assert(right =~= other.push(top));
    }
}

/// A finite set of keys that is not empty has a largest element.
pub proof fn lemma_largest_exists(set: Set<Key>)
    requires
        set.finite(),
        !set.is_empty(),
    ensures
        exists|top: Key| set.contains(top) && forall|k: Key| set.contains(k) ==> k <= top,
    decreases set.len(),
{
    let one = set.choose();
    let rest = set.remove(one);
    if rest.is_empty() {
        assert forall|k: Key| set.contains(k) implies k <= one by {
            if k != one {
                assert(rest.contains(k));
            }
        }
    } else {
        lemma_largest_exists(rest);
        let below = choose|top: Key| rest.contains(top) && forall|k: Key| rest.contains(k) ==> k <= top;
        let top = if below < one {
            one
        } else {
            below
        };
        assert forall|k: Key| set.contains(k) implies k <= top by {
            if k != one {
                assert(rest.contains(k));
            }
        }
    }
}

/// Every finite set of keys has its ascending order, and `key_order` is it.
pub proof fn lemma_key_order(set: Set<Key>)
    requires
        set.finite(),
    ensures
        lists(key_order(set), set),
    decreases set.len(),
{
    if set.is_empty() {
        let keys = Seq::<Key>::empty();
        assert(keys.to_set() =~= set);
        assert(lists(keys, set));
    } else {
        lemma_largest_exists(set);
        let top = choose|top: Key| set.contains(top) && forall|k: Key| set.contains(k) ==> k <= top;
        let rest = set.remove(top);
        lemma_key_order(rest);
        let below = key_order(rest);
        let keys = below.push(top);
        assert forall|i: int, j: int| 0 <= i < j < keys.len() implies keys[i] < keys[j] by {
            assert(below.to_set().contains(below[i]));
            assert(rest.contains(keys[i]));
            if j < below.len() {
                assert(below[i] < below[j]);
            }
        }
        assert forall|k: Key| keys.to_set().contains(k) <==> set.contains(k) by {
            if set.contains(k) {
                if k == top {
                    assert(keys[below.len() as int] == k);
                } else {
                    assert(rest.contains(k));
                    assert(below.to_set().contains(k));
                    let i = choose|i: int| 0 <= i < below.len() && below[i] == k;
                    assert(keys[i] == k);
                }
            }
            if keys.to_set().contains(k) {
                let i = choose|i: int| 0 <= i < keys.len() && keys[i] == k;
                if i < below.len() {
                    assert(below.to_set().contains(below[i]));
                }
            }
        }
        assert(keys.to_set() =~= set);
        assert(lists(keys, set));
    }
}

/// An ascending sequence that holds the elements of `set` is `key_order(set)`.
pub proof fn lemma_is_key_order(keys: Seq<Key>, set: Set<Key>)
    requires
        lists(keys, set),
    ensures
        keys == key_order(set),
{
    lemma_order_unique(keys, key_order(set));
}

/// The keys of a map, smallest first.
pub fn sorted_keys<V>(map: &BTreeMap<Key, V>) -> (keys: Vec<Key>)
    ensures
        keys@ == key_order(map@.dom()),
        lists(keys@, map@.dom()),
{
    let mut keys: Vec<Key> = Vec::new();
    let ghost pairs = spec_btree_map_iter(map).remaining();
    for pair in iter: map.iter()
        invariant
            iter.seq() == pairs,
            keys@.len() == iter.index(),
            forall|i: int| 0 <= i < keys@.len() ==> keys@[i] == *pairs[i].0,
    {
        keys.push(*pair.0);
    }
    proof {
        let firsts = pairs.map_values(|kv: (&Key, &V)| *kv.0);
        assert(keys@ =~= firsts);
        assert(increasing_seq(firsts));
        axiom_increasing_seq_meaning::<Key>(firsts);
        assert forall|i: int, j: int| 0 <= i < j < keys@.len() implies keys@[i] < keys@[j] by {
            assert(firsts[i].cmp_spec(&firsts[j]) is Less);
        }
        assert forall|k: Key| keys@.to_set().contains(k) <==> map@.dom().contains(k) by {
            if map@.dom().contains(k) {
                assert(pairs.contains((&k, &map@[k])));
                let i = choose|i: int| 0 <= i < pairs.len() && pairs[i] == (&k, &map@[k]);
                assert(keys@[i] == k);
            }
            if keys@.to_set().contains(k) {
                let i = choose|i: int| 0 <= i < keys@.len() && keys@[i] == k;
                assert(map@.contains_key(*pairs[i].0));
            }
        }
        assert(keys@.to_set() =~= map@.dom());
        lemma_is_key_order(keys@, map@.dom());
    }
    keys
}

} // verus!
