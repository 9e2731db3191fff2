//! The diff engine: the patch collection that leads from one record
//! collection to another.
use crate::collection::{lookup, patches, records, Patches, Records};
use crate::order::{lists, sorted_keys};
use crate::patch::{MotionPatch, MotionPatchView};
use crate::record::{Key, MotionView};
use std::collections::BTreeMap;
use vstd::prelude::*;

verus! {

/// The patch for one key of the source collection, if it gets one. A record
/// that the target lacks gets the bare removal; one that the target holds
/// gets the patch between the two, unless that patch says nothing.
pub open spec fn entry_between(source: MotionView, target: Option<MotionView>) -> Option<
    MotionPatchView,
> {
    match target {
        None => Some(MotionPatchView::removal()),
        Some(to) => {
            let patch = MotionPatchView::between(source, to);
            if patch.is_none() {
                None
            } else {
                Some(patch)
            }
        },
    }
}

/// The patch collection that leads from `source` to `target`. It has an
/// entry for exactly those keys of `source` whose record is gone from
/// `target` or differs from the one there. A key that only `target` holds
/// gets no entry.
pub open spec fn created(source: Map<Key, MotionView>, target: Map<Key, MotionView>) -> Map<
    Key,
    MotionPatchView,
> {
    Map::new(
        |key: Key| source.contains_key(key) && entry_between(source[key], lookup(target, key)) is Some,
        |key: Key| entry_between(source[key], lookup(target, key))->0,
    )
}

/// Computes the patch collection that leads from `source` to `target`.
pub fn create(source: &Records, target: &Records) -> (result: Patches)
    ensures
        patches(result@) == created(records(source@), records(target@)),
{
    let keys = sorted_keys(source);
    let mut result: Patches = BTreeMap::new();
    let ghost wanted = created(records(source@), records(target@));
    let mut i: usize = 0;
    while i < keys.len()
        invariant
            i <= keys@.len(),
            lists(keys@, source@.dom()),
            wanted == created(records(source@), records(target@)),
            forall|key: Key| #[trigger]
                result@.contains_key(key) ==> wanted.contains_key(key) && result@[key]@
                    == wanted[key],
            forall|j: int|
                0 <= j < i && wanted.contains_key(#[trigger] keys@[j]) ==> result@.contains_key(
                    keys@[j],
                ),
        decreases keys@.len() - i,
    {
        let key = keys[i];
        assert(keys@.to_set().contains(keys@[i as int]));
        assert(source@.contains_key(key));
        if let Some(from) = source.get(&key) {
            match target.get(&key) {
                None => {
                    result.insert(key, MotionPatch::removal());
                },
                Some(to) => {
                    let patch = MotionPatch::create(from, to);
                    if !patch.is_empty() {
                        result.insert(key, patch);
                    }
                },
            }
        }
        i += 1;
    }
    proof {
        assert forall|key: Key| wanted.contains_key(key) implies result@.contains_key(key) by {
            assert(keys@.to_set().contains(key));
            let j = choose|j: int| 0 <= j < keys@.len() && keys@[j] == key;
            assert(wanted.contains_key(keys@[j]));
        }
        assert(patches(result@) =~= wanted);
    }
    result
}

} // verus!
