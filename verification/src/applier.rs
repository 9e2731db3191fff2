//! The patch applier: a patch collection carried out on a record collection,
//! entry by entry in ascending key order.
use crate::collection::{patches, records, Patches, Records};
use crate::field::Field;
use crate::order::{key_order, sorted_keys};
use crate::patch::{MotionPatch, MotionPatchView};
use crate::record::{Key, Motion, MotionView};
use vstd::prelude::*;

verus! {

/// The record that a patch's fields are applied to: the one under `key`, or
/// the blank record where the collection holds none.
pub open spec fn base_record(store: Map<Key, MotionView>, key: Key) -> MotionView {
    if store.contains_key(key) {
        store[key]
    } else {
        MotionView::blank()
    }
}

/// The collection after the entry `key`, `patch` was carried out on `store`.
///
/// First `remove` deletes the record under `key`. Then the patch's fields
/// are applied to the record now under `key`, or to a blank one where there
/// is none, and the result goes under the new key where `rename` is set,
/// leaving `key` vacant, and under `key` otherwise.
///
/// So `remove` together with `rename` yields, under the new key, a blank
/// record with the patch's fields and nothing of the record that was
/// removed; and `remove` alone leaves under `key` a blank record with the
/// patch's fields.
pub open spec fn entry_applied(
    store: Map<Key, MotionView>,
    key: Key,
    patch: MotionPatchView,
) -> Map<Key, MotionView> {
    let cleared = if patch.remove {
        store.remove(key)
    } else {
        store
    };
    let record = patch.applied(base_record(cleared, key));
    match patch.rename {
        Field::Assign(new_key) => cleared.remove(key).insert(new_key, record),
        Field::Unset => cleared.insert(key, record),
    }
}

/// The collection after the entries of `map` under `keys` were carried out
/// on `store`, in the order of `keys`.
pub open spec fn applied_in(
    map: Map<Key, MotionPatchView>,
    keys: Seq<Key>,
    store: Map<Key, MotionView>,
) -> Map<Key, MotionView>
    decreases keys.len(),
{
    if keys.len() == 0 {
        store
    } else {
        entry_applied(applied_in(map, keys.drop_last(), store), keys.last(), map[keys.last()])
    }
}

/// The collection after every entry of `map` was carried out on `store`, in
/// ascending key order.
pub open spec fn applied(map: Map<Key, MotionPatchView>, store: Map<Key, MotionView>) -> Map<
    Key,
    MotionView,
> {
    applied_in(map, key_order(map.dom()), store)
}

/// Carries out one entry of a patch collection on `store`.
pub fn apply_entry(store: &mut Records, key: Key, patch: &MotionPatch)
    ensures
        records(final(store)@) == entry_applied(records(old(store)@), key, patch@),
{
    if patch.remove {
        store.remove(&key);
    }
    let ghost cleared = store@;
    assert(records(cleared) =~= if patch.remove {
        records(old(store)@).remove(key)
    } else {
        records(old(store)@)
    });
    let mut motion = match store.remove(&key) {
        Some(present) => present,
        None => Motion::default(),
    };
    assert(motion@ == base_record(records(cleared), key));
    assert(records(store@) =~= records(cleared).remove(key));
    patch.apply(&mut motion);
    match patch.rename {
        Field::Assign(new_key) => {
            store.insert(new_key, motion);
            assert(records(store@) =~= records(cleared).remove(key).insert(new_key, motion@));
        },
        Field::Unset => {
            store.insert(key, motion);
            assert(records(store@) =~= records(cleared).insert(key, motion@));
        },
    }
}

/// Carries out a patch collection on `store`, entry by entry in ascending
/// key order.
pub fn apply(map: &Patches, store: &mut Records)
    ensures
        records(final(store)@) == applied(patches(map@), records(old(store)@)),
{
    let keys = sorted_keys(map);
    let ghost start = records(store@);
    assert(patches(map@).dom() =~= map@.dom());
    let mut i: usize = 0;
    while i < keys.len()
        invariant
            i <= keys@.len(),
            keys@.to_set() == map@.dom(),
            records(store@) == applied_in(patches(map@), keys@.take(i as int), start),
        decreases keys@.len() - i,
    {
        let key = keys[i];
        assert(keys@.to_set().contains(keys@[i as int]));
        let ghost before = keys@.take(i as int);
        let ghost after = keys@.take(i + 1);
        assert(after.drop_last() =~= before);
        assert(after.last() == key);
        if let Some(patch) = map.get(&key) {
            apply_entry(store, key, patch);
        }
        i += 1;
    }
    assert(keys@.take(keys@.len() as int) =~= keys@);
}

} // verus!
