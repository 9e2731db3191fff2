//! What holds of diffing and applying, taken together.
use crate::applier::{applied, applied_in, entry_applied};
use crate::collection::lookup;
use crate::diff::created;
use crate::extra_patch::{lemma_extra_applied_twice, lemma_extra_between_applied};
use crate::flags_patch::{
    lemma_flags_applied_twice, lemma_flags_between_applied, lemma_flags_between_counts,
    lemma_flags_between_none,
};
use crate::order::{key_order, lemma_key_order};
use crate::patch::{AnimationPatch, MotionPatchView};
use crate::record::{Animation, Key, MotionView};
use vstd::prelude::*;

verus! {

/// The record that a key holds after an entry without `rename` was carried
/// out: the patch's fields over what the key held before, or over a blank
/// record where it held nothing or the patch removes it first.
pub open spec fn entry_value(patch: MotionPatchView, current: Option<MotionView>) -> MotionView {
    patch.applied(
        match current {
            Some(record) if !patch.remove => record,
            _ => MotionView::blank(),
        },
    )
}

/// Whether no entry of the collection renames its record.
pub open spec fn renames_nothing(map: Map<Key, MotionPatchView>) -> bool {
    forall|key: Key| map.contains_key(key) ==> (#[trigger] map[key]).rename is Unset
}

/// The collection in which every key of `keys` holds what its entry makes of
/// it, and every other key of `store` holds what it held.
pub open spec fn settled(
    map: Map<Key, MotionPatchView>,
    keys: Set<Key>,
    store: Map<Key, MotionView>,
) -> Map<Key, MotionView> {
    Map::new(
        |key: Key| store.contains_key(key) || keys.contains(key),
        |key: Key|
            if keys.contains(key) {
                entry_value(map[key], lookup(store, key))
            } else {
                store[key]
            },
    )
}

/// The patch between two records, applied to the first, gives the second.
pub proof fn lemma_between_applied(source: MotionView, target: MotionView)
    ensures
        MotionPatchView::between(source, target).applied(source) == target,
{
    let patch = MotionPatchView::between(source, target);
    let result = patch.applied(source);
    assert(result.animations =~= target.animations) by {
        if source.animations != target.animations {
            let listed = target.animations.map_values(|a: Animation| AnimationPatch::of(a));
            assert forall|i: int| 0 <= i < target.animations.len() implies listed.map_values(
                |p: AnimationPatch| p.built(),
            )[i] == target.animations[i] by {
                assert(AnimationPatch::of(target.animations[i]).built() == target.animations[i]);
            }
        }
    }
    lemma_flags_between_applied(source.flags, target.flags);
    lemma_extra_between_applied(source.extra, target.extra);
}

/// Two records between which the patch says nothing are the same record.
pub proof fn lemma_none_between(source: MotionView, target: MotionView)
    requires
        MotionPatchView::between(source, target).is_none(),
    ensures
        source == target,
{
    lemma_flags_between_none(source.flags, target.flags);
    lemma_extra_between_applied(source.extra, target.extra);
}

/// Applying a patch's fields a second time changes nothing.
pub proof fn lemma_fields_twice(patch: MotionPatchView, motion: MotionView)
    ensures
        patch.applied(patch.applied(motion)) == patch.applied(motion),
{
    lemma_flags_applied_twice(patch.flags, motion.flags);
    lemma_extra_applied_twice(patch.extra, motion.extra);
}

/// Entries without `rename` do not touch each other: carried out in any
/// order without repeats, each key of `keys` ends up with what its own entry
/// makes of it, and every other key is left alone.
pub proof fn lemma_applied_in_settled(
    map: Map<Key, MotionPatchView>,
    keys: Seq<Key>,
    store: Map<Key, MotionView>,
)
    requires
        keys.no_duplicates(),
        forall|i: int| 0 <= i < keys.len() ==> (#[trigger] map[keys[i]]).rename is Unset,
    ensures
        applied_in(map, keys, store) == settled(map, keys.to_set(), store),
    decreases keys.len(),
{
    if keys.len() == 0 {
        assert(applied_in(map, keys, store) =~= settled(map, keys.to_set(), store));
    } else {
        let front = keys.drop_last();
        let key = keys.last();
        lemma_applied_in_settled(map, front, store);
        let before = settled(map, front.to_set(), store);
        assert(!front.to_set().contains(key)) by {
            if front.to_set().contains(key) {
                let i = choose|i: int| 0 <= i < front.len() && front[i] == key;
                assert(keys[i] == keys[keys.len() - 1]);
            }
        }
        assert forall|other: Key| keys.to_set().contains(other) <==> (front.to_set().contains(
            other,
        ) || other == key) by {
            if front.to_set().contains(other) {
                let i = choose|i: int| 0 <= i < front.len() && front[i] == other;
                assert(keys[i] == other);
            }
            if other == key {
                assert(keys[keys.len() - 1] == other);
            }
            if keys.to_set().contains(other) && other != key {
                let i = choose|i: int| 0 <= i < keys.len() && keys[i] == other;
                assert(front[i] == other);
            }
        }
        assert(map[key].rename is Unset) by {
            assert(keys[keys.len() - 1] == key);
        }
        assert(lookup(before, key) == lookup(store, key));
        assert(entry_applied(before, key, map[key]) =~= settled(map, keys.to_set(), store));
    }
}

/// With no `rename` in it, a patch collection acts key by key: each of its
/// keys ends up with what its entry makes of it, and every other key of the
/// record collection is left alone.
pub proof fn lemma_applied_settled(map: Map<Key, MotionPatchView>, store: Map<Key, MotionView>)
    requires
        map.dom().finite(),
        renames_nothing(map),
    ensures
        applied(map, store) == settled(map, map.dom(), store),
{
    let keys = key_order(map.dom());
    lemma_key_order(map.dom());
    assert forall|i: int| 0 <= i < keys.len() implies (#[trigger] map[keys[i]]).rename is Unset by {
        assert(keys.to_set().contains(keys[i]));
    }
    lemma_applied_in_settled(map, keys, store);
}

/// What the diff of two collections makes of the first: under every key of
/// the source, the record that the target holds there, or the blank record
/// where the target lacks the key; and no key besides those of the source.
pub proof fn lemma_diff_applied(source: Map<Key, MotionView>, target: Map<Key, MotionView>)
    requires
        source.dom().finite(),
    ensures
        applied(created(source, target), source) == Map::new(
            |key: Key| source.contains_key(key),
            |key: Key|
                if target.contains_key(key) {
                    target[key]
                } else {
                    MotionView::blank()
                },
        ),
{
    let map = created(source, target);
    assert(map.dom().subset_of(source.dom()));
    vstd::set_lib::lemma_len_subset(map.dom(), source.dom());
    lemma_applied_settled(map, source);
    let result = settled(map, map.dom(), source);
    let expected = Map::new(
        |key: Key| source.contains_key(key),
        |key: Key|
            if target.contains_key(key) {
                target[key]
            } else {
                MotionView::blank()
            },
    );
    assert forall|key: Key| result.contains_key(key) implies result[key] == expected[key] by {
        if !target.contains_key(key) {
            assert(map[key] == MotionPatchView::removal());
            assert(MotionPatchView::removal().applied(MotionView::blank()) == MotionView::blank());
        } else if map.contains_key(key) {
            lemma_between_applied(source[key], target[key]);
        } else {
            lemma_none_between(source[key], target[key]);
        }
    }
    assert(result =~= expected);
}

/// Diffing, then applying, gives the target back: where two collections
/// hold the same keys, the diff of the two applied to the first yields the
/// second.
pub proof fn lemma_round_trip(source: Map<Key, MotionView>, target: Map<Key, MotionView>)
    requires
        source.dom().finite(),
        source.dom() == target.dom(),
    ensures
        applied(created(source, target), source) == target,
{
    lemma_diff_applied(source, target);
    assert forall|key: Key| source.contains_key(key) <==> target.contains_key(key) by {
        assert(source.dom().contains(key) == target.dom().contains(key));
    }
    assert(applied(created(source, target), source) =~= target);
}

/// A key that the source holds and the target lacks gets the bare removal
/// as its patch: `remove` and nothing else.
pub proof fn lemma_removed_key(
    source: Map<Key, MotionView>,
    target: Map<Key, MotionView>,
    key: Key,
)
    requires
        source.contains_key(key),
        !target.contains_key(key),
    ensures
        created(source, target).contains_key(key),
        created(source, target)[key] == MotionPatchView::removal(),
{
}

/// The bare removal discards the record under its key: whatever the key
/// held before, it holds the blank record afterwards, and every other key
/// is left alone.
pub proof fn lemma_removal_discards(store: Map<Key, MotionView>, key: Key)
    ensures
        entry_applied(store, key, MotionPatchView::removal()) == store.insert(
            key,
            MotionView::blank(),
        ),
{
    let patch = MotionPatchView::removal();
    assert(patch.applied(MotionView::blank()) == MotionView::blank());
    assert(entry_applied(store, key, patch) =~= store.insert(key, MotionView::blank()));
}

/// Applying a patch collection without `rename` a second time changes
/// nothing.
pub proof fn lemma_apply_twice(map: Map<Key, MotionPatchView>, store: Map<Key, MotionView>)
    requires
        map.dom().finite(),
        renames_nothing(map),
    ensures
        applied(map, applied(map, store)) == applied(map, store),
{
    lemma_applied_settled(map, store);
    let once = settled(map, map.dom(), store);
    lemma_applied_settled(map, once);
    let twice = settled(map, map.dom(), once);
    assert forall|key: Key| twice.contains_key(key) implies twice[key] == once[key] by {
        if map.contains_key(key) {
            let patch = map[key];
            let base = match lookup(store, key) {
                Some(record) if !patch.remove => record,
                _ => MotionView::blank(),
            };
            lemma_fields_twice(patch, base);
        }
    }
    assert(twice =~= once);
}

/// Two records that differ in exactly one of the fourteen switches, and in
/// nothing else, get a patch that sets exactly one field.
pub proof fn lemma_one_flag(source: MotionView, target: MotionView)
    requires
        source.flags.differences(target.flags) == 1,
        target == (MotionView { flags: target.flags, ..source }),
    ensures
        MotionPatchView::between(source, target).set_fields() == 1,
        MotionPatchView::between(source, target).flags.set_fields() == 1,
{
    lemma_flags_between_counts(source.flags, target.flags);
}

/// A diff holds no entry that says nothing, and none that renames.
pub proof fn lemma_created_entries(
    source: Map<Key, MotionView>,
    target: Map<Key, MotionView>,
    key: Key,
)
    requires
        created(source, target).contains_key(key),
    ensures
        !created(source, target)[key].is_none(),
        created(source, target)[key].rename is Unset,
        created(source, target)[key].remove <==> !target.contains_key(key),
{
}

/// A key that only the target holds gets no patch: a diff never says that a
/// record was added.
pub proof fn lemma_new_key_left_out(
    source: Map<Key, MotionView>,
    target: Map<Key, MotionView>,
    key: Key,
)
    requires
        !source.contains_key(key),
    ensures
        !created(source, target).contains_key(key),
{
}

} // verus!
