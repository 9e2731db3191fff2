//! The two keyed collections: records by key, and patches by key.
use crate::patch::{MotionPatch, MotionPatchView};
use crate::record::{Key, Motion, MotionView};
use std::collections::BTreeMap;
use vstd::prelude::*;

verus! {

/// A collection of motion records, each under its key.
pub type Records = BTreeMap<Key, Motion>;

/// A collection of patches, each under the key of the record it is for.
pub type Patches = BTreeMap<Key, MotionPatch>;

/// What a record collection holds: the view of each record, under its key.
pub open spec fn records(store: Map<Key, Motion>) -> Map<Key, MotionView> {
    store.map_values(|motion: Motion| motion@)
}

/// What a patch collection holds: the view of each patch, under its key.
pub open spec fn patches(map: Map<Key, MotionPatch>) -> Map<Key, MotionPatchView> {
    map.map_values(|patch: MotionPatch| patch@)
}

/// What a map holds under `key`, if anything.
pub open spec fn lookup<V>(map: Map<Key, V>, key: Key) -> Option<V> {
    if map.contains_key(key) {
        Some(map[key])
    } else {
        None
    }
}

} // verus!
