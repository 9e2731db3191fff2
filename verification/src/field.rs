//! One field of a patch: either no change, or the new value.
use crate::record::Key;
use vstd::prelude::*;

verus! {

/// A patch field. `Unset` leaves the record's field as it is; `Assign(v)`
/// overwrites it with `v`, also where `v` is the field's default value.
#[derive(Clone, Copy, Debug, PartialEq, Eq)]
pub enum Field<T> {
    Unset,
    Assign(T),
}

impl<T> Field<T> {
    /// Whether the field carries a new value.
    pub open spec fn is_set(self) -> bool {
        self is Assign
    }

    /// 1 for a field that carries a new value, 0 otherwise.
    pub open spec fn weight(self) -> nat {
        if self is Assign {
            1
        } else {
            0
        }
    }

    /// The value a record's field has after this patch field was applied to
    /// `current`.
    pub open spec fn over(self, current: T) -> T {
        match self {
            Field::Assign(value) => value,
            Field::Unset => current,
        }
    }

    /// Whether the field carries a new value.
    pub fn carries(&self) -> (set: bool)
        ensures
            set == self.is_set(),
    {
        match self {
            Field::Assign(_) => true,
            Field::Unset => false,
        }
    }

    /// The field's new value where it is set, and `current` otherwise.
    pub fn resolve(self, current: T) -> (value: T)
        ensures
            value == self.over(current),
    {
        match self {
            Field::Assign(value) => value,
            Field::Unset => current,
        }
    }
}

/// The patch field that turns `source` into `target`: set to `target` if and
/// only if the two differ.
pub open spec fn changed<T>(source: T, target: T) -> Field<T> {
    if source == target {
        Field::Unset
    } else {
        Field::Assign(target)
    }
}

/// 1 where the two values differ, 0 where they are the same.
pub open spec fn difference<T>(left: T, right: T) -> nat {
    if left == right {
        0
    } else {
        1
    }
}

/// The patch field between two values, applied to the first, gives the
/// second, and it is set exactly where the two differ.
pub proof fn lemma_changed<T>(source: T, target: T)
    ensures
        changed(source, target).over(source) == target,
        changed(source, target).weight() == difference(source, target),
        changed(source, target) is Unset <==> source == target,
{
}

/// Applying a patch field a second time changes nothing.
pub proof fn lemma_over_twice<T>(field: Field<T>, current: T)
    ensures
        field.over(field.over(current)) == field.over(current),
{
}

/// The patch field between two bytes.
pub fn diff_byte(source: u8, target: u8) -> (field: Field<u8>)
    ensures
        field == changed(source, target),
{
    if source == target {
        Field::Unset
    } else {
        Field::Assign(target)
    }
}

/// The patch field between two switches.
pub fn diff_switch(source: bool, target: bool) -> (field: Field<bool>)
    ensures
        field == changed(source, target),
{
    if source == target {
        Field::Unset
    } else {
        Field::Assign(target)
    }
}

/// The patch field between two keys.
pub fn diff_key(source: Key, target: Key) -> (field: Field<Key>)
    ensures
        field == changed(source, target),
{
    if source == target {
        Field::Unset
    } else {
        Field::Assign(target)
    }
}

} // verus!
