//! The patch shape that mirrors a motion's flags.
use crate::field::{changed, diff_switch, difference, lemma_changed, lemma_over_twice, Field};
use crate::record::Flags;
use vstd::prelude::*;

verus! {

/// A patch of the fourteen switches, each one on its own.
#[derive(Clone, Copy, Debug, PartialEq, Eq)]
pub struct FlagsPatch {
    pub turn: Field<bool>,
    pub looped: Field<bool>,
    pub moved: Field<bool>,
    pub fix_trans: Field<bool>,
    pub fix_rot: Field<bool>,
    pub fix_scale: Field<bool>,
    pub unk_40: Field<bool>,
    pub unk_80: Field<bool>,
    pub unk_100: Field<bool>,
    pub unk_200: Field<bool>,
    pub unk_400: Field<bool>,
    pub unk_800: Field<bool>,
    pub unk_1000: Field<bool>,
    pub unk_2000: Field<bool>,
}

impl FlagsPatch {
    /// The patch that changes nothing.
    pub open spec fn none() -> FlagsPatch {
        FlagsPatch {
            turn: Field::Unset,
            looped: Field::Unset,
            moved: Field::Unset,
            fix_trans: Field::Unset,
            fix_rot: Field::Unset,
            fix_scale: Field::Unset,
            unk_40: Field::Unset,
            unk_80: Field::Unset,
            unk_100: Field::Unset,
            unk_200: Field::Unset,
            unk_400: Field::Unset,
            unk_800: Field::Unset,
            unk_1000: Field::Unset,
            unk_2000: Field::Unset,
        }
    }

    /// The patch that turns `source` into `target`: a switch is set if and
    /// only if it differs between the two.
    pub open spec fn between(source: Flags, target: Flags) -> FlagsPatch {
        FlagsPatch {
            turn: changed(source.turn, target.turn),
            looped: changed(source.looped, target.looped),
            moved: changed(source.moved, target.moved),
            fix_trans: changed(source.fix_trans, target.fix_trans),
            fix_rot: changed(source.fix_rot, target.fix_rot),
            fix_scale: changed(source.fix_scale, target.fix_scale),
            unk_40: changed(source.unk_40, target.unk_40),
            unk_80: changed(source.unk_80, target.unk_80),
            unk_100: changed(source.unk_100, target.unk_100),
            unk_200: changed(source.unk_200, target.unk_200),
            unk_400: changed(source.unk_400, target.unk_400),
            unk_800: changed(source.unk_800, target.unk_800),
            unk_1000: changed(source.unk_1000, target.unk_1000),
            unk_2000: changed(source.unk_2000, target.unk_2000),
        }
    }

    /// The flags after this patch was applied to `flags`.
    pub open spec fn applied(self, flags: Flags) -> Flags {
        Flags {
            turn: self.turn.over(flags.turn),
            looped: self.looped.over(flags.looped),
            moved: self.moved.over(flags.moved),
            fix_trans: self.fix_trans.over(flags.fix_trans),
            fix_rot: self.fix_rot.over(flags.fix_rot),
            fix_scale: self.fix_scale.over(flags.fix_scale),
            unk_40: self.unk_40.over(flags.unk_40),
            unk_80: self.unk_80.over(flags.unk_80),
            unk_100: self.unk_100.over(flags.unk_100),
            unk_200: self.unk_200.over(flags.unk_200),
            unk_400: self.unk_400.over(flags.unk_400),
            unk_800: self.unk_800.over(flags.unk_800),
            unk_1000: self.unk_1000.over(flags.unk_1000),
            unk_2000: self.unk_2000.over(flags.unk_2000),
        }
    }

    /// How many of the fourteen switches the patch sets.
    pub open spec fn set_fields(self) -> nat {
        self.turn.weight()
            + self.looped.weight()
            + self.moved.weight()
            + self.fix_trans.weight()
            + self.fix_rot.weight()
            + self.fix_scale.weight()
            + self.unk_40.weight()
            + self.unk_80.weight()
            + self.unk_100.weight()
            + self.unk_200.weight()
            + self.unk_400.weight()
            + self.unk_800.weight()
            + self.unk_1000.weight()
            + self.unk_2000.weight()
    }

    /// Whether the patch sets no switch.
    pub open spec fn is_none(self) -> bool {
        self == FlagsPatch::none()
    }

    /// The patch between two sets of flags.
    pub fn create(source: &Flags, target: &Flags) -> (patch: FlagsPatch)
        ensures
            patch == FlagsPatch::between(*source, *target),
    {
        FlagsPatch {
            turn: diff_switch(source.turn, target.turn),
            looped: diff_switch(source.looped, target.looped),
            moved: diff_switch(source.moved, target.moved),
            fix_trans: diff_switch(source.fix_trans, target.fix_trans),
            fix_rot: diff_switch(source.fix_rot, target.fix_rot),
            fix_scale: diff_switch(source.fix_scale, target.fix_scale),
            unk_40: diff_switch(source.unk_40, target.unk_40),
            unk_80: diff_switch(source.unk_80, target.unk_80),
            unk_100: diff_switch(source.unk_100, target.unk_100),
            unk_200: diff_switch(source.unk_200, target.unk_200),
            unk_400: diff_switch(source.unk_400, target.unk_400),
            unk_800: diff_switch(source.unk_800, target.unk_800),
            unk_1000: diff_switch(source.unk_1000, target.unk_1000),
            unk_2000: diff_switch(source.unk_2000, target.unk_2000),
        }
    }

    /// Overwrites the switches that the patch sets.
    pub fn apply(&self, flags: &mut Flags)
        ensures
            *final(flags) == self.applied(*old(flags)),
    {
        *flags = Flags {
            turn: self.turn.resolve(flags.turn),
            looped: self.looped.resolve(flags.looped),
            moved: self.moved.resolve(flags.moved),
            fix_trans: self.fix_trans.resolve(flags.fix_trans),
            fix_rot: self.fix_rot.resolve(flags.fix_rot),
            fix_scale: self.fix_scale.resolve(flags.fix_scale),
            unk_40: self.unk_40.resolve(flags.unk_40),
            unk_80: self.unk_80.resolve(flags.unk_80),
            unk_100: self.unk_100.resolve(flags.unk_100),
            unk_200: self.unk_200.resolve(flags.unk_200),
            unk_400: self.unk_400.resolve(flags.unk_400),
            unk_800: self.unk_800.resolve(flags.unk_800),
            unk_1000: self.unk_1000.resolve(flags.unk_1000),
            unk_2000: self.unk_2000.resolve(flags.unk_2000),
        };
    }

    /// Whether the patch sets no switch.
    pub fn is_empty(&self) -> (empty: bool)
        ensures
            empty == self.is_none(),
            empty == (self.set_fields() == 0),
    {
        !(self.turn.carries()
            || self.looped.carries()
            || self.moved.carries()
            || self.fix_trans.carries()
            || self.fix_rot.carries()
            || self.fix_scale.carries()
            || self.unk_40.carries()
            || self.unk_80.carries()
            || self.unk_100.carries()
            || self.unk_200.carries()
            || self.unk_400.carries()
            || self.unk_800.carries()
            || self.unk_1000.carries()
            || self.unk_2000.carries())
    }
}

impl Default for FlagsPatch {
    fn default() -> (patch: FlagsPatch)
        ensures
            patch == FlagsPatch::none(),
    {
        FlagsPatch {
            turn: Field::Unset,
            looped: Field::Unset,
            moved: Field::Unset,
            fix_trans: Field::Unset,
            fix_rot: Field::Unset,
            fix_scale: Field::Unset,
            unk_40: Field::Unset,
            unk_80: Field::Unset,
            unk_100: Field::Unset,
            unk_200: Field::Unset,
            unk_400: Field::Unset,
            unk_800: Field::Unset,
            unk_1000: Field::Unset,
            unk_2000: Field::Unset,
        }
    }
}

impl Flags {
    /// How many of the fourteen switches differ between two sets of flags.
    pub open spec fn differences(self, other: Flags) -> nat {
        difference(self.turn, other.turn)
            + difference(self.looped, other.looped)
            + difference(self.moved, other.moved)
            + difference(self.fix_trans, other.fix_trans)
            + difference(self.fix_rot, other.fix_rot)
            + difference(self.fix_scale, other.fix_scale)
            + difference(self.unk_40, other.unk_40)
            + difference(self.unk_80, other.unk_80)
            + difference(self.unk_100, other.unk_100)
            + difference(self.unk_200, other.unk_200)
            + difference(self.unk_400, other.unk_400)
            + difference(self.unk_800, other.unk_800)
            + difference(self.unk_1000, other.unk_1000)
            + difference(self.unk_2000, other.unk_2000)
    }
}

/// The patch between two sets of flags, applied to the first, gives the
/// second.
pub proof fn lemma_flags_between_applied(source: Flags, target: Flags)
    ensures
        FlagsPatch::between(source, target).applied(source) == target,
{
    lemma_changed(source.turn, target.turn);
    lemma_changed(source.looped, target.looped);
    lemma_changed(source.moved, target.moved);
    lemma_changed(source.fix_trans, target.fix_trans);
    lemma_changed(source.fix_rot, target.fix_rot);
    lemma_changed(source.fix_scale, target.fix_scale);
    lemma_changed(source.unk_40, target.unk_40);
    lemma_changed(source.unk_80, target.unk_80);
    lemma_changed(source.unk_100, target.unk_100);
    lemma_changed(source.unk_200, target.unk_200);
    lemma_changed(source.unk_400, target.unk_400);
    lemma_changed(source.unk_800, target.unk_800);
    lemma_changed(source.unk_1000, target.unk_1000);
    lemma_changed(source.unk_2000, target.unk_2000);
}

/// The patch between two sets of flags sets as many switches as differ
/// between the two.
pub proof fn lemma_flags_between_counts(source: Flags, target: Flags)
    ensures
        FlagsPatch::between(source, target).set_fields() == source.differences(target),
{
    lemma_changed(source.turn, target.turn);
    lemma_changed(source.looped, target.looped);
    lemma_changed(source.moved, target.moved);
    lemma_changed(source.fix_trans, target.fix_trans);
    lemma_changed(source.fix_rot, target.fix_rot);
    lemma_changed(source.fix_scale, target.fix_scale);
    lemma_changed(source.unk_40, target.unk_40);
    lemma_changed(source.unk_80, target.unk_80);
    lemma_changed(source.unk_100, target.unk_100);
    lemma_changed(source.unk_200, target.unk_200);
    lemma_changed(source.unk_400, target.unk_400);
    lemma_changed(source.unk_800, target.unk_800);
    lemma_changed(source.unk_1000, target.unk_1000);
    lemma_changed(source.unk_2000, target.unk_2000);
}

/// The patch between two sets of flags sets no switch exactly where the two
/// are the same.
pub proof fn lemma_flags_between_none(source: Flags, target: Flags)
    ensures
        FlagsPatch::between(source, target).is_none() <==> source == target,
{
    if source == target {
        assert(FlagsPatch::between(source, target) == FlagsPatch::none());
    }
    if FlagsPatch::between(source, target).is_none() {
        assert(source.turn == target.turn);
        assert(source.looped == target.looped);
        assert(source.moved == target.moved);
        assert(source.fix_trans == target.fix_trans);
        assert(source.fix_rot == target.fix_rot);
        assert(source.fix_scale == target.fix_scale);
        assert(source.unk_40 == target.unk_40);
        assert(source.unk_80 == target.unk_80);
        assert(source.unk_100 == target.unk_100);
        assert(source.unk_200 == target.unk_200);
        assert(source.unk_400 == target.unk_400);
        assert(source.unk_800 == target.unk_800);
        assert(source.unk_1000 == target.unk_1000);
        assert(source.unk_2000 == target.unk_2000);
    }
}

/// Applying a flags patch a second time changes nothing.
pub proof fn lemma_flags_applied_twice(patch: FlagsPatch, flags: Flags)
    ensures
        patch.applied(patch.applied(flags)) == patch.applied(flags),
{
    lemma_over_twice(patch.turn, flags.turn);
    lemma_over_twice(patch.looped, flags.looped);
    lemma_over_twice(patch.moved, flags.moved);
    lemma_over_twice(patch.fix_trans, flags.fix_trans);
    lemma_over_twice(patch.fix_rot, flags.fix_rot);
    lemma_over_twice(patch.fix_scale, flags.fix_scale);
    lemma_over_twice(patch.unk_40, flags.unk_40);
    lemma_over_twice(patch.unk_80, flags.unk_80);
    lemma_over_twice(patch.unk_100, flags.unk_100);
    lemma_over_twice(patch.unk_200, flags.unk_200);
    lemma_over_twice(patch.unk_400, flags.unk_400);
    lemma_over_twice(patch.unk_800, flags.unk_800);
    lemma_over_twice(patch.unk_1000, flags.unk_1000);
    lemma_over_twice(patch.unk_2000, flags.unk_2000);
}

} // verus!
