//! The patch shape that mirrors a motion's optional substructure.
use crate::field::{changed, diff_byte, diff_switch, Field};
use crate::record::Extra;
use vstd::prelude::*;

verus! {

/// A patch of the optional substructure. `remove` clears the substructure
/// on the record; the four fields overwrite those of the substructure,
/// which is created blank where the record has none.
#[derive(Clone, Copy, Debug, PartialEq, Eq)]
pub struct ExtraPatch {
    pub remove: bool,
    pub intangible_start_frame: Field<u8>,
    pub intangible_end_frame: Field<u8>,
    pub cancel_frame: Field<u8>,
    pub freeze_during_hitstop: Field<bool>,
}

impl ExtraPatch {
    /// The patch that clears the substructure and carries no field.
    pub open spec fn clearing() -> ExtraPatch {
        ExtraPatch {
            remove: true,
            intangible_start_frame: Field::Unset,
            intangible_end_frame: Field::Unset,
            cancel_frame: Field::Unset,
            freeze_during_hitstop: Field::Unset,
        }
    }

    /// The patch that sets all four fields to those of `target`.
    pub open spec fn introducing(target: Extra) -> ExtraPatch {
        ExtraPatch {
            remove: false,
            intangible_start_frame: Field::Assign(target.intangible_start_frame),
            intangible_end_frame: Field::Assign(target.intangible_end_frame),
            cancel_frame: Field::Assign(target.cancel_frame),
            freeze_during_hitstop: Field::Assign(target.freeze_during_hitstop),
        }
    }

    /// The patch that sets each field that differs between two substructures.
    pub open spec fn adjusting(source: Extra, target: Extra) -> ExtraPatch {
        ExtraPatch {
            remove: false,
            intangible_start_frame: changed(
                source.intangible_start_frame,
                target.intangible_start_frame,
            ),
            intangible_end_frame: changed(source.intangible_end_frame, target.intangible_end_frame),
            cancel_frame: changed(source.cancel_frame, target.cancel_frame),
            freeze_during_hitstop: changed(
                source.freeze_during_hitstop,
                target.freeze_during_hitstop,
            ),
        }
    }

    /// The patch field that turns `source` into `target`, by what each side
    /// holds:
    /// nothing on either side, no patch; a substructure on the target side
    /// only, all four fields set; one on the source side only, `remove` and
    /// no field; one on both sides, the fields that differ, and no patch
    /// where none does.
    pub open spec fn between(source: Option<Extra>, target: Option<Extra>) -> Field<ExtraPatch> {
        match (source, target) {
            (None, None) => Field::Unset,
            (None, Some(to)) => Field::Assign(ExtraPatch::introducing(to)),
            (Some(_), None) => Field::Assign(ExtraPatch::clearing()),
            (Some(from), Some(to)) => if from == to {
                Field::Unset
            } else {
                Field::Assign(ExtraPatch::adjusting(from, to))
            },
        }
    }

    /// The substructure after the four fields were applied to `extra`.
    pub open spec fn fields_over(self, extra: Extra) -> Extra {
        Extra {
            intangible_start_frame: self.intangible_start_frame.over(extra.intangible_start_frame),
            intangible_end_frame: self.intangible_end_frame.over(extra.intangible_end_frame),
            cancel_frame: self.cancel_frame.over(extra.cancel_frame),
            freeze_during_hitstop: self.freeze_during_hitstop.over(extra.freeze_during_hitstop),
        }
    }

    /// What a record holds after this patch was applied to `extra`: nothing
    /// where `remove` is set, whatever the fields say; otherwise the
    /// substructure, or a blank one where there was none, with the fields
    /// applied.
    pub open spec fn applied(self, extra: Option<Extra>) -> Option<Extra> {
        if self.remove {
            None
        } else {
            Some(
                self.fields_over(
                    match extra {
                        Some(present) => present,
                        None => Extra::blank(),
                    },
                ),
            )
        }
    }

    /// How many of `remove` and the four fields the patch sets.
    pub open spec fn set_fields(self) -> nat {
        (if self.remove {
            1nat
        } else {
            0nat
        }) + self.intangible_start_frame.weight() + self.intangible_end_frame.weight()
            + self.cancel_frame.weight() + self.freeze_during_hitstop.weight()
    }

    /// The patch field between what two records hold.
    pub fn create(source: &Option<Extra>, target: &Option<Extra>) -> (patch: Field<ExtraPatch>)
        ensures
            patch == ExtraPatch::between(*source, *target),
    {
        match (source, target) {
            (None, None) => Field::Unset,
            (None, Some(to)) => Field::Assign(
                ExtraPatch {
                    remove: false,
                    intangible_start_frame: Field::Assign(to.intangible_start_frame),
                    intangible_end_frame: Field::Assign(to.intangible_end_frame),
                    cancel_frame: Field::Assign(to.cancel_frame),
                    freeze_during_hitstop: Field::Assign(to.freeze_during_hitstop),
                },
            ),
            (Some(_), None) => Field::Assign(
                ExtraPatch {
                    remove: true,
                    intangible_start_frame: Field::Unset,
                    intangible_end_frame: Field::Unset,
                    cancel_frame: Field::Unset,
                    freeze_during_hitstop: Field::Unset,
                },
            ),
            (Some(from), Some(to)) => {
                let patch = ExtraPatch {
                    remove: false,
                    intangible_start_frame: diff_byte(
                        from.intangible_start_frame,
                        to.intangible_start_frame,
                    ),
                    intangible_end_frame: diff_byte(
                        from.intangible_end_frame,
                        to.intangible_end_frame,
                    ),
                    cancel_frame: diff_byte(from.cancel_frame, to.cancel_frame),
                    freeze_during_hitstop: diff_switch(
                        from.freeze_during_hitstop,
                        to.freeze_during_hitstop,
                    ),
                };
                if patch.intangible_start_frame.carries() || patch.intangible_end_frame.carries()
                    || patch.cancel_frame.carries() || patch.freeze_during_hitstop.carries() {
                    Field::Assign(patch)
                } else {
                    Field::Unset
                }
            },
        }
    }

    /// Clears, creates or overwrites the substructure in `extra`.
    pub fn apply(&self, extra: &mut Option<Extra>)
        ensures
            *final(extra) == self.applied(*old(extra)),
    {
        if self.remove {
            *extra = None;
        } else {
            let base = match *extra {
                Some(present) => present,
                None => Extra::default(),
            };
            *extra = Some(
                Extra {
                    intangible_start_frame: self.intangible_start_frame.resolve(
                        base.intangible_start_frame,
                    ),
                    intangible_end_frame: self.intangible_end_frame.resolve(
                        base.intangible_end_frame,
                    ),
                    cancel_frame: self.cancel_frame.resolve(base.cancel_frame),
                    freeze_during_hitstop: self.freeze_during_hitstop.resolve(
                        base.freeze_during_hitstop,
                    ),
                },
            );
        }
    }
}

/// What a record holds after the patch field `patch` was applied to `extra`.
pub open spec fn extra_over(patch: Field<ExtraPatch>, extra: Option<Extra>) -> Option<Extra> {
    match patch {
        Field::Assign(patch) => patch.applied(extra),
        Field::Unset => extra,
    }
}

/// The patch field between what two records hold, applied to the first,
/// gives the second; and it is unset exactly where the two hold the same.
pub proof fn lemma_extra_between_applied(source: Option<Extra>, target: Option<Extra>)
    ensures
        extra_over(ExtraPatch::between(source, target), source) == target,
        ExtraPatch::between(source, target) is Unset <==> source == target,
{
}

/// Applying a patch of the substructure a second time changes nothing.
pub proof fn lemma_extra_applied_twice(patch: Field<ExtraPatch>, extra: Option<Extra>)
    ensures
        extra_over(patch, extra_over(patch, extra)) == extra_over(patch, extra),
{
}

} // verus!
