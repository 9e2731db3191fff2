//! The patch of one motion record: one optional field for each field of the
//! record, and the two structural directives `remove` and `rename`.
use crate::extra_patch::{extra_over, ExtraPatch};
use crate::field::{changed, diff_byte, diff_key, Field};
use crate::flags_patch::FlagsPatch;
use crate::record::{Animation, Key, Motion, MotionView};
use vstd::prelude::*;

verus! {

/// One animation as a patch lists it. `aux` is written down only where it is
/// not 0, so a patch cannot tell an `aux` of 0 from one that was left out.
#[derive(Clone, Copy, Debug, PartialEq, Eq)]
pub struct AnimationPatch {
    pub name: Key,
    pub aux: Field<u8>,
}

impl AnimationPatch {
    /// How a patch lists `animation`: `aux` is set if and only if it is not 0.
    pub open spec fn of(animation: Animation) -> AnimationPatch {
        AnimationPatch {
            name: animation.name,
            aux: if animation.aux == 0 {
                Field::Unset
            } else {
                Field::Assign(animation.aux)
            },
        }
    }

    /// The animation that this entry stands for: an `aux` left out is 0.
    pub open spec fn built(self) -> Animation {
        Animation { name: self.name, aux: self.aux.over(0) }
    }

    /// How a patch lists `animation`.
    pub fn create(animation: &Animation) -> (entry: AnimationPatch)
        ensures
            entry == AnimationPatch::of(*animation),
    {
        AnimationPatch {
            name: animation.name,
            aux: if animation.aux == 0 {
                Field::Unset
            } else {
                Field::Assign(animation.aux)
            },
        }
    }

    /// The animation that this entry stands for.
    pub fn build(&self) -> (animation: Animation)
        ensures
            animation == self.built(),
    {
        Animation { name: self.name, aux: self.aux.resolve(0) }
    }
}

/// The patch of one motion record.
#[derive(Clone, Debug, PartialEq, Eq)]
pub struct MotionPatch {
    pub game_script: Field<Key>,
    pub flags: FlagsPatch,
    pub blend_frames: Field<u8>,
    pub animations: Field<Vec<AnimationPatch>>,
    pub scripts: Field<Vec<Key>>,
    pub extra: Field<ExtraPatch>,
    pub remove: bool,
    pub rename: Field<Key>,
}

/// What a motion patch holds, with its lists as sequences.
pub struct MotionPatchView {
    pub game_script: Field<Key>,
    pub flags: FlagsPatch,
    pub blend_frames: Field<u8>,
    pub animations: Field<Seq<AnimationPatch>>,
    pub scripts: Field<Seq<Key>>,
    pub extra: Field<ExtraPatch>,
    pub remove: bool,
    pub rename: Field<Key>,
}

/// A patch field that holds a list, with the list as a sequence.
pub open spec fn listed<T>(field: Field<Vec<T>>) -> Field<Seq<T>> {
    match field {
        Field::Assign(list) => Field::Assign(list@),
        Field::Unset => Field::Unset,
    }
}

impl View for MotionPatch {
    type V = MotionPatchView;

    open spec fn view(&self) -> MotionPatchView {
        MotionPatchView {
            game_script: self.game_script,
            flags: self.flags,
            blend_frames: self.blend_frames,
            animations: listed(self.animations),
            scripts: listed(self.scripts),
            extra: self.extra,
            remove: self.remove,
            rename: self.rename,
        }
    }
}

impl MotionPatchView {
    /// The patch that changes nothing.
    pub open spec fn none() -> MotionPatchView {
        MotionPatchView {
            game_script: Field::Unset,
            flags: FlagsPatch::none(),
            blend_frames: Field::Unset,
            animations: Field::Unset,
            scripts: Field::Unset,
            extra: Field::Unset,
            remove: false,
            rename: Field::Unset,
        }
    }

    /// The patch that removes a record and says nothing else.
    pub open spec fn removal() -> MotionPatchView {
        MotionPatchView { remove: true, ..MotionPatchView::none() }
    }

    /// The patch that turns `source` into `target`. A scalar field is set if
    /// and only if it differs; a list that differs in length, order or any
    /// element is recorded whole; `remove` and `rename` stay unset.
    pub open spec fn between(source: MotionView, target: MotionView) -> MotionPatchView {
        MotionPatchView {
            game_script: changed(source.game_script, target.game_script),
            flags: FlagsPatch::between(source.flags, target.flags),
            blend_frames: changed(source.blend_frames, target.blend_frames),
            animations: if source.animations == target.animations {
                Field::Unset
            } else {
                Field::Assign(target.animations.map_values(|a: Animation| AnimationPatch::of(a)))
            },
            scripts: changed(source.scripts, target.scripts),
            extra: ExtraPatch::between(source.extra, target.extra),
            remove: false,
            rename: Field::Unset,
        }
    }

    /// The record after the patch's fields were applied to `motion`. A list
    /// that is set replaces the record's list whole. `remove` and `rename`
    /// play no part here: they act on the collection.
    pub open spec fn applied(self, motion: MotionView) -> MotionView {
        MotionView {
            game_script: self.game_script.over(motion.game_script),
            flags: self.flags.applied(motion.flags),
            blend_frames: self.blend_frames.over(motion.blend_frames),
            animations: match self.animations {
                Field::Assign(list) => list.map_values(|p: AnimationPatch| p.built()),
                Field::Unset => motion.animations,
            },
            scripts: self.scripts.over(motion.scripts),
            extra: extra_over(self.extra, motion.extra),
        }
    }

    /// Whether the patch says nothing: no field set, no `remove`, no `rename`.
    pub open spec fn is_none(self) -> bool {
        self == MotionPatchView::none()
    }

    /// How many fields the patch sets: each switch and each field of the
    /// substructure counts for itself, and so do `remove` and `rename`.
    pub open spec fn set_fields(self) -> nat {
        self.game_script.weight() + self.flags.set_fields() + self.blend_frames.weight()
            + self.animations.weight() + self.scripts.weight() + (match self.extra {
            Field::Assign(patch) => patch.set_fields(),
            Field::Unset => 0,
        }) + (if self.remove {
            1nat
        } else {
            0nat
        }) + self.rename.weight()
    }
}

/// Whether two lists of animations agree in length, order and every element.
pub fn same_animations(left: &Vec<Animation>, right: &Vec<Animation>) -> (same: bool)
    ensures
        same == (left@ == right@),
{
    if left.len() != right.len() {
        return false;
    }
    let mut i: usize = 0;
    while i < left.len()
        invariant
            left@.len() == right@.len(),
            i <= left@.len(),
            forall|j: int| 0 <= j < i ==> left@[j] == right@[j],
        decreases left@.len() - i,
    {
        if left[i].name != right[i].name || left[i].aux != right[i].aux {
            return false;
        }
        i += 1;
    }
    assert(left@ =~= right@);
    true
}

/// Whether two lists of keys agree in length, order and every element.
pub fn same_keys(left: &Vec<Key>, right: &Vec<Key>) -> (same: bool)
    ensures
        same == (left@ == right@),
{
    if left.len() != right.len() {
        return false;
    }
    let mut i: usize = 0;
    while i < left.len()
        invariant
            left@.len() == right@.len(),
            i <= left@.len(),
            forall|j: int| 0 <= j < i ==> left@[j] == right@[j],
        decreases left@.len() - i,
    {
        if left[i] != right[i] {
            return false;
        }
        i += 1;
    }
    assert(left@ =~= right@);
    true
}

/// A list of animations as a patch lists it.
pub fn animation_patches(list: &Vec<Animation>) -> (entries: Vec<AnimationPatch>)
    ensures
        entries@ == list@.map_values(|a: Animation| AnimationPatch::of(a)),
{
    let mut entries: Vec<AnimationPatch> = Vec::new();
    let mut i: usize = 0;
    while i < list.len()
        invariant
            i <= list@.len(),
            entries@.len() == i,
            forall|j: int| 0 <= j < i ==> entries@[j] == AnimationPatch::of(list@[j]),
        decreases list@.len() - i,
    {
        entries.push(AnimationPatch::create(&list[i]));
        i += 1;
    }
    assert(entries@ =~= list@.map_values(|a: Animation| AnimationPatch::of(a)));
    entries
}

/// The animations that a patch's list stands for.
pub fn built_animations(entries: &Vec<AnimationPatch>) -> (list: Vec<Animation>)
    ensures
        list@ == entries@.map_values(|p: AnimationPatch| p.built()),
{
    let mut list: Vec<Animation> = Vec::new();
    let mut i: usize = 0;
    while i < entries.len()
        invariant
            i <= entries@.len(),
            list@.len() == i,
            forall|j: int| 0 <= j < i ==> list@[j] == entries@[j].built(),
        decreases entries@.len() - i,
    {
        list.push(entries[i].build());
        i += 1;
    }
    assert(list@ =~= entries@.map_values(|p: AnimationPatch| p.built()));
    list
}

/// A copy of a list of keys.
pub fn copied_keys(list: &Vec<Key>) -> (copy: Vec<Key>)
    ensures
        copy@ == list@,
{
    let mut copy: Vec<Key> = Vec::new();
    let mut i: usize = 0;
    while i < list.len()
        invariant
            i <= list@.len(),
            copy@.len() == i,
            forall|j: int| 0 <= j < i ==> copy@[j] == list@[j],
        decreases list@.len() - i,
    {
        copy.push(list[i]);
        i += 1;
    }
    assert(copy@ =~= list@);
    copy
}

impl Default for MotionPatch {
    fn default() -> (patch: MotionPatch)
        ensures
            patch@ == MotionPatchView::none(),
    {
        MotionPatch {
            game_script: Field::Unset,
            flags: FlagsPatch::default(),
            blend_frames: Field::Unset,
            animations: Field::Unset,
            scripts: Field::Unset,
            extra: Field::Unset,
            remove: false,
            rename: Field::Unset,
        }
    }
}

impl MotionPatch {
    /// The patch that turns `source` into `target`.
    pub fn create(source: &Motion, target: &Motion) -> (patch: MotionPatch)
        ensures
            patch@ == MotionPatchView::between(source@, target@),
    {
        MotionPatch {
            game_script: diff_key(source.game_script, target.game_script),
            flags: FlagsPatch::create(&source.flags, &target.flags),
            blend_frames: diff_byte(source.blend_frames, target.blend_frames),
            animations: if same_animations(&source.animations, &target.animations) {
                Field::Unset
            } else {
                Field::Assign(animation_patches(&target.animations))
            },
            scripts: if same_keys(&source.scripts, &target.scripts) {
                Field::Unset
            } else {
                Field::Assign(copied_keys(&target.scripts))
            },
            extra: ExtraPatch::create(&source.extra, &target.extra),
            remove: false,
            rename: Field::Unset,
        }
    }

    /// The patch that removes a record and says nothing else.
    pub fn removal() -> (patch: MotionPatch)
        ensures
            patch@ == MotionPatchView::removal(),
    {
        let mut patch = MotionPatch::default();
        patch.remove = true;
        patch
    }

    /// Applies the patch's fields to `motion`; `remove` and `rename` are
    /// left to the collection.
    pub fn apply(&self, motion: &mut Motion)
        ensures
            final(motion)@ == self@.applied(old(motion)@),
    {
        motion.game_script = self.game_script.resolve(motion.game_script);
        self.flags.apply(&mut motion.flags);
        motion.blend_frames = self.blend_frames.resolve(motion.blend_frames);
        match &self.animations {
            Field::Assign(entries) => {
                motion.animations = built_animations(entries);
            },
            Field::Unset => {},
        }
        match &self.scripts {
            Field::Assign(list) => {
                motion.scripts = copied_keys(list);
            },
            Field::Unset => {},
        }
        match &self.extra {
            Field::Assign(patch) => {
                patch.apply(&mut motion.extra);
            },
            Field::Unset => {},
        }
    }

    /// Whether the patch says nothing.
    pub fn is_empty(&self) -> (empty: bool)
        ensures
            empty == self@.is_none(),
    {
        !self.game_script.carries() && self.flags.is_empty() && !self.blend_frames.carries()
            && !self.animations.carries() && !self.scripts.carries() && !self.extra.carries()
            && !self.remove && !self.rename.carries()
    }
}

} // verus!
