//! The record model: a motion entry and the shapes it is made of.
use vstd::prelude::*;

verus! {

/// A 40-bit hash of a name. Keys are compared as numbers; the name a key was
/// made from plays no part in equality, ordering or patching.
pub type Key = u64;

/// The fourteen independent switches of a motion.
#[derive(Clone, Copy, Debug, PartialEq, Eq, Structural)]
pub struct Flags {
    pub turn: bool,
    pub looped: bool,
    pub moved: bool,
    pub fix_trans: bool,
    pub fix_rot: bool,
    pub fix_scale: bool,
    pub unk_40: bool,
    pub unk_80: bool,
    pub unk_100: bool,
    pub unk_200: bool,
    pub unk_400: bool,
    pub unk_800: bool,
    pub unk_1000: bool,
    pub unk_2000: bool,
}

/// The optional substructure of a motion.
#[derive(Clone, Copy, Debug, PartialEq, Eq, Structural)]
pub struct Extra {
    pub intangible_start_frame: u8,
    pub intangible_end_frame: u8,
    pub cancel_frame: u8,
    pub freeze_during_hitstop: bool,
}

/// One animation of a motion. `aux` is 0 unless stated otherwise.
#[derive(Clone, Copy, Debug, PartialEq, Eq, Structural)]
pub struct Animation {
    pub name: Key,
    pub aux: u8,
}

/// A motion record.
#[derive(Clone, Debug, PartialEq, Eq)]
pub struct Motion {
    pub game_script: Key,
    pub flags: Flags,
    pub blend_frames: u8,
    pub animations: Vec<Animation>,
    pub scripts: Vec<Key>,
    pub extra: Option<Extra>,
}

/// What a motion record holds, with its lists as sequences.
pub struct MotionView {
    pub game_script: Key,
    pub flags: Flags,
    pub blend_frames: u8,
    pub animations: Seq<Animation>,
    pub scripts: Seq<Key>,
    pub extra: Option<Extra>,
}

impl View for Motion {
    type V = MotionView;

    open spec fn view(&self) -> MotionView {
        MotionView {
            game_script: self.game_script,
            flags: self.flags,
            blend_frames: self.blend_frames,
            animations: self.animations@,
            scripts: self.scripts@,
            extra: self.extra,
        }
    }
}

impl Flags {
    /// All fourteen switches off.
    pub open spec fn cleared() -> Flags {
        Flags {
            turn: false,
            looped: false,
            moved: false,
            fix_trans: false,
            fix_rot: false,
            fix_scale: false,
            unk_40: false,
            unk_80: false,
            unk_100: false,
            unk_200: false,
            unk_400: false,
            unk_800: false,
            unk_1000: false,
            unk_2000: false,
        }
    }
}

impl Default for Flags {
    fn default() -> (flags: Flags)
        ensures
            flags == Flags::cleared(),
    {
        Flags {
            turn: false,
            looped: false,
            moved: false,
            fix_trans: false,
            fix_rot: false,
            fix_scale: false,
            unk_40: false,
            unk_80: false,
            unk_100: false,
            unk_200: false,
            unk_400: false,
            unk_800: false,
            unk_1000: false,
            unk_2000: false,
        }
    }
}

impl Extra {
    /// The substructure a record gets when a patch has to create one.
    pub open spec fn blank() -> Extra {
        Extra {
            intangible_start_frame: 0,
            intangible_end_frame: 0,
            cancel_frame: 0,
            freeze_during_hitstop: false,
        }
    }
}

impl Default for Extra {
    fn default() -> (extra: Extra)
        ensures
            extra == Extra::blank(),
    {
        Extra {
            intangible_start_frame: 0,
            intangible_end_frame: 0,
            cancel_frame: 0,
            freeze_during_hitstop: false,
        }
    }
}

impl MotionView {
    /// The record that stands in for one that a collection does not hold.
    pub open spec fn blank() -> MotionView {
        MotionView {
            game_script: 0,
            flags: Flags::cleared(),
            blend_frames: 0,
            animations: Seq::empty(),
            scripts: Seq::empty(),
            extra: None,
        }
    }
}

impl Default for Motion {
    fn default() -> (motion: Motion)
        ensures
            motion@ == MotionView::blank(),
    {
        Motion {
            game_script: 0,
            flags: Flags::default(),
            blend_frames: 0,
            animations: Vec::new(),
            scripts: Vec::new(),
            extra: None,
        }
    }
}

} // verus!
