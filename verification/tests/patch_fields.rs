use motion_patch::extra_patch::ExtraPatch;
use motion_patch::field::{diff_byte, diff_key, diff_switch, Field};
use motion_patch::flags_patch::FlagsPatch;
use motion_patch::patch::{
    animation_patches, built_animations, copied_keys, same_animations, same_keys, AnimationPatch,
    MotionPatch,
};
use motion_patch::record::{Animation, Extra, Flags, Motion};

fn extra(start: u8, end: u8, cancel: u8, freeze: bool) -> Extra {
    Extra {
        intangible_start_frame: start,
        intangible_end_frame: end,
        cancel_frame: cancel,
        freeze_during_hitstop: freeze,
    }
}

fn sample() -> Motion {
    Motion {
        game_script: 0x0a_a3cb_8810,
        flags: Flags { turn: true, fix_rot: true, ..Flags::default() },
        blend_frames: 4,
        animations: vec![Animation { name: 11, aux: 0 }, Animation { name: 12, aux: 3 }],
        scripts: vec![21, 22, 23],
        extra: Some(extra(1, 2, 3, true)),
    }
}

#[test]
fn scalar_field_is_set_only_where_values_differ() {
    assert_eq!(diff_byte(4, 4), Field::Unset);
    assert_eq!(diff_byte(4, 0), Field::Assign(0));
    assert_eq!(diff_switch(true, true), Field::Unset);
    assert_eq!(diff_switch(true, false), Field::Assign(false));
    assert_eq!(diff_key(7, 7), Field::Unset);
    assert_eq!(diff_key(7, 0xff_ffff_ffff), Field::Assign(0xff_ffff_ffff));
}

#[test]
fn field_resolves_to_its_value_or_the_current_one() {
    assert_eq!(Field::Assign(9u8).resolve(1), 9);
    assert_eq!(Field::<u8>::Unset.resolve(1), 1);
    assert_eq!(Field::Assign(0u8).resolve(1), 0);
    assert!(Field::Assign(false).carries());
    assert!(!Field::<bool>::Unset.carries());
}

#[test]
fn defaults_are_blank() {
    let motion = Motion::default();
    assert_eq!(motion.game_script, 0);
    assert_eq!(motion.blend_frames, 0);
    assert!(motion.animations.is_empty());
    assert!(motion.scripts.is_empty());
    assert_eq!(motion.extra, None);
    assert_eq!(motion.flags, Flags::default());
    assert!(!Flags::default().turn && !Flags::default().unk_2000);
    assert_eq!(Extra::default(), extra(0, 0, 0, false));
    assert!(MotionPatch::default().is_empty());
    assert!(FlagsPatch::default().is_empty());
}

#[test]
fn one_changed_flag_sets_one_field() {
    let source = sample();
    let mut target = sample();
    target.flags.unk_400 = true;
    let patch = MotionPatch::create(&source, &target);
    let expected = MotionPatch {
        flags: FlagsPatch { unk_400: Field::Assign(true), ..FlagsPatch::default() },
        ..MotionPatch::default()
    };
    assert_eq!(patch, expected);
    assert!(!patch.is_empty());
}

#[test]
fn each_flag_is_diffed_and_applied_on_its_own() {
    let source = Flags { turn: true, looped: false, moved: true, ..Flags::default() };
    let target = Flags { turn: false, looped: false, moved: true, unk_80: true, ..Flags::default() };
    let patch = FlagsPatch::create(&source, &target);
    let expected = FlagsPatch {
        turn: Field::Assign(false),
        unk_80: Field::Assign(true),
        ..FlagsPatch::default()
    };
    assert_eq!(patch, expected);
    // Applied to other flags, the patch touches the two switches it sets.
    let mut other = Flags { turn: true, fix_scale: true, unk_2000: true, ..Flags::default() };
    patch.apply(&mut other);
    assert_eq!(other, Flags { fix_scale: true, unk_80: true, unk_2000: true, ..Flags::default() });
    let mut flags = source;
    patch.apply(&mut flags);
    assert_eq!(flags, target);
}

#[test]
fn equal_flags_give_an_empty_patch() {
    let flags = Flags { fix_trans: true, unk_1000: true, ..Flags::default() };
    let patch = FlagsPatch::create(&flags, &flags);
    assert!(patch.is_empty());
    assert_eq!(patch, FlagsPatch::default());
}

#[test]
fn extra_absent_on_both_sides_gives_no_patch() {
    assert_eq!(ExtraPatch::create(&None, &None), Field::Unset);
}

#[test]
fn extra_new_in_target_sets_all_four_fields() {
    let patch = ExtraPatch::create(&None, &Some(extra(0, 7, 0, false)));
    assert_eq!(
        patch,
        Field::Assign(ExtraPatch {
            remove: false,
            intangible_start_frame: Field::Assign(0),
            intangible_end_frame: Field::Assign(7),
            cancel_frame: Field::Assign(0),
            freeze_during_hitstop: Field::Assign(false),
        })
    );
}

#[test]
fn extra_gone_from_target_gives_remove_and_no_field() {
    let patch = ExtraPatch::create(&Some(extra(1, 2, 3, true)), &None);
    assert_eq!(
        patch,
        Field::Assign(ExtraPatch {
            remove: true,
            intangible_start_frame: Field::Unset,
            intangible_end_frame: Field::Unset,
            cancel_frame: Field::Unset,
            freeze_during_hitstop: Field::Unset,
        })
    );
}

#[test]
fn extra_on_both_sides_is_diffed_field_by_field() {
    let patch = ExtraPatch::create(&Some(extra(1, 2, 3, true)), &Some(extra(1, 9, 3, false)));
    assert_eq!(
        patch,
        Field::Assign(ExtraPatch {
            remove: false,
            intangible_start_frame: Field::Unset,
            intangible_end_frame: Field::Assign(9),
            cancel_frame: Field::Unset,
            freeze_during_hitstop: Field::Assign(false),
        })
    );
    assert_eq!(
        ExtraPatch::create(&Some(extra(1, 2, 3, true)), &Some(extra(1, 2, 3, true))),
        Field::Unset
    );
}

#[test]
fn extra_remove_clears_the_substructure() {
    let patch = ExtraPatch {
        remove: true,
        intangible_start_frame: Field::Assign(5),
        intangible_end_frame: Field::Unset,
        cancel_frame: Field::Unset,
        freeze_during_hitstop: Field::Unset,
    };
    let mut held = Some(extra(1, 2, 3, true));
    patch.apply(&mut held);
    assert_eq!(held, None);
    let mut absent: Option<Extra> = None;
    patch.apply(&mut absent);
    assert_eq!(absent, None);
}

#[test]
fn extra_fields_create_a_blank_substructure_where_there_is_none() {
    let patch = ExtraPatch {
        remove: false,
        intangible_start_frame: Field::Unset,
        intangible_end_frame: Field::Assign(9),
        cancel_frame: Field::Unset,
        freeze_during_hitstop: Field::Assign(true),
    };
    let mut absent: Option<Extra> = None;
    patch.apply(&mut absent);
    assert_eq!(absent, Some(extra(0, 9, 0, true)));
    let mut held = Some(extra(1, 2, 3, false));
    patch.apply(&mut held);
    assert_eq!(held, Some(extra(1, 9, 3, true)));
}

#[test]
fn animation_aux_is_listed_only_where_it_is_not_zero() {
    assert_eq!(
        AnimationPatch::create(&Animation { name: 5, aux: 0 }),
        AnimationPatch { name: 5, aux: Field::Unset }
    );
    assert_eq!(
        AnimationPatch::create(&Animation { name: 5, aux: 200 }),
        AnimationPatch { name: 5, aux: Field::Assign(200) }
    );
    assert_eq!(AnimationPatch { name: 5, aux: Field::Unset }.build(), Animation { name: 5, aux: 0 });
    assert_eq!(
        AnimationPatch { name: 5, aux: Field::Assign(0) }.build(),
        Animation { name: 5, aux: 0 }
    );
    assert_eq!(
        AnimationPatch { name: 5, aux: Field::Assign(7) }.build(),
        Animation { name: 5, aux: 7 }
    );
}

#[test]
fn lists_are_compared_in_length_order_and_value() {
    let a = vec![Animation { name: 1, aux: 0 }, Animation { name: 2, aux: 1 }];
    let swapped = vec![Animation { name: 2, aux: 1 }, Animation { name: 1, aux: 0 }];
    let shorter = vec![Animation { name: 1, aux: 0 }];
    let other_aux = vec![Animation { name: 1, aux: 0 }, Animation { name: 2, aux: 2 }];
    assert!(same_animations(&a, &a.clone()));
    assert!(!same_animations(&a, &swapped));
    assert!(!same_animations(&a, &shorter));
    assert!(!same_animations(&a, &other_aux));
    assert!(same_animations(&Vec::new(), &Vec::new()));
    assert!(same_keys(&vec![1, 2, 3], &vec![1, 2, 3]));
    assert!(!same_keys(&vec![1, 2, 3], &vec![1, 3, 2]));
    assert!(!same_keys(&vec![1, 2, 3], &vec![1, 2]));
    assert_eq!(copied_keys(&vec![9, 8, 7]), vec![9, 8, 7]);
    assert_eq!(
        animation_patches(&a),
        vec![
            AnimationPatch { name: 1, aux: Field::Unset },
            AnimationPatch { name: 2, aux: Field::Assign(1) }
        ]
    );
    assert_eq!(built_animations(&animation_patches(&a)), a);
}

#[test]
fn a_changed_list_is_recorded_whole() {
    let source = sample();
    let mut target = sample();
    target.scripts = vec![21, 23, 22];
    target.animations.push(Animation { name: 13, aux: 0 });
    let patch = MotionPatch::create(&source, &target);
    let expected = MotionPatch {
        animations: Field::Assign(vec![
            AnimationPatch { name: 11, aux: Field::Unset },
            AnimationPatch { name: 12, aux: Field::Assign(3) },
            AnimationPatch { name: 13, aux: Field::Unset },
        ]),
        scripts: Field::Assign(vec![21, 23, 22]),
        ..MotionPatch::default()
    };
    assert_eq!(patch, expected);
}

#[test]
fn equal_records_give_an_empty_patch() {
    let patch = MotionPatch::create(&sample(), &sample());
    assert!(patch.is_empty());
    assert_eq!(patch, MotionPatch::default());
}

#[test]
fn record_patch_applied_to_its_source_gives_its_target() {
    let source = sample();
    let target = Motion {
        game_script: 99,
        flags: Flags { looped: true, ..Flags::default() },
        blend_frames: 0,
        animations: vec![Animation { name: 12, aux: 0 }],
        scripts: vec![],
        extra: None,
    };
    let patch = MotionPatch::create(&source, &target);
    assert_eq!(patch.game_script, Field::Assign(99));
    assert_eq!(patch.blend_frames, Field::Assign(0));
    assert_eq!(patch.scripts, Field::Assign(vec![]));
    assert!(!patch.remove);
    assert_eq!(patch.rename, Field::Unset);
    let mut motion = sample();
    patch.apply(&mut motion);
    assert_eq!(motion, target);
    // A second application changes nothing.
    patch.apply(&mut motion);
    assert_eq!(motion, target);
}

#[test]
fn unset_fields_leave_the_record_as_it_is() {
    let patch = MotionPatch { blend_frames: Field::Assign(0), ..MotionPatch::default() };
    let mut motion = sample();
    patch.apply(&mut motion);
    assert_eq!(motion, Motion { blend_frames: 0, ..sample() });
}

#[test]
fn bare_removal_sets_remove_and_nothing_else() {
    let patch = MotionPatch::removal();
    assert_eq!(patch, MotionPatch { remove: true, ..MotionPatch::default() });
    assert!(!patch.is_empty());
}

#[test]
fn a_patch_with_only_a_rename_is_not_empty() {
    let patch = MotionPatch { rename: Field::Assign(3), ..MotionPatch::default() };
    assert!(!patch.is_empty());
}
