use motion_patch::collection::{Patches, Records};
use motion_patch::command::{Args, Failure, Started};
use motion_patch::field::Field;
use motion_patch::patch::MotionPatch;
use motion_patch::record::Motion;
use std::path::PathBuf;

fn diff_args() -> Args {
    Args::Diff {
        labels: PathBuf::from("labels.txt"),
        source: PathBuf::from("old/motion_list.bin"),
        target: PathBuf::from("new/motion_list.bin"),
        output: PathBuf::from("patch.yaml"),
    }
}

fn apply_args() -> Args {
    Args::Apply {
        source: PathBuf::from("old/motion_list.bin"),
        patch: PathBuf::from("patch.yaml"),
        output: PathBuf::from("out/motion_list.bin"),
    }
}

fn one(key: u64, blend_frames: u8) -> Records {
    let mut store = Records::new();
    store.insert(key, Motion { blend_frames, ..Motion::default() });
    store
}

#[test]
fn failures_report_their_lines() {
    assert_eq!(Failure::Labels.lines(), vec!["Pass a valid labels file"]);
    assert_eq!(Failure::Source.lines(), vec!["Pass a valid source motion_list.bin file"]);
    assert_eq!(Failure::Target.lines(), vec!["Pass a valid target motion_list.bin file"]);
    assert_eq!(Failure::PatchFile.lines(), vec!["Pass a valid patch file"]);
    assert_eq!(Failure::PatchText.lines(), vec!["The patch file was not valid yaml!"]);
    assert_eq!(Failure::RecordsUnwritten.lines(), vec!["Failed to write new motion file!"]);
    assert_eq!(
        Failure::PatchUnwritten("a: 1\n".to_string()).lines(),
        vec!["Failed to write patch file!", "a: 1\n"]
    );
}

#[test]
fn diff_runs_through_its_stages() {
    let stage = match diff_args().perform() {
        Started::Diff(stage) => stage,
        Started::Apply(_) => panic!("diff started as apply"),
    };
    assert_eq!(stage.labels, PathBuf::from("labels.txt"));
    let stage = stage.loaded(true).unwrap();
    assert_eq!(stage.source, PathBuf::from("old/motion_list.bin"));
    let stage = stage.opened(Some(one(0x0a_a3cb_8810, 1))).unwrap();
    assert_eq!(stage.target, PathBuf::from("new/motion_list.bin"));
    assert_eq!(stage.source, one(0x0a_a3cb_8810, 1));
    let stage = stage.opened(Some(one(0x0a_a3cb_8810, 2))).unwrap();
    let mut expected = Patches::new();
    expected.insert(
        0x0a_a3cb_8810,
        MotionPatch { blend_frames: Field::Assign(2), ..MotionPatch::default() },
    );
    assert_eq!(stage.patches, expected);
    let stage = stage.rendered("walk:\n  blend_frames: 2\nattack:\n  remove: true\n".to_string());
    assert_eq!(stage.output, PathBuf::from("patch.yaml"));
    assert_eq!(stage.text, "attack:\n  remove: true\nwalk:\n  blend_frames: 2\n");
    assert_eq!(stage.written(true), Ok(()));
}

#[test]
fn diff_stops_at_the_first_failure() {
    let labels = |args: Args| match args.perform() {
        Started::Diff(stage) => stage,
        Started::Apply(_) => panic!("diff started as apply"),
    };
    assert_eq!(labels(diff_args()).loaded(false).unwrap_err(), Failure::Labels);
    let source = labels(diff_args()).loaded(true).unwrap();
    assert_eq!(source.opened(None).unwrap_err(), Failure::Source);
    let target = labels(diff_args()).loaded(true).unwrap().opened(Some(Records::new())).unwrap();
    assert_eq!(target.opened(None).unwrap_err(), Failure::Target);
    let write = labels(diff_args())
        .loaded(true)
        .unwrap()
        .opened(Some(Records::new()))
        .unwrap()
        .opened(Some(Records::new()))
        .unwrap()
        .rendered("{}\n".to_string());
    assert_eq!(write.written(false), Err(Failure::PatchUnwritten("{}\n".to_string())));
}

#[test]
fn apply_runs_through_its_stages() {
    let stage = match apply_args().perform() {
        Started::Apply(stage) => stage,
        Started::Diff(_) => panic!("apply started as diff"),
    };
    assert_eq!(stage.source, PathBuf::from("old/motion_list.bin"));
    let stage = stage.opened(Some(one(3, 1))).unwrap();
    assert_eq!(stage.patch, PathBuf::from("patch.yaml"));
    let stage = stage.read(Some("text".to_string())).unwrap();
    assert_eq!(stage.text, "text");
    assert_eq!(stage.records, one(3, 1));
    let mut patches = Patches::new();
    patches.insert(3, MotionPatch { blend_frames: Field::Assign(9), ..MotionPatch::default() });
    let stage = stage.parsed(Some(patches)).unwrap();
    assert_eq!(stage.records, one(3, 9));
    assert_eq!(stage.output, PathBuf::from("out/motion_list.bin"));
    assert_eq!(stage.saved(true), Ok(()));
}

#[test]
fn apply_stops_at_the_first_failure() {
    let source = |args: Args| match args.perform() {
        Started::Apply(stage) => stage,
        Started::Diff(_) => panic!("apply started as diff"),
    };
    assert_eq!(source(apply_args()).opened(None).unwrap_err(), Failure::Source);
    let read = source(apply_args()).opened(Some(Records::new())).unwrap();
    assert_eq!(read.read(None).unwrap_err(), Failure::PatchFile);
    let parse = source(apply_args())
        .opened(Some(Records::new()))
        .unwrap()
        .read(Some(String::new()))
        .unwrap();
    assert_eq!(parse.parsed(None).unwrap_err(), Failure::PatchText);
    let save = source(apply_args())
        .opened(Some(Records::new()))
        .unwrap()
        .read(Some(String::new()))
        .unwrap()
        .parsed(Some(Patches::new()))
        .unwrap();
    assert_eq!(save.saved(false), Err(Failure::RecordsUnwritten));
}
