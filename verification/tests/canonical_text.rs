use hash40::Hash40;
use motion_patch::canonical::{canonical_text, settle};
use motion_patch::collection::Patches;
use motion_patch::patch::MotionPatch;

/// The first pass over a collection of bare removals: one entry for each
/// key in ascending key order, the key rendered as its label.
fn first_pass(patches: &Patches) -> String {
    let mut text = String::new();
    for (key, patch) in patches.iter() {
        assert!(patch.remove);
        text.push_str(&format!("{}:\n  remove: true\n", Hash40(*key).to_label()));
    }
    text
}

#[test]
fn settle_prefers_the_resorted_text() {
    assert_eq!(settle("b: 1\na: 2\n".to_string(), Some("a: 2\nb: 1\n".to_string())), "a: 2\nb: 1\n");
    assert_eq!(settle("b: 1\na: 2\n".to_string(), None), "b: 1\na: 2\n");
    assert_eq!(settle(String::new(), Some(String::new())), "");
}

#[test]
fn entries_are_ordered_by_label_not_by_number() {
    let abc: u64 = 0x03_0000_0002;
    let xyz: u64 = 0x03_0000_0001;
    assert!(abc > xyz);
    Hash40::label_map().lock().unwrap().add_custom_labels(
        vec![(Hash40(abc), "abc".to_string()), (Hash40(xyz), "xyz".to_string())].into_iter(),
    );
    let mut patches = Patches::new();
    patches.insert(abc, MotionPatch::removal());
    patches.insert(xyz, MotionPatch::removal());
    let first = first_pass(&patches);
    assert_eq!(first, "xyz:\n  remove: true\nabc:\n  remove: true\n");
    let text = canonical_text(first);
    assert_eq!(text, "abc:\n  remove: true\nxyz:\n  remove: true\n");
    assert!(text.find("abc").unwrap() < text.find("xyz").unwrap());
}

#[test]
fn keys_without_a_label_are_ordered_by_their_number_as_text() {
    let mut patches = Patches::new();
    patches.insert(0x0a_a3cb_8810, MotionPatch::removal());
    patches.insert(0x01_e8b7_be43, MotionPatch::removal());
    let first = first_pass(&patches);
    assert_eq!(first, "0x01e8b7be43:\n  remove: true\n0x0aa3cb8810:\n  remove: true\n");
    let text = canonical_text(first);
    assert!(text.find("0x01e8b7be43").unwrap() < text.find("0x0aa3cb8810").unwrap());
}

#[test]
fn nested_values_come_through_the_second_pass() {
    let first = "walk:\n  blend_frames: 3\n  scripts:\n  - b\n  - a\nattack:\n  remove: true\n";
    let text = canonical_text(first.to_string());
    assert_eq!(
        text,
        "attack:\n  remove: true\nwalk:\n  blend_frames: 3\n  scripts:\n  - b\n  - a\n"
    );
}

#[test]
fn text_that_cannot_be_read_back_is_written_as_it_is() {
    let broken = "xyz: [1, 2\nabc: 3\n";
    assert_eq!(canonical_text(broken.to_string()), broken);
    let list = "- xyz\n- abc\n";
    assert_eq!(canonical_text(list.to_string()), list);
}

#[test]
fn already_ordered_text_stays_ordered() {
    let text = "abc:\n  remove: true\nxyz:\n  remove: true\n";
    assert_eq!(canonical_text(text.to_string()), text);
}
