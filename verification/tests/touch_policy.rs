use fsops::touch::{
    build_script_bytes, bytes_eq, cache_marker_bytes, entry_action, entry_included,
    extension_matches, include_decision, reserved_dir_bytes, source_extension_bytes, touch_plan,
    EntryKind, IncludeDecision, TouchAction, WalkEntry,
};

fn comps(parts: &[&str]) -> Vec<Vec<u8>> {
    parts.iter().map(|p| p.as_bytes().to_vec()).collect()
}

#[test]
fn included_source_file_is_touched() {
    let a = entry_action(&comps(&["a", "b", "c.rs"]), EntryKind::RegularFile);
    assert_eq!(a, TouchAction::Touch);
}

#[test]
fn file_under_reserved_dir_is_skipped() {
    let a = entry_action(&comps(&["a", "target", "d.rs"]), EntryKind::RegularFile);
    assert_eq!(a, TouchAction::Skip);
    let d = include_decision(&comps(&["a", "target", "d.rs"]), EntryKind::RegularFile);
    assert_eq!(d, IncludeDecision::RejectedReservedDir);
}

#[test]
fn reserved_dir_anywhere_in_path_excludes() {
    let a = entry_action(
        &comps(&["work", "target", "deep", "nested", "e.rs"]),
        EntryKind::RegularFile,
    );
    assert_eq!(a, TouchAction::Skip);
    // The reserved name must match a whole component, not a part of one.
    let b = entry_action(&comps(&["my_target", "e.rs"]), EntryKind::RegularFile);
    assert_eq!(b, TouchAction::Touch);
}

#[test]
fn build_script_is_skipped() {
    let a = entry_action(&comps(&["a", "build.rs"]), EntryKind::RegularFile);
    assert_eq!(a, TouchAction::Skip);
    let d = include_decision(&comps(&["a", "build.rs"]), EntryKind::RegularFile);
    assert_eq!(d, IncludeDecision::RejectedBuildScript);
    // A file that merely ends in the script's name is still touched.
    let b = entry_action(&comps(&["a", "prebuild.rs"]), EntryKind::RegularFile);
    assert_eq!(b, TouchAction::Touch);
}

#[test]
fn cache_marker_is_deleted() {
    let a = entry_action(&comps(&["a", "CMakeCache.txt"]), EntryKind::RegularFile);
    assert_eq!(a, TouchAction::DeleteCache);
    // Deleted even under the reserved directory, and whatever its kind.
    let b = entry_action(&comps(&["a", "target", "CMakeCache.txt"]), EntryKind::Other);
    assert_eq!(b, TouchAction::DeleteCache);
}

#[test]
fn wrong_extension_is_skipped() {
    let d = include_decision(&comps(&["a", "CMakeLists.txt"]), EntryKind::RegularFile);
    assert_eq!(d, IncludeDecision::RejectedExtension);
    let e = include_decision(&comps(&["a", "noextension"]), EntryKind::RegularFile);
    assert_eq!(e, IncludeDecision::RejectedExtension);
    // A leading dot alone does not make an extension.
    let f = include_decision(&comps(&["a", ".rs"]), EntryKind::RegularFile);
    assert_eq!(f, IncludeDecision::RejectedExtension);
    // A trailing dot leaves an empty extension.
    let g = include_decision(&comps(&["a", "c.rs."]), EntryKind::RegularFile);
    assert_eq!(g, IncludeDecision::RejectedExtension);
    // The last dot decides: "x.rs.txt" has extension "txt".
    let h = include_decision(&comps(&["a", "x.rs.txt"]), EntryKind::RegularFile);
    assert_eq!(h, IncludeDecision::RejectedExtension);
    // ... and "x.txt.rs" has extension "rs".
    let i = include_decision(&comps(&["a", "x.txt.rs"]), EntryKind::RegularFile);
    assert_eq!(i, IncludeDecision::Accepted);
}

#[test]
fn only_regular_files_are_touched() {
    let d = include_decision(&comps(&["a", "dir.rs"]), EntryKind::Directory);
    assert_eq!(d, IncludeDecision::RejectedNotRegularFile);
    let e = include_decision(&comps(&["a", "link.rs"]), EntryKind::Other);
    assert_eq!(e, IncludeDecision::RejectedNotRegularFile);
    assert!(entry_included(&comps(&["a", "file.rs"]), EntryKind::RegularFile));
    assert!(!entry_included(&comps(&["a", "file.rs"]), EntryKind::Directory));
}

#[test]
fn empty_path_is_skipped() {
    let a = entry_action(&comps(&[]), EntryKind::RegularFile);
    assert_eq!(a, TouchAction::Skip);
}

#[test]
fn policy_names_are_the_expected_ones() {
    assert_eq!(reserved_dir_bytes(), b"target".to_vec());
    assert_eq!(source_extension_bytes(), b"rs".to_vec());
    assert_eq!(build_script_bytes(), b"build.rs".to_vec());
    assert_eq!(cache_marker_bytes(), b"CMakeCache.txt".to_vec());
}

#[test]
fn extension_is_what_follows_the_last_dot() {
    assert!(extension_matches(&b"c.rs".to_vec(), &b"rs".to_vec()));
    assert!(extension_matches(&b"archive.tar.gz".to_vec(), &b"gz".to_vec()));
    assert!(!extension_matches(&b"archive.tar.gz".to_vec(), &b"tar.gz".to_vec()));
    assert!(!extension_matches(&b"noext".to_vec(), &b"rs".to_vec()));
    assert!(!extension_matches(&b".rs".to_vec(), &b"rs".to_vec()));
    assert!(!extension_matches(&b"".to_vec(), &b"rs".to_vec()));
}

#[test]
fn component_equality_is_byte_for_byte() {
    assert!(bytes_eq(&b"target".to_vec(), &b"target".to_vec()));
    assert!(!bytes_eq(&b"target".to_vec(), &b"Target".to_vec()));
    assert!(!bytes_eq(&b"target".to_vec(), &b"targets".to_vec()));
    assert!(bytes_eq(&b"".to_vec(), &b"".to_vec()));
}

#[test]
fn walk_scenario_plans_each_entry() {
    // The walk of a small tree: an included source file, a file under the
    // reserved directory, the build script, and a cache marker.
    let entries = vec![
        WalkEntry { path: comps(&["a"]), kind: EntryKind::Directory },
        WalkEntry { path: comps(&["a", "b"]), kind: EntryKind::Directory },
        WalkEntry { path: comps(&["a", "b", "c.rs"]), kind: EntryKind::RegularFile },
        WalkEntry { path: comps(&["a", "target"]), kind: EntryKind::Directory },
        WalkEntry { path: comps(&["a", "target", "d.rs"]), kind: EntryKind::RegularFile },
        WalkEntry { path: comps(&["a", "build.rs"]), kind: EntryKind::RegularFile },
        WalkEntry { path: comps(&["a", "CMakeCache.txt"]), kind: EntryKind::RegularFile },
    ];
    let plan = touch_plan(&entries);
    assert_eq!(
        plan,
        vec![
            TouchAction::Skip,
            TouchAction::Skip,
            TouchAction::Touch,
            TouchAction::Skip,
            TouchAction::Skip,
            TouchAction::Skip,
            TouchAction::DeleteCache,
        ]
    );
}
