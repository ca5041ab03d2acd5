use fsops::tree::{tree_stats, FsNode};

fn dir(children: Vec<FsNode>) -> FsNode {
    FsNode::Dir { children }
}

fn file(size: u64) -> FsNode {
    FsNode::File { size }
}

#[test]
fn test_get_file_count_and_size() {
    // The tree a/b/c.rs (1024), a/b/d.rs (16), a/x.rs (32),
    // b/x.rs (64), b/x2.rs (64), x.rs (128).
    let root = dir(vec![
        dir(vec![dir(vec![file(1024), file(16)]), file(32)]),
        dir(vec![file(64), file(64)]),
        file(128),
    ]);
    let (files, size) = tree_stats(&root).unwrap();
    assert_eq!(files, 6);
    assert_eq!(size, 1024 + 16 + 32 + 64 + 64 + 128);
}

#[test]
fn single_file_counts_once() {
    assert_eq!(tree_stats(&file(7)), Some((1, 7)));
}

#[test]
fn empty_directory_is_zero() {
    assert_eq!(tree_stats(&dir(vec![])), Some((0, 0)));
}

#[test]
fn missing_or_special_path_is_zero() {
    // A path that is neither a regular file nor a directory contributes
    // nothing and is no error.
    assert_eq!(tree_stats(&FsNode::Other), Some((0, 0)));
    let mixed = dir(vec![FsNode::Other, file(5), FsNode::Other]);
    assert_eq!(tree_stats(&mixed), Some((1, 5)));
}

#[test]
fn directories_contribute_nothing() {
    let nested = dir(vec![dir(vec![dir(vec![])]), dir(vec![])]);
    assert_eq!(tree_stats(&nested), Some((0, 0)));
}

#[test]
fn nesting_depth_does_not_matter() {
    let flat = dir(vec![file(1), file(2), file(3)]);
    let deep = dir(vec![dir(vec![file(1), dir(vec![file(2), dir(vec![file(3)])])])]);
    assert_eq!(tree_stats(&flat), Some((3, 6)));
    assert_eq!(tree_stats(&deep), Some((3, 6)));
}

#[test]
fn size_overflow_is_reported() {
    let too_big = dir(vec![file(u64::MAX), file(1)]);
    assert_eq!(tree_stats(&too_big), None);
    let just_fits = dir(vec![file(u64::MAX), file(0)]);
    assert_eq!(tree_stats(&just_fits), Some((2, u64::MAX)));
}
