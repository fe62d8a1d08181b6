use rustyflutter_build::error::{BuildError, FileOperation};
use rustyflutter_build::fstree::{FsNode, FsTree};
use rustyflutter_build::path::FsPath;
use rustyflutter_build::utils::{
    get_artifacts_dir, mkdir, symlink_strategy, LinkStrategy, OsFamily,
};

fn abs(segments: &[&str]) -> FsPath {
    FsPath {
        absolute: true,
        segments: segments.iter().map(|s| s.to_string()).collect(),
    }
}

fn rel(segments: &[&str]) -> FsPath {
    FsPath {
        absolute: false,
        segments: segments.iter().map(|s| s.to_string()).collect(),
    }
}

fn file_bytes(tree: &FsTree, p: &FsPath) -> Option<Vec<u8>> {
    match tree.node_at(p) {
        Some(FsNode::File(bytes)) => Some(bytes),
        _ => None,
    }
}

#[test]
fn mkdir_creates_all_components() {
    let mut tree = FsTree::new();
    let target = abs(&["a", "b", "c"]);
    let created = mkdir(&mut tree, &target, None).unwrap();
    assert_eq!(created.render().as_str(), "/a/b/c");
    assert!(tree.is_dir_at(&abs(&["a"])));
    assert!(tree.is_dir_at(&abs(&["a", "b"])));
    assert!(tree.is_dir_at(&abs(&["a", "b", "c"])));
}

#[test]
fn mkdir_is_idempotent_with_no_change() {
    let mut tree = FsTree::new();
    let target = abs(&["a", "b", "c"]);
    mkdir(&mut tree, &target, None).unwrap();
    let entries_before = tree.entries.len();
    // Creating a tree that already fully exists is success and changes
    // nothing at all.
    mkdir(&mut tree, &target, None).unwrap();
    assert_eq!(tree.entries.len(), entries_before);
}

#[test]
fn mkdir_with_subpath_joins() {
    let mut tree = FsTree::new();
    let created = mkdir(&mut tree, &abs(&["out"]), Some(&rel(&["flutter", "engine"]))).unwrap();
    assert_eq!(created.render().as_str(), "/out/flutter/engine");
    assert!(tree.is_dir_at(&abs(&["out", "flutter", "engine"])));
}

#[test]
fn mkdir_fails_on_file_in_the_way() {
    let mut tree = FsTree::new();
    mkdir(&mut tree, &abs(&["a"]), None).unwrap();
    tree.set_node(&abs(&["a", "b"]), FsNode::File(vec![1]));
    let entries_before = tree.entries.len();
    let err = mkdir(&mut tree, &abs(&["a", "b", "c"]), None).unwrap_err();
    match err {
        BuildError::FileOperationError { operation, path, source_path, .. } => {
            assert!(matches!(operation, FileOperation::MkDir));
            assert_eq!(path.as_str(), "/a/b/c");
            assert!(source_path.is_none());
        }
        other => panic!("unexpected error: {}", other.format_message()),
    }
    assert_eq!(tree.entries.len(), entries_before);
}

#[test]
fn copy_tree_preserves_every_file() {
    let mut tree = FsTree::new();
    mkdir(&mut tree, &abs(&["src", "sub"]), None).unwrap();
    tree.set_node(&abs(&["src", "one.txt"]), FsNode::File(vec![1, 2, 3]));
    tree.set_node(&abs(&["src", "sub", "two.txt"]), FsNode::File(vec![4, 5]));
    mkdir(&mut tree, &abs(&["dst"]), None).unwrap();
    tree.copy_tree(&abs(&["src"]), &abs(&["dst", "copy"])).unwrap();
    // Byte-for-byte comparison of source and destination.
    assert_eq!(file_bytes(&tree, &abs(&["src", "one.txt"])), Some(vec![1, 2, 3]));
    assert_eq!(file_bytes(&tree, &abs(&["dst", "copy", "one.txt"])), Some(vec![1, 2, 3]));
    assert_eq!(
        file_bytes(&tree, &abs(&["dst", "copy", "sub", "two.txt"])),
        Some(vec![4, 5])
    );
    assert!(tree.is_dir_at(&abs(&["dst", "copy", "sub"])));
}

#[test]
fn copy_tree_overwrites_conflicting_destination_files() {
    let mut tree = FsTree::new();
    mkdir(&mut tree, &abs(&["src"]), None).unwrap();
    tree.set_node(&abs(&["src", "f"]), FsNode::File(vec![9]));
    mkdir(&mut tree, &abs(&["dst"]), None).unwrap();
    tree.set_node(&abs(&["dst", "f"]), FsNode::File(vec![0]));
    tree.set_node(&abs(&["dst", "keep"]), FsNode::File(vec![7]));
    tree.copy_tree(&abs(&["src"]), &abs(&["dst"])).unwrap();
    assert_eq!(file_bytes(&tree, &abs(&["dst", "f"])), Some(vec![9]));
    // Destination directories are merged: unrelated files survive.
    assert_eq!(file_bytes(&tree, &abs(&["dst", "keep"])), Some(vec![7]));
}

#[test]
fn copy_tree_missing_source_is_an_error() {
    let mut tree = FsTree::new();
    let err = tree.copy_tree(&abs(&["nowhere"]), &abs(&["dst"])).unwrap_err();
    match err {
        BuildError::FileOperationError { operation, path, source_path, .. } => {
            assert!(matches!(operation, FileOperation::CopyDir));
            assert_eq!(path.as_str(), "/dst");
            assert_eq!(source_path.as_deref(), Some("/nowhere"));
        }
        other => panic!("unexpected error: {}", other.format_message()),
    }
}

#[test]
fn get_artifacts_dir_goes_three_levels_up() {
    let out = abs(&["home", "proj", "target", "debug", "build", "x"]);
    let dir = get_artifacts_dir(&out).unwrap();
    assert_eq!(dir.render().as_str(), "/home/proj/target");
}

#[test]
fn get_artifacts_dir_rejects_shallow_output() {
    let out = abs(&["a", "b"]);
    let err = get_artifacts_dir(&out).unwrap_err();
    match err {
        BuildError::FileOperationError { operation, path, source_path, .. } => {
            assert!(matches!(operation, FileOperation::Canonicalize));
            // The failure names the joined path the canonicalize step
            // works on, not the bare output directory.
            assert_eq!(path.as_str(), "/a/b/../../..");
            assert!(source_path.is_none());
        }
        other => panic!("unexpected error: {}", other.format_message()),
    }
}

#[test]
fn remove_drops_the_whole_subtree() {
    let mut tree = FsTree::new();
    mkdir(&mut tree, &abs(&["a", "b"]), None).unwrap();
    tree.set_node(&abs(&["a", "b", "f"]), FsNode::File(vec![1]));
    tree.set_node(&abs(&["a", "keep"]), FsNode::File(vec![2]));
    tree.remove(&abs(&["a", "b"]));
    assert!(tree.node_at(&abs(&["a", "b"])).is_none());
    assert!(tree.node_at(&abs(&["a", "b", "f"])).is_none());
    assert_eq!(file_bytes(&tree, &abs(&["a", "keep"])), Some(vec![2]));
}

#[test]
fn remove_of_a_missing_target_is_success() {
    let mut tree = FsTree::new();
    mkdir(&mut tree, &abs(&["a"]), None).unwrap();
    let entries_before = tree.entries.len();
    tree.remove(&abs(&["nowhere"]));
    assert_eq!(tree.entries.len(), entries_before);
    assert!(tree.is_dir_at(&abs(&["a"])));
}

#[test]
fn move_tree_copies_then_removes_the_source() {
    let mut tree = FsTree::new();
    mkdir(&mut tree, &abs(&["src"]), None).unwrap();
    tree.set_node(&abs(&["src", "f"]), FsNode::File(vec![3]));
    mkdir(&mut tree, &abs(&["dst"]), None).unwrap();
    tree.move_tree(&abs(&["src"]), &abs(&["dst", "moved"])).unwrap();
    assert!(tree.node_at(&abs(&["src"])).is_none());
    assert_eq!(file_bytes(&tree, &abs(&["dst", "moved", "f"])), Some(vec![3]));
}

#[test]
fn move_tree_missing_source_is_an_error() {
    let mut tree = FsTree::new();
    let err = tree.move_tree(&abs(&["gone"]), &abs(&["dst"])).unwrap_err();
    match err {
        BuildError::FileOperationError { operation, .. } => {
            assert!(matches!(operation, FileOperation::Move));
        }
        other => panic!("unexpected error: {}", other.format_message()),
    }
}

#[test]
fn archive_with_one_wrapper_folder_is_stripped() {
    let members = vec![
        rel(&["pkg", "lib", "a.so"]),
        rel(&["pkg", "readme"]),
        rel(&["pkg"]),
    ];
    let root = rustyflutter_build::utils::archive_strip_root(&members);
    assert_eq!(root.as_deref(), Some("pkg"));
}

#[test]
fn archive_with_mixed_roots_is_not_stripped() {
    let members = vec![rel(&["pkg", "a"]), rel(&["other", "b"])];
    assert!(rustyflutter_build::utils::archive_strip_root(&members).is_none());
    assert!(rustyflutter_build::utils::archive_strip_root(&Vec::new()).is_none());
}

#[test]
fn symlink_strategy_follows_os_family() {
    assert!(matches!(symlink_strategy(OsFamily::Unix), LinkStrategy::NativeSymlink));
    assert!(matches!(
        symlink_strategy(OsFamily::Windows),
        LinkStrategy::JunctionOrFileLink
    ));
}

#[test]
fn path_rendering_and_resolution() {
    assert_eq!(abs(&["a", "b"]).render().as_str(), "/a/b");
    assert_eq!(rel(&["a", "b"]).render().as_str(), "a/b");
    assert_eq!(FsPath::root().render().as_str(), "/");
    let manifest_dir = abs(&["proj"]);
    let resolved = rustyflutter_build::path::get_absolute_path(&rel(&["assets"]), &manifest_dir);
    assert_eq!(resolved.render().as_str(), "/proj/assets");
    let already = rustyflutter_build::path::get_absolute_path(&abs(&["etc"]), &manifest_dir);
    assert_eq!(already.render().as_str(), "/etc");
}
