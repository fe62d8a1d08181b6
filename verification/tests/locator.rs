use rustyflutter_build::error::BuildError;
use rustyflutter_build::fstree::{FsNode, FsTree};
use rustyflutter_build::locator::{locate, validate_installation, LocatorConfig};
use rustyflutter_build::path::FsPath;

fn abs(segments: &[&str]) -> FsPath {
    FsPath {
        absolute: true,
        segments: segments.iter().map(|s| s.to_string()).collect(),
    }
}

fn sdk_at(tree: &mut FsTree, root: &[&str]) {
    let mut path = Vec::new();
    for seg in root {
        path.push(*seg);
        tree.set_node(&abs(&path), FsNode::Dir);
    }
    let mut bin = root.to_vec();
    bin.push("bin");
    tree.set_node(&abs(&bin), FsNode::Dir);
    bin.push("flutter");
    tree.set_node(&abs(&bin), FsNode::File(vec![]));
}

fn cfg_explicit(p: FsPath) -> LocatorConfig {
    LocatorConfig {
        explicit_path: Some(p),
        env_path: None,
        path_lookup: None,
        local_engine: None,
    }
}

#[test]
fn valid_explicit_root_is_found() {
    let mut tree = FsTree::new();
    sdk_at(&mut tree, &["opt", "flutter"]);
    assert!(validate_installation(&tree, &abs(&["opt", "flutter"])));
    let inst = locate(&cfg_explicit(abs(&["opt", "flutter"])), &tree).unwrap();
    assert_eq!(inst.root.render().as_str(), "/opt/flutter");
    assert!(inst.local_engine.is_none());
}

#[test]
fn explicit_root_missing_binary_is_invalid() {
    let mut tree = FsTree::new();
    tree.set_node(&abs(&["opt"]), FsNode::Dir);
    tree.set_node(&abs(&["opt", "flutter"]), FsNode::Dir);
    // No bin/flutter below the root: structural validation fails and the
    // error references that exact path.
    assert!(!validate_installation(&tree, &abs(&["opt", "flutter"])));
    let err = locate(&cfg_explicit(abs(&["opt", "flutter"])), &tree).unwrap_err();
    match err {
        BuildError::FlutterPathInvalidError { path } => {
            assert_eq!(path.as_str(), "/opt/flutter");
        }
        other => panic!("unexpected error: {}", other.format_message()),
    }
}

#[test]
fn no_candidate_at_all_is_not_found() {
    let tree = FsTree::new();
    let cfg = LocatorConfig {
        explicit_path: None,
        env_path: Some(abs(&["missing"])),
        path_lookup: None,
        local_engine: None,
    };
    let err = locate(&cfg, &tree).unwrap_err();
    assert!(matches!(err, BuildError::FlutterNotFoundError));
}

#[test]
fn invalid_env_candidate_falls_back_to_path_lookup() {
    let mut tree = FsTree::new();
    tree.set_node(&abs(&["bad"]), FsNode::Dir);
    sdk_at(&mut tree, &["good"]);
    let cfg = LocatorConfig {
        explicit_path: None,
        env_path: Some(abs(&["bad"])),
        path_lookup: Some(abs(&["good"])),
        local_engine: None,
    };
    let inst = locate(&cfg, &tree).unwrap();
    assert_eq!(inst.root.render().as_str(), "/good");
}

#[test]
fn invalid_env_candidate_alone_is_reported_invalid() {
    let mut tree = FsTree::new();
    tree.set_node(&abs(&["bad"]), FsNode::Dir);
    let cfg = LocatorConfig {
        explicit_path: None,
        env_path: Some(abs(&["bad"])),
        path_lookup: None,
        local_engine: None,
    };
    let err = locate(&cfg, &tree).unwrap_err();
    match err {
        BuildError::FlutterPathInvalidError { path } => assert_eq!(path.as_str(), "/bad"),
        other => panic!("unexpected error: {}", other.format_message()),
    }
}

#[test]
fn missing_local_engine_override_fails() {
    let mut tree = FsTree::new();
    sdk_at(&mut tree, &["sdk"]);
    let cfg = LocatorConfig {
        explicit_path: Some(abs(&["sdk"])),
        env_path: None,
        path_lookup: None,
        local_engine: Some(abs(&["engine", "out"])),
    };
    let err = locate(&cfg, &tree).unwrap_err();
    assert!(matches!(err, BuildError::FlutterLocalEngineNotFound));
}

#[test]
fn present_local_engine_override_is_resolved() {
    let mut tree = FsTree::new();
    sdk_at(&mut tree, &["sdk"]);
    tree.set_node(&abs(&["engine"]), FsNode::Dir);
    let cfg = LocatorConfig {
        explicit_path: Some(abs(&["sdk"])),
        env_path: None,
        path_lookup: None,
        local_engine: Some(abs(&["engine"])),
    };
    let inst = locate(&cfg, &tree).unwrap();
    assert_eq!(inst.local_engine.unwrap().render().as_str(), "/engine");
}
