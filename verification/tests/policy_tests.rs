use lidp_unified::storage::error::StorageError;
use lidp_unified::storage::fs::validate_and_resolve;
use lidp_unified::storage::policy::{path_components, path_starts_with_exec, FolderGrant, Operation, StoragePolicy};

fn policy_on(root: &str, operations: Vec<Operation>) -> StoragePolicy {
    StoragePolicy::new(vec![FolderGrant { root: root.to_string(), operations }])
}

#[test]
fn denies_by_default_and_prevents_prefix_confusion() {
    let policy = policy_on("/tmp/t/a/b", vec![Operation::Read]);
    assert!(policy.authorize_canonical("/tmp/t/a/b/file".to_string(), Operation::Read).is_ok());
    assert!(policy.authorize_canonical("/tmp/t/a/b-private/file".to_string(), Operation::Read).is_err());
}

#[test]
fn grant_covers_its_folder_and_below_only_for_its_operations() {
    let policy = policy_on("/data/shared", vec![Operation::Read, Operation::List]);
    assert_eq!(
        policy.authorize_canonical("/data/shared".to_string(), Operation::List).unwrap(),
        "/data/shared"
    );
    assert!(policy.authorize_canonical("/data/shared/x/y".to_string(), Operation::Read).is_ok());
    match policy.authorize_canonical("/data/shared/x".to_string(), Operation::Write) {
        Err(StorageError::InvalidPath(m)) => assert_eq!(m, "storage capability denied"),
        _ => panic!("expected a denial"),
    }
    assert!(policy.authorize_canonical("/data".to_string(), Operation::Read).is_err());
}

#[test]
fn empty_policy_denies_everything() {
    let policy = StoragePolicy::new(Vec::new());
    assert!(policy.authorize_canonical("/".to_string(), Operation::Read).is_err());
}

#[test]
fn components_follow_unix_paths() {
    assert_eq!(path_components("/a//b/./c/"), vec!["/", "a", "b", "c"]);
    assert_eq!(path_components("./a"), vec![".", "a"]);
    assert_eq!(path_components("a/b"), vec!["a", "b"]);
}

#[test]
fn starts_with_compares_whole_components() {
    assert!(path_starts_with_exec("/a/b/c", "/a/b"));
    assert!(path_starts_with_exec("/a/b/", "/a/b"));
    assert!(!path_starts_with_exec("/a/bc", "/a/b"));
    assert!(!path_starts_with_exec("a/b", "/a"));
}

#[test]
fn resolved_paths_stay_under_their_root() {
    for (root, path) in [("/tmp/storage", "a/b"), ("/tmp/storage/", "./x"), ("rel", "file"), ("/", "etc")] {
        let resolved = validate_and_resolve(root, path).unwrap();
        assert!(path_starts_with_exec(&resolved, root), "{resolved} is not under {root}");
        assert!(!path_components(&resolved).iter().skip(path_components(root).len()).any(|c| c == ".."));
    }
}
