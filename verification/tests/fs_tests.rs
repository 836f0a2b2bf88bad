use lidp_unified::storage::error::StorageError;
use lidp_unified::storage::fs::validate_and_resolve;
use lidp_unified::storage::service::StorageService;

#[test]
fn test_valid_relative_path() {
    let root = "/tmp/storage";
    let result = validate_and_resolve(root, "file.txt");
    assert!(result.is_ok());
    assert_eq!(result.unwrap(), "/tmp/storage/file.txt");
}

#[test]
fn test_valid_nested_path() {
    let root = "/tmp/storage";
    let result = validate_and_resolve(root, "folder/subfolder/file.txt");
    assert!(result.is_ok());
    assert_eq!(result.unwrap(), "/tmp/storage/folder/subfolder/file.txt");
}

#[test]
fn test_reject_empty_path() {
    let root = "/tmp/storage";
    let result = validate_and_resolve(root, "");
    assert!(matches!(result, Err(StorageError::InvalidPath(_))));
}

#[test]
fn fs_test_reject_absolute_path() {
    let root = "/tmp/storage";
    let result = validate_and_resolve(root, "/etc/passwd");
    assert!(matches!(result, Err(StorageError::InvalidPath(_))));
}

#[test]
fn test_reject_parent_dir_traversal() {
    let root = "/tmp/storage";
    let result = validate_and_resolve(root, "../etc/passwd");
    assert!(matches!(result, Err(StorageError::PathTraversal)));
}

#[test]
fn test_reject_mixed_traversal() {
    let root = "/tmp/storage";
    let result = validate_and_resolve(root, "folder/../../etc/passwd");
    assert!(matches!(result, Err(StorageError::PathTraversal)));
}

#[test]
fn test_allow_dot_in_filename() {
    let root = "/tmp/storage";
    let result = validate_and_resolve(root, "file.tar.gz");
    assert!(result.is_ok());
}

#[test]
fn test_reject_dot_as_path() {
    let root = "/tmp/storage";
    // A lone "." names the root itself, which is allowed.
    let result = validate_and_resolve(root, ".");
    assert!(result.is_ok());
}

#[test]
fn rejection_messages_name_the_reason() {
    match validate_and_resolve("/tmp/storage", "") {
        Err(StorageError::InvalidPath(m)) => assert_eq!(m, "empty path"),
        _ => panic!("expected an invalid path"),
    }
    match validate_and_resolve("/tmp/storage", "/etc/passwd") {
        Err(StorageError::InvalidPath(m)) => assert_eq!(m, "absolute paths not allowed"),
        _ => panic!("expected an invalid path"),
    }
}

#[test]
fn dots_inside_names_are_not_traversal() {
    assert_eq!(validate_and_resolve("/tmp/storage", "a..b/..c/d..").unwrap(), "/tmp/storage/a..b/..c/d..");
    assert!(matches!(validate_and_resolve("/tmp/storage", "a/.."), Err(StorageError::PathTraversal)));
    assert!(matches!(validate_and_resolve("/tmp/storage", ".."), Err(StorageError::PathTraversal)));
}

#[test]
fn root_with_trailing_slash_is_not_doubled() {
    assert_eq!(validate_and_resolve("/tmp/storage/", "file.txt").unwrap(), "/tmp/storage/file.txt");
}

#[test]
fn storage_error_messages() {
    assert_eq!(StorageError::InvalidPath("x".to_string()).message(), "invalid path: x");
    assert_eq!(StorageError::PathTraversal.message(), "path traversal attempt detected");
    assert_eq!(StorageError::NotFound.message(), "file not found");
    let io = StorageError::IoError(std::io::Error::new(std::io::ErrorKind::Other, "disk on fire"));
    assert_eq!(io.message(), "io error: disk on fire");
}

#[test]
fn io_errors_map_not_found() {
    let e = StorageError::from_io(std::io::Error::new(std::io::ErrorKind::NotFound, "gone"));
    assert!(matches!(e, StorageError::NotFound));
    let e = StorageError::from_io(std::io::Error::new(std::io::ErrorKind::PermissionDenied, "no"));
    assert!(matches!(e, StorageError::IoError(_)));
}

#[test]
fn service_resolves_under_its_root() {
    let service = StorageService::new("/srv/data");
    assert_eq!(service.root(), "/srv/data");
    assert_eq!(service.resolve("notes/today.txt").unwrap(), "/srv/data/notes/today.txt");
    assert!(matches!(service.resolve("../other"), Err(StorageError::PathTraversal)));
}

#[test]
fn session_services_live_below_the_root() {
    let service = StorageService::new("/srv/data");
    let session = service.for_session("user-42").unwrap();
    assert_eq!(session.root(), "/srv/data/user-42");
    assert_eq!(session.resolve("a.txt").unwrap(), "/srv/data/user-42/a.txt");
    match service.for_session("  ") {
        Err(StorageError::InvalidPath(m)) => assert_eq!(m, "empty session subject"),
        _ => panic!("expected an invalid path"),
    }
    assert!(matches!(service.for_session("../root"), Err(StorageError::PathTraversal)));
}
