use rdetoolkit_core::errors::{map_io_err, FsError, IoFailureKind};

#[test]
fn test_map_io_err_not_found() {
    let err = map_io_err(IoFailureKind::NotFound, "test_context", "/not/found/path");

    assert!(matches!(err, FsError::NotFound(_)));

    let err_msg = err.message();
    assert!(err_msg.contains("File or directory not found"));
    assert!(err_msg.contains("/not/found/path"));
}

#[test]
fn test_map_io_err_permission_denied() {
    let err = map_io_err(IoFailureKind::PermissionDenied, "perm context", "/some/protected/path");

    assert!(matches!(err, FsError::Permission(_)));

    let err_msg = err.message();
    assert!(err_msg.contains("Permission denied"));
    assert!(!err_msg.contains("/some/protected/path"));
}

#[test]
fn test_map_io_err_other() {
    let err = map_io_err(IoFailureKind::Other, "other context", "/path/to/other/error");

    assert!(matches!(err, FsError::Io(_)));

    let err_msg = err.message();
    assert!(err_msg.contains("An I/O error occurred."));
}

#[test]
fn test_map_io_err_exact_messages() {
    let not_found = map_io_err(IoFailureKind::NotFound, "create_dir_all", "/x/y");
    assert_eq!(not_found.message(), "create_dir_all failed: File or directory not found: /x/y");

    let denied = map_io_err(IoFailureKind::PermissionDenied, "read_dir", "/x/y");
    assert_eq!(denied.message(), "read_dir failed: Permission denied.");

    let other = map_io_err(IoFailureKind::Other, "read_dir", "/x/y");
    assert_eq!(other.message(), "read_dir failed: An I/O error occurred.");
}

#[test]
fn test_message_returns_carried_text() {
    let err = FsError::Validation("Directory name must not be empty".to_string());
    assert_eq!(err.message(), "Directory name must not be empty");
}
