use synker::domain::services::file_manager::FileManagerError;

#[test]
fn test_display_file_already_exists() {
    let e = FileManagerError::FileAlreadyExists("foo.md".to_string());
    assert_eq!(e.to_string(), "File already exists: foo.md");
}

#[test]
fn test_display_permission_denied() {
    let e = FileManagerError::PermissionDenied("secret.txt".to_string());
    assert_eq!(e.to_string(), "Permission denied: secret.txt");
}

#[test]
fn display_of_every_error_kind() {
    assert_eq!(FileManagerError::FileNotFound("a".to_string()).to_string(), "File not found: a");
    assert_eq!(FileManagerError::ValidationError("b".to_string()).to_string(), "Validation error: b");
    assert_eq!(FileManagerError::IoError("c".to_string()).to_string(), "IO error: c");
    assert_eq!(FileManagerError::UnknownError("d".to_string()).to_string(), "Unknown error: d");
}
