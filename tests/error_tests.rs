use burncloud_database::DatabaseError;

#[test]
fn test_all_error_variants() {
    let path_error = DatabaseError::PathResolution("Test path resolution error".to_string());
    assert_eq!(
        path_error.message(),
        "Failed to resolve default database path: Test path resolution error"
    );

    let dir_error = DatabaseError::DirectoryCreation("Test directory creation error".to_string());
    assert_eq!(
        dir_error.message(),
        "Failed to create database directory: Test directory creation error"
    );

    let not_init_error = DatabaseError::NotInitialized;
    assert_eq!(not_init_error.message(), "Database not initialized");
}

#[test]
fn test_error_message_quality() {
    let path_error = DatabaseError::PathResolution("HOME variable not set".to_string());
    let error_msg = path_error.message();
    assert!(error_msg.contains("Failed to resolve"));
    assert!(error_msg.contains("HOME variable not set"));
    assert!(error_msg.len() > 20);

    let dir_error = DatabaseError::DirectoryCreation("/protected/path: Permission denied".to_string());
    let error_msg = dir_error.message();
    assert!(error_msg.contains("Failed to create"));
    assert!(error_msg.contains("Permission denied"));
    assert!(error_msg.len() > 20);

    assert!(format!("{:?}", path_error).len() > 0);
}

#[test]
fn connection_error_message_carries_driver_text() {
    let e = DatabaseError::from(sqlx::Error::RowNotFound);
    assert!(matches!(e, DatabaseError::Connection(sqlx::Error::RowNotFound)));
    let m = e.message();
    assert!(m.starts_with("Database connection error: "));
    assert!(m.len() > "Database connection error: ".len());
}

#[test]
fn not_initialized_is_recognised() {
    assert!(DatabaseError::NotInitialized.is_not_initialized());
    assert!(!DatabaseError::PathResolution(String::new()).is_not_initialized());
}
