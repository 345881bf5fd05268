use s3_file_manager::error::{Failure, InvalidPath, StorageError, UsageError};

#[test]
fn usage_error_messages() {
    assert_eq!(
        UsageError::MissingOperation.message(),
        "Either --file-pattern or --list-images must be provided"
    );
    assert_eq!(
        UsageError::ConflictingOperations.message(),
        "--file-pattern and --list-images cannot be used together"
    );
    assert_eq!(
        UsageError::MalformedRegion("mars-1".to_string()).message(),
        "Not a valid AWS region: mars-1"
    );
    assert_eq!(
        UsageError::MalformedPattern("unclosed bracket".to_string()).message(),
        "Invalid file pattern: unclosed bracket"
    );
}

#[test]
fn invalid_path_messages() {
    assert_eq!(InvalidPath::NotText.message(), "Invalid file path");
    assert_eq!(InvalidPath::NoFileName.message(), "Invalid file name");
}

#[test]
fn storage_error_messages() {
    assert_eq!(
        StorageError::IoFailure("No such file".to_string()).message(),
        "Could not read file: No such file"
    );
    assert_eq!(
        StorageError::RemoteFailure("Access Denied".to_string()).message(),
        "Storage service error: Access Denied"
    );
}

#[test]
fn failure_message_is_that_of_its_cause() {
    assert_eq!(
        Failure::Usage(UsageError::MissingOperation).message(),
        UsageError::MissingOperation.message()
    );
    assert_eq!(
        Failure::InvalidPath(InvalidPath::NoFileName).message(),
        "Invalid file name"
    );
    assert_eq!(
        Failure::Storage(StorageError::RemoteFailure("timeout".to_string())).message(),
        "Storage service error: timeout"
    );
}
