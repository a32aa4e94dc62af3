use shredder::error::{Operation, ShredError};

#[test]
fn io_message_names_operation_and_path() {
    let e = ShredError::Io { op: Operation::ReadMetadata, path: "missing.txt".to_string() };
    assert_eq!(e.message(), "Could not access file metadata: missing.txt");
    let e = ShredError::Io { op: Operation::Flush, path: "f".to_string() };
    assert_eq!(e.message(), "Failed syncing: f");
    let e = ShredError::Io { op: Operation::Remove, path: "f".to_string() };
    assert_eq!(e.message(), "Failed to remove file: f");
}

#[test]
fn rename_message_names_both_paths() {
    let e = ShredError::Rename { from: "a".to_string(), to: "b".to_string() };
    assert_eq!(e.message(), "Failed to rename a to b");
}

#[test]
fn invalid_path_message() {
    let e = ShredError::InvalidPath { path: "/".to_string() };
    assert_eq!(e.message(), "File name not found in: /");
}

#[test]
fn random_source_message() {
    assert_eq!(ShredError::RandomSource.message(), "The secure random source is unavailable");
}

#[test]
fn every_operation_has_context() {
    let ops = [
        Operation::ReadMetadata,
        Operation::Open,
        Operation::Write,
        Operation::Flush,
        Operation::OpenForTimes,
        Operation::SetTimes,
        Operation::Remove,
    ];
    for op in ops {
        assert!(op.context().ends_with(": "));
    }
}

#[test]
fn directory_message() {
    let e = ShredError::NotAFile { path: "/tmp".to_string() };
    assert_eq!(e.message(), "Directory is not supported for removal: /tmp");
}
