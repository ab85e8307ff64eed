use task_store::error::{
    decimal_text, Collection, DirectoryStep, FileAction, StoreError,
};

#[test]
fn decimal_numerals() {
    assert_eq!(decimal_text(0), "0");
    assert_eq!(decimal_text(7), "7");
    assert_eq!(decimal_text(10), "10");
    assert_eq!(decimal_text(1234567890), "1234567890");
    assert_eq!(decimal_text(u64::MAX), "18446744073709551615");
    let mut n: u64 = 1;
    while n < u64::MAX / 7 {
        assert_eq!(decimal_text(n), n.to_string());
        n = n * 7 + 3;
    }
}

#[test]
fn collection_names() {
    assert_eq!(Collection::Todos.file_name(), "todos.json");
    assert_eq!(Collection::Trash.file_name(), "trash.json");
    assert_eq!(Collection::Categories.file_name(), "categories.json");
    assert_eq!(Collection::Todos.label_text(), "todos");
    assert_eq!(Collection::Trash.label_text(), "trash");
    assert_eq!(Collection::Categories.label_text(), "categories");
}

#[test]
fn not_found_message() {
    let error = StoreError::NotFound { id: 9, collection: Collection::Trash };
    assert_eq!(error.message(), "Item with id 9 not found in trash");
    let error = StoreError::NotFound { id: 1714557600000, collection: Collection::Todos };
    assert_eq!(error.message(), "Item with id 1714557600000 not found in todos");
}

#[test]
fn malformed_document_message() {
    let error = StoreError::MalformedDocument {
        file: "todos.json".to_string(),
        diagnostic: "expected value at line 1 column 1".to_string(),
    };
    assert_eq!(error.message(), "Failed to parse todos.json: expected value at line 1 column 1");
}

#[test]
fn io_failure_messages() {
    let make = |action| StoreError::IoFailure {
        action,
        file: "trash.json".to_string(),
        detail: "permission denied".to_string(),
    };
    assert_eq!(make(FileAction::Open).message(), "Failed to open trash.json: permission denied");
    assert_eq!(make(FileAction::Read).message(), "Failed to read trash.json: permission denied");
    assert_eq!(
        make(FileAction::Create).message(),
        "Failed to create/open trash.json: permission denied"
    );
    assert_eq!(
        make(FileAction::Write).message(),
        "Failed to write data to trash.json: permission denied"
    );
}

#[test]
fn directory_unavailable_messages() {
    let make = |step| StoreError::DirectoryUnavailable { step, detail: "no home".to_string() };
    assert_eq!(make(DirectoryStep::Resolve).message(), "Failed to get app data directory: no home");
    assert_eq!(make(DirectoryStep::Create).message(), "Failed to create data directory: no home");
}
