use catboard::CatboardError;

#[test]
fn test_file_not_found_error_display() {
    let err = CatboardError::FileNotFound(String::from("/path/to/file.txt"));
    assert_eq!(err.to_message(), "File not found: /path/to/file.txt");
}

#[test]
fn test_permission_denied_error_display() {
    let err = CatboardError::PermissionDenied(String::from("/secret/file.txt"));
    assert_eq!(err.to_message(), "Permission denied: /secret/file.txt");
}

#[test]
fn test_binary_file_error_display() {
    let err = CatboardError::BinaryFile(String::from("image.png"));
    assert_eq!(err.to_message(), "Cannot read binary file: image.png");
}

#[test]
fn test_clipboard_error_display() {
    let err = CatboardError::ClipboardError(String::from("No display available"));
    assert_eq!(err.to_message(), "Clipboard error: No display available");
}

#[test]
fn test_no_files_specified_error_display() {
    let err = CatboardError::NoFilesSpecified;
    assert_eq!(err.to_message(), "No files specified");
}

#[test]
fn test_io_error_display() {
    let err = CatboardError::IoError {
        path: String::from("data.txt"),
        message: String::from("disk full"),
    };
    assert_eq!(err.to_message(), "Failed to read file 'data.txt': disk full");
}

#[test]
fn test_extraction_error_display() {
    let err = CatboardError::ExtractionError {
        path: String::from("doc.pdf"),
        message: String::from("broken header"),
    };
    assert_eq!(
        err.to_message(),
        "Failed to extract text from 'doc.pdf': broken header"
    );
}
