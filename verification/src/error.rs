//! The typed failures of the extraction pipeline. Every variant carries
//! enough context (path, and an underlying message where relevant) to
//! render a useful message with `to_message`.

use vstd::prelude::*;
use vstd::string::StringExecFns;

verus! {

/// A failure of reading, extracting or copying a file's text.
#[derive(Debug, Clone)]
pub enum CatboardError {
    /// The path does not exist at call time.
    FileNotFound(String),
    /// The OS denied access when opening.
    PermissionDenied(String),
    /// A null byte was found in the binary-detection window of a file
    /// classified as text.
    BinaryFile(String),
    /// Any other read or decode failure, with the underlying message.
    IoError { path: String, message: String },
    /// PDF or OCR extraction failed structurally.
    ExtractionError { path: String, message: String },
    /// The clipboard could not be reached or written.
    ClipboardError(String),
    /// No file was handed to the pipeline at all.
    NoFilesSpecified,
}

/// The rendering of each error as one human-readable line.
pub open spec fn spec_message(e: CatboardError) -> Seq<char> {
    match e {
        CatboardError::FileNotFound(p) => "File not found: "@ + p@,
        CatboardError::PermissionDenied(p) => "Permission denied: "@ + p@,
        CatboardError::BinaryFile(p) => "Cannot read binary file: "@ + p@,
        CatboardError::IoError { path, message } => "Failed to read file '"@ + path@ + "': "@
            + message@,
        CatboardError::ExtractionError { path, message } => "Failed to extract text from '"@
            + path@ + "': "@ + message@,
        CatboardError::ClipboardError(m) => "Clipboard error: "@ + m@,
        CatboardError::NoFilesSpecified => "No files specified"@,
    }
}

/// `e` is `FileNotFound` for `path`.
pub open spec fn is_file_not_found(e: CatboardError, path: Seq<char>) -> bool {
    e matches CatboardError::FileNotFound(p) && p@ == path
}

/// `e` is `PermissionDenied` for `path`.
pub open spec fn is_permission_denied(e: CatboardError, path: Seq<char>) -> bool {
    e matches CatboardError::PermissionDenied(p) && p@ == path
}

/// `e` is `BinaryFile` for `path`.
pub open spec fn is_binary_file(e: CatboardError, path: Seq<char>) -> bool {
    e matches CatboardError::BinaryFile(p) && p@ == path
}

/// `e` is the generic I/O failure for `path` with exactly `message`.
pub open spec fn is_io_error(e: CatboardError, path: Seq<char>, message: Seq<char>) -> bool {
    e matches CatboardError::IoError { path: p, message: m } && p@ == path && m@ == message
}

/// `e` is `ExtractionError` for `path` with exactly `message`.
pub open spec fn is_extraction_error(e: CatboardError, path: Seq<char>, message: Seq<char>) -> bool {
    e matches CatboardError::ExtractionError { path: p, message: m } && p@ == path && m@ == message
}

impl CatboardError {
    /// Render the error as the one-line message that callers print.
    pub fn to_message(&self) -> (r: String)
        ensures
            r@ == spec_message(*self),
    {
        match self {
            CatboardError::FileNotFound(p) => {
                let mut s = String::from_str("File not found: ");
                s.append(p.as_str());
                s
            },
            CatboardError::PermissionDenied(p) => {
                let mut s = String::from_str("Permission denied: ");
                s.append(p.as_str());
                s
            },
            CatboardError::BinaryFile(p) => {
                let mut s = String::from_str("Cannot read binary file: ");
                s.append(p.as_str());
                s
            },
            CatboardError::IoError { path, message } => {
                let mut s = String::from_str("Failed to read file '");
                s.append(path.as_str());
                s.append("': ");
                s.append(message.as_str());
                s
            },
            CatboardError::ExtractionError { path, message } => {
                let mut s = String::from_str("Failed to extract text from '");
                s.append(path.as_str());
                s.append("': ");
                s.append(message.as_str());
                s
            },
            CatboardError::ClipboardError(m) => {
                let mut s = String::from_str("Clipboard error: ");
                s.append(m.as_str());
                s
            },
            CatboardError::NoFilesSpecified => String::from_str("No files specified"),
        }
    }
}

} // verus!
