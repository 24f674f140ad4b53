//! The binary-text reader and the extraction pipeline root. Reading bytes
//! from disk is an injected collaborator (`FileSource`); the decisions —
//! binary detection over the first bytes, UTF-8 decoding, classification
//! and dispatch — are verified here over every outcome a source can hand
//! back.

use vstd::prelude::*;
use vstd::string::StringExecFns;
use vstd::utf8::{decode_utf8, length_of_first_scalar, pop_first_scalar, valid_first_scalar,
    valid_utf8};

use crate::classify::{classify, spec_classify, FileClassification};
use crate::error::{is_binary_file, is_file_not_found, is_io_error, is_permission_denied,
    CatboardError};
use crate::ocr::{extract_text_from_image, OcrCapability};
use crate::pdf::extract_pdf_text;
use crate::strings::is_blank;

verus! {

/// How many leading bytes are inspected for binary content.
pub const BINARY_CHECK_SIZE: usize = 8192;

/// A way an injected file source can fail to open and read a file.
#[derive(Debug, Clone)]
pub enum ReadFailure {
    /// The file does not exist.
    NotFound,
    /// The OS denied access.
    PermissionDenied,
    /// Any other failure, with the underlying message.
    Other(String),
}

/// The injected collaborator that reads raw bytes for the pipeline.
/// A production source reads the filesystem; tests hand in memory.
pub trait FileSource {
    /// Whether a file exists at `path`.
    fn file_exists(&self, path: &str) -> bool;

    /// Up to `limit` leading bytes of the file at `path`.
    fn read_prefix(&self, path: &str, limit: usize) -> Result<Vec<u8>, ReadFailure>;

    /// The complete content of the file at `path`; a failure carries the
    /// underlying message.
    fn read_all(&self, path: &str) -> Result<Vec<u8>, String>;
}

/// `t` decodes some null-free content byte for byte: exactly the texts the
/// reader for a text file can return.
pub open spec fn decodes_null_free_content(t: Seq<char>) -> bool {
    exists|content: Seq<u8>|
        !has_null_in_window(content) && valid_utf8(content) && t == decode_utf8(content)
}

/// A null byte occurs among the first `BINARY_CHECK_SIZE` bytes of
/// `content` — the binary-content heuristic.
pub open spec fn has_null_in_window(content: Seq<u8>) -> bool {
    exists|i: int| 0 <= i < content.len() && i < BINARY_CHECK_SIZE && content[i] == 0
}

/// Scan the binary-detection window of `bytes` for a null byte.
pub fn contains_null_in_window(bytes: &Vec<u8>) -> (r: bool)
    ensures
        r == has_null_in_window(bytes@),
{
    let n = if bytes.len() < BINARY_CHECK_SIZE {
        bytes.len()
    } else {
        BINARY_CHECK_SIZE
    };
    let mut i: usize = 0;
    while i < n
        invariant
            i <= n,
            n <= bytes@.len(),
            n == if bytes@.len() < BINARY_CHECK_SIZE {
                bytes@.len() as int
            } else {
                BINARY_CHECK_SIZE as int
            },
            forall|j: int| 0 <= j < i ==> bytes@[j] != 0,
        decreases n - i,
    {
        if bytes[i] == 0 {
            return true;
        }
        i = i + 1;
    }
    false
}

/// Relies on `String::from_utf8`: it succeeds exactly on valid UTF-8 input
/// and returns the string those bytes encode.
#[verifier::external_body]
fn utf8_to_string(bytes: Vec<u8>) -> (r: Option<String>)
    ensures
        r matches Some(s) ==> valid_utf8(bytes@) && s@ == decode_utf8(bytes@),
        r is None ==> !valid_utf8(bytes@),
{
    match String::from_utf8(bytes) {
        Ok(s) => Some(s),
        Err(_) => None,
    }
}

/// The message the failed UTF-8 decoding of a text file carries.
pub open spec fn invalid_utf8_message() -> Seq<char> {
    "stream did not contain valid UTF-8"@
}

/// Decide what a text file with content `content` extracts to: a null byte
/// in the binary-detection window rejects it as binary, anything else is
/// decoded as UTF-8, and exactly the valid encodings succeed — with the
/// file's exact content, an empty file yielding the empty string.
pub fn extract_text_content(path: &str, content: Vec<u8>) -> (r: Result<String, CatboardError>)
    ensures
        has_null_in_window(content@) ==> (r matches Err(e) && is_binary_file(e, path@)),
        !has_null_in_window(content@) && valid_utf8(content@) ==> (r matches Ok(s) && s@
            == decode_utf8(content@)),
        !has_null_in_window(content@) && !valid_utf8(content@) ==> (r matches Err(e) && is_io_error(
            e,
            path@,
            invalid_utf8_message(),
        )),
        content@.len() == 0 ==> (r matches Ok(s) && s@ == Seq::<char>::empty()),
{
    if contains_null_in_window(&content) {
        return Err(CatboardError::BinaryFile(path.to_owned()));
    }
    match utf8_to_string(content) {
        Some(s) => Ok(s),
        None => Err(
            CatboardError::IoError {
                path: path.to_owned(),
                message: String::from_str("stream did not contain valid UTF-8"),
            },
        ),
    }
}

/// Law: pure-ASCII content is valid UTF-8 and decodes to itself byte for
/// byte, so `extract_text_content` returns exactly such a file's bytes as
/// characters.
pub proof fn lemma_ascii_decodes_to_itself(content: Seq<u8>)
    requires
        forall|i: int| 0 <= i < content.len() ==> content[i] < 0x80,
    ensures
        valid_utf8(content),
        decode_utf8(content) =~= Seq::new(content.len(), |i: int| content[i] as char),
    decreases content.len(),
{
    if content.len() > 0 {
        let b = content[0];
        assert(b & 0x7F == b) by (bit_vector)
            requires
                b < 0x80,
        ;
        assert(valid_first_scalar(content));
        assert(length_of_first_scalar(content) == 1);
        let rest = pop_first_scalar(content);
        assert(rest =~= content.subrange(1, content.len() as int));
        assert(forall|i: int| 0 <= i < rest.len() ==> rest[i] < 0x80);
        lemma_ascii_decodes_to_itself(rest);
    }
}

/// `e` is one of the failures the binary-text reader can produce for
/// `path` — a missing file, denied access, the binary rejection, or a
/// generic I/O failure — and it names that path.
pub open spec fn is_text_read_error(e: CatboardError, path: Seq<char>) -> bool {
    ||| is_file_not_found(e, path)
    ||| is_permission_denied(e, path)
    ||| is_binary_file(e, path)
    ||| e matches CatboardError::IoError { path: p, .. } && p@ == path
}

/// Map a failure to open or read a file onto the pipeline's typed errors,
/// as the OS error category dictates.
pub fn read_failure_error(path: &str, failure: ReadFailure) -> (e: CatboardError)
    ensures
        failure is NotFound ==> is_file_not_found(e, path@),
        failure is PermissionDenied ==> is_permission_denied(e, path@),
        failure matches ReadFailure::Other(m) ==> is_io_error(e, path@, m@),
{
    match failure {
        ReadFailure::NotFound => CatboardError::FileNotFound(path.to_owned()),
        ReadFailure::PermissionDenied => CatboardError::PermissionDenied(path.to_owned()),
        ReadFailure::Other(m) => CatboardError::IoError { path: path.to_owned(), message: m },
    }
}

/// Read a plain text file in two passes: first the binary-detection window,
/// which rejects any file with an early null byte before the full content
/// is loaded, then the complete content, decoded as UTF-8. Any text
/// returned decodes some null-free content byte for byte.
pub fn read_text_file<F: FileSource>(path: &str, source: &F) -> (r: Result<String, CatboardError>)
    ensures
        r matches Ok(s) ==> decodes_null_free_content(s@),
        r matches Err(e) ==> is_text_read_error(e, path@),
{
    let prefix = match source.read_prefix(path, BINARY_CHECK_SIZE) {
        Ok(p) => p,
        Err(failure) => {
            return Err(read_failure_error(path, failure));
        },
    };
    if contains_null_in_window(&prefix) {
        return Err(CatboardError::BinaryFile(path.to_owned()));
    }
    let content = match source.read_all(path) {
        Ok(c) => c,
        Err(message) => {
            return Err(CatboardError::IoError { path: path.to_owned(), message });
        },
    };
    let ghost content_view = content@;
    let r = extract_text_content(path, content);
    proof {
        if r is Ok {
            assert(!has_null_in_window(content_view) && valid_utf8(content_view));
        }
    }
    r
}

/// The extraction pipeline: fail fast when the path does not exist,
/// classify it once, and dispatch — `Pdf` to the PDF extractor, `Image`
/// to the OCR capability, `Text` to the binary-text reader — returning
/// the dispatched reader's result unmodified.
pub fn read_file_contents<F: FileSource, O: OcrCapability>(path: &str, source: &F, ocr: &O) -> (r:
    Result<String, CatboardError>)
    ensures
        spec_classify(path@) is Text ==> (r matches Ok(s) ==> decodes_null_free_content(s@)),
        spec_classify(path@) is Text ==> (r matches Err(e) ==> is_text_read_error(e, path@)),
        !(spec_classify(path@) is Text) ==> (r matches Ok(s) ==> !is_blank(s@)),
{
    if !source.file_exists(path) {
        return Err(CatboardError::FileNotFound(path.to_owned()));
    }
    match classify(path) {
        FileClassification::Pdf => extract_pdf_text(path, ocr),
        FileClassification::Image => extract_text_from_image(path, ocr),
        FileClassification::Text => read_text_file(path, source),
    }
}

} // verus!
