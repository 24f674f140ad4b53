//! Extract plain-text content from files so it can be placed on a clipboard.
//!
//! The pipeline classifies a file by its extension, reads plain text while
//! rejecting binary payloads, extracts embedded text from PDF documents, and
//! falls back to an OCR capability when a document or image carries no
//! embedded text. File access, subprocess invocation and the system clipboard
//! are injected collaborators, so the decision logic here is verified over
//! every outcome they can produce.

pub mod classify;
pub mod clipboard;
pub mod error;
pub mod file;
pub mod ocr;
pub mod pdf;
pub mod strings;

pub use classify::{classify, FileClassification};
pub use clipboard::{combine_contents, copy_to_clipboard, Clipboard};
pub use error::CatboardError;
pub use file::{read_file_contents, read_text_file, FileSource};
pub use ocr::{extract_text_from_image, is_image_file, is_ocr_available, MockOcr, OcrCapability};
pub use pdf::extract_pdf_text;

use vstd::prelude::*;

verus! {

use vstd::utf8::encode_utf8;

use crate::classify::spec_classify;
use crate::file::decodes_null_free_content;
use crate::strings::is_blank;

/// Copy the extracted contents of one file to the given clipboard and
/// return the byte length of what was copied. The string handed to the
/// clipboard is exactly what the pipeline extracted.
pub fn copy_file_to_clipboard<F: FileSource, O: OcrCapability, C: Clipboard>(
    path: &str,
    source: &F,
    ocr: &O,
    clipboard: &mut C,
) -> (r: Result<usize, CatboardError>)
    ensures
        spec_classify(path@) is Text ==> (r matches Ok(n) ==> exists|t: Seq<char>|
            #![trigger encode_utf8(t)]
            n == encode_utf8(t).len() as usize && decodes_null_free_content(t)),
        !(spec_classify(path@) is Text) ==> (r matches Ok(n) ==> exists|t: Seq<char>|
            #![trigger encode_utf8(t)]
            n == encode_utf8(t).len() as usize && !is_blank(t)),
{
    let content = match read_file_contents(path, source, ocr) {
        Ok(c) => c,
        Err(e) => {
            return Err(e);
        },
    };
    let length = content.as_str().len();
    let r: Result<usize, CatboardError> = match copy_to_clipboard(content.as_str(), clipboard) {
        Ok(()) => Ok(length),
        Err(e) => Err(e),
    };
    proof {
        if r is Ok {
            assert(length == encode_utf8(content@).len() as usize);
            if spec_classify(path@) is Text {
                assert(decodes_null_free_content(content@));
            } else {
                assert(!is_blank(content@));
            }
        }
    }
    r
}

} // verus!
