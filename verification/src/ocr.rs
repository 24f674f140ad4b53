//! The OCR capability: an injected collaborator that turns an image (or a
//! rendered document) into text. The pipeline depends only on the abstract
//! contract; a mock backend lives here so the surrounding decisions are
//! testable, and the functions that interpret a helper subprocess's outcome
//! are verified over every outcome it can produce.

use vstd::prelude::*;
use vstd::string::StringExecFns;

use crate::classify::{classify, spec_classify, FileClassification};
use crate::error::{is_extraction_error, CatboardError};
use crate::strings::{is_blank, is_blank_str, spec_trim, str_equal, trim_str};

verus! {

/// A text-from-image extraction service. `is_available` reports readiness
/// without side effects beyond a capability probe; `extract_text` returns
/// the recognized text or a typed failure.
pub trait OcrCapability {
    fn is_available(&self) -> bool;

    fn extract_text(&self, path: &str) -> Result<String, CatboardError>;
}

/// A canned outcome of the mock backend: recognized text, or a failure
/// message.
#[derive(Debug, Clone)]
pub enum MockResponse {
    Text(String),
    Error(String),
}

/// A test double for the OCR capability: a mapping from path to canned
/// outcome plus a fixed availability flag.
pub struct MockOcr {
    pub responses: Vec<(String, MockResponse)>,
    pub available: bool,
}

/// The response registered for `path`, the most recently added one winning.
pub open spec fn mock_lookup(entries: Seq<(String, MockResponse)>, path: Seq<char>) -> Option<
    MockResponse,
>
    decreases entries.len(),
{
    if entries.len() == 0 {
        None
    } else if entries.last().0@ == path {
        Some(entries.last().1)
    } else {
        mock_lookup(entries.drop_last(), path)
    }
}

impl MockOcr {
    /// A mock with no registered responses.
    pub fn new(available: bool) -> (m: MockOcr)
        ensures
            m.available == available,
            m.responses@.len() == 0,
    {
        MockOcr { responses: Vec::new(), available }
    }

    /// Register the outcome that `extract_text` returns for `path`,
    /// replacing any earlier registration for the same path.
    pub fn add_response(&mut self, path: &str, response: MockResponse)
        ensures
            final(self).available == old(self).available,
            final(self).responses@.len() == old(self).responses@.len() + 1,
            final(self).responses@.drop_last() == old(self).responses@,
            final(self).responses@.last().0@ == path@,
            final(self).responses@.last().1 == response,
    {
        self.responses.push((path.to_owned(), response));
        proof {
            assert(self.responses@.drop_last() =~= old(self).responses@);
        }
    }

    /// The configured outcome for `path`: the registered text or failure,
    /// or a "no mock response configured" failure for an unregistered path.
    pub fn response_for(&self, path: &str) -> (r: Result<String, CatboardError>)
        ensures
            match mock_lookup(self.responses@, path@) {
                Some(MockResponse::Text(t)) => r matches Ok(s) && s@ == t@,
                Some(MockResponse::Error(m)) => r matches Err(e) && is_extraction_error(
                    e,
                    path@,
                    m@,
                ),
                None => r matches Err(e) && is_extraction_error(
                    e,
                    path@,
                    "no mock response configured"@,
                ),
            },
    {
        let n = self.responses.len();
        proof {
            assert(self.responses@.take(n as int) =~= self.responses@);
        }
        let mut i = n;
        while i > 0
            invariant
                i <= n,
                n == self.responses@.len(),
                mock_lookup(self.responses@, path@) == mock_lookup(
                    self.responses@.take(i as int),
                    path@,
                ),
            decreases i,
        {
            i = i - 1;
            let entry = &self.responses[i];
            if str_equal(entry.0.as_str(), path) {
                proof {
                    assert(self.responses@.take((i + 1) as int).last() == self.responses@[i as int]);
                }
                match &entry.1 {
                    MockResponse::Text(t) => {
                        return Ok(t.clone());
                    },
                    MockResponse::Error(m) => {
                        return Err(
                            CatboardError::ExtractionError {
                                path: path.to_owned(),
                                message: m.clone(),
                            },
                        );
                    },
                }
            }
            proof {
                assert(self.responses@.take((i + 1) as int).last() == self.responses@[i as int]);
                assert(self.responses@.take((i + 1) as int).drop_last() =~= self.responses@.take(
                    i as int,
                ));
            }
        }
        proof {
            assert(self.responses@.take(0) =~= Seq::<(String, MockResponse)>::empty());
        }
        Err(
            CatboardError::ExtractionError {
                path: path.to_owned(),
                message: String::from_str("no mock response configured"),
            },
        )
    }
}

impl OcrCapability for MockOcr {
    /// The mock reports exactly the availability flag it was built with.
    fn is_available(&self) -> (r: bool)
        ensures
            r == self.available,
    {
        self.available
    }

    /// The mock answers exactly as `response_for` describes.
    fn extract_text(&self, path: &str) -> (r: Result<String, CatboardError>)
        ensures
            match mock_lookup(self.responses@, path@) {
                Some(MockResponse::Text(t)) => r matches Ok(s) && s@ == t@,
                Some(MockResponse::Error(m)) => r matches Err(e) && is_extraction_error(
                    e,
                    path@,
                    m@,
                ),
                None => r matches Err(e) && is_extraction_error(
                    e,
                    path@,
                    "no mock response configured"@,
                ),
            },
    {
        self.response_for(path)
    }
}

/// The failure returned when an OCR extraction is requested but the
/// capability is unavailable.
pub fn ocr_unavailable_error(path: &str) -> (e: CatboardError)
    ensures
        is_extraction_error(
            e,
            path@,
            "OCR helper 'catboard-ocr' not found. Install it alongside catboard."@,
        ),
{
    CatboardError::ExtractionError {
        path: path.to_owned(),
        message: String::from_str(
            "OCR helper 'catboard-ocr' not found. Install it alongside catboard.",
        ),
    }
}

/// Accept text an OCR backend recognized, treating whitespace-only output
/// as "no recognizable text".
pub fn interpret_ocr_text(path: &str, text: String) -> (r: Result<String, CatboardError>)
    ensures
        !is_blank(text@) ==> (r matches Ok(s) && s@ == text@),
        is_blank(text@) ==> (r matches Err(e) && is_extraction_error(
            e,
            path@,
            "Image contains no recognizable text"@,
        )),
{
    if is_blank_str(text.as_str()) {
        Err(
            CatboardError::ExtractionError {
                path: path.to_owned(),
                message: String::from_str("Image contains no recognizable text"),
            },
        )
    } else {
        Ok(text)
    }
}

/// Interpret one invocation of the OCR helper subprocess: a non-zero exit
/// is a failure carrying the trimmed standard-error content, and
/// whitespace-only output on a success exit is "no recognizable text".
pub fn interpret_helper_output(path: &str, exit_success: bool, stdout: String, stderr: &str) -> (r:
    Result<String, CatboardError>)
    ensures
        !exit_success ==> (r matches Err(e) && is_extraction_error(
            e,
            path@,
            "OCR failed: "@ + spec_trim(stderr@),
        )),
        exit_success && !is_blank(stdout@) ==> (r matches Ok(s) && s@ == stdout@),
        exit_success && is_blank(stdout@) ==> (r matches Err(e) && is_extraction_error(
            e,
            path@,
            "Image contains no recognizable text"@,
        )),
{
    if !exit_success {
        let mut message = String::from_str("OCR failed: ");
        message.append(trim_str(stderr));
        return Err(CatboardError::ExtractionError { path: path.to_owned(), message });
    }
    interpret_ocr_text(path, stdout)
}

/// The path's extension marks it as an image the OCR capability can read.
pub fn is_image_file(path: &str) -> (r: bool)
    ensures
        r == (spec_classify(path@) is Image),
{
    match classify(path) {
        FileClassification::Image => true,
        _ => false,
    }
}

/// Whether the given OCR capability reports itself ready.
pub fn is_ocr_available<O: OcrCapability>(ocr: &O) -> bool {
    ocr.is_available()
}

/// Extract text from an image file through the OCR capability, failing
/// when the capability is unavailable and when it recognizes nothing.
/// Any text returned is never whitespace-only.
pub fn extract_text_from_image<O: OcrCapability>(path: &str, ocr: &O) -> (r: Result<
    String,
    CatboardError,
>)
    ensures
        r matches Ok(s) ==> !is_blank(s@),
{
    if !ocr.is_available() {
        return Err(ocr_unavailable_error(path));
    }
    match ocr.extract_text(path) {
        Ok(text) => interpret_ocr_text(path, text),
        Err(e) => Err(e),
    }
}

} // verus!
