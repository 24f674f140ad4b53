//! The PDF extractor: open a document handle through the external
//! document-parsing collaborator, walk its pages, concatenate the embedded
//! text, and — when the document carries none — defer to the OCR
//! capability on the original path. The collaborator's outcomes depend on
//! what is on disk, so its calls stand behind trusted wrappers that
//! promise nothing, and every decision around them is verified for every
//! outcome.

use vstd::prelude::*;
use vstd::string::StringExecFns;

use crate::clipboard::spec_join_all;
use crate::error::{is_extraction_error, CatboardError};
use crate::ocr::OcrCapability;
use crate::strings::{is_blank, is_blank_str, spec_decimal, usize_to_string};

verus! {

#[verifier::external_type_specification]
#[verifier::external_body]
pub struct ExPdfDocument(pdf_oxide::PdfDocument);

/// Relies on `pdf_oxide::PdfDocument::open`: parse the document stored at
/// `path`. The outcome depends on what is on disk, so nothing is assumed
/// of it.
#[verifier::external_body]
fn pdf_open(path: &str) -> (r: Result<pdf_oxide::PdfDocument, String>) {
    match pdf_oxide::PdfDocument::open(path) {
        Ok(doc) => Ok(doc),
        Err(e) => Err(e.to_string()),
    }
}

/// Relies on `pdf_oxide::PdfDocument::from_bytes`: parse a document held
/// in memory. Nothing is assumed of the outcome.
#[verifier::external_body]
fn pdf_from_bytes(data: Vec<u8>) -> (r: Result<pdf_oxide::PdfDocument, String>) {
    match pdf_oxide::PdfDocument::from_bytes(data) {
        Ok(doc) => Ok(doc),
        Err(e) => Err(e.to_string()),
    }
}

/// Relies on `pdf_oxide::PdfDocument::page_count`: the number of pages of
/// the document, which its page tree determines. Nothing is assumed of
/// the outcome.
#[verifier::external_body]
fn pdf_page_count(doc: &pdf_oxide::PdfDocument) -> (r: Result<usize, String>) {
    match doc.page_count() {
        Ok(n) => Ok(n),
        Err(e) => Err(e.to_string()),
    }
}

/// Relies on `pdf_oxide::PdfDocument::extract_text`: the embedded text of
/// one page. Nothing is assumed of the outcome.
#[verifier::external_body]
fn pdf_page_text(doc: &pdf_oxide::PdfDocument, page_index: usize) -> (r: Result<String, String>) {
    match doc.extract_text(page_index) {
        Ok(text) => Ok(text),
        Err(e) => Err(e.to_string()),
    }
}

/// The page texts in page order, the non-empty pieces separated by a
/// single newline.
pub open spec fn spec_join_pages(texts: Seq<Seq<char>>) -> Seq<char>
    decreases texts.len(),
{
    if texts.len() == 0 {
        Seq::empty()
    } else {
        let rest = spec_join_pages(texts.drop_last());
        let last = texts.last();
        if last.len() == 0 {
            rest
        } else if rest.len() == 0 {
            last
        } else {
            rest + "\n"@ + last
        }
    }
}

/// Concatenate page texts in page order, separating non-empty pieces with
/// a single newline.
pub fn join_page_texts(texts: &Vec<String>) -> (r: String)
    ensures
        r@ == spec_join_pages(texts.deep_view()),
{
    let ghost tv = texts.deep_view();
    let mut acc = String::new();
    let mut i: usize = 0;
    proof {
        assert(tv.take(0) =~= Seq::<Seq<char>>::empty());
    }
    while i < texts.len()
        invariant
            i <= texts@.len(),
            tv == texts.deep_view(),
            acc@ == spec_join_pages(tv.take(i as int)),
        decreases texts@.len() - i,
    {
        let t = &texts[i];
        proof {
            assert(tv.take((i + 1) as int).drop_last() =~= tv.take(i as int));
            assert(tv.take((i + 1) as int).last() == tv[i as int]);
            assert(tv[i as int] == texts@[i as int]@);
        }
        if !t.as_str().is_empty() {
            if !acc.as_str().is_empty() {
                acc.append("\n");
            } else {
                proof {
                    assert(acc@ + t@ =~= t@);
                }
            }
            acc.append(t.as_str());
        }
        i = i + 1;
    }
    proof {
        assert(tv.take(texts@.len() as int) =~= tv);
    }
    acc
}

fn pdf_error(path: &str, message: String) -> (e: CatboardError)
    ensures
        is_extraction_error(e, path@, message@),
{
    CatboardError::ExtractionError { path: path.to_owned(), message }
}

fn page_error(path: &str, page_index: usize, message: &str) -> (e: CatboardError)
    requires
        page_index < usize::MAX,
    ensures
        is_extraction_error(
            e,
            path@,
            "Failed to extract page "@ + spec_decimal(page_index + 1) + ": "@ + message@,
        ),
{
    let number = usize_to_string(page_index + 1);
    let mut m = String::from_str("Failed to extract page ");
    m.append(number.as_str());
    m.append(": ");
    m.append(message);
    CatboardError::ExtractionError { path: path.to_owned(), message: m }
}

/// Decide what the OCR consultation on a PDF without embedded text
/// yields: non-blank recognized text is returned exactly as it came,
/// blank recognized text fails with "OCR found no text in PDF", and a
/// failure of the OCR capability itself is handed back unchanged.
pub fn interpret_pdf_ocr_outcome(path: &str, outcome: Result<String, CatboardError>) -> (r: Result<
    String,
    CatboardError,
>)
    ensures
        outcome matches Ok(t) ==> (!is_blank(t@) ==> (r matches Ok(s) && s@ == t@)),
        outcome matches Ok(t) ==> (is_blank(t@) ==> (r matches Err(e) && is_extraction_error(
            e,
            path@,
            "OCR found no text in PDF"@,
        ))),
        outcome is Err ==> r == outcome,
        r matches Ok(s) ==> !is_blank(s@),
{
    match outcome {
        Ok(text) => {
            if is_blank_str(text.as_str()) {
                Err(
                    CatboardError::ExtractionError {
                        path: path.to_owned(),
                        message: String::from_str("OCR found no text in PDF"),
                    },
                )
            } else {
                Ok(text)
            }
        },
        Err(e) => Err(e),
    }
}

/// Decide what a PDF whose embedded page texts joined to `joined` extracts
/// to. Non-blank embedded text is returned as it stands, and OCR is not
/// consulted. Blank text defers to the OCR capability on the original
/// path when it is available, with the consultation's outcome read by
/// `interpret_pdf_ocr_outcome`; with OCR unavailable the document is
/// refused outright — and that refusal can only arise from blank text.
/// Whatever happens, returned text is never blank.
pub fn resolve_pdf_text<O: OcrCapability>(
    path: &str,
    joined: String,
    ocr_available: bool,
    ocr: &O,
) -> (r: Result<String, CatboardError>)
    ensures
        !is_blank(joined@) ==> (r matches Ok(s) && s@ == joined@),
        r matches Ok(s) ==> !is_blank(s@),
        is_blank(joined@) && !ocr_available ==> (r matches Err(e) && is_extraction_error(
            e,
            path@,
            "PDF contains no extractable text and OCR support is not available"@,
        )),
        (r matches Err(e) && is_extraction_error(
            e,
            path@,
            "PDF contains no extractable text and OCR support is not available"@,
        )) ==> is_blank(joined@),
        !ocr_available ==> ((r is Ok) == !is_blank(joined@)),
{
    if !is_blank_str(joined.as_str()) {
        return Ok(joined);
    }
    if !ocr_available {
        return Err(
            CatboardError::ExtractionError {
                path: path.to_owned(),
                message: String::from_str(
                    "PDF contains no extractable text and OCR support is not available",
                ),
            },
        );
    }
    interpret_pdf_ocr_outcome(path, ocr.extract_text(path))
}

proof fn lemma_join_all_nonempty(texts: Seq<Seq<char>>)
    requires
        texts.len() > 0,
        forall|i: int| 0 <= i < texts.len() ==> (#[trigger] texts[i]).len() > 0,
    ensures
        spec_join_all(texts).len() > 0,
{
    assert(texts.last().len() > 0);
}

/// Law: when every page carries non-empty text, the PDF join equals the
/// plain newline join — the page texts in page order, a single newline
/// between every two.
pub proof fn lemma_join_pages_all_nonempty(texts: Seq<Seq<char>>)
    requires
        forall|i: int| 0 <= i < texts.len() ==> (#[trigger] texts[i]).len() > 0,
    ensures
        spec_join_pages(texts) == spec_join_all(texts),
    decreases texts.len(),
{
    if texts.len() == 0 {
    } else if texts.len() == 1 {
        assert(texts[0].len() > 0);
        assert(texts.drop_last().len() == 0);
        assert(spec_join_pages(texts.drop_last()).len() == 0);
    } else {
        let rest = texts.drop_last();
        assert forall|i: int| 0 <= i < rest.len() implies (#[trigger] rest[i]).len() > 0 by {
            assert(rest[i] == texts[i]);
        }
        lemma_join_pages_all_nonempty(rest);
        lemma_join_all_nonempty(rest);
        assert(texts[texts.len() - 1].len() > 0);
        assert(texts.last().len() > 0);
        assert(spec_join_pages(rest).len() > 0);
    }
}

/// Decide what a PDF whose pages carried the texts `texts` extracts to:
/// the page texts are joined in page order (non-empty pieces separated by
/// single newlines) and the joined result resolved against the OCR
/// capability as `resolve_pdf_text` describes.
pub fn resolve_pdf_pages<O: OcrCapability>(
    path: &str,
    texts: Vec<String>,
    ocr_available: bool,
    ocr: &O,
) -> (r: Result<String, CatboardError>)
    ensures
        !is_blank(spec_join_pages(texts.deep_view())) ==> (r matches Ok(s) && s@
            == spec_join_pages(texts.deep_view())),
        r matches Ok(s) ==> !is_blank(s@),
        is_blank(spec_join_pages(texts.deep_view())) && !ocr_available ==> (r matches Err(e)
            && is_extraction_error(
            e,
            path@,
            "PDF contains no extractable text and OCR support is not available"@,
        )),
        (r matches Err(e) && is_extraction_error(
            e,
            path@,
            "PDF contains no extractable text and OCR support is not available"@,
        )) ==> is_blank(spec_join_pages(texts.deep_view())),
        !ocr_available ==> ((r is Ok) == !is_blank(spec_join_pages(texts.deep_view()))),
{
    let joined = join_page_texts(&texts);
    resolve_pdf_text(path, joined, ocr_available, ocr)
}

/// Walk the pages of an opened document, abort on the first failing page
/// naming its 1-based number, join the page texts, and resolve the result
/// against the OCR capability.
fn extract_document_text<O: OcrCapability>(
    path: &str,
    doc: &pdf_oxide::PdfDocument,
    ocr: &O,
) -> (r: Result<String, CatboardError>)
    ensures
        r matches Ok(s) ==> !is_blank(s@),
{
    let page_count = match pdf_page_count(doc) {
        Ok(n) => n,
        Err(m) => {
            return Err(pdf_error(path, m));
        },
    };
    let mut texts: Vec<String> = Vec::new();
    let mut i: usize = 0;
    while i < page_count
        invariant
            i <= page_count,
        decreases page_count - i,
    {
        match pdf_page_text(doc, i) {
            Ok(t) => texts.push(t),
            Err(m) => {
                return Err(page_error(path, i, m.as_str()));
            },
        }
        i = i + 1;
    }
    let available = ocr.is_available();
    resolve_pdf_pages(path, texts, available, ocr)
}

/// Extract the text of the PDF document stored at `path`. Text is taken
/// from the embedded page texts, joined in page order; a document with
/// only blank embedded text is handed to the OCR capability. Returned
/// text is never blank.
pub fn extract_pdf_text<O: OcrCapability>(path: &str, ocr: &O) -> (r: Result<String, CatboardError>)
    ensures
        r matches Ok(s) ==> !is_blank(s@),
{
    let doc = match pdf_open(path) {
        Ok(d) => d,
        Err(m) => {
            return Err(pdf_error(path, m));
        },
    };
    extract_document_text(path, &doc, ocr)
}

/// The in-memory counterpart of `extract_pdf_text`: extract the text of a
/// PDF document held as bytes, with `name` standing in for the path in
/// failures and as what OCR would be asked to render.
pub fn extract_pdf_text_from_bytes<O: OcrCapability>(name: &str, data: Vec<u8>, ocr: &O) -> (r:
    Result<String, CatboardError>)
    ensures
        r matches Ok(s) ==> !is_blank(s@),
{
    let doc = match pdf_from_bytes(data) {
        Ok(d) => d,
        Err(m) => {
            return Err(pdf_error(name, m));
        },
    };
    extract_document_text(name, &doc, ocr)
}

} // verus!
