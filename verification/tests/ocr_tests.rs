use catboard::ocr::{interpret_helper_output, interpret_ocr_text, MockResponse};
use catboard::pdf::{
    extract_pdf_text_from_bytes, interpret_pdf_ocr_outcome, join_page_texts, resolve_pdf_pages,
    resolve_pdf_text,
};
use catboard::{
    extract_pdf_text, extract_text_from_image, is_ocr_available, CatboardError, MockOcr,
};

fn message_of(result: Result<String, CatboardError>) -> String {
    match result {
        Err(e) => e.to_message(),
        Ok(text) => panic!("expected a failure, got {:?}", text),
    }
}

#[test]
fn test_mock_ocr_text_response() {
    let mut ocr = MockOcr::new(true);
    ocr.add_response("img.png", MockResponse::Text(String::from("Hello")));
    let result = ocr.response_for("img.png");
    assert_eq!(result.unwrap(), "Hello");
    let through_pipeline = extract_text_from_image("img.png", &ocr);
    assert_eq!(through_pipeline.unwrap(), "Hello");
}

#[test]
fn test_mock_ocr_error_response() {
    let mut ocr = MockOcr::new(true);
    ocr.add_response("img.png", MockResponse::Error(String::from("x")));
    let message = message_of(ocr.response_for("img.png"));
    assert!(message.contains("x"), "{}", message);
    let message = message_of(extract_text_from_image("img.png", &ocr));
    assert!(message.contains("x"), "{}", message);
}

#[test]
fn test_mock_ocr_unregistered_path() {
    let ocr = MockOcr::new(true);
    let message = message_of(ocr.response_for("never-registered.png"));
    assert!(message.contains("no mock response"), "{}", message);
}

#[test]
fn test_mock_ocr_later_registration_wins() {
    let mut ocr = MockOcr::new(true);
    ocr.add_response("img.png", MockResponse::Text(String::from("old")));
    ocr.add_response("img.png", MockResponse::Text(String::from("new")));
    assert_eq!(ocr.response_for("img.png").unwrap(), "new");
}

#[test]
fn test_is_ocr_available_reports_the_flag() {
    assert!(is_ocr_available(&MockOcr::new(true)));
    assert!(!is_ocr_available(&MockOcr::new(false)));
}

#[test]
fn test_image_extraction_fails_when_ocr_unavailable() {
    let ocr = MockOcr::new(false);
    let message = message_of(extract_text_from_image("img.png", &ocr));
    assert!(message.contains("not found"), "{}", message);
}

#[test]
fn test_image_extraction_rejects_blank_ocr_text() {
    let mut ocr = MockOcr::new(true);
    ocr.add_response("img.png", MockResponse::Text(String::from("  \n\t ")));
    let message = message_of(extract_text_from_image("img.png", &ocr));
    assert!(message.contains("no recognizable text"), "{}", message);
}

#[test]
fn test_interpret_ocr_text_passes_real_text_through() {
    let result = interpret_ocr_text("img.png", String::from("Found words"));
    assert_eq!(result.unwrap(), "Found words");
}

#[test]
fn test_interpret_helper_output_failure_carries_trimmed_stderr() {
    let message = message_of(interpret_helper_output(
        "img.png",
        false,
        String::from("ignored"),
        "  boom: lens cap on \n",
    ));
    assert_eq!(
        message,
        "Failed to extract text from 'img.png': OCR failed: boom: lens cap on"
    );
}

#[test]
fn test_interpret_helper_output_success_paths() {
    let ok = interpret_helper_output("img.png", true, String::from("words"), "");
    assert_eq!(ok.unwrap(), "words");
    let empty = interpret_helper_output("img.png", true, String::from("   "), "");
    let message = message_of(empty);
    assert!(message.contains("no recognizable text"), "{}", message);
}

#[test]
fn test_join_page_texts_joins_in_order() {
    let texts = vec![String::from("Page one"), String::from("Page two")];
    assert_eq!(join_page_texts(&texts), "Page one\nPage two");
}

#[test]
fn test_join_page_texts_skips_empty_pages() {
    let texts = vec![
        String::new(),
        String::from("a"),
        String::new(),
        String::from("b"),
    ];
    assert_eq!(join_page_texts(&texts), "a\nb");
    assert_eq!(join_page_texts(&Vec::new()), "");
}

#[test]
fn test_resolve_pdf_text_returns_embedded_text() {
    let ocr = MockOcr::new(false);
    let result = resolve_pdf_text("doc.pdf", String::from("embedded"), false, &ocr);
    assert_eq!(result.unwrap(), "embedded");
}

#[test]
fn test_resolve_pdf_text_blank_without_ocr_fails() {
    let ocr = MockOcr::new(false);
    let message = message_of(resolve_pdf_text("doc.pdf", String::from(" \n"), false, &ocr));
    assert!(message.contains("no extractable text"), "{}", message);
}

#[test]
fn test_resolve_pdf_text_blank_defers_to_ocr() {
    let mut ocr = MockOcr::new(true);
    ocr.add_response("doc.pdf", MockResponse::Text(String::from("Scanned words")));
    let result = resolve_pdf_text("doc.pdf", String::new(), true, &ocr);
    assert_eq!(result.unwrap(), "Scanned words");
}

#[test]
fn test_resolve_pdf_text_blank_ocr_output_fails() {
    let mut ocr = MockOcr::new(true);
    ocr.add_response("doc.pdf", MockResponse::Text(String::from("   ")));
    let message = message_of(resolve_pdf_text("doc.pdf", String::new(), true, &ocr));
    assert!(message.contains("OCR found no text"), "{}", message);
}

#[test]
fn test_interpret_pdf_ocr_outcome_returns_recognized_text() {
    let result = interpret_pdf_ocr_outcome("doc.pdf", Ok(String::from("Recognized")));
    assert_eq!(result.unwrap(), "Recognized");
}

#[test]
fn test_interpret_pdf_ocr_outcome_rejects_blank_text() {
    let message = message_of(interpret_pdf_ocr_outcome("doc.pdf", Ok(String::from(" \n "))));
    assert!(message.contains("OCR found no text"), "{}", message);
}

#[test]
fn test_interpret_pdf_ocr_outcome_passes_ocr_failure_through() {
    let failure = CatboardError::ExtractionError {
        path: String::from("doc.pdf"),
        message: String::from("helper crashed"),
    };
    let message = message_of(interpret_pdf_ocr_outcome("doc.pdf", Err(failure)));
    assert!(message.contains("helper crashed"), "{}", message);
}

#[test]
fn test_resolve_pdf_pages_joins_nonempty_pages() {
    let ocr = MockOcr::new(false);
    let texts = vec![String::from("alpha"), String::from("beta")];
    let result = resolve_pdf_pages("doc.pdf", texts, false, &ocr);
    assert_eq!(result.unwrap(), "alpha\nbeta");
}

#[test]
fn test_resolve_pdf_pages_blank_pages_without_ocr_fail() {
    let ocr = MockOcr::new(false);
    let texts = vec![String::new(), String::from("  ")];
    let message = message_of(resolve_pdf_pages("doc.pdf", texts, false, &ocr));
    assert!(message.contains("no extractable text"), "{}", message);
}

#[test]
fn test_extract_pdf_text_open_failure() {
    let ocr = MockOcr::new(false);
    let result = extract_pdf_text("/no/such/document.pdf", &ocr);
    assert!(matches!(result, Err(CatboardError::ExtractionError { .. })));
}

/// Build a small but well-formed PDF whose pages carry the given texts.
fn build_pdf(texts: &[&str]) -> Vec<u8> {
    let n = texts.len();
    let font_id = 3 + 2 * n;
    let kids: Vec<String> = (0..n).map(|i| format!("{} 0 R", 3 + 2 * i)).collect();
    let mut objects: Vec<String> = Vec::new();
    objects.push(String::from("1 0 obj\n<< /Type /Catalog /Pages 2 0 R >>\nendobj\n"));
    objects.push(format!(
        "2 0 obj\n<< /Type /Pages /Kids [{}] /Count {} >>\nendobj\n",
        kids.join(" "),
        n
    ));
    for (i, text) in texts.iter().enumerate() {
        let page_id = 3 + 2 * i;
        let content_id = 4 + 2 * i;
        objects.push(format!(
            "{} 0 obj\n<< /Type /Page /Parent 2 0 R /MediaBox [0 0 612 792] \
             /Resources << /Font << /F1 {} 0 R >> >> /Contents {} 0 R >>\nendobj\n",
            page_id, font_id, content_id
        ));
        let stream = format!("BT /F1 24 Tf 72 720 Td ({}) Tj ET", text);
        objects.push(format!(
            "{} 0 obj\n<< /Length {} >>\nstream\n{}\nendstream\nendobj\n",
            content_id,
            stream.len(),
            stream
        ));
    }
    objects.push(format!(
        "{} 0 obj\n<< /Type /Font /Subtype /Type1 /BaseFont /Helvetica >>\nendobj\n",
        font_id
    ));
    let mut pdf = String::from("%PDF-1.4\n");
    let mut offsets: Vec<usize> = Vec::new();
    for object in &objects {
        offsets.push(pdf.len());
        pdf.push_str(object);
    }
    let xref_offset = pdf.len();
    pdf.push_str(&format!("xref\n0 {}\n0000000000 65535 f \n", font_id + 1));
    for offset in &offsets {
        pdf.push_str(&format!("{:010} 00000 n \n", offset));
    }
    pdf.push_str(&format!(
        "trailer\n<< /Size {} /Root 1 0 R >>\nstartxref\n{}\n%%EOF\n",
        font_id + 1,
        xref_offset
    ));
    pdf.into_bytes()
}

#[test]
fn test_extract_pdf_from_bytes_joins_pages_in_order() {
    let data = build_pdf(&["Page one", "Page two"]);
    let ocr = MockOcr::new(false);
    let text = extract_pdf_text_from_bytes("two_pages.pdf", data, &ocr).unwrap();
    let first = text.find("Page one").expect("first page text missing");
    let second = text.find("Page two").expect("second page text missing");
    assert!(first < second, "{}", text);
}

#[test]
fn test_extract_pdf_from_bytes_without_text_and_without_ocr_fails() {
    let data = build_pdf(&[" "]);
    let ocr = MockOcr::new(false);
    let message = message_of(extract_pdf_text_from_bytes("scan.pdf", data, &ocr));
    assert!(message.contains("no extractable text"), "{}", message);
}

#[test]
fn test_extract_pdf_from_bytes_defers_to_ocr_on_scanned_document() {
    let data = build_pdf(&[" "]);
    let mut ocr = MockOcr::new(true);
    ocr.add_response("scan.pdf", MockResponse::Text(String::from("Scanned words")));
    let text = extract_pdf_text_from_bytes("scan.pdf", data, &ocr).unwrap();
    assert_eq!(text, "Scanned words");
}
