use catboard::{combine_contents, copy_to_clipboard, CatboardError, Clipboard};

struct MockClipboard {
    content: String,
    should_fail: bool,
}

impl MockClipboard {
    fn new() -> Self {
        MockClipboard { content: String::new(), should_fail: false }
    }

    fn with_failure() -> Self {
        MockClipboard { content: String::new(), should_fail: true }
    }
}

impl Clipboard for MockClipboard {
    fn set_text(&mut self, text: &str) -> Result<(), CatboardError> {
        if self.should_fail {
            return Err(CatboardError::ClipboardError(String::from(
                "Mock clipboard failure",
            )));
        }
        self.content = text.to_string();
        Ok(())
    }

    fn get_text(&mut self) -> Result<String, CatboardError> {
        if self.should_fail {
            return Err(CatboardError::ClipboardError(String::from(
                "Mock clipboard failure",
            )));
        }
        Ok(self.content.clone())
    }
}

#[test]
fn test_mock_clipboard_set_and_get() {
    let mut clipboard = MockClipboard::new();
    clipboard.set_text("Hello, clipboard!").unwrap();
    let result = clipboard.get_text().unwrap();
    assert_eq!(result, "Hello, clipboard!");
}

#[test]
fn test_mock_clipboard_empty() {
    let mut clipboard = MockClipboard::new();
    let result = clipboard.get_text().unwrap();
    assert_eq!(result, "");
}

#[test]
fn test_mock_clipboard_unicode() {
    let mut clipboard = MockClipboard::new();
    let unicode_text = "\u{1F600} Emoji and \u{4E2D}\u{6587}!";
    clipboard.set_text(unicode_text).unwrap();
    let result = clipboard.get_text().unwrap();
    assert_eq!(result, unicode_text);
}

#[test]
fn test_mock_clipboard_multiline() {
    let mut clipboard = MockClipboard::new();
    let multiline = "Line 1\nLine 2\nLine 3";
    clipboard.set_text(multiline).unwrap();
    let result = clipboard.get_text().unwrap();
    assert_eq!(result, multiline);
}

#[test]
fn test_mock_clipboard_failure() {
    let mut clipboard = MockClipboard::with_failure();
    let result = clipboard.set_text("test");
    assert!(matches!(result, Err(CatboardError::ClipboardError(_))));
    let result = clipboard.get_text();
    assert!(matches!(result, Err(CatboardError::ClipboardError(_))));
}

#[test]
fn test_mock_clipboard_overwrite() {
    let mut clipboard = MockClipboard::new();
    clipboard.set_text("First").unwrap();
    clipboard.set_text("Second").unwrap();
    let result = clipboard.get_text().unwrap();
    assert_eq!(result, "Second");
}

#[test]
fn test_mock_clipboard_large_content() {
    let mut clipboard = MockClipboard::new();
    let large_text = "X".repeat(100_000);
    clipboard.set_text(&large_text).unwrap();
    let result = clipboard.get_text().unwrap();
    assert_eq!(result.len(), 100_000);
}

#[test]
fn test_copy_to_clipboard_hands_text_over_unmodified() {
    let mut clipboard = MockClipboard::new();
    copy_to_clipboard("payload text", &mut clipboard).unwrap();
    assert_eq!(clipboard.get_text().unwrap(), "payload text");
}

#[test]
fn test_combine_contents_joins_with_newlines() {
    let contents = vec![String::from("content 1"), String::from("content 2")];
    let combined = combine_contents(&contents).unwrap();
    assert_eq!(combined, "content 1\ncontent 2");
}

#[test]
fn test_combine_contents_single_piece_is_unchanged() {
    let contents = vec![String::from("only one")];
    let combined = combine_contents(&contents).unwrap();
    assert_eq!(combined, "only one");
}

#[test]
fn test_combine_contents_keeps_empty_pieces() {
    let contents = vec![String::new(), String::from("tail")];
    let combined = combine_contents(&contents).unwrap();
    assert_eq!(combined, "\ntail");
}

#[test]
fn test_combine_contents_empty_fails() {
    let contents: Vec<String> = Vec::new();
    let result = combine_contents(&contents);
    assert!(matches!(result, Err(CatboardError::NoFilesSpecified)));
}
