use catboard::{classify, is_image_file, FileClassification};

#[test]
fn test_is_image_file() {
    assert!(is_image_file("photo.png"));
    assert!(is_image_file("photo.PNG"));
    assert!(is_image_file("photo.jpg"));
    assert!(is_image_file("photo.jpeg"));
    assert!(is_image_file("photo.JPEG"));
    assert!(is_image_file("photo.tiff"));
    assert!(is_image_file("photo.heic"));
    assert!(!is_image_file("document.txt"));
    assert!(!is_image_file("document.pdf"));
    assert!(!is_image_file("no_extension"));
}

#[test]
fn test_classify_every_image_extension_in_any_case() {
    let lower = [
        "png", "jpg", "jpeg", "tiff", "tif", "gif", "bmp", "webp", "heic", "heif",
    ];
    for ext in lower {
        let path = format!("shot.{}", ext);
        assert_eq!(classify(&path), FileClassification::Image, "{}", path);
        let path = format!("shot.{}", ext.to_uppercase());
        assert_eq!(classify(&path), FileClassification::Image, "{}", path);
        let mixed: String = ext
            .chars()
            .enumerate()
            .map(|(i, c)| {
                if i % 2 == 0 {
                    c.to_ascii_uppercase()
                } else {
                    c
                }
            })
            .collect();
        let path = format!("shot.{}", mixed);
        assert_eq!(classify(&path), FileClassification::Image, "{}", path);
    }
}

#[test]
fn test_classify_pdf_case_insensitive() {
    assert_eq!(classify("report.pdf"), FileClassification::Pdf);
    assert_eq!(classify("report.PDF"), FileClassification::Pdf);
    assert_eq!(classify("report.Pdf"), FileClassification::Pdf);
    assert_eq!(classify("report.pDf"), FileClassification::Pdf);
}

#[test]
fn test_classify_everything_else_is_text() {
    assert_eq!(classify("notes.txt"), FileClassification::Text);
    assert_eq!(classify("archive.tar.gz"), FileClassification::Text);
    assert_eq!(classify("no_extension"), FileClassification::Text);
    assert_eq!(classify(""), FileClassification::Text);
    assert_eq!(classify("trailing."), FileClassification::Text);
    // A hidden file's leading dot does not start an extension.
    assert_eq!(classify(".png"), FileClassification::Text);
    // Only the final path component's extension counts.
    assert_eq!(classify("dir.png/file"), FileClassification::Text);
    assert_eq!(classify("dir.txt/photo.png"), FileClassification::Image);
}
