use pdf_cache::PdfError;

#[test]
fn binding_not_found_carries_its_message() {
    let e = PdfError::BindingNotFound("no engine".to_string());
    assert!(e.is_binding_not_found());
    assert!(!e.is_parse_error());
    assert!(!e.is_text_extraction_error());
    assert_eq!(e.message(), "no engine");
}

#[test]
fn parse_error_carries_its_message() {
    let e = PdfError::ParseError("bad header".to_string());
    assert!(e.is_parse_error());
    assert!(!e.is_binding_not_found());
    assert!(!e.is_text_extraction_error());
    assert_eq!(e.message(), "bad header");
}

#[test]
fn text_extraction_error_carries_its_message() {
    let e = PdfError::TextExtractionError("page unreadable".to_string());
    assert!(e.is_text_extraction_error());
    assert!(!e.is_binding_not_found());
    assert!(!e.is_parse_error());
    assert_eq!(e.message(), "page unreadable");
}
