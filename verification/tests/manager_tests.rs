//! The manager can only be constructed where a native engine library is
//! installed. No such library is installed where these tests run, so
//! construction must fail through the documented two-tier fallback with
//! `BindingNotFound`; the cache paths that need no live engine are
//! exercised through `DocCache` in `cache_tests.rs` instead.

use pdf_cache::PdfManager;

#[test]
fn new_without_engine_reports_binding_not_found() {
    match PdfManager::new() {
        Ok(_) => panic!("no native engine library is installed here"),
        Err(e) => assert!(e.is_binding_not_found()),
    }
}

#[test]
fn bind_to_library_without_engine_reports_binding_not_found() {
    match PdfManager::bind_to_library("/nonexistent/engine/path".to_string()) {
        Ok(_) => panic!("no native engine library is installed here"),
        Err(e) => assert!(e.is_binding_not_found()),
    }
}
