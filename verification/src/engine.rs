//! The engine binding.
//!
//! An [`EngineHandle`] wraps one bound instance of the native PDF engine.
//! [`EngineHandle::acquire`] implements the two-tier binding policy: prefer
//! an implementation co-located at the given path, fall back to a
//! system-wide installation, and report [`PdfError::BindingNotFound`] only
//! when both attempts fail.

use vstd::prelude::*;

use pdfium_render::prelude::Pdfium;

use crate::errors::PdfError;

verus! {

#[verifier::external_type_specification]
#[verifier::external_body]
pub struct ExPdfium(Pdfium);

/// Relies on `Pdfium::bind_to_library`, with the platform library name that
/// `Pdfium::pdfium_platform_library_name_at_path` derives from `path`, and
/// on `Pdfium::new`; the binding is kept alive for the rest of the process.
#[verifier::external_body]
fn bind_at_path(path: &str) -> (r: Result<&'static Pdfium, String>) {
    match Pdfium::bind_to_library(Pdfium::pdfium_platform_library_name_at_path(path)) {
        Ok(bindings) => Ok(Box::leak(Box::new(Pdfium::new(bindings)))),
        Err(e) => Err(e.to_string()),
    }
}

/// Relies on `Pdfium::bind_to_system_library` and `Pdfium::new`; the binding
/// is kept alive for the rest of the process.
#[verifier::external_body]
fn bind_system() -> (r: Result<&'static Pdfium, String>) {
    match Pdfium::bind_to_system_library() {
        Ok(bindings) => Ok(Box::leak(Box::new(Pdfium::new(bindings)))),
        Err(e) => Err(e.to_string()),
    }
}

/// One bound native engine instance. Never cloned; documents hold shared
/// ownership of their own native state and the binding itself outlives them.
pub struct EngineHandle {
    pub(crate) pdfium: &'static Pdfium,
}

impl EngineHandle {
    /// Binds to a native engine implementation located at `search_path`,
    /// falling back to a system-wide default binding; fails only when both
    /// attempts fail.
    pub fn acquire(search_path: &str) -> (r: Result<EngineHandle, PdfError>)
        ensures
            r matches Err(e) ==> e is BindingNotFound,
    {
        match bind_at_path(search_path) {
            Ok(p) => Ok(EngineHandle { pdfium: p }),
            Err(_) => match bind_system() {
                Ok(p) => Ok(EngineHandle { pdfium: p }),
                Err(m) => Err(PdfError::BindingNotFound(m)),
            },
        }
    }
}

} // verus!
