//! The error taxonomy of the library.

use vstd::prelude::*;

verus! {

/// Every failure the library reports to a caller.
///
/// `BindingNotFound` is fatal to manager construction: no manager exists
/// without an engine binding. `ParseError` and `TextExtractionError` are
/// recoverable; each carries the engine's diagnostic message.
pub enum PdfError {
    /// The native engine could not be bound, neither at the requested path
    /// nor as a system-wide installation.
    BindingNotFound(String),
    /// The engine rejected a byte buffer: malformed input, or a wrong or
    /// missing password.
    ParseError(String),
    /// The engine failed to extract text from a page.
    TextExtractionError(String),
}

impl PdfError {
    /// The diagnostic message carried by this error.
    pub closed spec fn spec_message(&self) -> Seq<char> {
        match self {
            PdfError::BindingNotFound(m) => m@,
            PdfError::ParseError(m) => m@,
            PdfError::TextExtractionError(m) => m@,
        }
    }

    /// Returns the diagnostic message carried by this error.
    pub fn message(&self) -> (r: &String)
        ensures
            r@ == self.spec_message(),
    {
        match self {
            PdfError::BindingNotFound(m) => m,
            PdfError::ParseError(m) => m,
            PdfError::TextExtractionError(m) => m,
        }
    }

    /// Returns `true` if this error reports a failed engine binding.
    pub fn is_binding_not_found(&self) -> (r: bool)
        ensures
            r == (self is BindingNotFound),
    {
        match self {
            PdfError::BindingNotFound(_) => true,
            _ => false,
        }
    }

    /// Returns `true` if this error reports a rejected byte buffer.
    pub fn is_parse_error(&self) -> (r: bool)
        ensures
            r == (self is ParseError),
    {
        match self {
            PdfError::ParseError(_) => true,
            _ => false,
        }
    }

    /// Returns `true` if this error reports a failed text extraction.
    pub fn is_text_extraction_error(&self) -> (r: bool)
        ensures
            r == (self is TextExtractionError),
    {
        match self {
            PdfError::TextExtractionError(_) => true,
            _ => false,
        }
    }
}

} // verus!
