//! Documents, page collections and pages.
//!
//! A [`PdfDocument`] is a shared-ownership handle to one parsed native
//! document: cloning it yields another handle to the same underlying state,
//! and the state is freed only when the last handle is dropped. A
//! [`PdfPages`] collection and a [`PdfPage`] each hold such a handle to
//! their ancestor document, so no descendant can outlive the state it reads.
//!
//! Ghost state records, for every handle, the byte buffer and password the
//! document was parsed from; the manager's contracts speak of documents
//! through that record.

use std::sync::Arc;

use vstd::prelude::*;

use pdfium_render::prelude::PdfDocument as NativeDocument;
use pdfium_render::prelude::PdfPage as NativePage;
use pdfium_render::prelude::PdfPages as NativePages;

use crate::engine::EngineHandle;
use crate::errors::PdfError;

verus! {

#[verifier::external_type_specification]
#[verifier::external_body]
pub struct ExNativeDocument<'a>(NativeDocument<'a>);

#[verifier::external_type_specification]
#[verifier::external_body]
pub struct ExNativePages<'a>(NativePages<'a>);

#[verifier::external_type_specification]
#[verifier::external_body]
pub struct ExNativePage<'a>(NativePage<'a>);

/// What a document was parsed from: the raw byte buffer, and the password
/// supplied alongside it, if any.
pub ghost struct DocSource {
    pub bytes: Seq<u8>,
    pub password: Option<Seq<char>>,
}

/// The password argument of a parse, as a sequence of characters.
pub open spec fn pw_view(password: Option<&str>) -> Option<Seq<char>> {
    match password {
        Some(p) => Some(p@),
        None => None,
    }
}

/// A password the engine can take: one without a NUL character. The
/// engine's bindings hand the password across the FFI boundary as a
/// C string, which cannot carry an interior NUL.
pub open spec fn pw_has_no_nul(password: Option<&str>) -> bool {
    match password {
        Some(p) => !p@.contains('\0'),
        None => true,
    }
}

/// Relies on `Arc::clone`: the new handle aliases the same document state.
#[verifier::external_body]
fn share_native(doc: &Arc<NativeDocument<'static>>) -> (r: Arc<NativeDocument<'static>>)
    ensures
        r == *doc,
{
    doc.clone()
}

/// Relies on `Pdfium::load_pdf_from_byte_vec`: parses the buffer into a
/// native document, unlocking it with the password if one is given. The
/// bindings convert the password to a C string and panic on a NUL
/// character, so such a password is excluded here.
#[verifier::external_body]
fn native_load(
    engine: &'static pdfium_render::prelude::Pdfium,
    bytes: Vec<u8>,
    password: Option<&str>,
) -> (r: Result<NativeDocument<'static>, String>)
    requires
        pw_has_no_nul(password),
{
    engine.load_pdf_from_byte_vec(bytes, password).map_err(|e| e.to_string())
}

/// Relies on `PdfDocument::pages`: the document's page collection.
#[verifier::external_body]
fn native_pages<'b>(doc: &'b Arc<NativeDocument<'static>>) -> (r: &'b NativePages<'static>) {
    doc.pages()
}

/// Relies on `PdfPages::len`: the engine-reported number of pages.
#[verifier::external_body]
fn native_page_count(pages: &NativePages<'static>) -> (r: i32) {
    pages.len()
}

/// Relies on `PdfPages::get`: a handle to one page, or an error when the
/// index is out of range or the engine cannot load the page.
#[verifier::external_body]
fn native_get_page(pages: &NativePages<'static>, index: i32) -> (r: Result<
    NativePage<'static>,
    String,
>) {
    pages.get(index).map_err(|e| e.to_string())
}

/// Relies on `PdfPage::text` and `PdfPageText::all`: every character on the
/// page, concatenated in the order the document defines.
#[verifier::external_body]
fn native_page_text(page: &NativePage<'static>) -> (r: Result<String, String>) {
    match page.text() {
        Ok(t) => Ok(t.all()),
        Err(e) => Err(e.to_string()),
    }
}

/// A parsed PDF: a shared-ownership handle to native document state.
///
/// All handles cloned from one parse observe the same underlying state. The
/// page count is read from the engine once, when the document is parsed, and
/// is capped at `u16::MAX`.
pub struct PdfDocument {
    native: Arc<NativeDocument<'static>>,
    count: u16,
    src: Ghost<DocSource>,
}

/// A document's page collection, holding shared ownership of its source
/// document's state.
pub struct PdfPages {
    native: Arc<NativeDocument<'static>>,
    count: u16,
    src: Ghost<DocSource>,
}

/// A single page at a fixed index, holding shared ownership of its source
/// document's state. The index is validated when the page is created.
pub struct PdfPage {
    native: Arc<NativeDocument<'static>>,
    index: u16,
    src: Ghost<DocSource>,
}

impl EngineHandle {
    /// Parses a byte buffer into a document scoped to this engine binding.
    /// Fails with [`PdfError::ParseError`] on malformed input or a wrong or
    /// missing password; no entry is recorded anywhere on failure. The
    /// password must be free of NUL characters (see [`pw_has_no_nul`]).
    pub fn parse(&self, bytes: Vec<u8>, password: Option<&str>) -> (r: Result<
        PdfDocument,
        PdfError,
    >)
        requires
            pw_has_no_nul(password),
        ensures
            r matches Ok(d) ==> d.source() == (DocSource {
                bytes: bytes@,
                password: pw_view(password),
            }),
            r matches Err(e) ==> e is ParseError,
    {
        let ghost src = DocSource { bytes: bytes@, password: pw_view(password) };
        match native_load(self.pdfium, bytes, password) {
            Ok(nd) => {
                let native = Arc::new(nd);
                let raw = native_page_count(native_pages(&native));
                let count: u16 = if raw < 0 {
                    0
                } else if raw > 65535 {
                    65535
                } else {
                    raw as u16
                };
                Ok(PdfDocument { native, count, src: Ghost(src) })
            },
            Err(m) => Err(PdfError::ParseError(m)),
        }
    }
}

impl PdfDocument {
    /// The native state this handle refers to.
    pub closed spec fn handle(&self) -> Arc<NativeDocument<'static>> {
        self.native
    }

    /// The byte buffer and password this document was parsed from.
    pub closed spec fn source(&self) -> DocSource {
        self.src@
    }

    /// The page count the engine reported when the document was parsed.
    pub closed spec fn page_count(&self) -> u16 {
        self.count
    }

    /// Produces another handle to the same underlying document state; both
    /// handles observe that state until the last one is dropped.
    pub fn clone(&self) -> (r: PdfDocument)
        ensures
            r.handle() == self.handle(),
            r.source() == self.source(),
            r.page_count() == self.page_count(),
    {
        PdfDocument { native: share_native(&self.native), count: self.count, src: self.src }
    }

    /// The document's page collection. Enumeration is always available once
    /// a document has parsed: this cannot fail.
    pub fn pages(&self) -> (r: PdfPages)
        ensures
            r.handle() == self.handle(),
            r.source() == self.source(),
            r.len_spec() == self.page_count(),
    {
        PdfPages { native: share_native(&self.native), count: self.count, src: self.src }
    }
}

impl PdfPages {
    /// The native state this collection reads.
    pub closed spec fn handle(&self) -> Arc<NativeDocument<'static>> {
        self.native
    }

    /// The source of the document this collection was derived from.
    pub closed spec fn source(&self) -> DocSource {
        self.src@
    }

    /// The number of pages in the collection.
    pub closed spec fn len_spec(&self) -> u16 {
        self.count
    }

    /// Returns the number of pages; pure, always succeeds.
    pub fn len(&self) -> (r: u16)
        ensures
            r == self.len_spec(),
    {
        self.count
    }

    /// Returns the page at the zero-based `index`, or `None` when the index
    /// is out of range — a normal query outcome, not an error.
    pub fn get(&self, index: u16) -> (r: Option<PdfPage>)
        ensures
            (r is Some) <==> index < self.len_spec(),
            r matches Some(p) ==> p.handle() == self.handle() && p.source() == self.source()
                && p.index_spec() == index,
    {
        if index < self.count {
            Some(PdfPage { native: share_native(&self.native), index, src: self.src })
        } else {
            None
        }
    }
}

impl PdfPage {
    /// The native state this page reads.
    pub closed spec fn handle(&self) -> Arc<NativeDocument<'static>> {
        self.native
    }

    /// The source of the document this page was derived from.
    pub closed spec fn source(&self) -> DocSource {
        self.src@
    }

    /// The fixed, zero-based index this page was created at.
    pub closed spec fn index_spec(&self) -> u16 {
        self.index
    }

    /// Extracts all text content of the page as a single concatenated
    /// string, in the reading order the engine determines. Repeated calls
    /// recompute the text. Fails with [`PdfError::TextExtractionError`]
    /// wrapping the engine's diagnostic.
    pub fn text(&self) -> (r: Result<String, PdfError>)
        ensures
            r matches Err(e) ==> e is TextExtractionError,
    {
        let pages = native_pages(&self.native);
        match native_get_page(pages, self.index as i32) {
            Ok(page) => match native_page_text(&page) {
                Ok(t) => Ok(t),
                Err(m) => Err(PdfError::TextExtractionError(m)),
            },
            Err(m) => Err(PdfError::TextExtractionError(m)),
        }
    }
}

} // verus!
