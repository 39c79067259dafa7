//! A document-handle cache and lifetime layer over a native PDF engine.
//!
//! A [`PdfManager`] owns the engine binding and an identifier-keyed cache of
//! open documents. Callers open PDF byte buffers under a logical identifier,
//! retrieve the same already-open document again without re-parsing it, and
//! walk from a document to its page collection, to a single page, and to
//! that page's extracted text.

pub mod cache;
pub mod doc;
pub mod engine;
pub mod errors;
pub mod manager;

pub use cache::DocCache;
pub use doc::{PdfDocument, PdfPage, PdfPages};
pub use engine::EngineHandle;
pub use errors::PdfError;
pub use manager::PdfManager;
