//! The manager: the root owner of the engine binding and the document cache.
//!
//! Cache entries move through a small state machine, keyed by identifier:
//! an absent identifier becomes present when [`PdfManager::open`] parses its
//! buffer; a failed parse leaves it absent; an `open` of a present
//! identifier returns the cached document's handle without re-parsing,
//! whatever bytes and password the second call carries; and only an
//! explicit [`PdfManager::close`] makes it absent again. Handles already
//! issued to callers stay individually valid after a close — shared
//! ownership keeps their state alive — but no later lookup finds the
//! identifier.
//!
//! The spec functions [`cache_after_open`], [`doc_of_open`] and
//! [`cache_after_close`] state those transitions over the manager's model, a
//! `Map` from identifier to [`DocSource`]; the proof functions below them
//! are the laws the transitions obey.
//!
//! [`PdfManager::open_with_id`] is a read: it takes `&self` and leaves the
//! manager untouched, so any number of lookups may run concurrently, and its
//! contract determines every answer from the cache state alone — concurrent
//! readers of one state observe consistent results. Writers (`open` on a
//! miss, `close`) take `&mut self`; a host that calls in from several
//! threads serialises them with a lock of its own around the manager.

use vstd::prelude::*;

use crate::cache::DocCache;
use crate::doc::{pw_has_no_nul, pw_view, DocSource, PdfDocument};
use crate::engine::EngineHandle;
use crate::errors::PdfError;

verus! {

/// The cache model after `open(id)` on a cache modelled by `m`: a present
/// identifier is left alone; an absent one is bound to the source `s` that
/// the call parsed (when the parse succeeds).
pub open spec fn cache_after_open(
    m: Map<Seq<char>, DocSource>,
    id: Seq<char>,
    s: DocSource,
) -> Map<Seq<char>, DocSource> {
    if m.contains_key(id) {
        m
    } else {
        m.insert(id, s)
    }
}

/// The source of the document that a successful `open(id)` returns: the
/// cached one when `id` is present, else the source `s` of the call itself.
pub open spec fn doc_of_open(
    m: Map<Seq<char>, DocSource>,
    id: Seq<char>,
    s: DocSource,
) -> DocSource {
    if m.contains_key(id) {
        m[id]
    } else {
        s
    }
}

/// The cache model after `close(id)`: the identifier is absent.
pub open spec fn cache_after_close(
    m: Map<Seq<char>, DocSource>,
    id: Seq<char>,
) -> Map<Seq<char>, DocSource> {
    m.remove(id)
}

/// Opening is idempotent by identifier: once `open(id, b1)` has filled the
/// cache, a second `open(id, b2)` returns the document parsed from `b1` —
/// whatever `b2` holds — and changes nothing.
pub proof fn lemma_open_idempotent(
    m: Map<Seq<char>, DocSource>,
    id: Seq<char>,
    s1: DocSource,
    s2: DocSource,
)
    requires
        !m.contains_key(id),
    ensures
        doc_of_open(cache_after_open(m, id, s1), id, s2) == s1,
        cache_after_open(cache_after_open(m, id, s1), id, s2) == cache_after_open(m, id, s1),
{
}

/// After `open(id)` then `close(id)`, a lookup of `id` finds nothing.
pub proof fn lemma_close_removes_lookup(m: Map<Seq<char>, DocSource>, id: Seq<char>, s: DocSource)
    ensures
        !cache_after_close(cache_after_open(m, id, s), id).contains_key(id),
{
}

/// Closing a never-opened identifier reports that nothing was removed and
/// leaves the cache exactly as it was.
pub proof fn lemma_close_absent(m: Map<Seq<char>, DocSource>, id: Seq<char>)
    requires
        !m.contains_key(id),
    ensures
        cache_after_close(m, id) == m,
{
    assert(cache_after_close(m, id) =~= m);
}

/// The root owner: one engine binding, and the identifier-keyed cache of
/// open documents.
pub struct PdfManager {
    engine: EngineHandle,
    docs: DocCache<PdfDocument>,
}

impl PdfManager {
    /// The cache is well-formed.
    pub closed spec fn wf(&self) -> bool {
        self.docs.wf()
    }

    /// The cached documents, by identifier.
    pub closed spec fn docs_view(&self) -> Map<Seq<char>, PdfDocument> {
        self.docs@
    }

    /// The engine binding this manager owns.
    pub closed spec fn engine_spec(&self) -> EngineHandle {
        self.engine
    }

    /// The manager's model: for each cached identifier, the byte buffer and
    /// password its document was parsed from.
    pub open spec fn sources(&self) -> Map<Seq<char>, DocSource> {
        self.docs_view().map_values(|d: PdfDocument| d.source())
    }

    /// Constructs a manager bound to an engine implementation co-located
    /// with the process (searched for at `./`), falling back to the system
    /// installation.
    pub fn new() -> (r: Result<PdfManager, PdfError>)
        ensures
            r matches Ok(m) ==> m.wf() && m.sources() == Map::<Seq<char>, DocSource>::empty(),
            r matches Err(e) ==> e is BindingNotFound,
    {
        Self::bind_to_library(String::from_str("./"))
    }

    /// Constructs a manager bound to an engine implementation located at
    /// `path`, falling back to the system installation; fails with
    /// [`PdfError::BindingNotFound`] only when both attempts fail.
    pub fn bind_to_library(path: String) -> (r: Result<PdfManager, PdfError>)
        ensures
            r matches Ok(m) ==> m.wf() && m.sources() == Map::<Seq<char>, DocSource>::empty(),
            r matches Err(e) ==> e is BindingNotFound,
    {
        match EngineHandle::acquire(path.as_str()) {
            Ok(engine) => {
                let m = PdfManager { engine, docs: DocCache::new() };
                proof {
                    assert(m.sources() =~= Map::<Seq<char>, DocSource>::empty());
                }
                Ok(m)
            },
            Err(e) => Err(e),
        }
    }

    /// Read-only cache probe: a new handle to the document cached under
    /// `id`, or `None` when the identifier is absent — a normal outcome,
    /// not an error. Never parses.
    pub fn open_with_id(&self, id: String) -> (r: Option<PdfDocument>)
        requires
            self.wf(),
        ensures
            match r {
                Some(d) => self.sources().contains_key(id@) && d.source() == self.sources()[id@]
                    && d.handle() == self.docs_view()[id@].handle() && d.page_count()
                    == self.docs_view()[id@].page_count(),
                None => !self.sources().contains_key(id@),
            },
    {
        match self.docs.get(&id) {
            Some(d) => {
                proof {
                    assert(self.sources().contains_key(id@));
                    assert(self.sources()[id@] == self.docs_view()[id@].source());
                }
                Some(d.clone())
            },
            None => None,
        }
    }

    /// Opens `bytes` under `id`. A present identifier is answered from the
    /// cache without re-parsing — the bytes and password of the call are
    /// ignored then, by design. An absent identifier has its buffer parsed;
    /// on success the document is cached under `id` and a handle returned,
    /// and a failed parse surfaces as [`PdfError::ParseError`] with no entry
    /// inserted. Every other identifier's entry is left untouched, and so is
    /// the engine binding. The password must be free of NUL characters (see
    /// [`pw_has_no_nul`]).
    pub fn open(&mut self, id: String, bytes: Vec<u8>, password: Option<&str>) -> (r: Result<
        PdfDocument,
        PdfError,
    >)
        requires
            old(self).wf(),
            pw_has_no_nul(password),
        ensures
            final(self).wf(),
            final(self).engine_spec() == old(self).engine_spec(),
            final(self).docs_view().remove(id@) == old(self).docs_view().remove(id@),
            old(self).sources().contains_key(id@) ==> r is Ok,
            match r {
                Ok(d) => {
                    &&& d.source() == doc_of_open(
                        old(self).sources(),
                        id@,
                        (DocSource { bytes: bytes@, password: pw_view(password) }),
                    )
                    &&& final(self).sources() == cache_after_open(
                        old(self).sources(),
                        id@,
                        (DocSource { bytes: bytes@, password: pw_view(password) }),
                    )
                    &&& final(self).docs_view().contains_key(id@)
                    &&& final(self).docs_view()[id@].handle() == d.handle()
                    &&& final(self).docs_view()[id@].page_count() == d.page_count()
                    &&& old(self).sources().contains_key(id@) ==> d.handle() == old(
                        self,
                    ).docs_view()[id@].handle() && d.page_count() == old(
                        self,
                    ).docs_view()[id@].page_count() && *final(self) == *old(self)
                },
                Err(e) => {
                    &&& e is ParseError
                    &&& !old(self).sources().contains_key(id@)
                    &&& *final(self) == *old(self)
                },
            },
    {
        let ghost src = DocSource { bytes: bytes@, password: pw_view(password) };
        match self.docs.get(&id) {
            Some(d) => {
                proof {
                    assert(self.sources().contains_key(id@));
                    assert(self.sources()[id@] == self.docs_view()[id@].source());
                }
                Ok(d.clone())
            },
            None => {
                proof {
                    assert(!self.sources().contains_key(id@));
                }
                match self.engine.parse(bytes, password) {
                    Ok(doc) => {
                        let shared = doc.clone();
                        let ghost old_docs = self.docs@;
                        let inserted = self.docs.insert(id, shared);
                        proof {
                            assert(inserted);
                            assert(self.sources() =~= old_docs.map_values(
                                |d: PdfDocument| d.source(),
                            ).insert(id@, src));
                            assert(self.docs@.remove(id@) =~= old_docs.remove(id@));
                        }
                        Ok(doc)
                    },
                    Err(e) => Err(e),
                }
            },
        }
    }

    /// Removes the entry under `id` and reports whether one was there;
    /// closing a never-opened identifier returns `false` and changes
    /// nothing. Handles already issued for the identifier stay valid, but
    /// no later `open_with_id` or `open` hit finds it.
    pub fn close(&mut self, id: String) -> (r: bool)
        requires
            old(self).wf(),
        ensures
            final(self).wf(),
            final(self).engine_spec() == old(self).engine_spec(),
            r == old(self).sources().contains_key(id@),
            final(self).sources() == cache_after_close(old(self).sources(), id@),
            final(self).docs_view() == old(self).docs_view().remove(id@),
    {
        let ghost old_docs = self.docs@;
        let r = self.docs.remove(&id);
        proof {
            assert(self.sources() =~= old_docs.map_values(|d: PdfDocument| d.source()).remove(
                id@,
            ));
        }
        r
    }
}

} // verus!
