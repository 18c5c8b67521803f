use vstd::prelude::*;
use crate::series::Series;

verus! {

/// Seconds after a successful document refresh during which documents
/// are not loaded again: documents are refreshed at most daily.
pub const DOC_REFRESH_SECS: u64 = 86400;

/// A snapshot copy of a persisted event row.
pub struct EventRow {
    /// Store-assigned identifier.
    pub id: u64,
    pub title: String,
    pub year: u16,
    pub series: Series,
}

impl EventRow {
    /// Whether this row carries the given event key.
    pub open spec fn has_key(self, title: Seq<char>, year: int, series: Series) -> bool {
        self.title@ == title && self.year == year && self.series == series
    }
}

/// No two rows carry the same (title, year, series) key: at most one
/// event exists per key.
pub open spec fn unique_event_keys(rows: Seq<EventRow>) -> bool {
    forall|i: int, j: int|
        0 <= i < rows.len() && 0 <= j < rows.len() && i != j
            ==> !(#[trigger] rows[i]).has_key(
                (#[trigger] rows[j]).title@,
                rows[j].year as int,
                rows[j].series,
            )
}

/// Process-local snapshot of the persisted events and document urls of
/// the current year, refilled once per cycle and used for dedup
/// lookups.  It is never partially overwritten: `populate` replaces
/// the event set and, when the daily threshold has passed, the
/// document set, each in one step.
pub struct Cache {
    events: Vec<EventRow>,
    doc_urls: Vec<String>,
    /// Time of the last successful document refresh, in seconds.
    last_doc_refresh: Option<u64>,
}

impl Cache {
    /// The event rows the cache currently holds.
    pub closed spec fn events_spec(self) -> Seq<EventRow> {
        self.events@
    }

    /// The document urls the cache currently holds.
    pub closed spec fn doc_urls_spec(self) -> Seq<Seq<char>> {
        self.doc_urls@.map_values(|s: String| s@)
    }

    pub closed spec fn last_doc_refresh_spec(self) -> Option<u64> {
        self.last_doc_refresh
    }

    /// A url is known exactly when some cached document row carries it.
    pub open spec fn has_document_spec(self, url: Seq<char>) -> bool {
        exists|i: int| 0 <= i < self.doc_urls_spec().len() && self.doc_urls_spec()[i] == url
    }

    /// Some cached event row carries the key.
    pub open spec fn has_event_spec(self, title: Seq<char>, year: int, series: Series) -> bool {
        exists|i: int|
            0 <= i < self.events_spec().len() && (#[trigger] self.events_spec()[i]).has_key(
                title,
                year,
                series,
            )
    }

    /// The event uniqueness invariant, carried over from the store.
    pub open spec fn wf(self) -> bool {
        unique_event_keys(self.events_spec())
    }

    /// A cache that holds nothing and has never refreshed documents.
    pub fn new() -> (c: Cache)
        ensures
            c.events_spec() =~= Seq::<EventRow>::empty(),
            c.doc_urls_spec() =~= Seq::<Seq<char>>::empty(),
            c.last_doc_refresh_spec() is None,
            c.wf(),
    {
        let c = Cache { events: Vec::new(), doc_urls: Vec::new(), last_doc_refresh: None };
        proof {
            assert(c.doc_urls_spec() =~= Seq::<Seq<char>>::empty());
        }
        c
    }

    /// Whether the next populate call should reload documents: they are
    /// reloaded when none were ever loaded, or when at least a day has
    /// passed since the last successful document refresh.
    pub fn docs_need_refresh(&self, now: u64) -> (r: bool)
        ensures
            r == match self.last_doc_refresh_spec() {
                Option::None => true,
                Option::Some(t) => now >= t + DOC_REFRESH_SECS,
            },
    {
        match &self.last_doc_refresh {
            Option::None => true,
            Option::Some(t) => now >= *t && now - *t >= DOC_REFRESH_SECS,
        }
    }

    /// Clears then refills the snapshot: the event set is always
    /// replaced whole; the document set is replaced whole when given,
    /// and left untouched when not (documents are refreshed at most
    /// daily).
    pub fn populate(&mut self, events: Vec<EventRow>, docs: Option<Vec<String>>, now: u64)
        requires
            unique_event_keys(events@),
        ensures
            final(self).events_spec() =~= events@,
            match docs {
                Option::Some(d) => final(self).doc_urls_spec() =~= d@.map_values(|s: String| s@)
                    && final(self).last_doc_refresh_spec() == Option::Some(now),
                Option::None => final(self).doc_urls_spec() =~= old(self).doc_urls_spec()
                    && final(self).last_doc_refresh_spec() == old(self).last_doc_refresh_spec(),
            },
            final(self).wf(),
    {
        self.events = events;
        match docs {
            Option::Some(d) => {
                self.doc_urls = d;
                self.last_doc_refresh = Option::Some(now);
            },
            Option::None => {},
        }
    }

    /// Looks up the unique cached event with the given key, if any.
    pub fn find_event(&self, title: &String, year: u16, series: Series) -> (r: Option<&EventRow>)
        ensures
            match r {
                Option::Some(row) => row.has_key(title@, year as int, series)
                    && self.has_event_spec(title@, year as int, series),
                Option::None => !self.has_event_spec(title@, year as int, series),
            },
    {
        let n = self.events.len();
        let mut i: usize = 0;
        while i < n
            invariant
                n == self.events_spec().len(),
                i <= n,
                forall|k: int|
                    0 <= k < i ==> !(#[trigger] self.events_spec()[k]).has_key(
                        title@,
                        year as int,
                        series,
                    ),
            decreases n - i,
        {
            let row = &self.events[i];
            if row.title == *title && row.year == year && row.series == series {
                return Option::Some(row);
            }
            i += 1;
        }
        Option::None
    }

    /// Whether the source url is already known, in which case the
    /// content pipeline is skipped for it entirely.
    pub fn has_document(&self, url: &String) -> (r: bool)
        ensures
            r == self.has_document_spec(url@),
    {
        let n = self.doc_urls.len();
        let mut i: usize = 0;
        while i < n
            invariant
                n == self.doc_urls_spec().len(),
                i <= n,
                forall|k: int| 0 <= k < i ==> self.doc_urls_spec()[k] != url@,
            decreases n - i,
        {
            if self.doc_urls[i] == *url {
                proof {
                    assert(self.doc_urls_spec()[i as int] == url@);
                }
                return true;
            }
            i += 1;
        }
        false
    }
}

/// Idempotent event creation: a cache populated from store rows among
/// which an event key already exists reports that key as present, and
/// a cycle run over such a cache never asks the store for a second row
/// with it (see `Cycle::next`: a create step carries only keys the
/// cache lacks).  Two cycles over an unchanged feed therefore leave
/// one row per (title, year, series).
pub proof fn lemma_idempotent_event_creation(
    c: Cache,
    title: Seq<char>,
    year: int,
    series: Series,
    i: int,
)
    requires
        0 <= i < c.events_spec().len(),
        c.events_spec()[i].has_key(title, year, series),
    ensures
        c.has_event_spec(title, year, series),
{
}

/// No duplicate work: a cache populated from document rows among which
/// a source url already exists reports that url as known, and a cycle
/// run over such a cache never starts the content pipeline for it
/// (see `Cycle::next`: a document step carries only urls the cache
/// lacks, and a document is skipped only when its url is known).
pub proof fn lemma_no_duplicate_work(c: Cache, url: Seq<char>, i: int)
    requires
        0 <= i < c.doc_urls_spec().len(),
        c.doc_urls_spec()[i] == url,
    ensures
        c.has_document_spec(url),
{
}

} // verus!
