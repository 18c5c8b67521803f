use vstd::prelude::*;
use crate::cache::Cache;
use crate::feed::ValidDocModel;
use crate::feed::ValidEvent;
use crate::feed::ValidEventModel;
use crate::feed::events_view;
use crate::series::Series;
use crate::store::EventStatus;
use crate::store::NewEvent;

verus! {

/// The fixed ascending order the three series are processed in.
pub open spec fn series_of_index_spec(i: int) -> Series {
    if i == 0 {
        Series::F1
    } else if i == 1 {
        Series::F2
    } else {
        Series::F3
    }
}

fn series_of_index(i: usize) -> (s: Series)
    ensures
        s == series_of_index_spec(i as int),
{
    if i == 0 {
        Series::F1
    } else if i == 1 {
        Series::F2
    } else {
        Series::F3
    }
}

/// What the cycle asks its driver to do next.  Each step is one unit
/// of outside work; the driver performs it and reports its outcome
/// before asking again.
pub enum Step {
    /// Fetch and extract the listing page of this series.
    FetchFeed { series: Series },
    /// Create this event row and report the assigned id.
    CreateEvent { row: NewEvent },
    /// Run the content pipeline for this document of this event.
    StartDocument { event_id: u64, event_title: String, title: String, url: String },
    /// Clear the scratch storage used by the finished event.
    ClearScratch,
    /// The cycle is over; `stopped` when it ended at a stop check.
    Finished { stopped: bool },
}

/// Where the cycle stands between two calls.
#[derive(Clone, Copy, PartialEq, Eq, Structural, Debug)]
pub enum Mode {
    /// About to fetch the next series' feed.
    BeforeSeries,
    /// A feed fetch is in flight.
    AwaitFeed,
    /// About to resolve the next event candidate.
    BeforeEvent,
    /// An event row create is in flight.
    AwaitCreate,
    /// About to pick the next document of the current event.
    BeforeDoc,
    /// A document pipeline run is in flight.
    AwaitDoc,
    /// A scratch clear is in flight.
    AwaitScratch,
    /// A persistence or scratch failure ended the cycle.
    Fatal,
    /// The cycle finished.
    Done,
}

/// All documents of `docs` with index in `lo .. hi` have their url in
/// the cache's document set.
pub open spec fn docs_cached_between(c: Cache, docs: Seq<ValidDocModel>, lo: int, hi: int) -> bool {
    forall|k: int| lo <= k < hi ==> c.has_document_spec((#[trigger] docs[k]).url)
}

/// One ingestion cycle: series in fixed order, events and documents
/// in feed order, dedup against the cache snapshot, a cooperative
/// stop check before every event and every document.
pub struct Cycle {
    year: u16,
    cache: Cache,
    series_idx: usize,
    events: Vec<ValidEvent>,
    ev: usize,
    event_id: u64,
    doc: usize,
    mode: Mode,
    stopped: bool,
}

impl Cycle {
    pub closed spec fn year_spec(self) -> u16 {
        self.year
    }

    pub closed spec fn cache_spec(self) -> Cache {
        self.cache
    }

    pub closed spec fn series_idx_spec(self) -> int {
        self.series_idx as int
    }

    pub closed spec fn events_spec(self) -> Seq<ValidEventModel> {
        events_view(self.events@)
    }

    pub closed spec fn ev_spec(self) -> int {
        self.ev as int
    }

    pub closed spec fn doc_spec(self) -> int {
        self.doc as int
    }

    pub closed spec fn event_id_spec(self) -> u64 {
        self.event_id
    }

    pub closed spec fn mode_spec(self) -> Mode {
        self.mode
    }

    pub closed spec fn stopped_spec(self) -> bool {
        self.stopped
    }

    /// The documents of the event now being processed.
    pub open spec fn cur_docs(self) -> Seq<ValidDocModel> {
        self.events_spec()[self.ev_spec()].documents
    }

    pub closed spec fn wf(self) -> bool {
        &&& self.cache.wf()
        &&& self.series_idx <= 3
        &&& self.events@.len() <= usize::MAX
        &&& (self.mode == Mode::AwaitFeed ==> self.series_idx < 3)
        &&& ((self.mode == Mode::BeforeEvent || self.mode == Mode::AwaitCreate) ==> self.ev
            <= self.events@.len() && self.series_idx < 3)
        &&& (self.mode == Mode::AwaitCreate ==> self.ev < self.events@.len())
        &&& ((self.mode == Mode::BeforeDoc || self.mode == Mode::AwaitDoc || self.mode
            == Mode::AwaitScratch) ==> self.ev < self.events@.len() && self.series_idx < 3
            && self.doc <= self.events@[self.ev as int]@.documents.len() && self.events@[
            self.ev as int
        ]@.documents.len() <= usize::MAX)
        &&& (self.mode == Mode::AwaitDoc ==> self.doc < self.events@[self.ev as int]@.documents.len())
    }

    /// Begins a cycle over a populated cache snapshot.
    pub fn start(cache: Cache, year: u16) -> (c: Cycle)
        requires
            cache.wf(),
        ensures
            c.wf(),
            c.cache_spec() == cache,
            c.year_spec() == year,
            c.mode_spec() == Mode::BeforeSeries,
            c.series_idx_spec() == 0,
            !c.stopped_spec(),
    {
        Cycle {
            year,
            cache,
            series_idx: 0,
            events: Vec::new(),
            ev: 0,
            event_id: 0,
            doc: 0,
            mode: Mode::BeforeSeries,
            stopped: false,
        }
    }

    /// Where document skipping starts for one `next` call: at the
    /// current document cursor when already inside an event, at the
    /// first document when the event is just being entered.
    pub open spec fn doc_skip_base(self) -> int {
        if self.mode_spec() == Mode::BeforeDoc {
            self.doc_spec()
        } else {
            0
        }
    }

    /// Decides the next unit of work.  The stop signal is sampled
    /// here, at event and document boundaries only: a unit already
    /// handed out runs to completion before this is called again.
    ///
    /// No duplicate work: a document whose url the cache knows is
    /// never started, and a document is only skipped for that reason.
    /// An event row is only created when the cache lacks its key.
    /// Dedup keys on the source url alone, so a document whose earlier
    /// run failed partway is not retried once its url is in the store;
    /// whether the key should include the status is an open question
    /// this library deliberately leaves as it found it.
    pub fn next(&mut self, stop: bool) -> (s: Step)
        requires
            old(self).wf(),
            old(self).mode_spec() == Mode::BeforeSeries || old(self).mode_spec()
                == Mode::BeforeEvent || old(self).mode_spec() == Mode::BeforeDoc,
        ensures
            final(self).wf(),
            final(self).cache_spec() == old(self).cache_spec(),
            final(self).year_spec() == old(self).year_spec(),
            final(self).events_spec() == old(self).events_spec(),
            // Cooperative stop honored at boundaries: with the signal
            // set, no further unit starts.
            stop ==> s == (Step::Finished { stopped: true }) && final(self).mode_spec()
                == Mode::Done && final(self).stopped_spec(),
            (s matches Step::FetchFeed { series } ==> {
                &&& final(self).mode_spec() == Mode::AwaitFeed
                &&& final(self).series_idx_spec() < 3
                &&& series == series_of_index_spec(final(self).series_idx_spec())
                &&& final(self).series_idx_spec() >= old(self).series_idx_spec()
            }),
            (s matches Step::CreateEvent { row } ==> {
                &&& final(self).mode_spec() == Mode::AwaitCreate
                &&& final(self).ev_spec() < final(self).events_spec().len()
                &&& final(self).ev_spec() == old(self).ev_spec()
                &&& final(self).series_idx_spec() == old(self).series_idx_spec()
                &&& row.title@ == final(self).events_spec()[final(self).ev_spec()].title
                &&& row.year == old(self).year_spec()
                &&& row.series == series_of_index_spec(final(self).series_idx_spec())
                &&& row.status == EventStatus::NotAllowed
                &&& !old(self).cache_spec().has_event_spec(row.title@, row.year as int, row.series)
            }),
            (s matches Step::StartDocument { event_id, event_title, title, url } ==> {
                &&& final(self).mode_spec() == Mode::AwaitDoc
                &&& final(self).ev_spec() < final(self).events_spec().len()
                &&& final(self).doc_spec() < final(self).cur_docs().len()
                &&& event_title@ == final(self).events_spec()[final(self).ev_spec()].title
                &&& title@ == final(self).cur_docs()[final(self).doc_spec()].title
                &&& url@ == final(self).cur_docs()[final(self).doc_spec()].url
                &&& event_id == final(self).event_id_spec()
                &&& !old(self).cache_spec().has_document_spec(url@)
                &&& (old(self).mode_spec() == Mode::BeforeDoc ==> final(self).ev_spec() == old(
                    self,
                ).ev_spec() && final(self).event_id_spec() == old(self).event_id_spec() && old(
                    self,
                ).doc_spec() <= final(self).doc_spec())
                &&& docs_cached_between(
                    old(self).cache_spec(),
                    final(self).cur_docs(),
                    old(self).doc_skip_base(),
                    final(self).doc_spec(),
                )
            }),
            (s matches Step::ClearScratch ==> {
                &&& final(self).mode_spec() == Mode::AwaitScratch
                &&& final(self).ev_spec() < final(self).events_spec().len()
                &&& final(self).doc_spec() == final(self).cur_docs().len()
                &&& (old(self).mode_spec() == Mode::BeforeDoc ==> final(self).ev_spec() == old(
                    self,
                ).ev_spec() && old(self).doc_spec() <= final(self).doc_spec())
                &&& docs_cached_between(
                    old(self).cache_spec(),
                    final(self).cur_docs(),
                    old(self).doc_skip_base(),
                    final(self).doc_spec(),
                )
            }),
            (s matches Step::Finished { stopped } ==> {
                &&& final(self).mode_spec() == Mode::Done
                &&& stopped == final(self).stopped_spec()
                &&& (!stop ==> final(self).series_idx_spec() == 3)
            }),
            // The step is owed, not merely permitted: from each mode,
            // the state the cycle stood in fixes what comes next.
            (!stop && old(self).mode_spec() == Mode::BeforeSeries ==> {
                &&& (old(self).series_idx_spec() == 3 ==> s is Finished)
                &&& (old(self).series_idx_spec() < 3 ==> s is FetchFeed
                    && final(self).series_idx_spec() == old(self).series_idx_spec())
            }),
            (!stop && old(self).mode_spec() == Mode::BeforeEvent ==> {
                let key_present = old(self).cache_spec().has_event_spec(
                    old(self).events_spec()[old(self).ev_spec()].title,
                    old(self).year_spec() as int,
                    series_of_index_spec(old(self).series_idx_spec()),
                );
                &&& (old(self).ev_spec() == old(self).events_spec().len() ==> {
                    &&& final(self).series_idx_spec() == old(self).series_idx_spec() + 1
                    &&& (old(self).series_idx_spec() + 1 == 3 ==> s is Finished)
                    &&& (old(self).series_idx_spec() + 1 < 3 ==> s is FetchFeed)
                })
                &&& (old(self).ev_spec() < old(self).events_spec().len() ==> {
                    &&& final(self).series_idx_spec() == old(self).series_idx_spec()
                    &&& (!key_present ==> s is CreateEvent)
                    &&& (key_present ==> (s is StartDocument || s is ClearScratch)
                        && final(self).ev_spec() == old(self).ev_spec())
                })
            }),
            (!stop && old(self).mode_spec() == Mode::BeforeDoc ==> (s is StartDocument
                || s is ClearScratch) && final(self).ev_spec() == old(self).ev_spec()
                && final(self).series_idx_spec() == old(self).series_idx_spec()),
    {
        if stop {
            self.mode = Mode::Done;
            self.stopped = true;
            return Step::Finished { stopped: true };
        }
        if self.mode == Mode::BeforeEvent {
            if self.ev >= self.events.len() {
                self.series_idx = self.series_idx + 1;
                self.mode = Mode::BeforeSeries;
            } else {
                let series = series_of_index(self.series_idx);
                let found = self.cache.find_event(&self.events[self.ev].title, self.year, series);
                match found {
                    Some(row) => {
                        self.event_id = row.id;
                        self.doc = 0;
                        let _dl: usize = self.events[self.ev].documents.len();
                        self.mode = Mode::BeforeDoc;
                    },
                    None => {
                        let title = self.events[self.ev].title.clone();
                        self.mode = Mode::AwaitCreate;
                        return Step::CreateEvent {
                            row: NewEvent {
                                title,
                                year: self.year,
                                series,
                                status: EventStatus::NotAllowed,
                            },
                        };
                    },
                }
            }
        }
        if self.mode == Mode::BeforeSeries {
            if self.series_idx >= 3 {
                self.mode = Mode::Done;
                self.stopped = false;
                return Step::Finished { stopped: false };
            }
            let series = series_of_index(self.series_idx);
            self.mode = Mode::AwaitFeed;
            return Step::FetchFeed { series };
        }
        // From here the mode is BeforeDoc: pick the next document
        // whose url the cache does not know.
        let ghost base = self.doc as int;
        let docs_len = self.events[self.ev].documents.len();
        let mut i: usize = self.doc;
        let mut found_new = false;
        while !found_new && i < docs_len
            invariant
                self.wf(),
                self.mode == Mode::BeforeDoc,
                base <= i <= docs_len,
                docs_len == self.cur_docs().len(),
                self.ev_spec() < self.events_spec().len(),
                docs_cached_between(self.cache_spec(), self.cur_docs(), base, i as int),
                found_new ==> i < docs_len && !self.cache_spec().has_document_spec(
                    self.cur_docs()[i as int].url,
                ),
            decreases docs_len - i, (if found_new {
                0int
            } else {
                1int
            }),
        {
            let u = &self.events[self.ev].documents[i].url;
            proof {
                assert(self.cur_docs()[i as int] == self.events@[self.ev as int]@.documents[
                    i as int
                ]);
                assert(self.events@[self.ev as int]@.documents[i as int].url == self.events@[
                    self.ev as int
                ].documents@[i as int]@.url);
            }
            if self.cache.has_document(u) {
                i = i + 1;
            } else {
                found_new = true;
            }
        }
        self.doc = i;
        if found_new {
            let d = &self.events[self.ev].documents[i];
            let step = Step::StartDocument {
                event_id: self.event_id,
                event_title: self.events[self.ev].title.clone(),
                title: d.title.clone(),
                url: d.url.clone(),
            };
            self.mode = Mode::AwaitDoc;
            step
        } else {
            self.mode = Mode::AwaitScratch;
            Step::ClearScratch
        }
    }

    /// The feed of the current series was fetched and extracted; its
    /// validated events are processed in feed order.
    pub fn feed_ok(&mut self, events: Vec<ValidEvent>)
        requires
            old(self).wf(),
            old(self).mode_spec() == Mode::AwaitFeed,
        ensures
            final(self).wf(),
            final(self).cache_spec() == old(self).cache_spec(),
            final(self).year_spec() == old(self).year_spec(),
            final(self).mode_spec() == Mode::BeforeEvent,
            final(self).events_spec() == events_view(events@),
            final(self).ev_spec() == 0,
            final(self).series_idx_spec() == old(self).series_idx_spec(),
    {
        let _n: usize = events.len();
        self.events = events;
        self.ev = 0;
        self.mode = Mode::BeforeEvent;
    }

    /// The feed fetch failed: only this series is aborted; the cycle
    /// continues with the next one.
    pub fn feed_failed(&mut self)
        requires
            old(self).wf(),
            old(self).mode_spec() == Mode::AwaitFeed,
        ensures
            final(self).wf(),
            final(self).cache_spec() == old(self).cache_spec(),
            final(self).year_spec() == old(self).year_spec(),
            final(self).mode_spec() == Mode::BeforeSeries,
            final(self).series_idx_spec() == old(self).series_idx_spec() + 1,
    {
        self.series_idx = self.series_idx + 1;
        self.mode = Mode::BeforeSeries;
    }

    /// The store created the event row and assigned it this id; its
    /// documents are processed next.
    pub fn event_created(&mut self, id: u64)
        requires
            old(self).wf(),
            old(self).mode_spec() == Mode::AwaitCreate,
        ensures
            final(self).wf(),
            final(self).cache_spec() == old(self).cache_spec(),
            final(self).year_spec() == old(self).year_spec(),
            final(self).events_spec() == old(self).events_spec(),
            final(self).mode_spec() == Mode::BeforeDoc,
            final(self).ev_spec() == old(self).ev_spec(),
            final(self).doc_spec() == 0,
            final(self).event_id_spec() == id,
    {
        self.event_id = id;
        self.doc = 0;
        let _dl: usize = self.events[self.ev].documents.len();
        self.mode = Mode::BeforeDoc;
    }

    /// The store rejected the event row: a persistence failure is
    /// fatal to the whole cycle.
    pub fn create_failed(&mut self)
        requires
            old(self).wf(),
            old(self).mode_spec() == Mode::AwaitCreate,
        ensures
            final(self).wf(),
            final(self).mode_spec() == Mode::Fatal,
    {
        self.mode = Mode::Fatal;
    }

    /// The document pipeline run ended, as success or as a failure
    /// scoped to that document alone; the event continues with its
    /// next document.
    pub fn document_done(&mut self)
        requires
            old(self).wf(),
            old(self).mode_spec() == Mode::AwaitDoc,
        ensures
            final(self).wf(),
            final(self).cache_spec() == old(self).cache_spec(),
            final(self).year_spec() == old(self).year_spec(),
            final(self).events_spec() == old(self).events_spec(),
            final(self).mode_spec() == Mode::BeforeDoc,
            final(self).ev_spec() == old(self).ev_spec(),
            final(self).event_id_spec() == old(self).event_id_spec(),
            final(self).doc_spec() == old(self).doc_spec() + 1,
    {
        self.doc = self.doc + 1;
        self.mode = Mode::BeforeDoc;
    }

    /// The document pipeline hit a persistence failure: fatal to the
    /// whole cycle.
    pub fn document_fatal(&mut self)
        requires
            old(self).wf(),
            old(self).mode_spec() == Mode::AwaitDoc,
        ensures
            final(self).wf(),
            final(self).mode_spec() == Mode::Fatal,
    {
        self.mode = Mode::Fatal;
    }

    /// The scratch storage of the finished event was cleared; the next
    /// event follows.
    pub fn scratch_cleared(&mut self)
        requires
            old(self).wf(),
            old(self).mode_spec() == Mode::AwaitScratch,
        ensures
            final(self).wf(),
            final(self).cache_spec() == old(self).cache_spec(),
            final(self).year_spec() == old(self).year_spec(),
            final(self).events_spec() == old(self).events_spec(),
            final(self).mode_spec() == Mode::BeforeEvent,
            final(self).ev_spec() == old(self).ev_spec() + 1,
    {
        self.ev = self.ev + 1;
        self.mode = Mode::BeforeEvent;
    }

    /// Clearing scratch storage failed: fatal to the whole cycle.
    pub fn scratch_failed(&mut self)
        requires
            old(self).wf(),
            old(self).mode_spec() == Mode::AwaitScratch,
        ensures
            final(self).wf(),
            final(self).mode_spec() == Mode::Fatal,
    {
        self.mode = Mode::Fatal;
    }

    /// Whether a persistence or scratch failure ended the cycle.
    pub fn is_fatal(&self) -> (r: bool)
        ensures
            r == (self.mode_spec() == Mode::Fatal),
    {
        self.mode == Mode::Fatal
    }

    /// Hands the cache snapshot back when the cycle is over.
    pub fn into_cache(self) -> (c: Cache)
        ensures
            c == self.cache_spec(),
    {
        self.cache
    }
}

/// The cycle's cursors stay in range: every cursor is non-negative,
/// the series index never passes the three series, the event cursor
/// stays within the current feed, and the document cursor never
/// passes the current event's documents.  Callers reasoning over a
/// whole cycle (for instance that a warmed cache leads to no create
/// and no start at any step) read the bounds from here.
pub proof fn lemma_cycle_bounds(c: Cycle)
    requires
        c.wf(),
    ensures
        0 <= c.ev_spec(),
        0 <= c.doc_spec(),
        0 <= c.series_idx_spec() <= 3,
        (c.mode_spec() == Mode::BeforeEvent || c.mode_spec() == Mode::AwaitCreate) ==> c.ev_spec()
            <= c.events_spec().len() && c.series_idx_spec() < 3,
        c.mode_spec() == Mode::AwaitCreate ==> c.ev_spec() < c.events_spec().len(),
        (c.mode_spec() == Mode::BeforeDoc || c.mode_spec() == Mode::AwaitDoc || c.mode_spec()
            == Mode::AwaitScratch) ==> c.ev_spec() < c.events_spec().len() && c.doc_spec()
            <= c.cur_docs().len() && c.series_idx_spec() < 3,
        c.mode_spec() == Mode::AwaitDoc ==> c.doc_spec() < c.cur_docs().len(),
{
}

} // verus!
