use vstd::prelude::*;

verus! {

// ---------------------------------------------------------------------------
// Candidate records: pre-validation output of the extractor.
// ---------------------------------------------------------------------------

/// A document link as extracted, fields possibly missing when the
/// source markup is malformed or partial.
#[derive(Debug)]
pub struct DocumentCandidate {
    pub title: Option<String>,
    pub url: Option<String>,
}

/// An event block as extracted, fields possibly missing.
#[derive(Debug)]
pub struct EventCandidate {
    pub title: Option<String>,
    pub season: Option<u16>,
    pub documents: Vec<DocumentCandidate>,
}

/// One series' listing page, as extracted for one target year.
#[derive(Debug)]
pub struct Season {
    pub year: u16,
    pub events: Vec<EventCandidate>,
}

#[verifier::ext_equal]
pub struct DocCandidateModel {
    pub title: Option<Seq<char>>,
    pub url: Option<Seq<char>>,
}

#[verifier::ext_equal]
pub struct EventCandidateModel {
    pub title: Option<Seq<char>>,
    pub season: Option<u16>,
    pub documents: Seq<DocCandidateModel>,
}

#[verifier::ext_equal]
pub struct SeasonModel {
    pub year: u16,
    pub events: Seq<EventCandidateModel>,
}

pub open spec fn opt_view(o: Option<String>) -> Option<Seq<char>> {
    match o {
        Option::Some(s) => Option::Some(s@),
        Option::None => Option::None,
    }
}

impl View for DocumentCandidate {
    type V = DocCandidateModel;

    open spec fn view(&self) -> DocCandidateModel {
        DocCandidateModel { title: opt_view(self.title), url: opt_view(self.url) }
    }
}

impl View for EventCandidate {
    type V = EventCandidateModel;

    open spec fn view(&self) -> EventCandidateModel {
        EventCandidateModel {
            title: opt_view(self.title),
            season: self.season,
            documents: self.documents@.map_values(|d: DocumentCandidate| d@),
        }
    }
}

impl View for Season {
    type V = SeasonModel;

    open spec fn view(&self) -> SeasonModel {
        SeasonModel { year: self.year, events: self.events@.map_values(|e: EventCandidate| e@) }
    }
}

// ---------------------------------------------------------------------------
// Tokens: the narrow adapter boundary.  Whatever tokenizing facility
// reads the raw page hands the extractor a flat stream of tag-open,
// tag-close and text events as plain values.
// ---------------------------------------------------------------------------

/// One markup event.  `class` carries the class attribute token the
/// adapter saw (empty when absent); `href` the link target, if any.
#[derive(Debug)]
pub enum FeedToken {
    Open { name: String, class: String, href: Option<String> },
    Close,
    Text { text: String },
}

#[verifier::ext_equal]
pub enum TokenModel {
    Open { name: Seq<char>, class: Seq<char>, href: Option<Seq<char>> },
    Close,
    Text { text: Seq<char> },
}

impl View for FeedToken {
    type V = TokenModel;

    open spec fn view(&self) -> TokenModel {
        match self {
            FeedToken::Open { name, class, href } => TokenModel::Open {
                name: name@,
                class: class@,
                href: opt_view(*href),
            },
            FeedToken::Close => TokenModel::Close,
            FeedToken::Text { text } => TokenModel::Text { text: text@ },
        }
    }
}

/// The recognized container kinds; every open tag is pushed as one of
/// these, so closes pop in document order.
#[derive(Clone, Copy, PartialEq, Eq, Structural, Debug)]
pub enum Marker {
    Event,
    EventTitle,
    DocLink,
    DocTitle,
    Other,
}

// ---------------------------------------------------------------------------
// The extraction state machine.
// ---------------------------------------------------------------------------

/// Streaming, single-pass extractor: a stack of open-container markers
/// plus a text accumulator; no tree is built.
pub struct FeedParser {
    year: u16,
    stack: Vec<Marker>,
    events: Vec<EventCandidate>,
    in_event: bool,
    cur_event: EventCandidate,
    in_doc: bool,
    cur_doc: DocumentCandidate,
    collecting: bool,
    text: String,
}

#[verifier::ext_equal]
pub struct ParserModel {
    pub year: u16,
    pub stack: Seq<Marker>,
    pub events: Seq<EventCandidateModel>,
    pub in_event: bool,
    pub cur_event: EventCandidateModel,
    pub in_doc: bool,
    pub cur_doc: DocCandidateModel,
    pub collecting: bool,
    pub text: Seq<char>,
}

impl View for FeedParser {
    type V = ParserModel;

    closed spec fn view(&self) -> ParserModel {
        ParserModel {
            year: self.year,
            stack: self.stack@,
            events: self.events@.map_values(|e: EventCandidate| e@),
            in_event: self.in_event,
            cur_event: self.cur_event@,
            in_doc: self.in_doc,
            cur_doc: self.cur_doc@,
            collecting: self.collecting,
            text: self.text@,
        }
    }
}

pub open spec fn empty_event_model() -> EventCandidateModel {
    EventCandidateModel { title: Option::None, season: Option::None, documents: Seq::empty() }
}

pub open spec fn empty_doc_model() -> DocCandidateModel {
    DocCandidateModel { title: Option::None, url: Option::None }
}

pub open spec fn init_model(year: u16) -> ParserModel {
    ParserModel {
        year,
        stack: Seq::empty(),
        events: Seq::empty(),
        in_event: false,
        cur_event: empty_event_model(),
        in_doc: false,
        cur_doc: empty_doc_model(),
        collecting: false,
        text: Seq::empty(),
    }
}

/// Which container an opening tag starts, given where the machine
/// currently stands: an event block, its title, a document link, the
/// link's title, or none of these.
pub open spec fn classify(m: ParserModel, name: Seq<char>, class: Seq<char>) -> Marker {
    if !m.in_event && class == "event-wrapper"@ {
        Marker::Event
    } else if m.in_event && !m.in_doc && !m.collecting && class == "event-title"@ {
        Marker::EventTitle
    } else if m.in_event && !m.in_doc && name == "a"@ && class == "document-row"@ {
        Marker::DocLink
    } else if m.in_doc && !m.collecting && class == "title"@ {
        Marker::DocTitle
    } else {
        Marker::Other
    }
}

/// One transition of the extraction machine.  Text accumulates only
/// inside a recognized title container; accumulators reset on
/// container exit; a candidate is committed when its container
/// closes; a close with an empty stack is ignored.
pub open spec fn step_model(m: ParserModel, t: TokenModel) -> ParserModel {
    match t {
        TokenModel::Open { name, class, href } => {
            let mk = classify(m, name, class);
            let m1 = ParserModel { stack: m.stack.push(mk), ..m };
            match mk {
                Marker::Event => ParserModel {
                    in_event: true,
                    cur_event: EventCandidateModel {
                        title: Option::None,
                        season: Option::Some(m.year),
                        documents: Seq::empty(),
                    },
                    ..m1
                },
                Marker::EventTitle => ParserModel { collecting: true, text: Seq::empty(), ..m1 },
                Marker::DocLink => ParserModel {
                    in_doc: true,
                    cur_doc: DocCandidateModel { title: Option::None, url: href },
                    ..m1
                },
                Marker::DocTitle => ParserModel { collecting: true, text: Seq::empty(), ..m1 },
                Marker::Other => m1,
            }
        },
        TokenModel::Text { text } => {
            if m.collecting {
                ParserModel { text: m.text + text, ..m }
            } else {
                m
            }
        },
        TokenModel::Close => {
            if m.stack.len() == 0 {
                m
            } else {
                let mk = m.stack.last();
                let m1 = ParserModel { stack: m.stack.drop_last(), ..m };
                match mk {
                    Marker::Event => ParserModel {
                        events: if m.in_event {
                            m.events.push(m.cur_event)
                        } else {
                            m.events
                        },
                        in_event: false,
                        cur_event: empty_event_model(),
                        in_doc: false,
                        cur_doc: empty_doc_model(),
                        collecting: false,
                        text: Seq::empty(),
                        ..m1
                    },
                    Marker::EventTitle => ParserModel {
                        cur_event: EventCandidateModel {
                            title: if m.collecting && m.text.len() > 0 {
                                Option::Some(m.text)
                            } else {
                                m.cur_event.title
                            },
                            ..m.cur_event
                        },
                        collecting: false,
                        text: Seq::empty(),
                        ..m1
                    },
                    Marker::DocLink => ParserModel {
                        cur_event: EventCandidateModel {
                            documents: if m.in_event && m.in_doc {
                                m.cur_event.documents.push(m.cur_doc)
                            } else {
                                m.cur_event.documents
                            },
                            ..m.cur_event
                        },
                        in_doc: false,
                        cur_doc: empty_doc_model(),
                        collecting: false,
                        text: Seq::empty(),
                        ..m1
                    },
                    Marker::DocTitle => ParserModel {
                        cur_doc: DocCandidateModel {
                            title: if m.in_doc && m.collecting && m.text.len() > 0 {
                                Option::Some(m.text)
                            } else {
                                m.cur_doc.title
                            },
                            ..m.cur_doc
                        },
                        collecting: false,
                        text: Seq::empty(),
                        ..m1
                    },
                    Marker::Other => m1,
                }
            }
        },
    }
}

fn clone_opt(o: &Option<String>) -> (r: Option<String>)
    ensures
        opt_view(r) == opt_view(*o),
{
    match o {
        Option::Some(s) => Option::Some(s.clone()),
        Option::None => Option::None,
    }
}

impl FeedParser {
    /// A fresh machine for one listing page of the target year.
    pub fn new(year: u16) -> (p: FeedParser)
        ensures
            p@ == init_model(year),
    {
        let p = FeedParser {
            year,
            stack: Vec::new(),
            events: Vec::new(),
            in_event: false,
            cur_event: EventCandidate { title: None, season: None, documents: Vec::new() },
            in_doc: false,
            cur_doc: DocumentCandidate { title: None, url: None },
            collecting: false,
            text: String::new(),
        };
        proof {
            assert(p@ =~~= init_model(year));
        }
        p
    }

    fn classify_exec(&self, name: &String, class: &String) -> (mk: Marker)
        ensures
            mk == classify(self@, name@, class@),
    {
        if !self.in_event && *class == String::from_str("event-wrapper") {
            Marker::Event
        } else if self.in_event && !self.in_doc && !self.collecting && *class == String::from_str(
            "event-title",
        ) {
            Marker::EventTitle
        } else if self.in_event && !self.in_doc && *name == String::from_str("a") && *class
            == String::from_str("document-row") {
            Marker::DocLink
        } else if self.in_doc && !self.collecting && *class == String::from_str("title") {
            Marker::DocTitle
        } else {
            Marker::Other
        }
    }

    /// Feeds one markup event to the machine.
    pub fn push_token(&mut self, t: &FeedToken)
        ensures
            final(self)@ == step_model(old(self)@, t@),
    {
        match t {
            FeedToken::Open { name, class, href } => {
                let mk = self.classify_exec(name, class);
                self.stack.push(mk);
                match mk {
                    Marker::Event => {
                        self.in_event = true;
                        self.cur_event = EventCandidate {
                            title: None,
                            season: Some(self.year),
                            documents: Vec::new(),
                        };
                    },
                    Marker::EventTitle => {
                        self.collecting = true;
                        self.text = String::new();
                    },
                    Marker::DocLink => {
                        self.in_doc = true;
                        self.cur_doc = DocumentCandidate { title: None, url: clone_opt(href) };
                    },
                    Marker::DocTitle => {
                        self.collecting = true;
                        self.text = String::new();
                    },
                    Marker::Other => {},
                }
                proof {
                    assert(self@ =~~= step_model(old(self)@, t@));
                }
            },
            FeedToken::Text { text } => {
                if self.collecting {
                    self.text.append(text.as_str());
                }
                proof {
                    assert(self@ =~~= step_model(old(self)@, t@));
                }
            },
            FeedToken::Close => {
                if self.stack.len() == 0 {
                    proof {
                        assert(self@ =~~= step_model(old(self)@, t@));
                    }
                } else {
                    let mk = match self.stack.pop() {
                        Some(m) => m,
                        None => Marker::Other,
                    };
                    match mk {
                        Marker::Event => {
                            let mut ev = EventCandidate {
                                title: None,
                                season: None,
                                documents: Vec::new(),
                            };
                            core::mem::swap(&mut self.cur_event, &mut ev);
                            if self.in_event {
                                self.events.push(ev);
                            }
                            self.in_event = false;
                            self.in_doc = false;
                            self.cur_doc = DocumentCandidate { title: None, url: None };
                            self.collecting = false;
                            self.text = String::new();
                        },
                        Marker::EventTitle => {
                            if self.collecting && self.text.as_str().unicode_len() > 0 {
                                let mut t2 = String::new();
                                core::mem::swap(&mut self.text, &mut t2);
                                self.cur_event.title = Some(t2);
                            } else {
                                self.text = String::new();
                            }
                            self.collecting = false;
                        },
                        Marker::DocLink => {
                            if self.in_event && self.in_doc {
                                let mut d = DocumentCandidate { title: None, url: None };
                                core::mem::swap(&mut self.cur_doc, &mut d);
                                self.cur_event.documents.push(d);
                            } else {
                                self.cur_doc = DocumentCandidate { title: None, url: None };
                            }
                            self.in_doc = false;
                            self.collecting = false;
                            self.text = String::new();
                        },
                        Marker::DocTitle => {
                            if self.in_doc && self.collecting && self.text.as_str().unicode_len()
                                > 0 {
                                let mut t2 = String::new();
                                core::mem::swap(&mut self.text, &mut t2);
                                self.cur_doc.title = Some(t2);
                            } else {
                                self.text = String::new();
                            }
                            self.collecting = false;
                        },
                        Marker::Other => {},
                    }
                    proof {
                        assert(self@ =~~= step_model(old(self)@, t@));
                    }
                }
            },
        }
    }

    /// Ends the stream: whatever containers are still open are
    /// malformed and their partial candidates are dropped.
    pub fn finish(self) -> (s: Season)
        ensures
            s@ == (SeasonModel { year: self@.year, events: self@.events }),
    {
        let s = Season { year: self.year, events: self.events };
        proof {
            assert(s@ =~~= SeasonModel { year: self@.year, events: self@.events });
        }
        s
    }
}

pub open spec fn tokens_view(ts: Seq<FeedToken>) -> Seq<TokenModel> {
    ts.map_values(|t: FeedToken| t@)
}

/// The machine state after the first `n` tokens.
pub open spec fn run_model(year: u16, toks: Seq<TokenModel>, n: int) -> ParserModel
    decreases n,
{
    if n <= 0 {
        init_model(year)
    } else {
        step_model(run_model(year, toks, n - 1), toks[n - 1])
    }
}

/// The season the whole token stream extracts to.
pub open spec fn parse_model(year: u16, toks: Seq<TokenModel>) -> SeasonModel {
    SeasonModel { year, events: run_model(year, toks, toks.len() as int).events }
}

/// Runs the extraction machine over a full token stream.
pub fn parse_feed(year: u16, tokens: &Vec<FeedToken>) -> (s: Season)
    ensures
        s@ == parse_model(year, tokens_view(tokens@)),
{
    let mut p = FeedParser::new(year);
    let n = tokens.len();
    let mut i: usize = 0;
    while i < n
        invariant
            i <= n,
            n == tokens@.len(),
            p@ == run_model(year, tokens_view(tokens@), i as int),
            p@.year == year,
        decreases n - i,
    {
        p.push_token(&tokens[i]);
        proof {
            assert(tokens_view(tokens@)[i as int] == tokens@[i as int]@);
        }
        i += 1;
    }
    p.finish()
}

// ---------------------------------------------------------------------------
// Validation: a candidate lacking a required field is dropped, never
// force-unwrapped; the remaining candidates keep their feed order.
// ---------------------------------------------------------------------------

/// A document candidate that carries everything the pipeline needs.
#[derive(Debug)]
pub struct ValidDocument {
    pub title: String,
    pub url: String,
}

/// An event candidate that carries everything the orchestrator needs.
#[derive(Debug)]
pub struct ValidEvent {
    pub title: String,
    pub documents: Vec<ValidDocument>,
}

#[verifier::ext_equal]
pub struct ValidDocModel {
    pub title: Seq<char>,
    pub url: Seq<char>,
}

#[verifier::ext_equal]
pub struct ValidEventModel {
    pub title: Seq<char>,
    pub documents: Seq<ValidDocModel>,
}

impl View for ValidDocument {
    type V = ValidDocModel;

    open spec fn view(&self) -> ValidDocModel {
        ValidDocModel { title: self.title@, url: self.url@ }
    }
}

impl View for ValidEvent {
    type V = ValidEventModel;

    open spec fn view(&self) -> ValidEventModel {
        ValidEventModel {
            title: self.title@,
            documents: self.documents@.map_values(|d: ValidDocument| d@),
        }
    }
}

/// The document candidates that carry both a title and a url, in feed
/// order.
pub open spec fn valid_docs(ds: Seq<DocCandidateModel>) -> Seq<ValidDocModel>
    decreases ds.len(),
{
    if ds.len() == 0 {
        Seq::empty()
    } else {
        let rest = valid_docs(ds.drop_last());
        match (ds.last().title, ds.last().url) {
            (Option::Some(t), Option::Some(u)) => rest.push(ValidDocModel { title: t, url: u }),
            _ => rest,
        }
    }
}

/// The event candidates that carry a title, in feed order, each with
/// its valid documents.  A candidate missing its title is dropped and
/// the rest of the feed is still processed.
pub open spec fn valid_events(es: Seq<EventCandidateModel>) -> Seq<ValidEventModel>
    decreases es.len(),
{
    if es.len() == 0 {
        Seq::empty()
    } else {
        let rest = valid_events(es.drop_last());
        match es.last().title {
            Option::Some(t) => rest.push(
                ValidEventModel { title: t, documents: valid_docs(es.last().documents) },
            ),
            Option::None => rest,
        }
    }
}

pub open spec fn docs_view(v: Seq<ValidDocument>) -> Seq<ValidDocModel> {
    v.map_values(|d: ValidDocument| d@)
}

pub open spec fn events_view(v: Seq<ValidEvent>) -> Seq<ValidEventModel> {
    v.map_values(|e: ValidEvent| e@)
}

fn validate_docs(docs: &Vec<DocumentCandidate>) -> (v: Vec<ValidDocument>)
    ensures
        docs_view(v@) == valid_docs(docs@.map_values(|d: DocumentCandidate| d@)),
{
    let ghost all = docs@.map_values(|d: DocumentCandidate| d@);
    let mut out: Vec<ValidDocument> = Vec::new();
    let n = docs.len();
    let mut i: usize = 0;
    proof {
        assert(docs_view(out@) =~= valid_docs(all.take(0)));
    }
    while i < n
        invariant
            i <= n,
            n == docs@.len(),
            all == docs@.map_values(|d: DocumentCandidate| d@),
            docs_view(out@) == valid_docs(all.take(i as int)),
        decreases n - i,
    {
        let d = &docs[i];
        match (&d.title, &d.url) {
            (Some(t), Some(u)) => {
                out.push(ValidDocument { title: t.clone(), url: u.clone() });
            },
            _ => {},
        }
        proof {
            assert(all.take(i + 1).drop_last() =~= all.take(i as int));
            assert(all.take(i + 1).last() == all[i as int]);
            assert(all[i as int] == docs@[i as int]@);
            assert(docs_view(out@) =~= valid_docs(all.take(i + 1)));
        }
        i += 1;
    }
    proof {
        assert(all.take(n as int) =~= all);
    }
    out
}

/// Drops every candidate that lacks a required field: events without a
/// title, documents without a title or a url.  What remains keeps its
/// feed order.
pub fn validate_season(season: &Season) -> (v: Vec<ValidEvent>)
    ensures
        events_view(v@) == valid_events(season@.events),
{
    let ghost all = season@.events;
    let mut out: Vec<ValidEvent> = Vec::new();
    let n = season.events.len();
    let mut i: usize = 0;
    proof {
        assert(events_view(out@) =~= valid_events(all.take(0)));
    }
    while i < n
        invariant
            i <= n,
            n == season.events@.len(),
            all == season@.events,
            events_view(out@) == valid_events(all.take(i as int)),
        decreases n - i,
    {
        let ev = &season.events[i];
        match &ev.title {
            Some(t) => {
                let ds = validate_docs(&ev.documents);
                out.push(ValidEvent { title: t.clone(), documents: ds });
            },
            None => {},
        }
        proof {
            assert(all.take(i + 1).drop_last() =~= all.take(i as int));
            assert(all.take(i + 1).last() == all[i as int]);
            assert(all[i as int] == season.events@[i as int]@);
            assert(events_view(out@) =~= valid_events(all.take(i + 1)));
        }
        i += 1;
    }
    proof {
        assert(all.take(n as int) =~= all);
    }
    out
}

} // verus!
