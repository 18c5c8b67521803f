//! One new document end to end: listing page tokens through the
//! extractor, the orchestrator, and the content pipeline.

use fia_ingest::cache::Cache;
use fia_ingest::feed::{parse_feed, validate_season, FeedToken};
use fia_ingest::pipeline::{DocJob, DocPhase};
use fia_ingest::runner::{Cycle, Step};
use fia_ingest::series::Series;
use fia_ingest::signer::Credentials;
use fia_ingest::store::DocStatus;

// 2025-01-01T00:00:00Z
const TS: u64 = 1_735_689_600;

fn page_tokens() -> Vec<FeedToken> {
    let open = |name: &str, class: &str| FeedToken::Open {
        name: name.to_string(),
        class: class.to_string(),
        href: None,
    };
    vec![
        open("div", "event-wrapper"),
        open("div", "event-title"),
        FeedToken::Text { text: "Bahrain GP".to_string() },
        FeedToken::Close,
        FeedToken::Open {
            name: "a".to_string(),
            class: "document-row".to_string(),
            href: Some("https://example.org/entry.pdf".to_string()),
        },
        open("div", "title"),
        FeedToken::Text { text: "Entry List".to_string() },
        FeedToken::Close,
        FeedToken::Close,
        FeedToken::Close,
    ]
}

#[test]
fn scenario_new_document_ingested_end_to_end() {
    let creds = Credentials {
        access_key: "AKIDEXAMPLE".to_string(),
        secret_key: "example-signing-secret".to_string(),
    };
    let season = parse_feed(2025, &page_tokens());
    let valid = validate_season(&season);
    assert_eq!(valid.len(), 1);

    let mut cy = Cycle::start(Cache::new(), 2025);
    match cy.next(false) {
        Step::FetchFeed { series } => {
            assert_eq!(series, Series::F1);
            cy.feed_ok(valid);
        }
        _ => panic!("expected the F1 fetch first"),
    }
    match cy.next(false) {
        Step::CreateEvent { row } => {
            assert_eq!(row.title, "Bahrain GP");
            assert_eq!(row.year, 2025);
            assert_eq!(row.series, Series::F1);
            cy.event_created(42);
        }
        _ => panic!("an empty cache must lead to an event create"),
    }
    let (event_id, event_title, title, url) = match cy.next(false) {
        Step::StartDocument { event_id, event_title, title, url } => {
            (event_id, event_title, title, url)
        }
        _ => panic!("the new document must be started"),
    };
    assert_eq!(event_id, 42);
    assert_eq!(event_title, "Bahrain GP");
    assert_eq!(title, "Entry List");
    assert_eq!(url, "https://example.org/entry.pdf");

    let mut job = DocJob::start(2025, event_id, event_title, title, url);
    let req = job.downloaded(b"pdf bytes".to_vec(), TS, &creds).expect("signing must work");
    assert_eq!(req.url, "https://fia.ort.dev/mirror/2025/Bahrain%20GP/Entry%20List.pdf");
    let row = job.mirrored();
    assert_eq!(row.status, DocStatus::Initial);
    job.persisted(7);
    job.rendered(3);
    for page in 0..3u32 {
        let img = job.page_bytes(vec![page as u8], TS, &creds).expect("signing must work");
        assert_eq!(img.url, format!("https://fia.ort.dev/img/2025/Bahrain%20GP/7-{page}.jpg"));
        let img_row = job.page_uploaded();
        assert_eq!(img_row.page_number, page);
        job.image_recorded();
    }
    job.marked_ready();
    match job.phase {
        DocPhase::Done { row_status, pages, total, .. } => {
            assert_eq!(row_status, Some(DocStatus::ReadyToPost));
            assert_eq!(pages, 3);
            assert_eq!(total, 3);
        }
        _ => panic!("the document run must be complete"),
    }
    cy.document_done();

    match cy.next(false) {
        Step::ClearScratch => cy.scratch_cleared(),
        _ => panic!("scratch must be cleared after the event"),
    }
    match cy.next(false) {
        Step::FetchFeed { series } => {
            assert_eq!(series, Series::F2);
            cy.feed_failed();
        }
        _ => panic!("the cycle must move to the next series"),
    }
    match cy.next(false) {
        Step::FetchFeed { series } => {
            assert_eq!(series, Series::F3);
            cy.feed_failed();
        }
        _ => panic!("the cycle must move to the last series"),
    }
    match cy.next(false) {
        Step::Finished { stopped } => assert!(!stopped),
        _ => panic!("the cycle must finish"),
    }
}
