use fia_ingest::feed::parse_feed;
use fia_ingest::feed::validate_season;
use fia_ingest::feed::FeedToken;

fn open(name: &str, class: &str) -> FeedToken {
    FeedToken::Open { name: name.to_string(), class: class.to_string(), href: None }
}

fn link(class: &str, href: &str) -> FeedToken {
    FeedToken::Open {
        name: "a".to_string(),
        class: class.to_string(),
        href: Some(href.to_string()),
    }
}

fn text(t: &str) -> FeedToken {
    FeedToken::Text { text: t.to_string() }
}

fn event_block(title: &str, docs: &[(&str, &str)]) -> Vec<FeedToken> {
    let mut ts = vec![open("div", "event-wrapper")];
    ts.push(open("div", "event-title"));
    ts.push(text(title));
    ts.push(FeedToken::Close);
    for (doc_title, url) in docs {
        ts.push(link("document-row", url));
        ts.push(open("div", "title"));
        ts.push(text(doc_title));
        ts.push(FeedToken::Close);
        ts.push(FeedToken::Close);
    }
    ts.push(FeedToken::Close);
    ts
}

#[test]
fn extracts_one_event_with_one_document() {
    let tokens = event_block("Bahrain GP", &[("Entry List", "https://example.org/x.pdf")]);
    let season = parse_feed(2025, &tokens);
    assert_eq!(season.year, 2025);
    assert_eq!(season.events.len(), 1);
    let ev = &season.events[0];
    assert_eq!(ev.title, Some("Bahrain GP".to_string()));
    assert_eq!(ev.season, Some(2025));
    assert_eq!(ev.documents.len(), 1);
    assert_eq!(ev.documents[0].title, Some("Entry List".to_string()));
    assert_eq!(ev.documents[0].url, Some("https://example.org/x.pdf".to_string()));
}

#[test]
fn text_outside_title_containers_is_ignored() {
    let mut tokens = vec![text("stray")];
    tokens.extend(event_block("Miami GP", &[]));
    tokens.push(text("trailing"));
    let season = parse_feed(2025, &tokens);
    assert_eq!(season.events.len(), 1);
    assert_eq!(season.events[0].title, Some("Miami GP".to_string()));
    assert_eq!(season.events[0].documents.len(), 0);
}

#[test]
fn nested_unrecognized_tags_accumulate_title_text() {
    let tokens = vec![
        open("div", "event-wrapper"),
        open("div", "event-title"),
        text("Monaco"),
        open("span", ""),
        text(" GP"),
        FeedToken::Close,
        FeedToken::Close,
        FeedToken::Close,
    ];
    let season = parse_feed(2025, &tokens);
    assert_eq!(season.events.len(), 1);
    assert_eq!(season.events[0].title, Some("Monaco GP".to_string()));
}

#[test]
fn unclosed_event_is_dropped() {
    let tokens = vec![
        open("div", "event-wrapper"),
        open("div", "event-title"),
        text("Suzuka"),
        FeedToken::Close,
    ];
    let season = parse_feed(2025, &tokens);
    assert_eq!(season.events.len(), 0);
}

#[test]
fn close_with_empty_stack_is_ignored() {
    let mut tokens = vec![FeedToken::Close, FeedToken::Close];
    tokens.extend(event_block("Spa", &[]));
    let season = parse_feed(2025, &tokens);
    assert_eq!(season.events.len(), 1);
}

#[test]
fn candidate_without_title_is_dropped_and_rest_processed() {
    // An event block whose title container never appears: the
    // candidate is dropped; the candidates after it still go through.
    let mut tokens = vec![
        open("div", "event-wrapper"),
        link("document-row", "https://example.org/a.pdf"),
        open("div", "title"),
        text("Doc A"),
        FeedToken::Close,
        FeedToken::Close,
        FeedToken::Close,
    ];
    tokens.extend(event_block("Imola GP", &[("Doc B", "https://example.org/b.pdf")]));
    let season = parse_feed(2025, &tokens);
    assert_eq!(season.events.len(), 2);
    assert_eq!(season.events[0].title, None);

    let valid = validate_season(&season);
    assert_eq!(valid.len(), 1);
    assert_eq!(valid[0].title, "Imola GP".to_string());
    assert_eq!(valid[0].documents.len(), 1);
    assert_eq!(valid[0].documents[0].url, "https://example.org/b.pdf".to_string());
}

#[test]
fn document_without_url_or_title_is_dropped() {
    let tokens = vec![
        open("div", "event-wrapper"),
        open("div", "event-title"),
        text("Austin GP"),
        FeedToken::Close,
        // document link without href
        open("a", "document-row"),
        open("div", "title"),
        text("No Url"),
        FeedToken::Close,
        FeedToken::Close,
        // document link without a title container
        link("document-row", "https://example.org/untitled.pdf"),
        FeedToken::Close,
        // complete document
        link("document-row", "https://example.org/ok.pdf"),
        open("div", "title"),
        text("Ok"),
        FeedToken::Close,
        FeedToken::Close,
        FeedToken::Close,
    ];
    let season = parse_feed(2025, &tokens);
    assert_eq!(season.events.len(), 1);
    assert_eq!(season.events[0].documents.len(), 3);
    let valid = validate_season(&season);
    assert_eq!(valid.len(), 1);
    assert_eq!(valid[0].documents.len(), 1);
    assert_eq!(valid[0].documents[0].title, "Ok".to_string());
}

#[test]
fn empty_token_stream_yields_empty_season() {
    let season = parse_feed(2024, &Vec::new());
    assert_eq!(season.year, 2024);
    assert_eq!(season.events.len(), 0);
    assert_eq!(validate_season(&season).len(), 0);
}
