use fia_ingest::pipeline::DocJob;
use fia_ingest::pipeline::DocPhase;
use fia_ingest::signer::Credentials;
use fia_ingest::store::DocStatus;

// 2025-01-01T00:00:00Z
const TS: u64 = 1_735_689_600;

fn creds() -> Credentials {
    Credentials {
        access_key: "AKIDEXAMPLE".to_string(),
        secret_key: "example-signing-secret".to_string(),
    }
}

fn header<'a>(headers: &'a [(String, String)], name: &str) -> &'a str {
    &headers
        .iter()
        .find(|(n, _)| n == name)
        .unwrap_or_else(|| panic!("missing header {name}"))
        .1
}

fn start_job() -> DocJob {
    DocJob::start(
        2025,
        9,
        "Bahrain GP".to_string(),
        "Entry List".to_string(),
        "https://example.org/entry.pdf".to_string(),
    )
}

#[test]
fn scenario_full_document_run_yields_exact_keys_and_ready_status() {
    let mut job = start_job();
    let body = b"hello".to_vec();
    let req = job.downloaded(body.clone(), TS, &creds()).expect("signing must work");
    // object key exactly mirror/{year}/{eventTitle}/{docTitle}.pdf, encoded
    assert_eq!(req.url, "https://fia.ort.dev/mirror/2025/Bahrain%20GP/Entry%20List.pdf");
    assert_eq!(req.body, body);

    let row = job.mirrored();
    assert_eq!(row.event_id, 9);
    assert_eq!(row.title, "Entry List");
    assert_eq!(row.source_url, "https://example.org/entry.pdf");
    assert_eq!(row.mirror_url, "https://fia.ort.dev/mirror/2025/Bahrain%20GP/Entry%20List.pdf");
    assert_eq!(row.status, DocStatus::Initial);

    job.persisted(7);
    job.rendered(2);

    let mut pages = Vec::new();
    for page in 0..2u32 {
        let img_req = job
            .page_bytes(vec![page as u8; 3], TS, &creds())
            .expect("signing must work");
        assert_eq!(
            img_req.url,
            format!("https://fia.ort.dev/img/2025/Bahrain%20GP/7-{page}.jpg")
        );
        let img_row = job.page_uploaded();
        assert_eq!(img_row.document_id, 7);
        assert_eq!(img_row.page_number, page);
        assert_eq!(img_row.url, img_req.url);
        pages.push(img_row.page_number);
        job.image_recorded();
    }
    job.marked_ready();

    // contiguous pages: rows 0..N-1 with no gaps, N the render count
    assert_eq!(pages, vec![0, 1]);
    match job.phase {
        DocPhase::Done { row_status, doc_id, pages, total } => {
            assert_eq!(row_status, Some(DocStatus::ReadyToPost));
            assert_eq!(doc_id, Some(7));
            assert_eq!(pages, 2);
            assert_eq!(total, 2);
        }
        _ => panic!("the run must be finished"),
    }
}

#[test]
fn scenario_render_failure_leaves_row_initial_with_no_images() {
    let mut job = start_job();
    let _ = job.downloaded(b"hello".to_vec(), TS, &creds()).expect("signing must work");
    let _ = job.mirrored();
    job.persisted(7);
    job.render_failed();
    match job.phase {
        DocPhase::Done { row_status, doc_id, pages, total } => {
            assert_eq!(row_status, Some(DocStatus::Initial));
            assert_eq!(doc_id, Some(7));
            assert_eq!(pages, 0);
            assert_eq!(total, 0);
        }
        _ => panic!("the run must be finished"),
    }
}

#[test]
fn page_upload_failure_stops_remaining_pages() {
    let mut job = start_job();
    let _ = job.downloaded(b"hello".to_vec(), TS, &creds()).expect("signing must work");
    let _ = job.mirrored();
    job.persisted(7);
    job.rendered(3);
    let _ = job.page_bytes(vec![1, 2, 3], TS, &creds()).expect("signing must work");
    let _ = job.page_uploaded();
    job.image_recorded();
    // page 1 upload is rejected: the document stays Initial with the
    // one image row already recorded; page 2 is never attempted
    job.page_upload_failed();
    match job.phase {
        DocPhase::Done { row_status, pages, total, .. } => {
            assert_eq!(row_status, Some(DocStatus::Initial));
            assert_eq!(pages, 1);
            assert_eq!(total, 3);
        }
        _ => panic!("the run must be finished"),
    }
}

#[test]
fn download_failure_creates_no_row() {
    let mut job = start_job();
    job.download_failed();
    match job.phase {
        DocPhase::Done { row_status, doc_id, pages, total } => {
            assert_eq!(row_status, None);
            assert_eq!(doc_id, None);
            assert_eq!(pages, 0);
            assert_eq!(total, 0);
        }
        _ => panic!("the run must be finished"),
    }
}

#[test]
fn mirror_upload_carries_the_full_signed_header_set() {
    let mut job = start_job();
    let req = job.downloaded(b"hello".to_vec(), TS, &creds()).expect("signing must work");
    let names: Vec<&str> = req.headers.iter().map(|(n, _)| n.as_str()).collect();
    assert_eq!(
        names,
        vec![
            "x-amz-content-sha256",
            "x-amz-acl",
            "x-amz-date",
            "host",
            "authorization",
            "content-type",
        ]
    );
    // the content hash is the real SHA-256 of the body
    assert_eq!(
        header(&req.headers, "x-amz-content-sha256"),
        "2cf24dba5fb0a30e26e83b2ac5b9e29e1b161e5c1fa7425e73043362938b9824"
    );
    assert_eq!(header(&req.headers, "x-amz-acl"), "public-read");
    assert_eq!(header(&req.headers, "x-amz-date"), "20250101T000000Z");
    assert_eq!(header(&req.headers, "host"), "fia.ort.dev");
    assert_eq!(header(&req.headers, "content-type"), "application/pdf");
    let auth = header(&req.headers, "authorization");
    assert!(
        auth.starts_with(
            "AWS4-HMAC-SHA256 Credential=AKIDEXAMPLE/20250101/us-east-1/s3/aws4_request,\
             SignedHeaders=host;x-amz-acl;x-amz-content-sha256;x-amz-date,Signature="
        ),
        "unexpected authorization header: {auth}"
    );
    // the signature tail is 64 hex characters
    let sig = auth.rsplit('=').next().unwrap();
    assert_eq!(sig.len(), 64);
    assert!(sig.chars().all(|c| c.is_ascii_hexdigit()));
}

#[test]
fn page_upload_uses_jpeg_content_type() {
    let mut job = start_job();
    let _ = job.downloaded(b"hello".to_vec(), TS, &creds()).expect("signing must work");
    let _ = job.mirrored();
    job.persisted(7);
    job.rendered(1);
    let req = job.page_bytes(vec![9, 9], TS, &creds()).expect("signing must work");
    assert_eq!(header(&req.headers, "content-type"), "image/jpeg");
    // a different body signs to a different content hash
    assert_ne!(
        header(&req.headers, "x-amz-content-sha256"),
        "2cf24dba5fb0a30e26e83b2ac5b9e29e1b161e5c1fa7425e73043362938b9824"
    );
}

#[test]
fn zero_rendered_pages_completes_immediately() {
    let mut job = start_job();
    let _ = job.downloaded(b"hello".to_vec(), TS, &creds()).expect("signing must work");
    let _ = job.mirrored();
    job.persisted(7);
    job.rendered(0);
    job.marked_ready();
    match job.phase {
        DocPhase::Done { row_status, pages, total, .. } => {
            assert_eq!(row_status, Some(DocStatus::ReadyToPost));
            assert_eq!(pages, 0);
            assert_eq!(total, 0);
        }
        _ => panic!("the run must be finished"),
    }
}
