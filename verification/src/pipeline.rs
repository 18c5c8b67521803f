use vstd::prelude::*;
use crate::keys::image_key;
use crate::keys::image_key_spec;
use crate::keys::mirror_key;
use crate::keys::mirror_key_spec;
use crate::keys::object_url;
use crate::keys::object_url_spec;
use crate::keys::storage_host_spec;
use crate::signer::Credentials;
use crate::signer::SignError;
use crate::signer::amz_date_of;
use crate::signer::pairs_view;
use crate::signer::put_authorization_spec;
use crate::signer::put_sign_error;
use crate::signer::sha256_hex_of;
use crate::signer::signed_headers_spec;
use crate::signer::signed_put_headers;
use crate::store::DocStatus;
use crate::store::NewDocument;
use crate::store::NewImage;

verus! {

/// A fully signed single-object upload, ready for the transport to
/// send verbatim.
#[derive(Debug)]
pub struct PutRequest {
    pub url: String,
    pub headers: Vec<(String, String)>,
    pub body: Vec<u8>,
}

/// The request uploads `body` to `url` with the full signed header set
/// for the given time, content type and credentials.
pub open spec fn put_request_spec(
    req: PutRequest,
    url: Seq<char>,
    ts: int,
    ctype: Seq<char>,
    body: Seq<u8>,
    access: Seq<char>,
    secret: Seq<char>,
) -> bool {
    &&& req.url@ == url
    &&& pairs_view(req.headers@) == signed_headers_spec(
        sha256_hex_of(body),
        amz_date_of(ts)->0,
        storage_host_spec(),
        put_authorization_spec(url, storage_host_spec(), ts, body, access, secret)->0,
        ctype,
    )
    &&& req.body@ == body
}

/// Where a per-document run stands.  Every transition is driven by the
/// caller reporting the outcome of exactly one outside step, so a unit
/// that has started always reaches `Done` as success or failure.
#[allow(inconsistent_fields)]
pub enum DocPhase {
    /// Waiting for the downloaded source bytes.
    Downloading,
    /// Waiting for the mirror upload to be acknowledged.
    Mirroring { mirror_url: String },
    /// Waiting for the store to assign the document row id.
    PersistingDoc { mirror_url: String },
    /// Waiting for the render step's page count.
    Rendering { doc_id: u64 },
    /// Waiting for the upload of page `next_page` of `total`.
    UploadingPage { doc_id: u64, next_page: u32, total: u32 },
    /// Waiting for the image row of page `next_page` to be recorded.
    RecordingImage { doc_id: u64, next_page: u32, total: u32 },
    /// Waiting for the status update to ReadyToPost.
    MarkingReady { doc_id: u64, total: u32 },
    /// Terminal: `row_status` is the status the document row was left
    /// with, `None` when no row was ever created; `pages` the number
    /// of image rows handed to the store; `total` the render count.
    Done { row_status: Option<DocStatus>, doc_id: Option<u64>, pages: u32, total: u32 },
}

/// One document's pass through the content pipeline:
/// download, mirror, persist, render, then per-page upload and record,
/// strictly in order.
pub struct DocJob {
    pub year: u16,
    pub event_id: u64,
    pub event_title: String,
    pub title: String,
    pub source_url: String,
    pub phase: DocPhase,
    /// Page numbers of the image rows handed out so far, in order.
    pub emitted: Ghost<Seq<u32>>,
}

/// How many image rows a job in this phase has handed out.
pub open spec fn pages_emitted(p: DocPhase) -> int {
    match p {
        DocPhase::Downloading => 0,
        DocPhase::Mirroring { .. } => 0,
        DocPhase::PersistingDoc { .. } => 0,
        DocPhase::Rendering { .. } => 0,
        DocPhase::UploadingPage { next_page, .. } => next_page as int,
        DocPhase::RecordingImage { next_page, .. } => next_page as int + 1,
        DocPhase::MarkingReady { total, .. } => total as int,
        DocPhase::Done { pages, .. } => pages as int,
    }
}

impl DocJob {
    /// The image rows handed out are exactly the pages 0, 1, 2, ... in
    /// render order, and a document is marked ReadyToPost only once
    /// every rendered page is among them.
    pub open spec fn wf(self) -> bool {
        &&& self.emitted@.len() == pages_emitted(self.phase)
        &&& (forall|k: int| 0 <= k < self.emitted@.len() ==> self.emitted@[k] == k)
        &&& match self.phase {
            DocPhase::UploadingPage { next_page, total, .. } => next_page < total,
            DocPhase::RecordingImage { next_page, total, .. } => next_page < total,
            DocPhase::Done { row_status, doc_id, pages, total } => {
                &&& (row_status == Option::Some(DocStatus::ReadyToPost) ==> pages == total)
                &&& pages <= total
                &&& (row_status is Some ==> doc_id is Some)
            },
            _ => true,
        }
    }

    /// The fields that identify the document never change during a run.
    pub open spec fn keeps_identity(self, o: DocJob) -> bool {
        &&& self.year == o.year
        &&& self.event_id == o.event_id
        &&& self.event_title@ == o.event_title@
        &&& self.title@ == o.title@
        &&& self.source_url@ == o.source_url@
    }

    /// Begins a run for one new document of one event.
    pub fn start(
        year: u16,
        event_id: u64,
        event_title: String,
        title: String,
        source_url: String,
    ) -> (j: DocJob)
        ensures
            j.year == year,
            j.event_id == event_id,
            j.event_title@ == event_title@,
            j.title@ == title@,
            j.source_url@ == source_url@,
            j.phase is Downloading,
            j.wf(),
    {
        DocJob {
            year,
            event_id,
            event_title,
            title,
            source_url,
            phase: DocPhase::Downloading,
            emitted: Ghost(Seq::empty()),
        }
    }

    /// The download step failed: fatal to this document, no row exists.
    pub fn download_failed(&mut self)
        requires
            old(self).wf(),
            old(self).phase is Downloading,
        ensures
            final(self).keeps_identity(*old(self)),
            final(self).wf(),
            final(self).phase == (DocPhase::Done {
                row_status: Option::<DocStatus>::None,
                doc_id: Option::<u64>::None,
                pages: 0u32,
                total: 0u32,
            }),
    {
        self.phase = DocPhase::Done { row_status: None, doc_id: None, pages: 0, total: 0 };
    }

    /// Takes the downloaded source bytes and produces the signed
    /// mirror upload: key `mirror/{year}/{eventTitle}/{docTitle}.pdf`
    /// under the storage host, a PDF content type, the bytes as body.
    /// A signing failure is fatal to this document.
    pub fn downloaded(&mut self, body: Vec<u8>, ts: u64, creds: &Credentials) -> (r: Result<
        PutRequest,
        SignError,
    >)
        requires
            old(self).wf(),
            old(self).phase is Downloading,
        ensures
            final(self).keeps_identity(*old(self)),
            final(self).wf(),
            ts <= crate::signer::MAX_AMZ_DATE_TS ==> crate::signer::amz_date_of(ts as int) is Some,
            ({
                let u = object_url_spec(
                    mirror_key_spec(
                        old(self).year as int,
                        old(self).event_title@,
                        old(self).title@,
                    ),
                );
                match r {
                    Result::Ok(req) => put_sign_error(
                        u,
                        storage_host_spec(),
                        ts as int,
                        body@,
                        creds.access_key@,
                        creds.secret_key@,
                    ) is None && (final(self).phase matches DocPhase::Mirroring {
                        mirror_url,
                    } && mirror_url@ == u) && put_request_spec(
                        req,
                        u,
                        ts as int,
                        "application/pdf"@,
                        body@,
                        creds.access_key@,
                        creds.secret_key@,
                    ),
                    Result::Err(e) => Option::Some(e) == put_sign_error(
                        u,
                        storage_host_spec(),
                        ts as int,
                        body@,
                        creds.access_key@,
                        creds.secret_key@,
                    ) && final(self).phase == (DocPhase::Done {
                        row_status: Option::<DocStatus>::None,
                        doc_id: Option::<u64>::None,
                        pages: 0u32,
                        total: 0u32,
                    }),
                }
            }),
    {
        let key = mirror_key(self.year, self.event_title.as_str(), self.title.as_str());
        let url = object_url(key.as_str());
        match signed_put_headers(&url, "fia.ort.dev", ts, "application/pdf", &body, creds) {
            Result::Ok(headers) => {
                let mirror_url = url.clone();
                self.phase = DocPhase::Mirroring { mirror_url };
                Result::Ok(PutRequest { url, headers, body })
            },
            Result::Err(e) => {
                self.phase = DocPhase::Done {
                    row_status: None,
                    doc_id: None,
                    pages: 0,
                    total: 0,
                };
                Result::Err(e)
            },
        }
    }

    /// The mirror upload was rejected: fatal to this document.
    pub fn mirror_failed(&mut self)
        requires
            old(self).wf(),
            old(self).phase is Mirroring,
        ensures
            final(self).keeps_identity(*old(self)),
            final(self).wf(),
            final(self).phase == (DocPhase::Done {
                row_status: Option::<DocStatus>::None,
                doc_id: Option::<u64>::None,
                pages: 0u32,
                total: 0u32,
            }),
    {
        self.phase = DocPhase::Done { row_status: None, doc_id: None, pages: 0, total: 0 };
    }

    /// The mirror upload succeeded: the document row to create, with
    /// status Initial, the source url and the mirror url.
    pub fn mirrored(&mut self) -> (row: NewDocument)
        requires
            old(self).wf(),
            old(self).phase is Mirroring,
        ensures
            final(self).keeps_identity(*old(self)),
            final(self).wf(),
            old(self).phase matches DocPhase::Mirroring { mirror_url } ==> {
                &&& final(self).phase == (DocPhase::PersistingDoc { mirror_url })
                &&& row.event_id == old(self).event_id
                &&& row.title@ == old(self).title@
                &&& row.source_url@ == old(self).source_url@
                &&& row.mirror_url@ == mirror_url@
                &&& row.status == DocStatus::Initial
            },
    {
        let mu = match &self.phase {
            DocPhase::Mirroring { mirror_url } => mirror_url.clone(),
            _ => String::new(),
        };
        let row = NewDocument {
            event_id: self.event_id,
            title: self.title.clone(),
            source_url: self.source_url.clone(),
            mirror_url: mu.clone(),
            status: DocStatus::Initial,
        };
        self.phase = DocPhase::PersistingDoc { mirror_url: mu };
        row
    }

    /// The store rejected the document row: no row exists; the caller
    /// treats this as fatal to the whole cycle.
    pub fn persist_failed(&mut self)
        requires
            old(self).wf(),
            old(self).phase is PersistingDoc,
        ensures
            final(self).keeps_identity(*old(self)),
            final(self).wf(),
            final(self).phase == (DocPhase::Done {
                row_status: Option::<DocStatus>::None,
                doc_id: Option::<u64>::None,
                pages: 0u32,
                total: 0u32,
            }),
    {
        self.phase = DocPhase::Done { row_status: None, doc_id: None, pages: 0, total: 0 };
    }

    /// The store assigned the document row its id.
    pub fn persisted(&mut self, doc_id: u64)
        requires
            old(self).wf(),
            old(self).phase is PersistingDoc,
        ensures
            final(self).keeps_identity(*old(self)),
            final(self).wf(),
            final(self).phase == (DocPhase::Rendering { doc_id }),
    {
        self.phase = DocPhase::Rendering { doc_id };
    }

    /// The render collaborator failed: fatal to this document; the row
    /// stays Initial and no image rows exist.
    pub fn render_failed(&mut self)
        requires
            old(self).wf(),
            old(self).phase is Rendering,
        ensures
            final(self).keeps_identity(*old(self)),
            final(self).wf(),
            old(self).phase matches DocPhase::Rendering { doc_id } ==> final(self).phase == (
            DocPhase::Done {
                row_status: Option::Some(DocStatus::Initial),
                doc_id: Option::Some(doc_id),
                pages: 0u32,
                total: 0u32,
            }),
    {
        let id = match &self.phase {
            DocPhase::Rendering { doc_id } => *doc_id,
            _ => 0,
        };
        self.phase = DocPhase::Done {
            row_status: Some(DocStatus::Initial),
            doc_id: Some(id),
            pages: 0,
            total: 0,
        };
    }

    /// The render step produced `page_count` page images; pages are
    /// processed in render order.  With no pages there is nothing to
    /// upload and the document can be marked ready at once.
    pub fn rendered(&mut self, page_count: u32)
        requires
            old(self).wf(),
            old(self).phase is Rendering,
        ensures
            final(self).keeps_identity(*old(self)),
            final(self).wf(),
            old(self).phase matches DocPhase::Rendering { doc_id } ==> final(self).phase == (if page_count == 0 {
                DocPhase::MarkingReady { doc_id, total: 0u32 }
            } else {
                DocPhase::UploadingPage { doc_id, next_page: 0u32, total: page_count }
            }),
    {
        let id = match &self.phase {
            DocPhase::Rendering { doc_id } => *doc_id,
            _ => 0,
        };
        if page_count == 0 {
            self.phase = DocPhase::MarkingReady { doc_id: id, total: 0 };
        } else {
            self.phase = DocPhase::UploadingPage { doc_id: id, next_page: 0, total: page_count };
        }
    }

    /// Takes the bytes of the page now due and produces its signed
    /// upload: key `img/{year}/{eventTitle}/{docId}-{page}.jpg` under
    /// the storage host, a JPEG content type.  A signing failure is
    /// fatal to this document; the row stays Initial with the image
    /// rows already handed out.
    pub fn page_bytes(&mut self, bytes: Vec<u8>, ts: u64, creds: &Credentials) -> (r: Result<
        PutRequest,
        SignError,
    >)
        requires
            old(self).wf(),
            old(self).phase is UploadingPage,
        ensures
            final(self).keeps_identity(*old(self)),
            final(self).wf(),
            ts <= crate::signer::MAX_AMZ_DATE_TS ==> crate::signer::amz_date_of(ts as int) is Some,
            old(self).phase matches DocPhase::UploadingPage { doc_id, next_page, total } ==> {
                let u = object_url_spec(
                    image_key_spec(
                        old(self).year as int,
                        old(self).event_title@,
                        doc_id as int,
                        next_page as int,
                    ),
                );
                match r {
                    Result::Ok(req) => put_sign_error(
                        u,
                        storage_host_spec(),
                        ts as int,
                        bytes@,
                        creds.access_key@,
                        creds.secret_key@,
                    ) is None && final(self).phase == old(self).phase && put_request_spec(
                        req,
                        u,
                        ts as int,
                        "image/jpeg"@,
                        bytes@,
                        creds.access_key@,
                        creds.secret_key@,
                    ),
                    Result::Err(e) => Option::Some(e) == put_sign_error(
                        u,
                        storage_host_spec(),
                        ts as int,
                        bytes@,
                        creds.access_key@,
                        creds.secret_key@,
                    ) && final(self).phase == (DocPhase::Done {
                        row_status: Option::Some(DocStatus::Initial),
                        doc_id: Option::Some(doc_id),
                        pages: next_page,
                        total,
                    }),
                }
            },
    {
        let (id, page, total) = match &self.phase {
            DocPhase::UploadingPage { doc_id, next_page, total } => (*doc_id, *next_page, *total),
            _ => (0, 0, 0),
        };
        let key = image_key(self.year, self.event_title.as_str(), id, page);
        let url = object_url(key.as_str());
        match signed_put_headers(&url, "fia.ort.dev", ts, "image/jpeg", &bytes, creds) {
            Result::Ok(headers) => Result::Ok(PutRequest { url, headers, body: bytes }),
            Result::Err(e) => {
                self.phase = DocPhase::Done {
                    row_status: Some(DocStatus::Initial),
                    doc_id: Some(id),
                    pages: page,
                    total,
                };
                Result::Err(e)
            },
        }
    }

    /// The upload of the page now due was rejected: fatal to this
    /// document; the remaining pages are not attempted and the row
    /// stays Initial with the image rows already handed out.
    pub fn page_upload_failed(&mut self)
        requires
            old(self).wf(),
            old(self).phase is UploadingPage,
        ensures
            final(self).keeps_identity(*old(self)),
            final(self).wf(),
            old(self).phase matches DocPhase::UploadingPage { doc_id, next_page, total }
                ==> final(self).phase == (DocPhase::Done {
                row_status: Option::Some(DocStatus::Initial),
                doc_id: Option::Some(doc_id),
                pages: next_page,
                total,
            }),
    {
        let (id, page, total) = match &self.phase {
            DocPhase::UploadingPage { doc_id, next_page, total } => (*doc_id, *next_page, *total),
            _ => (0, 0, 0),
        };
        self.phase = DocPhase::Done {
            row_status: Some(DocStatus::Initial),
            doc_id: Some(id),
            pages: page,
            total,
        };
    }

    /// The upload of the page now due succeeded: the image row to
    /// record, numbered with that page, in render order.
    pub fn page_uploaded(&mut self) -> (row: NewImage)
        requires
            old(self).wf(),
            old(self).phase is UploadingPage,
        ensures
            final(self).keeps_identity(*old(self)),
            final(self).wf(),
            old(self).phase matches DocPhase::UploadingPage { doc_id, next_page, total } ==> {
                &&& final(self).phase == (DocPhase::RecordingImage { doc_id, next_page, total })
                &&& row.document_id == doc_id
                &&& row.page_number == next_page
                &&& row.url@ == object_url_spec(
                    image_key_spec(
                        old(self).year as int,
                        old(self).event_title@,
                        doc_id as int,
                        next_page as int,
                    ),
                )
                &&& final(self).emitted@ == old(self).emitted@.push(next_page)
            },
    {
        let (id, page, total) = match &self.phase {
            DocPhase::UploadingPage { doc_id, next_page, total } => (*doc_id, *next_page, *total),
            _ => (0, 0, 0),
        };
        let key = image_key(self.year, self.event_title.as_str(), id, page);
        let url = object_url(key.as_str());
        self.phase = DocPhase::RecordingImage { doc_id: id, next_page: page, total };
        proof {
            self.emitted@ = self.emitted@.push(page);
        }
        NewImage { document_id: id, page_number: page, url }
    }

    /// The store rejected the image row: the caller treats this as
    /// fatal to the whole cycle; the row stays Initial.
    pub fn image_record_failed(&mut self)
        requires
            old(self).wf(),
            old(self).phase is RecordingImage,
        ensures
            final(self).keeps_identity(*old(self)),
            final(self).wf(),
            old(self).phase matches DocPhase::RecordingImage { doc_id, next_page, total }
                ==> final(self).phase == (DocPhase::Done {
                row_status: Option::Some(DocStatus::Initial),
                doc_id: Option::Some(doc_id),
                pages: (next_page + 1) as u32,
                total,
            }),
    {
        let (id, page, total) = match &self.phase {
            DocPhase::RecordingImage { doc_id, next_page, total } => (*doc_id, *next_page, *total),
            _ => (0, 0, 1),
        };
        self.phase = DocPhase::Done {
            row_status: Some(DocStatus::Initial),
            doc_id: Some(id),
            pages: page + 1,
            total,
        };
    }

    /// The image row was recorded: the next page is due, or, after the
    /// last page, the status update to ReadyToPost.
    pub fn image_recorded(&mut self)
        requires
            old(self).wf(),
            old(self).phase is RecordingImage,
        ensures
            final(self).keeps_identity(*old(self)),
            final(self).wf(),
            old(self).phase matches DocPhase::RecordingImage { doc_id, next_page, total }
                ==> final(self).phase == (if next_page + 1 == total {
                DocPhase::MarkingReady { doc_id, total }
            } else {
                DocPhase::UploadingPage { doc_id, next_page: (next_page + 1) as u32, total }
            }),
    {
        let (id, page, total) = match &self.phase {
            DocPhase::RecordingImage { doc_id, next_page, total } => (*doc_id, *next_page, *total),
            _ => (0, 0, 1),
        };
        if page + 1 == total {
            self.phase = DocPhase::MarkingReady { doc_id: id, total };
        } else {
            self.phase = DocPhase::UploadingPage { doc_id: id, next_page: page + 1, total };
        }
    }

    /// The status update failed: the caller treats this as fatal to
    /// the whole cycle; the row stays Initial with all its image rows.
    pub fn ready_failed(&mut self)
        requires
            old(self).wf(),
            old(self).phase is MarkingReady,
        ensures
            final(self).keeps_identity(*old(self)),
            final(self).wf(),
            old(self).phase matches DocPhase::MarkingReady { doc_id, total } ==> final(self).phase
                == (DocPhase::Done {
                row_status: Option::Some(DocStatus::Initial),
                doc_id: Option::Some(doc_id),
                pages: total,
                total,
            }),
    {
        let (id, total) = match &self.phase {
            DocPhase::MarkingReady { doc_id, total } => (*doc_id, *total),
            _ => (0, 0),
        };
        self.phase = DocPhase::Done {
            row_status: Some(DocStatus::Initial),
            doc_id: Some(id),
            pages: total,
            total,
        };
    }

    /// The document row was updated to ReadyToPost: only now, after
    /// every page succeeded, is the document complete.
    pub fn marked_ready(&mut self)
        requires
            old(self).wf(),
            old(self).phase is MarkingReady,
        ensures
            final(self).keeps_identity(*old(self)),
            final(self).wf(),
            old(self).phase matches DocPhase::MarkingReady { doc_id, total } ==> final(self).phase
                == (DocPhase::Done {
                row_status: Option::Some(DocStatus::ReadyToPost),
                doc_id: Option::Some(doc_id),
                pages: total,
                total,
            }),
    {
        let (id, total) = match &self.phase {
            DocPhase::MarkingReady { doc_id, total } => (*doc_id, *total),
            _ => (0, 0),
        };
        self.phase = DocPhase::Done {
            row_status: Some(DocStatus::ReadyToPost),
            doc_id: Some(id),
            pages: total,
            total,
        };
    }
}

/// Contiguous pages: a document that finished as ReadyToPost handed
/// out image rows for exactly the pages 0 .. N-1, in order and with no
/// gaps, N being the render step's page count.
pub proof fn lemma_contiguous_pages(job: DocJob)
    requires
        job.wf(),
        job.phase matches DocPhase::Done { row_status, .. } && row_status == Option::Some(
            DocStatus::ReadyToPost,
        ),
    ensures
        job.phase matches DocPhase::Done { pages, total, .. } ==> {
            &&& pages == total
            &&& job.emitted@ =~= Seq::new(total as nat, |i: int| i as u32)
        },
{
    if let DocPhase::Done { row_status, doc_id, pages, total } = job.phase {
        assert(job.emitted@ =~= Seq::new(total as nat, |i: int| i as u32));
    }
}

} // verus!
