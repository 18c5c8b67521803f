use vstd::prelude::*;
use crate::series::Series;

verus! {

/// Status an event row is created with; the ingestion pipeline never
/// mutates it afterwards.
#[derive(Clone, Copy, PartialEq, Eq, Structural, Debug)]
pub enum EventStatus {
    NotAllowed,
}

/// Status of a document row: `Initial` once the source is downloaded
/// and mirrored, `ReadyToPost` only after every rendered page has been
/// uploaded and recorded.
#[derive(Clone, Copy, PartialEq, Eq, Structural, Debug)]
pub enum DocStatus {
    Initial,
    ReadyToPost,
}

/// A new event row for the persistence gateway to create.
#[derive(Debug)]
pub struct NewEvent {
    pub title: String,
    pub year: u16,
    pub series: Series,
    pub status: EventStatus,
}

/// A new document row for the persistence gateway to create.
#[derive(Debug)]
pub struct NewDocument {
    pub event_id: u64,
    pub title: String,
    pub source_url: String,
    pub mirror_url: String,
    pub status: DocStatus,
}

/// A new image row for the persistence gateway to create.
#[derive(Debug)]
pub struct NewImage {
    pub document_id: u64,
    pub page_number: u32,
    pub url: String,
}

} // verus!
