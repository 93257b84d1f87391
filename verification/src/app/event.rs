//! An event as ingested: its JSON body and the metadata it was given.

use vstd::prelude::*;
use crate::json::JsonObject;

verus! {

/// The body of an event: a JSON object.
pub type Event = JsonObject;

/// An ingested event with its metadata.
pub struct EventWithMeta {
    pub event: Event,
    pub meta: EventMeta,
}

/// The metadata of an ingested event: its id (unique within its queue), its
/// timestamp in milliseconds since the UNIX epoch, its trace id and its queue.
pub struct EventMeta {
    pub id: String,
    pub ts: u64,
    pub trace_id: String,
    pub queue: String,
}

} // verus!
