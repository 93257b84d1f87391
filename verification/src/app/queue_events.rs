//! The events of one queue, as they travel through the job queue.

use vstd::prelude::*;
pub use crate::app::event::Event;

verus! {

/// What all events of a batch share: their queue.
pub struct EventsMeta {
    pub queue: String,
}

/// An event of a batch, with its metadata.
pub struct EventWithMeta {
    pub event: Event,
    pub meta: EventMeta,
}

/// The metadata of an event of a batch: its id, its timestamp in milliseconds
/// since the UNIX epoch, and its trace id.
pub struct EventMeta {
    pub id: String,
    pub ts: u64,
    pub trace_id: String,
}

} // verus!
