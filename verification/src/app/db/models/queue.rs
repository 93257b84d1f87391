//! A row of the queue table, as inserted.

use vstd::prelude::*;
use crate::json::JsonValue;

verus! {

/// A new row of the queue table: a stored event.
pub struct NewQueue {
    /// The row's key, a 128-bit UUID.
    pub uuid: u128,
    /// The queue of the event.
    pub ref_queue: String,
    /// The id of the event within its queue.
    pub ref_id: String,
    pub trace_id: String,
    /// The body of the event.
    pub event: JsonValue,
    /// The metadata of the event, as a JSON document.
    pub meta: JsonValue,
    /// The timestamp of the event, in milliseconds since the UNIX epoch.
    pub ts: i64,
}

} // verus!
