//! Ingestion of events: from what a client posts to a batch for the job queue.

use vstd::prelude::*;
use crate::app::event::{Event, EventMeta, EventWithMeta};
use crate::app::queue::NewEvents;
use crate::app::queue_events;
use crate::app::queue_events::EventsMeta;
use crate::json::{as_str, object, object_get, object_view, view_get, JsonValue, JsonView};
use crate::sys::{is_ulid_text, new_ulid_text, now_millis, MAX_STORABLE_MILLIS};
use crate::utils::error::HTTPError;
use crate::utils::error_code::ErrorCode;
use crate::utils::pavex::{
    json_response, json_response_with_status, success_json, success_view, HttpResponse,
    STATUS_BAD_REQUEST, STATUS_INTERNAL_SERVER_ERROR, STATUS_OK,
};

verus! {

/// What a client posts: events and the queue they go to.
pub struct In {
    pub events: Vec<InEventWithMeta>,
    pub meta: Meta,
}

/// The queue that posted events go to.
pub struct Meta {
    pub queue: String,
}

/// A posted event: its JSON body and what the client says of it.
pub struct InEventWithMeta {
    pub event: Event,
    pub meta: InEventMeta,
}

/// What a client may say of a posted event: its id, or the key of the body
/// field that holds its id (`idKey`), its timestamp in milliseconds, and its
/// trace id.
pub struct InEventMeta {
    pub id: Option<String>,
    pub id_key: Option<String>,
    pub ts: Option<u64>,
    pub trace_id: Option<String>,
}

/// Why a posted event cannot be ingested.
pub enum EventConvertError {
    /// The `idKey` given for an event names no string field of its body.
    IdKeyNotExist(String),
}

/// Where the id of a posted event comes from.
pub enum IdOutcome {
    /// The id is known: given, or read from the body.
    Known(Seq<char>),
    /// The `idKey` names no string field of the body.
    KeyMissing(Seq<char>),
    /// Neither an id nor an `idKey` was given: a new ULID is the id.
    Fresh,
}

/// The id of an event is its `id` if given; otherwise, if an `idKey` is given,
/// the string stored under that key in the body (an error if there is none);
/// otherwise a fresh one.
pub open spec fn id_outcome(meta: InEventMeta, event: Seq<(Seq<char>, JsonView)>) -> IdOutcome {
    match meta.id {
        Some(id) => IdOutcome::Known(id@),
        None => match meta.id_key {
            Some(key) => match view_get(event, key@) {
                Some(JsonView::String(s)) => IdOutcome::Known(s),
                _ => IdOutcome::KeyMissing(key@),
            },
            None => IdOutcome::Fresh,
        },
    }
}

/// The id outcome of a posted event.
pub open spec fn outcome_of(e: InEventWithMeta) -> IdOutcome {
    id_outcome(e.meta, object_view(e.event@))
}

/// The trace id of an event: the one given, else its id.
pub open spec fn trace_of(meta: InEventMeta, id: Seq<char>) -> Seq<char> {
    match meta.trace_id {
        Some(t) => t@,
        None => id,
    }
}

/// The message that reports a missing `idKey`.
pub open spec fn id_key_message(key: Seq<char>) -> Seq<char> {
    "idKey "@ + key + " does not exist in provided event"@
}

impl EventConvertError {
    /// The message of the error.
    pub open spec fn spec_message(self) -> Seq<char> {
        match self {
            EventConvertError::IdKeyNotExist(key) => id_key_message(key@),
        }
    }

    /// Renders the message of the error.
    pub fn to_text(&self) -> (r: String)
        ensures
            r@ == self.spec_message(),
    {
        match self {
            EventConvertError::IdKeyNotExist(key) => {
                proof {
                    reveal_strlit("idKey ");
                    reveal_strlit(" does not exist in provided event");
                }
                let mut s = String::from_str("idKey ");
                s.append(key.as_str());
                s.append(" does not exist in provided event");
                s
            },
        }
    }
}

/// `out` is `e` ingested into `queue` with the id `id`: same body, that id,
/// the trace id given or else the id, the timestamp given if any.
pub open spec fn ingested_as(e: InEventWithMeta, queue: Seq<char>, id: Seq<char>, out: EventWithMeta) -> bool {
    &&& out.event == e.event
    &&& out.meta.id@ == id
    &&& out.meta.trace_id@ == trace_of(e.meta, id)
    &&& (e.meta.ts matches Some(ts) ==> out.meta.ts == ts)
    &&& out.meta.queue@ == queue
}

impl InEventWithMeta {
    /// Ingests the event into `queue`, taking `fresh_id` as its id when it
    /// needs a new one and `now` as its timestamp when none is given.
    pub fn into_event_at(self, queue: &str, fresh_id: String, now: u64) -> (r: Result<
        EventWithMeta,
        EventConvertError,
    >)
        ensures
            match outcome_of(self) {
                IdOutcome::KeyMissing(key) => r matches Err(EventConvertError::IdKeyNotExist(k)) && k@ == key,
                IdOutcome::Known(id) => r matches Ok(out) && ingested_as(self, queue@, id, out),
                IdOutcome::Fresh => r matches Ok(out) && ingested_as(self, queue@, fresh_id@, out),
            },
            r matches Ok(out) ==> (self.meta.ts is None ==> out.meta.ts == now),
            self.meta.id matches Some(given) ==> (r matches Ok(out) && out.meta.id@ == given@),
            self.meta.id is None ==> (self.meta.id_key matches Some(key) ==> match view_get(
                object_view(self.event@),
                key@,
            ) {
                Some(JsonView::String(found)) => r matches Ok(out) && out.meta.id@ == found,
                _ => r matches Err(EventConvertError::IdKeyNotExist(k)) && k@ == key@,
            }),
            r matches Ok(out) ==> out.event == self.event && out.meta.queue@ == queue@,
            self.meta.id is None && self.meta.id_key is None ==> (r matches Ok(out) && out.meta.id@ == fresh_id@),
            r matches Ok(out) ==> (self.meta.trace_id matches Some(t) ==> out.meta.trace_id@ == t@),
            r matches Ok(out) ==> (self.meta.trace_id is None ==> out.meta.trace_id@ == out.meta.id@),
    {
        let InEventWithMeta { event, meta } = self;
        let id = match meta.id {
            Some(id) => id,
            None => match meta.id_key {
                Some(id_key) => match object_get(&event, &id_key) {
                    Some(value) => match as_str(value) {
                        Some(s) => s.clone(),
                        None => {
                            return Err(EventConvertError::IdKeyNotExist(id_key));
                        },
                    },
                    None => {
                        return Err(EventConvertError::IdKeyNotExist(id_key));
                    },
                },
                None => fresh_id,
            },
        };
        let trace_id = match meta.trace_id {
            Some(t) => t,
            None => id.clone(),
        };
        let ts: u64 = match meta.ts {
            Some(ts) => ts,
            None => now,
        };
        Ok(EventWithMeta {
            event,
            meta: EventMeta { id, ts, trace_id, queue: String::from_str(queue) },
        })
    }

    /// Ingests the event into `queue`: a new ULID is its id when it needs
    /// one, and the current time its timestamp when none is given.
    pub fn into_event(self, queue: &str) -> (r: Result<EventWithMeta, EventConvertError>)
        ensures
            match outcome_of(self) {
                IdOutcome::KeyMissing(key) => r matches Err(EventConvertError::IdKeyNotExist(k)) && k@ == key,
                IdOutcome::Known(id) => r matches Ok(out) && ingested_as(self, queue@, id, out),
                IdOutcome::Fresh => r matches Ok(out) && is_ulid_text(out.meta.id@)
                    && ingested_as(self, queue@, out.meta.id@, out),
            },
            r matches Ok(out) ==> (self.meta.ts matches Some(ts) ==> out.meta.ts == ts),
            self.meta.id matches Some(given) ==> (r matches Ok(out) && out.meta.id@ == given@),
            self.meta.id is None ==> (self.meta.id_key matches Some(key) ==> match view_get(
                object_view(self.event@),
                key@,
            ) {
                Some(JsonView::String(found)) => r matches Ok(out) && out.meta.id@ == found,
                _ => r matches Err(EventConvertError::IdKeyNotExist(k)) && k@ == key@,
            }),
            r matches Ok(out) ==> out.event == self.event && out.meta.queue@ == queue@,
            self.meta.id is None && self.meta.id_key is None ==> (r matches Ok(out) && is_ulid_text(out.meta.id@)),
            r matches Ok(out) ==> (self.meta.ts is None ==> 0 <= out.meta.ts <= MAX_STORABLE_MILLIS),
            r matches Ok(out) ==> (self.meta.trace_id matches Some(t) ==> out.meta.trace_id@ == t@),
            r matches Ok(out) ==> (self.meta.trace_id is None ==> out.meta.trace_id@ == out.meta.id@),
    {
        let fresh_id = if self.meta.id.is_none() && self.meta.id_key.is_none() {
            new_ulid_text()
        } else {
            String::new()
        };
        let now: u64 = if self.meta.ts.is_none() {
            now_millis() as u64
        } else {
            0
        };
        self.into_event_at(queue, fresh_id, now)
    }
}

/// `out`, an event of a batch, is `e` ingested: same body, its id (a new ULID
/// when it needs one), the trace id given or else its id, the timestamp given
/// if any.
pub open spec fn enqueued_as(e: InEventWithMeta, out: queue_events::EventWithMeta) -> bool {
    &&& out.event == e.event
    &&& match outcome_of(e) {
        IdOutcome::Known(id) => out.meta.id@ == id,
        IdOutcome::Fresh => is_ulid_text(out.meta.id@),
        IdOutcome::KeyMissing(_) => false,
    }
    &&& out.meta.trace_id@ == trace_of(e.meta, out.meta.id@)
    &&& (e.meta.ts matches Some(ts) ==> out.meta.ts == ts)
}

/// No event before index `n` has a missing `idKey`.
pub open spec fn none_missing_before(events: Seq<InEventWithMeta>, n: int) -> bool {
    forall|j: int| 0 <= j < n ==> !(outcome_of(#[trigger] events[j]) is KeyMissing)
}

/// The error that rejects a post whose event names a missing `idKey`.
pub open spec fn is_missing_key_error(e: HTTPError, key: Seq<char>) -> bool {
    e.has(STATUS_BAD_REQUEST, ErrorCode::E40001, id_key_message(key), Some(id_key_message(key)))
}

/// Turns a post into the batch to enqueue. All or nothing: if an event's
/// `idKey` names no string field of its body, the post is rejected with a
/// `400` error of code `E40001` that reports the first such key, and nothing
/// is enqueued; otherwise every event is in the batch, in order.
pub fn new_events_from(input: In) -> (r: Result<NewEvents, HTTPError>)
    ensures
        r is Ok <==> none_missing_before(input.events@, input.events@.len() as int),
        r matches Ok(batch) ==> {
            &&& batch.meta.queue@ == input.meta.queue@
            &&& batch.events@.len() == input.events@.len()
            &&& forall|i: int|
                0 <= i < input.events@.len() ==> enqueued_as(
                    #[trigger] input.events@[i],
                    batch.events@[i],
                )
            &&& forall|i: int|
                0 <= i < input.events@.len() ==> {
                    &&& (#[trigger] input.events@[i]).meta.trace_id matches Some(t) ==> batch.events@[i].meta.trace_id@ == t@
                    &&& input.events@[i].meta.trace_id is None ==> batch.events@[i].meta.trace_id@
                        == batch.events@[i].meta.id@
                    &&& input.events@[i].meta.ts is None ==> 0 <= batch.events@[i].meta.ts <= MAX_STORABLE_MILLIS
                }
        },
        r matches Err(e) ==> exists|i: int|
            {
                &&& 0 <= i < input.events@.len()
                &&& none_missing_before(input.events@, i)
                &&& #[trigger] outcome_of(input.events@[i]) matches IdOutcome::KeyMissing(key)
                &&& is_missing_key_error(e, key)
            },
{
    let ghost posted = input.events@;
    let ghost queue = input.meta.queue@;
    let In { events, meta } = input;
    let mut out: Vec<queue_events::EventWithMeta> = Vec::new();
    for e in it: events.into_iter()
        invariant
            it.seq() == posted,
            posted == input.events@,
            meta.queue@ == queue,
            queue == input.meta.queue@,
            out@.len() == it.index(),
            none_missing_before(posted, it.index() as int),
            forall|j: int| 0 <= j < it.index() ==> enqueued_as(#[trigger] posted[j], out@[j]),
            forall|j: int|
                0 <= j < it.index() ==> {
                    &&& (#[trigger] posted[j]).meta.trace_id matches Some(t) ==> out@[j].meta.trace_id@ == t@
                    &&& posted[j].meta.trace_id is None ==> out@[j].meta.trace_id@ == out@[j].meta.id@
                    &&& posted[j].meta.ts is None ==> 0 <= out@[j].meta.ts <= MAX_STORABLE_MILLIS
                },
    {
        let ghost k = it.index();
        match e.into_event(meta.queue.as_str()) {
            Ok(ev) => {
                let EventWithMeta { event, meta: m } = ev;
                out.push(
                    queue_events::EventWithMeta {
                        event,
                        meta: queue_events::EventMeta { id: m.id, ts: m.ts, trace_id: m.trace_id },
                    },
                );
            },
            Err(err) => {
                let message = err.to_text();
                let source = err.to_text();
                let rejected = HTTPError::bad_request(ErrorCode::E40001, message, Some(source));
                proof {
                    let key = match outcome_of(posted[k as int]) {
                        IdOutcome::KeyMissing(key) => key,
                        _ => Seq::empty(),
                    };
                    assert(is_missing_key_error(rejected, key));
                    assert(!none_missing_before(posted, posted.len() as int));
                }
                return Err(rejected);
            },
        }
    }
    Ok(NewEvents { events: out, meta: EventsMeta { queue: meta.queue } })
}

/// The JSON document that reports a failed post: `{"success": false, "error": <error>}`.
pub open spec fn failure_view(error: Seq<char>) -> JsonView {
    JsonView::Object(seq![("success"@, JsonView::Bool(false)), ("error"@, JsonView::String(error))])
}

/// The answer to a post once its batch was handed to the job queue: `200 OK`
/// with `{"success": true}` if the job queue took it, else
/// `500 Internal Server Error` with `{"success": false, "error": <its error>}`.
pub fn pushed_response(pushed: Result<(), String>) -> (r: HttpResponse)
    ensures
        match pushed {
            Ok(()) => r.is_json(STATUS_OK, success_view(true)),
            Err(e) => r.is_json(STATUS_INTERNAL_SERVER_ERROR, failure_view(e@)),
        },
{
    match pushed {
        Ok(()) => json_response(success_json(true)),
        Err(e) => {
            proof {
                reveal_strlit("success");
                reveal_strlit("error");
            }
            let ghost error = e@;
            let mut entries: Vec<(String, JsonValue)> = Vec::new();
            entries.push((String::from_str("success"), JsonValue::Bool(false)));
            entries.push((String::from_str("error"), JsonValue::String(e)));
            assert(object_view(entries@) =~= seq![
                ("success"@, JsonView::Bool(false)),
                ("error"@, JsonView::String(error)),
            ]);
            json_response_with_status(STATUS_INTERNAL_SERVER_ERROR, object(entries))
        },
    }
}

} // verus!
