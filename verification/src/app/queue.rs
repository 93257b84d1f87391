//! Batches of new events, and the rows they become in the queue table.

use vstd::prelude::*;
use crate::app::db::models::queue::NewQueue;
use crate::app::queue_events::{EventMeta, EventWithMeta, EventsMeta};
use crate::json::{object, object_view, view_get, JsonNumber, JsonValue, JsonView, NumberView};
use crate::sys::{is_uuid_v7, millis_representable, naive_from_millis, new_uuids_v7};

verus! {

/// A batch of new events of one queue: the job that ingestion enqueues.
pub struct NewEvents {
    pub events: Vec<EventWithMeta>,
    pub meta: EventsMeta,
}

/// The JSON document of an event's metadata: `{"id": .., "ts": .., "trace_id": ..}`.
pub open spec fn meta_json_view(m: EventMeta) -> JsonView {
    JsonView::Object(
        seq![
            ("id"@, JsonView::String(m.id@)),
            ("ts"@, JsonView::Number(NumberView::PosInt(m.ts as nat))),
            ("trace_id"@, JsonView::String(m.trace_id@)),
        ],
    )
}

/// The metadata document of `m` is an object whose `"id"`, `"ts"` and
/// `"trace_id"` entries hold the event's id, its timestamp unchanged, and its
/// trace id.
pub open spec fn carries_meta(doc: JsonView, m: EventMeta) -> bool {
    doc matches JsonView::Object(entries) && {
        &&& view_get(entries, "id"@) == Some(JsonView::String(m.id@))
        &&& view_get(entries, "ts"@) == Some(JsonView::Number(NumberView::PosInt(m.ts as nat)))
        &&& view_get(entries, "trace_id"@) == Some(JsonView::String(m.trace_id@))
    }
}

/// The metadata document holds the three fields of the metadata as they are.
pub proof fn lemma_meta_json_carries_meta(m: EventMeta)
    ensures
        carries_meta(meta_json_view(m), m),
{
    reveal_strlit("id");
    reveal_strlit("ts");
    reveal_strlit("trace_id");
    let entries = seq![
        ("id"@, JsonView::String(m.id@)),
        ("ts"@, JsonView::Number(NumberView::PosInt(m.ts as nat))),
        ("trace_id"@, JsonView::String(m.trace_id@)),
    ];
    assert(entries.drop_first()[0] == entries[1]);
    assert(entries.drop_first().drop_first()[0] == entries[2]);
    assert("ts"@ != "id"@) by {
        assert("ts"@[0] != "id"@[0]);
    }
    assert("trace_id"@ != "id"@) by {
        assert("trace_id"@[0] != "id"@[0]);
    }
    assert("trace_id"@ != "ts"@) by {
        assert("trace_id"@.len() != "ts"@.len());
    }
    reveal_with_fuel(view_get, 4);
}

/// Renders an event's metadata as a JSON document.
pub fn meta_json(m: &EventMeta) -> (r: JsonValue)
    ensures
        r@ == meta_json_view(*m),
        carries_meta(r@, *m),
{
    proof {
        lemma_meta_json_carries_meta(*m);
    }
    proof {
        reveal_strlit("id");
        reveal_strlit("ts");
        reveal_strlit("trace_id");
    }
    let mut entries: Vec<(String, JsonValue)> = Vec::new();
    entries.push((String::from_str("id"), JsonValue::String(m.id.clone())));
    entries.push((String::from_str("ts"), JsonValue::Number(JsonNumber::PosInt(m.ts))));
    entries.push((String::from_str("trace_id"), JsonValue::String(m.trace_id.clone())));
    assert(object_view(entries@) =~= seq![
        ("id"@, JsonView::String(m.id@)),
        ("ts"@, JsonView::Number(NumberView::PosInt(m.ts as nat))),
        ("trace_id"@, JsonView::String(m.trace_id@)),
    ]);
    object(entries)
}

/// The timestamp of an event as the signed millisecond count that is stored
/// (the bits of the `u64`, read as an `i64`).
pub open spec fn stored_ts(ts: u64) -> i64 {
    ts as i64
}

/// Every event of the batch has a timestamp that the table can store.
pub open spec fn all_storable(events: Seq<EventWithMeta>) -> bool {
    forall|i: int| 0 <= i < events.len() ==> millis_representable(stored_ts(#[trigger] events[i].meta.ts) as int)
}

/// `row` stores `ev` of `queue` under the key `uuid`.
pub open spec fn row_of(ev: EventWithMeta, queue: Seq<char>, uuid: u128, row: NewQueue) -> bool {
    &&& row.uuid == uuid
    &&& row.ref_queue@ == queue
    &&& row.ref_id@ == ev.meta.id@
    &&& row.trace_id@ == ev.meta.trace_id@
    &&& row.event@ == JsonView::Object(object_view(ev.event@))
    &&& row.meta@ == meta_json_view(ev.meta)
    &&& row.ts == stored_ts(ev.meta.ts)
}

/// The rows that store a batch, one per event in order, the `i`th under the
/// key `uuids[i]`.
pub fn rows_with(batch: NewEvents, uuids: &Vec<u128>) -> (rows: Vec<NewQueue>)
    requires
        uuids@.len() == batch.events@.len(),
        all_storable(batch.events@),
    ensures
        rows@.len() == batch.events@.len(),
        forall|i: int|
            0 <= i < rows@.len() ==> row_of(batch.events@[i], batch.meta.queue@, uuids@[i], #[trigger] rows@[i]),
{
    let ghost events = batch.events@;
    let ghost queue = batch.meta.queue@;
    let NewEvents { events: evs, meta } = batch;
    let mut rows: Vec<NewQueue> = Vec::new();
    let mut idx: usize = 0;
    assert(events.len() == uuids.len());
    for ev in it: evs.into_iter()
        invariant
            it.seq() == events,
            idx == it.index(),
            idx <= events.len(),
            events.len() <= usize::MAX,
            uuids@.len() == events.len(),
            meta.queue@ == queue,
            rows@.len() == it.index(),
            forall|j: int| 0 <= j < it.index() ==> row_of(events[j], queue, uuids@[j], #[trigger] rows@[j]),
    {
        let meta_doc = meta_json(&ev.meta);
        let EventWithMeta { event, meta: m } = ev;
        let event_doc = object(event);
        rows.push(
            NewQueue {
                uuid: uuids[idx],
                ref_queue: meta.queue.clone(),
                ref_id: m.id,
                trace_id: m.trace_id,
                event: event_doc,
                meta: meta_doc,
                ts: m.ts as i64,
            },
        );
        idx = idx + 1;
    }
    rows
}

/// The rows that store a batch, each under a new version 7 UUID, the keys
/// increasing from row to row (so no two rows share one); `None` if an event's
/// timestamp cannot be stored, for which nothing is stored.
pub fn new_queue_rows(batch: NewEvents) -> (r: Option<Vec<NewQueue>>)
    ensures
        r is Some <==> all_storable(batch.events@),
        r matches Some(rows) ==> {
            &&& rows@.len() == batch.events@.len()
            &&& forall|i: int|
                0 <= i < rows@.len() ==> {
                    &&& row_of(batch.events@[i], batch.meta.queue@, rows@[i].uuid, #[trigger] rows@[i])
                    &&& is_uuid_v7(rows@[i].uuid)
                }
            &&& forall|i: int, j: int| 0 <= i < j < rows@.len() ==> rows@[i].uuid < rows@[j].uuid
            &&& forall|i: int|
                0 <= i < rows@.len() ==> {
                    &&& (#[trigger] rows@[i]).meta@ matches JsonView::Object(entries)
                        && view_get(entries, "ts"@) == Some(
                        JsonView::Number(NumberView::PosInt(batch.events@[i].meta.ts as nat)),
                    )
                    &&& batch.events@[i].meta.ts <= i64::MAX ==> rows@[i].ts == batch.events@[i].meta.ts
                }
        },
{
    let ghost batch_events = batch.events@;
    let ghost batch_queue = batch.meta.queue@;
    let n: usize = batch.events.len();
    let mut i: usize = 0;
    while i < n
        invariant
            n == batch.events@.len(),
            i <= n,
            forall|j: int| 0 <= j < i ==> millis_representable(stored_ts(#[trigger] batch.events@[j].meta.ts) as int),
        decreases n - i,
    {
        if naive_from_millis(batch.events[i].meta.ts as i64).is_none() {
            return None;
        }
        i = i + 1;
    }
    let uuids = new_uuids_v7(n);
    let rows = rows_with(batch, &uuids);
    assert(forall|i: int| 0 <= i < rows@.len() ==> #[trigger] rows@[i].uuid == uuids@[i]);
    assert forall|i: int| 0 <= i < rows@.len() implies {
        &&& (#[trigger] rows@[i]).meta@ matches JsonView::Object(entries) && view_get(entries, "ts"@) == Some(
            JsonView::Number(NumberView::PosInt(batch_events[i].meta.ts as nat)),
        )
        &&& batch_events[i].meta.ts <= i64::MAX ==> rows@[i].ts == batch_events[i].meta.ts
    } by {
        lemma_meta_json_carries_meta(batch_events[i].meta);
        assert(row_of(batch_events[i], batch_queue, rows@[i].uuid, rows@[i]));
    }
    Some(rows)
}

} // verus!
