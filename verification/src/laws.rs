//! What holds across ingestion, storage and error answers.

use vstd::prelude::*;
use crate::app::db::models::queue::NewQueue;
use crate::app::queue::{all_storable, lemma_meta_json_carries_meta, row_of, stored_ts, NewEvents};
use crate::json::{object_view, view_get, JsonView, NumberView};
use crate::routes::events::{
    enqueued_as, id_key_message, is_missing_key_error, outcome_of, trace_of, IdOutcome, In,
};
use crate::sys::{is_ulid_text, is_uuid_v7, millis_representable, MAX_STORABLE_MILLIS};
use crate::utils::error::{error_body_view, HTTPError};
use crate::utils::error_code::ErrorCode;
use crate::utils::pavex::{BodyView, HttpResponse, STATUS_BAD_REQUEST};

verus! {

/// `batch` is what ingestion makes of the post `input` when it accepts it.
pub open spec fn accepted_as(input: In, batch: NewEvents) -> bool {
    &&& batch.meta.queue@ == input.meta.queue@
    &&& batch.events@.len() == input.events@.len()
    &&& forall|i: int|
        0 <= i < input.events@.len() ==> enqueued_as(#[trigger] input.events@[i], batch.events@[i])
}

/// `rows` are the rows that store `batch`, each under a new version 7 UUID,
/// the keys increasing from row to row.
pub open spec fn stored_as(batch: NewEvents, rows: Seq<NewQueue>) -> bool {
    &&& rows.len() == batch.events@.len()
    &&& forall|i: int|
        0 <= i < rows.len() ==> {
            &&& row_of(batch.events@[i], batch.meta.queue@, rows[i].uuid, #[trigger] rows[i])
            &&& is_uuid_v7(rows[i].uuid)
        }
    &&& forall|i: int, j: int| 0 <= i < j < rows.len() ==> rows[i].uuid < rows[j].uuid
}

/// A post rejected for a missing `idKey` is answered `400 Bad Request` with
/// `{"success": false, "code": "E40001", "message": "idKey <key> does not exist in provided event"}`.
pub proof fn rejected_post_answer(e: HTTPError, key: Seq<char>, resp: HttpResponse)
    requires
        is_missing_key_error(e, key),
        resp.is_json(e.status, error_body_view(e.code, e.message@)),
    ensures
        resp.status == STATUS_BAD_REQUEST,
        resp.body@ == BodyView::Json(
            JsonView::Object(
                seq![
                    ("success"@, JsonView::Bool(false)),
                    ("code"@, JsonView::String("E40001"@)),
                    ("message"@, JsonView::String(id_key_message(key))),
                ],
            ),
        ),
{
}

/// Every event of an accepted post is stored, one row per event in order, in
/// the posted queue, with its body, its id (the one given, the string under
/// its `idKey`, or a new ULID), its trace id (the one given, else its id) and
/// the timestamp given, if any; an event posted without a trace id has its
/// own id as trace id; no two of its rows share a primary key.
pub proof fn stored_post(input: In, batch: NewEvents, rows: Seq<NewQueue>)
    requires
        accepted_as(input, batch),
        stored_as(batch, rows),
    ensures
        rows.len() == input.events@.len(),
        forall|i: int|
            0 <= i < rows.len() ==> {
                let e = #[trigger] input.events@[i];
                &&& rows[i].ref_queue@ == input.meta.queue@
                &&& rows[i].event@ == JsonView::Object(object_view(e.event@))
                &&& match outcome_of(e) {
                    IdOutcome::Known(id) => rows[i].ref_id@ == id,
                    IdOutcome::Fresh => is_ulid_text(rows[i].ref_id@),
                    IdOutcome::KeyMissing(_) => false,
                }
                &&& rows[i].trace_id@ == trace_of(e.meta, rows[i].ref_id@)
                &&& (e.meta.ts matches Some(ts) ==> rows[i].ts == stored_ts(ts))
            },
        forall|i: int|
            0 <= i < rows.len() ==> {
                &&& (#[trigger] input.events@[i]).meta.trace_id matches Some(t) ==> rows[i].trace_id@ == t@
                &&& input.events@[i].meta.trace_id is None ==> rows[i].trace_id@ == rows[i].ref_id@
            },
        forall|i: int, j: int| 0 <= i < rows.len() && 0 <= j < rows.len() && i != j ==> rows[i].uuid != rows[j].uuid,
{
    assert forall|i: int| 0 <= i < rows.len() implies {
        let e = #[trigger] input.events@[i];
        &&& rows[i].ref_queue@ == input.meta.queue@
        &&& rows[i].event@ == JsonView::Object(object_view(e.event@))
        &&& match outcome_of(e) {
            IdOutcome::Known(id) => rows[i].ref_id@ == id,
            IdOutcome::Fresh => is_ulid_text(rows[i].ref_id@),
            IdOutcome::KeyMissing(_) => false,
        }
        &&& rows[i].trace_id@ == trace_of(e.meta, rows[i].ref_id@)
        &&& (e.meta.ts matches Some(ts) ==> rows[i].ts == stored_ts(ts))
    } by {
        assert(enqueued_as(input.events@[i], batch.events@[i]));
        assert(row_of(batch.events@[i], batch.meta.queue@, rows[i].uuid, rows[i]));
    }
    assert forall|i: int| 0 <= i < rows.len() implies {
        &&& (#[trigger] input.events@[i]).meta.trace_id matches Some(t) ==> rows[i].trace_id@ == t@
        &&& input.events@[i].meta.trace_id is None ==> rows[i].trace_id@ == rows[i].ref_id@
    } by {
        assert(enqueued_as(input.events@[i], batch.events@[i]));
        assert(row_of(batch.events@[i], batch.meta.queue@, rows[i].uuid, rows[i]));
    }
    assert forall|i: int, j: int| 0 <= i < rows.len() && 0 <= j < rows.len() && i != j implies rows[i].uuid
        != rows[j].uuid by {
        if i < j {
            assert(rows[i].uuid < rows[j].uuid);
        } else {
            assert(rows[j].uuid < rows[i].uuid);
        }
    }
}

/// Two events of an accepted post with the same known id are stored under the
/// same (queue, id) key, the key on which the table keeps only the first
/// stored event.
pub proof fn same_id_same_key(input: In, batch: NewEvents, rows: Seq<NewQueue>, i: int, j: int)
    requires
        accepted_as(input, batch),
        stored_as(batch, rows),
        0 <= i < input.events@.len(),
        0 <= j < input.events@.len(),
        outcome_of(input.events@[i]) is Known,
        outcome_of(input.events@[i]) == outcome_of(input.events@[j]),
    ensures
        rows[i].ref_queue@ == rows[j].ref_queue@,
        rows[i].ref_id@ == rows[j].ref_id@,
{
    stored_post(input, batch, rows);
}

/// The metadata document of each stored row carries its event's timestamp
/// unchanged, for every `u64` timestamp, and for one up to `i64::MAX` it is
/// the row's timestamp column too; its id and trace id are those of the row.
pub proof fn stored_meta_keeps_timestamp(batch: NewEvents, rows: Seq<NewQueue>)
    requires
        stored_as(batch, rows),
    ensures
        forall|i: int|
            0 <= i < rows.len() ==> {
                &&& (#[trigger] rows[i]).meta@ matches JsonView::Object(entries) && {
                    &&& view_get(entries, "ts"@) == Some(
                        JsonView::Number(NumberView::PosInt(batch.events@[i].meta.ts as nat)),
                    )
                    &&& view_get(entries, "id"@) == Some(JsonView::String(rows[i].ref_id@))
                    &&& view_get(entries, "trace_id"@) == Some(JsonView::String(rows[i].trace_id@))
                }
                &&& batch.events@[i].meta.ts <= i64::MAX ==> rows[i].ts == batch.events@[i].meta.ts
            },
{
    assert forall|i: int| 0 <= i < rows.len() implies {
        &&& (#[trigger] rows[i]).meta@ matches JsonView::Object(entries) && {
            &&& view_get(entries, "ts"@) == Some(
                JsonView::Number(NumberView::PosInt(batch.events@[i].meta.ts as nat)),
            )
            &&& view_get(entries, "id"@) == Some(JsonView::String(rows[i].ref_id@))
            &&& view_get(entries, "trace_id"@) == Some(JsonView::String(rows[i].trace_id@))
        }
        &&& batch.events@[i].meta.ts <= i64::MAX ==> rows[i].ts == batch.events@[i].meta.ts
    } by {
        assert(row_of(batch.events@[i], batch.meta.queue@, rows[i].uuid, rows[i]));
        lemma_meta_json_carries_meta(batch.events@[i].meta);
    }
}

/// A post whose events carry no timestamps can always be stored: each gets a
/// clock reading, which is a date that the table holds.
pub proof fn untimed_post_is_storable(input: In, batch: NewEvents)
    requires
        batch.events@.len() == input.events@.len(),
        forall|i: int| 0 <= i < input.events@.len() ==> (#[trigger] input.events@[i]).meta.ts is None,
        forall|i: int|
            0 <= i < input.events@.len() ==> ((#[trigger] input.events@[i]).meta.ts is None ==> 0
                <= batch.events@[i].meta.ts <= MAX_STORABLE_MILLIS),
    ensures
        all_storable(batch.events@),
{
    assert forall|i: int| 0 <= i < batch.events@.len() implies millis_representable(
        stored_ts(#[trigger] batch.events@[i].meta.ts) as int,
    ) by {
        assert(input.events@[i].meta.ts is None);
    }
}

} // verus!
