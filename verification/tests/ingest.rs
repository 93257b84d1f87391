use wq_server::app::event::Event;
use wq_server::app::queue::new_queue_rows;
use wq_server::json::{JsonNumber, JsonValue};
use wq_server::routes::events::{
    new_events_from, pushed_response, EventConvertError, In, InEventMeta, InEventWithMeta, Meta,
};
use wq_server::utils::error::error_handler;
use wq_server::utils::error_code::ErrorCode;
use wq_server::utils::pavex::ResponseBody;

fn s(x: &str) -> String {
    x.to_string()
}

fn body(entries: Vec<(&str, JsonValue)>) -> Event {
    entries.into_iter().map(|(k, v)| (s(k), v)).collect()
}

fn num(n: u64) -> JsonValue {
    JsonValue::Number(JsonNumber::PosInt(n))
}

fn meta(id: Option<&str>, id_key: Option<&str>, ts: Option<u64>, trace_id: Option<&str>) -> InEventMeta {
    InEventMeta { id: id.map(s), id_key: id_key.map(s), ts, trace_id: trace_id.map(s) }
}

fn no_meta() -> InEventMeta {
    meta(None, None, None, None)
}

fn is_ulid(id: &str) -> bool {
    id.len() == 26 && id.chars().all(|c| "0123456789ABCDEFGHJKMNPQRSTVWXYZ".contains(c))
}

fn post(events: Vec<InEventWithMeta>, queue: &str) -> In {
    In { events, meta: Meta { queue: s(queue) } }
}

#[test]
fn insert_events_works() {
    let input = post(
        vec![
            InEventWithMeta { event: body(vec![("hello", num(1))]), meta: no_meta() },
            InEventWithMeta { event: body(vec![("hello", num(2))]), meta: meta(Some("123"), None, None, None) },
            InEventWithMeta {
                event: body(vec![("id", JsonValue::String(s("666"))), ("hello", num(1))]),
                meta: meta(None, Some("id"), None, None),
            },
            InEventWithMeta {
                event: body(vec![("hello", num(1))]),
                meta: meta(None, None, Some(1707177603744u64), None),
            },
        ],
        "test",
    );
    let batch = match new_events_from(input) {
        Ok(b) => b,
        Err(_) => panic!("the post should be accepted"),
    };
    assert_eq!(batch.meta.queue, "test");
    assert_eq!(batch.events.len(), 4);
    assert!(is_ulid(&batch.events[0].meta.id));
    assert_eq!(batch.events[0].meta.trace_id, batch.events[0].meta.id);
    assert_eq!(batch.events[1].meta.id, "123");
    assert_eq!(batch.events[1].meta.trace_id, "123");
    assert_eq!(batch.events[2].meta.id, "666");
    assert!(is_ulid(&batch.events[3].meta.id));
    assert_eq!(batch.events[3].meta.ts, 1707177603744u64);
    assert_eq!(batch.events[1].event.len(), 1);
    assert_eq!(batch.events[1].event[0].0, "hello");

    let answer = pushed_response(Ok(()));
    assert_eq!(answer.status, 200);
}

#[test]
fn insert_events_de_duplicate() {
    let input = post(
        vec![
            InEventWithMeta { event: body(vec![]), meta: meta(Some("test1"), None, Some(1), None) },
            InEventWithMeta { event: body(vec![]), meta: meta(Some("test1"), None, Some(2), None) },
            InEventWithMeta {
                event: body(vec![("id", JsonValue::String(s("test1")))]),
                meta: meta(None, Some("id"), Some(3), None),
            },
        ],
        "test",
    );
    let batch = match new_events_from(input) {
        Ok(b) => b,
        Err(_) => panic!("the post should be accepted"),
    };
    assert_eq!(batch.events.len(), 3);
    for (i, e) in batch.events.iter().enumerate() {
        assert_eq!(e.meta.id, "test1");
        assert_eq!(e.meta.ts, (i + 1) as u64);
    }
    // all three rows share the table's (queue, id) key, on which the table
    // keeps only the first stored row: the one with ts 1
    let rows = new_queue_rows(batch).expect("storable");
    assert_eq!(rows.len(), 3);
    for row in &rows {
        assert_eq!((row.ref_queue.as_str(), row.ref_id.as_str()), ("test", "test1"));
    }
    assert_eq!(rows[0].ts, 1);
}

#[test]
fn insert_events_fail() {
    let input = post(
        vec![InEventWithMeta {
            event: body(vec![("id", JsonValue::String(s("666"))), ("hello", num(1))]),
            meta: meta(None, Some("not-exist"), None, None),
        }],
        "test",
    );
    let err = match new_events_from(input) {
        Ok(_) => panic!("the post should be rejected"),
        Err(e) => e,
    };
    assert_eq!(err.status, 400);
    assert!(err.code == ErrorCode::E40001);
    assert_eq!(err.message, "idKey not-exist does not exist in provided event");
    let answer = error_handler(&err);
    assert_eq!(answer.status, 400);
    match answer.body {
        ResponseBody::Json(JsonValue::Object(entries)) => {
            assert_eq!(entries.len(), 3);
            assert_eq!(entries[0].0, "success");
            assert!(matches!(entries[0].1, JsonValue::Bool(false)));
            assert_eq!(entries[1].0, "code");
            assert!(matches!(&entries[1].1, JsonValue::String(c) if c == "E40001"));
            assert_eq!(entries[2].0, "message");
            assert!(matches!(&entries[2].1, JsonValue::String(m) if m == "idKey not-exist does not exist in provided event"));
        }
        _ => panic!("the answer should be a JSON object"),
    }
}

#[test]
fn id_key_naming_a_non_string_field_is_rejected() {
    let e = InEventWithMeta { event: body(vec![("id", num(666))]), meta: meta(None, Some("id"), None, None) };
    match e.into_event("q") {
        Err(EventConvertError::IdKeyNotExist(k)) => assert_eq!(k, "id"),
        Ok(_) => panic!("a number is no id"),
    }
}

#[test]
fn given_id_wins_over_id_key() {
    let e = InEventWithMeta {
        event: body(vec![("id", JsonValue::String(s("from-body")))]),
        meta: meta(Some("given"), Some("id"), Some(5), Some("trace")),
    };
    let out = e.into_event_at("q", s("fresh"), 99).ok().expect("accepted");
    assert_eq!(out.meta.id, "given");
    assert_eq!(out.meta.trace_id, "trace");
    assert_eq!(out.meta.ts, 5);
    assert_eq!(out.meta.queue, "q");
}

#[test]
fn missing_id_and_ts_take_the_fresh_values() {
    let e = InEventWithMeta { event: body(vec![]), meta: no_meta() };
    let out = e.into_event_at("q", s("01ARZ3NDEKTSV4RRFFQ69G5FAV"), 1234).ok().expect("accepted");
    assert_eq!(out.meta.id, "01ARZ3NDEKTSV4RRFFQ69G5FAV");
    assert_eq!(out.meta.trace_id, "01ARZ3NDEKTSV4RRFFQ69G5FAV");
    assert_eq!(out.meta.ts, 1234);
}

#[test]
fn fresh_ids_are_ulids_and_differ() {
    let a = InEventWithMeta { event: body(vec![]), meta: no_meta() }.into_event("q").ok().expect("accepted");
    let b = InEventWithMeta { event: body(vec![]), meta: no_meta() }.into_event("q").ok().expect("accepted");
    assert!(is_ulid(&a.meta.id));
    assert!(is_ulid(&b.meta.id));
    assert_ne!(a.meta.id, b.meta.id);
}

#[test]
fn first_missing_key_is_reported() {
    let input = post(
        vec![
            InEventWithMeta { event: body(vec![]), meta: meta(None, Some("a"), None, None) },
            InEventWithMeta { event: body(vec![]), meta: meta(None, Some("b"), None, None) },
        ],
        "q",
    );
    let err = new_events_from(input).err().expect("rejected");
    assert_eq!(err.message, "idKey a does not exist in provided event");
    assert_eq!(err.source.as_deref(), Some("idKey a does not exist in provided event"));
}

#[test]
fn failed_push_is_an_internal_error() {
    let answer = pushed_response(Err(s("pool timed out")));
    assert_eq!(answer.status, 500);
    assert!(answer.headers.is_empty());
    match answer.body {
        ResponseBody::Json(JsonValue::Object(entries)) => {
            assert_eq!(entries.len(), 2);
            assert_eq!(entries[0].0, "success");
            assert!(matches!(entries[0].1, JsonValue::Bool(false)));
            assert_eq!(entries[1].0, "error");
            assert!(matches!(&entries[1].1, JsonValue::String(e) if e == "pool timed out"));
        }
        _ => panic!("the answer should be a JSON object"),
    }
}
