use wq_server::app::queue::{meta_json, new_queue_rows, rows_with, NewEvents};
use wq_server::app::queue_events::{EventMeta, EventWithMeta, EventsMeta};
use wq_server::json::{JsonNumber, JsonValue};

fn s(x: &str) -> String {
    x.to_string()
}

fn event(id: &str, ts: u64) -> EventWithMeta {
    EventWithMeta {
        event: vec![(s("hello"), JsonValue::Number(JsonNumber::PosInt(1)))],
        meta: EventMeta { id: s(id), ts, trace_id: format!("trace-{id}") },
    }
}

fn batch(events: Vec<EventWithMeta>) -> NewEvents {
    NewEvents { events, meta: EventsMeta { queue: s("test") } }
}

#[test]
fn rows_store_each_event_in_its_queue() {
    let rows = new_queue_rows(batch(vec![event("a", 1), event("b", 1707177603744)])).expect("storable");
    assert_eq!(rows.len(), 2);
    assert_eq!(rows[0].ref_queue, "test");
    assert_eq!(rows[0].ref_id, "a");
    assert_eq!(rows[0].trace_id, "trace-a");
    assert_eq!(rows[0].ts, 1);
    assert_eq!(rows[1].ref_id, "b");
    assert_eq!(rows[1].ts, 1707177603744);
    for row in &rows {
        assert_eq!((row.uuid >> 76) & 0xf, 7);
        assert_eq!((row.uuid >> 62) & 0x3, 2);
    }
    assert_ne!(rows[0].uuid, rows[1].uuid);
    match &rows[0].event {
        JsonValue::Object(entries) => {
            assert_eq!(entries.len(), 1);
            assert_eq!(entries[0].0, "hello");
        }
        _ => panic!("the body is an object"),
    }
}

#[test]
fn row_keys_increase_through_a_batch() {
    let events: Vec<EventWithMeta> = (0..50).map(|i| event(&format!("e{i}"), 1)).collect();
    let rows = new_queue_rows(batch(events)).expect("storable");
    assert_eq!(rows.len(), 50);
    for pair in rows.windows(2) {
        assert!(pair[0].uuid < pair[1].uuid);
    }
}

#[test]
fn row_meta_is_the_event_metadata_document() {
    let doc = meta_json(&EventMeta { id: s("123"), ts: 42, trace_id: s("t") });
    match doc {
        JsonValue::Object(entries) => {
            assert_eq!(entries.len(), 3);
            assert_eq!(entries[0].0, "id");
            assert!(matches!(&entries[0].1, JsonValue::String(v) if v == "123"));
            assert_eq!(entries[1].0, "ts");
            assert!(matches!(entries[1].1, JsonValue::Number(JsonNumber::PosInt(42))));
            assert_eq!(entries[2].0, "trace_id");
            assert!(matches!(&entries[2].1, JsonValue::String(v) if v == "t"));
        }
        _ => panic!("the metadata is an object"),
    }
}

#[test]
fn empty_batch_has_no_rows() {
    let rows = new_queue_rows(batch(vec![])).expect("storable");
    assert!(rows.is_empty());
}

#[test]
fn unstorable_timestamp_stores_nothing() {
    assert!(new_queue_rows(batch(vec![event("a", 1), event("b", 9_000_000_000_000_000_000)])).is_none());
}

#[test]
fn timestamp_past_i64_wraps_before_storage() {
    // u64::MAX read as i64 is -1: one millisecond before the epoch.
    let rows = new_queue_rows(batch(vec![event("a", u64::MAX)])).expect("storable");
    assert_eq!(rows[0].ts, -1);
}

#[test]
fn rows_with_uses_the_given_keys() {
    let rows = rows_with(batch(vec![event("a", 1), event("b", 2)]), &vec![10u128, 20u128]);
    assert_eq!(rows[0].uuid, 10);
    assert_eq!(rows[1].uuid, 20);
}

#[test]
fn storable_timestamps_end_at_chrono_range() {
    let last = 8_210_266_876_799_999u64;
    assert!(new_queue_rows(batch(vec![event("a", last)])).is_some());
    assert!(new_queue_rows(batch(vec![event("a", last + 1)])).is_none());
    // the first storable millisecond, as a u64 whose bits read as that i64
    let first = (-8_334_601_228_800_000i64) as u64;
    assert!(new_queue_rows(batch(vec![event("a", first)])).is_some());
    assert!(new_queue_rows(batch(vec![event("a", first - 1)])).is_none());
}
