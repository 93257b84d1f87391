//! A JSON document model made of plain values.

use vstd::prelude::*;

verus! {

/// A JSON number, held the way a JSON parser keeps it: a non-negative
/// integer, a negative integer, or the decimal text of a number with a
/// fraction or an exponent.
pub enum JsonNumber {
    PosInt(u64),
    NegInt(i64),
    Float(String),
}

/// A JSON value.
pub enum JsonValue {
    Null,
    Bool(bool),
    Number(JsonNumber),
    String(String),
    Array(Vec<JsonValue>),
    Object(JsonObject),
}

/// The entries of a JSON object, in document order.
pub type JsonObject = Vec<(String, JsonValue)>;

/// The mathematical value of a JSON number.
pub enum NumberView {
    PosInt(nat),
    NegInt(int),
    Float(Seq<char>),
}

/// The mathematical value of a JSON document: strings as character sequences.
#[verifier::ext_equal]
pub enum JsonView {
    Null,
    Bool(bool),
    Number(NumberView),
    String(Seq<char>),
    Array(Seq<JsonView>),
    Object(Seq<(Seq<char>, JsonView)>),
}

impl View for JsonNumber {
    type V = NumberView;

    open spec fn view(&self) -> NumberView {
        match self {
            JsonNumber::PosInt(n) => NumberView::PosInt(*n as nat),
            JsonNumber::NegInt(n) => NumberView::NegInt(*n as int),
            JsonNumber::Float(s) => NumberView::Float(s@),
        }
    }
}

/// The mathematical value of a JSON value.
pub open spec fn json_view(v: JsonValue) -> JsonView
    decreases v,
{
    match v {
        JsonValue::Null => JsonView::Null,
        JsonValue::Bool(b) => JsonView::Bool(b),
        JsonValue::Number(n) => JsonView::Number(n@),
        JsonValue::String(s) => JsonView::String(s@),
        JsonValue::Array(items) => JsonView::Array(
            Seq::new(
                items@.len(),
                |i: int|
                    if 0 <= i < items@.len() {
                        json_view(items@[i])
                    } else {
                        JsonView::Null
                    },
            ),
        ),
        JsonValue::Object(entries) => JsonView::Object(
            Seq::new(
                entries@.len(),
                |i: int|
                    if 0 <= i < entries@.len() {
                        (entries@[i].0@, json_view(entries@[i].1))
                    } else {
                        (Seq::empty(), JsonView::Null)
                    },
            ),
        ),
    }
}

impl View for JsonValue {
    type V = JsonView;

    open spec fn view(&self) -> JsonView {
        json_view(*self)
    }
}

/// The view of the entries of a JSON object.
pub open spec fn object_view(entries: Seq<(String, JsonValue)>) -> Seq<(Seq<char>, JsonView)> {
    Seq::new(entries.len(), |i: int| (entries[i].0@, entries[i].1@))
}

/// The value stored under `key`: that of the first entry with that key.
pub open spec fn view_get(entries: Seq<(Seq<char>, JsonView)>, key: Seq<char>) -> Option<JsonView>
    decreases entries.len(),
{
    if entries.len() == 0 {
        None
    } else if entries[0].0 == key {
        Some(entries[0].1)
    } else {
        view_get(entries.drop_first(), key)
    }
}

/// The text of a JSON string value, `None` for any other value.
pub open spec fn view_as_str(v: JsonView) -> Option<Seq<char>> {
    match v {
        JsonView::String(s) => Some(s),
        _ => None,
    }
}

/// Builds a JSON object from its entries.
pub fn object(entries: JsonObject) -> (r: JsonValue)
    ensures
        r@ == JsonView::Object(object_view(entries@)),
{
    let ghost es = entries@;
    let r = JsonValue::Object(entries);
    assert(r@ matches JsonView::Object(w) && w =~= object_view(es));
    r
}

/// Looks up `key` in a JSON object.
pub fn object_get<'a>(entries: &'a JsonObject, key: &String) -> (r: Option<&'a JsonValue>)
    ensures
        r matches Some(v) ==> view_get(object_view(entries@), key@) == Some(v@),
        r is None <==> view_get(object_view(entries@), key@) is None,
{
    let mut i: usize = 0;
    assert(object_view(entries@).skip(0) =~= object_view(entries@));
    while i < entries.len()
        invariant
            i <= entries.len(),
            view_get(object_view(entries@), key@) == view_get(object_view(entries@).skip(i as int), key@),
        decreases entries.len() - i,
    {
        assert(object_view(entries@).skip(i as int).drop_first() =~= object_view(entries@).skip(i + 1));
        if entries[i].0 == *key {
            return Some(&entries[i].1);
        }
        i = i + 1;
    }
    None
}

/// The text of a JSON string value.
pub fn as_str(v: &JsonValue) -> (r: Option<&String>)
    ensures
        r matches Some(s) ==> view_as_str(v@) == Some(s@),
        r is None <==> view_as_str(v@) is None,
{
    match v {
        JsonValue::String(s) => Some(s),
        _ => None,
    }
}

} // verus!
