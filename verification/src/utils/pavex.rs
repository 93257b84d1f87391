//! HTTP responses as plain values, and the JSON response builders.

use vstd::prelude::*;
use crate::json::{object, object_view, JsonValue, JsonView};

verus! {

/// `200 OK`
pub const STATUS_OK: u16 = 200;
/// `308 Permanent Redirect`
pub const STATUS_PERMANENT_REDIRECT: u16 = 308;
/// `400 Bad Request`
pub const STATUS_BAD_REQUEST: u16 = 400;
/// `404 Not Found`
pub const STATUS_NOT_FOUND: u16 = 404;
/// `500 Internal Server Error`
pub const STATUS_INTERNAL_SERVER_ERROR: u16 = 500;

/// The body of a response.
pub enum ResponseBody {
    /// No body.
    Empty,
    /// A JSON document, sent with a JSON content type.
    Json(JsonValue),
    /// Raw bytes; the headers give their content type.
    Raw(Vec<u8>),
}

/// The mathematical value of a response body.
pub enum BodyView {
    Empty,
    Json(JsonView),
    Raw(Seq<u8>),
}

impl View for ResponseBody {
    type V = BodyView;

    open spec fn view(&self) -> BodyView {
        match self {
            ResponseBody::Empty => BodyView::Empty,
            ResponseBody::Json(v) => BodyView::Json(v@),
            ResponseBody::Raw(b) => BodyView::Raw(b@),
        }
    }
}

/// An HTTP response: status code, headers in order, body.
pub struct HttpResponse {
    pub status: u16,
    pub headers: Vec<(String, String)>,
    pub body: ResponseBody,
}

/// The headers of a response, as pairs of character sequences.
pub open spec fn headers_view(headers: Seq<(String, String)>) -> Seq<(Seq<char>, Seq<char>)> {
    Seq::new(headers.len(), |i: int| (headers[i].0@, headers[i].1@))
}

impl HttpResponse {
    /// The response is `status` with no extra header and the JSON body `data`.
    pub open spec fn is_json(&self, status: u16, data: JsonView) -> bool {
        &&& self.status == status
        &&& self.headers@.len() == 0
        &&& self.body@ == BodyView::Json(data)
    }
}

/// `status` is a status code that a response can carry: three digits, 100 to 999.
pub open spec fn is_status_code(status: u16) -> bool {
    100 <= status <= 999
}

/// A response with the given status and `data` as its JSON body.
pub fn json_response_with_status(status: u16, data: JsonValue) -> (r: HttpResponse)
    requires
        is_status_code(status),
    ensures
        r.is_json(status, data@),
{
    HttpResponse { status, headers: Vec::new(), body: ResponseBody::Json(data) }
}

/// A `200 OK` response with `data` as its JSON body.
pub fn json_response(data: JsonValue) -> (r: HttpResponse)
    ensures
        r.is_json(STATUS_OK, data@),
{
    json_response_with_status(STATUS_OK, data)
}

/// The JSON document `{"success": <flag>}`.
pub open spec fn success_view(flag: bool) -> JsonView {
    JsonView::Object(seq![("success"@, JsonView::Bool(flag))])
}

/// Builds `{"success": <flag>}`.
pub fn success_json(flag: bool) -> (r: JsonValue)
    ensures
        r@ == success_view(flag),
{
    let key = String::from_str("success");
    proof {
        reveal_strlit("success");
    }
    let mut entries: Vec<(String, JsonValue)> = Vec::new();
    entries.push((key, JsonValue::Bool(flag)));
    assert(object_view(entries@) =~= seq![("success"@, JsonView::Bool(flag))]);
    object(entries)
}

} // verus!
