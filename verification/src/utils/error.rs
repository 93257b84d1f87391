//! Errors reported to API clients, and how they are rendered.

use vstd::prelude::*;
use crate::json::{object, object_view, JsonValue, JsonView};
use crate::utils::error_code::{AsStr, ErrorCode};
use crate::utils::pavex::{
    is_status_code, json_response_with_status, HttpResponse, STATUS_BAD_REQUEST,
    STATUS_INTERNAL_SERVER_ERROR,
};

verus! {

/// An error answered to a client: an HTTP status, a code, a message, and the
/// text of the error that caused it, if any.
pub struct HTTPError {
    pub status: u16,
    pub code: ErrorCode,
    pub message: String,
    pub source: Option<String>,
}

/// The views of the parts of an error.
pub open spec fn source_view(source: Option<String>) -> Option<Seq<char>> {
    match source {
        Some(s) => Some(s@),
        None => None,
    }
}

impl HTTPError {
    /// The error has these parts.
    pub open spec fn has(&self, status: u16, code: ErrorCode, message: Seq<char>, source: Option<Seq<char>>) -> bool {
        &&& self.status == status
        &&& self.code == code
        &&& self.message@ == message
        &&& source_view(self.source) == source
    }

    /// An error with the given status, code, message and source.
    pub fn new(status: u16, code: ErrorCode, message: String, source: Option<String>) -> (r: Self)
        requires
            is_status_code(status),
        ensures
            r.has(status, code, message@, source_view(source)),
    {
        HTTPError { status, code, message, source }
    }

    /// What the error says of itself: `An error occurred: code=<code> message=<message>`.
    pub open spec fn spec_text(&self) -> Seq<char> {
        "An error occurred: code="@ + self.code.spec_name() + " message="@ + self.message@
    }

    /// Renders what the error says of itself.
    pub fn to_text(&self) -> (r: String)
        ensures
            r@ == self.spec_text(),
    {
        proof {
            reveal_strlit("An error occurred: code=");
            reveal_strlit(" message=");
        }
        let mut text = String::from_str("An error occurred: code=");
        text.append(self.code.as_str());
        text.append(" message=");
        text.append(self.message.as_str());
        text
    }

    /// A `400 Bad Request` error.
    pub fn bad_request(code: ErrorCode, message: String, source: Option<String>) -> (r: Self)
        ensures
            r.has(STATUS_BAD_REQUEST, code, message@, source_view(source)),
    {
        Self::new(STATUS_BAD_REQUEST, code, message, source)
    }

    /// A `500 Internal Server Error` error.
    pub fn internal_server_error(code: ErrorCode, message: String, source: Option<String>) -> (r: Self)
        ensures
            r.has(STATUS_INTERNAL_SERVER_ERROR, code, message@, source_view(source)),
    {
        Self::new(STATUS_INTERNAL_SERVER_ERROR, code, message, source)
    }
}

/// The JSON body that answers an error: `{"success": false, "code": .., "message": ..}`.
pub open spec fn error_body_view(code: ErrorCode, message: Seq<char>) -> JsonView {
    JsonView::Object(
        seq![
            ("success"@, JsonView::Bool(false)),
            ("code"@, JsonView::String(code.spec_name())),
            ("message"@, JsonView::String(message)),
        ],
    )
}

/// The response that answers `error`: its status, with a JSON body that gives
/// its code and message (never its source).
pub fn error_handler(error: &HTTPError) -> (r: HttpResponse)
    requires
        is_status_code(error.status),
    ensures
        r.is_json(error.status, error_body_view(error.code, error.message@)),
{
    proof {
        reveal_strlit("success");
        reveal_strlit("code");
        reveal_strlit("message");
    }
    let mut entries: Vec<(String, JsonValue)> = Vec::new();
    entries.push((String::from_str("success"), JsonValue::Bool(false)));
    entries.push((String::from_str("code"), JsonValue::String(error.code.to_text())));
    entries.push((String::from_str("message"), JsonValue::String(error.message.clone())));
    let ghost es = entries@;
    let body = object(entries);
    assert(object_view(es) =~= seq![
        ("success"@, JsonView::Bool(false)),
        ("code"@, JsonView::String(error.code.spec_name())),
        ("message"@, JsonView::String(error.message@)),
    ]);
    json_response_with_status(error.status, body)
}

} // verus!
