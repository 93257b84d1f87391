//! The API's routes.

use vstd::prelude::*;
use crate::utils::pavex::{json_response, success_json, success_view, HttpResponse, STATUS_OK};

pub mod demo;
pub mod events;
pub mod openapi;
pub mod status;

verus! {

/// `GET /`: `200 OK` with `{"success": true}`.
pub fn root() -> (r: HttpResponse)
    ensures
        r.is_json(STATUS_OK, success_view(true)),
{
    json_response(success_json(true))
}

} // verus!
