//! The demo handler: it hands a message to the application's task loop. The
//! server's router has no route to it.

use vstd::prelude::*;
use crate::app::task::Task;
use crate::utils::pavex::{json_response, success_json, success_view, HttpResponse, STATUS_OK};

verus! {

/// What a demo request carries.
pub struct DemoTaskPayload {
    pub msg: String,
}

/// What the demo handler does: the task to hand to the task loop (a demo task
/// with the posted message), and the answer once it is handed over
/// (`200 OK` with `{"success": true}`).
pub fn new_demo_task(payload: DemoTaskPayload) -> (r: (Task, HttpResponse))
    ensures
        r.0 matches Task::Demo(msg) && msg@ == payload.msg@,
        r.1.is_json(STATUS_OK, success_view(true)),
{
    (Task::Demo(payload.msg), json_response(success_json(true)))
}

} // verus!
