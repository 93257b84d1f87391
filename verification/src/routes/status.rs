//! Liveness of the server.

use vstd::prelude::*;
use crate::utils::pavex::STATUS_OK;

verus! {

/// Respond with a `200 OK` status code to indicate that the server is alive
/// and ready to accept new requests.
pub fn ping() -> (r: u16)
    ensures
        r == STATUS_OK,
{
    STATUS_OK
}

} // verus!
