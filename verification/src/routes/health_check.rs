//! Liveness probe.

use crate::response::{Response, STATUS_OK};
use vstd::prelude::*;

verus! {

/// Answers the liveness probe: always `200 OK` with a body of length zero.
///
/// The handler takes no input and reads no state, so the answer is the same
/// whatever the service did before.
pub fn health_check() -> (response: Response)
    ensures
        response.status == STATUS_OK,
        response.body@.len() == 0,
{
    Response::ok()
}

} // verus!
