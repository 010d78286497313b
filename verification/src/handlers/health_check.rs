//! The liveness probe of the server.
use vstd::prelude::*;
use super::response::{bare, Response, Status};

verus! {

/// The path of the liveness probe.
pub const HEALTH_CHECK_PATH: &'static str = "/health-check";

/// The answer to the liveness probe: all is well.
pub fn health_check() -> (response: Response)
    ensures
        response@ == bare(Status::Success),
{
    Response::finish(Status::Success)
}

} // verus!
