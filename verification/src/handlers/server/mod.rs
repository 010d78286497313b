//! Requests about servers.
pub mod create;
pub mod delete;
pub mod update;

use vstd::prelude::*;

verus! {

/// Where these requests are routed from.
pub const BASE_PATH: &'static str = "/servers";

} // verus!
