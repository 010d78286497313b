//! Requests about accounts.
pub mod confirm;
pub mod delete;
pub mod get;
pub mod login;
pub mod signup;
pub mod update;

use vstd::prelude::*;

verus! {

/// Where these requests are routed from.
pub const BASE_PATH: &'static str = "/users";

} // verus!
