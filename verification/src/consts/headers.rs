//! Names and values of the headers that the server reads and writes.
use vstd::prelude::*;

verus! {

/// The header that carries the identity token.
pub const AUTHORIZATION: &'static str = "Authorization";

/// The header that names the kind of a body.
pub const CONTENT_TYPE: &'static str = "Content-Type";

/// The kind of a body that is a form.
pub const FORM_URL_ENCODED: &'static str = "application/x-www-form-urlencoded";

/// The kind of a body that is JSON.
pub const APP_JSON: &'static str = "application/json";

} // verus!
