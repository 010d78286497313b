//! What a user signs in with.
pub mod email;
pub mod handle;
pub mod login;
pub mod password;
