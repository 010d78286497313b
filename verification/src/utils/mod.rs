//! Helpers shared by the account rules and the chat relay.
pub mod clock;
pub mod credentials;
pub mod hashing;
pub mod identity;
pub mod json;
pub mod jwt;
pub mod pattern;
pub mod test;
pub mod text;
