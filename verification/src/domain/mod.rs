//! The account rules.
pub mod chat;
pub mod confirmation_token;
pub mod email;
pub mod server;
pub mod user;
