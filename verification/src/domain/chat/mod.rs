//! Stored conversations.
pub mod direct_message;
