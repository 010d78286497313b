//! Persistent socket connections.
pub mod chat;
