//! Fixed texts of the protocol.
pub mod headers;
