//! Account rules and the one-to-one chat relay of the muttr backend.
pub mod config;
pub mod consts;
pub mod domain;
pub mod handlers;
pub mod utils;
