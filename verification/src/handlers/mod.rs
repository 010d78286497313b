//! What the server decides for each request and each socket frame.
pub mod health_check;
pub mod middleware;
pub mod response;
pub mod server;
pub mod user;
pub mod websockets;
