//! A static file server's decision logic: how a request path becomes a
//! location below the served root, and how the answer to a request follows
//! from what is found at that location.

pub mod config;
pub mod disk;
pub mod file_server;
pub mod handler;
pub mod message;
pub mod path;
pub mod server;
pub mod text;
