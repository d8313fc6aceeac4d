//! Rust Command Line Chat: the verified core of the chat client, the local
//! daemon and the discovery server.
mod text;
pub mod ciphers;
pub mod structures;
pub mod discovery;
pub mod cleanable;
pub mod routes;
pub mod client_daemon;
pub mod daemon;
pub mod client;
