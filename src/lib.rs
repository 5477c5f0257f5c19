//! A small end-to-end encrypted direct-messaging server core: the wire codec, the
//! envelope validator, the routing table and the per-connection state machine.
pub mod envelope;
pub mod json;
pub mod text;
pub mod wire;
pub mod models;
pub mod routing;
pub mod identity;
pub mod session;
pub mod laws;
pub mod cache;
