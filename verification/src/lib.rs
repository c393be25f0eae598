//! Push connections over WebSockets.
//!
//! The crate exposes a generic "push a message to a client" abstraction over a
//! full-duplex WebSocket transport: a generator of process-unique connection
//! identifiers, a converter from application payloads to transport frames, a
//! push channel owning one connection's outbound sink, and the routing step
//! that mints an identifier and a fresh handler context for each accepted
//! upgrade request.

pub mod context;
pub mod id;
pub mod message;
pub mod push;
pub mod route;
