//! The per-connection handler protocol: a factory that manufactures a fresh
//! handler instance for every accepted connection, and the handler itself.

use vstd::prelude::*;

use crate::id::ConnectionId;

verus! {

/// The handler of one connection: consumes the upgraded socket and the
/// assigned connection identifier and runs the connection's lifecycle (its
/// internal message loop is entirely application-defined). An instance
/// services exactly one connection: `handle_connection` takes the instance by
/// value, so invoking it a second time on the same instance is ruled out by
/// ownership, and a fresh instance must be manufactured for every connection.
pub trait ConnectionContext: Sized {
    fn handle_connection(self, socket: warp::ws::WebSocket, connection_id: ConnectionId);
}

/// The per-application factory of connection handlers. Construction is total:
/// there is no failure path (an application that can fail to construct must
/// hand back a degenerate no-op instance, since the route cannot reject an
/// already-upgraded socket). The same factory value services every
/// connection, so it must be cloneable across concurrent accept events.
pub trait NewConnectionContext: Clone {
    type Instance;

    fn new_connection_context(&self) -> Self::Instance;
}

} // verus!
