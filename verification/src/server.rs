//! The plain HTTP server: a shared request counter and its one reply.
use vstd::prelude::*;
use std::sync::Arc;
use std::sync::atomic::AtomicU64;
use crate::run_server::{create_response, Reply};

verus! {

/// What one connection's requests see: the server's request counter.
pub struct RequestCtx {
    /// The counter, shared by all connections.
    pub req_id: Arc<AtomicU64>,
}

/// The server: it hands its request counter to each connection.
pub struct ServerCtx {
    /// The counter of requests seen, from 0.
    pub req_id: Arc<AtomicU64>,
}

impl ServerCtx {
    /// A server whose counter starts at 0.
    pub fn new() -> (r: ServerCtx) {
        ServerCtx { req_id: Arc::new(AtomicU64::new(0)) }
    }

    /// The context of a new connection: it shares this server's counter.
    pub fn connection(&self) -> (r: RequestCtx)
        ensures
            r.req_id == self.req_id,
    {
        RequestCtx { req_id: self.req_id.clone() }
    }
}

/// The server's reply to every request: 200 `Hello`.
pub fn hello_reply() -> (r: Reply)
    ensures
        r.status == 200,
        r.body@ == "Hello"@,
{
    create_response(200, String::from_str("Hello"))
}

} // verus!
