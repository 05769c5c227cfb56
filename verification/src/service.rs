//! The server that runs a project's wasm file: the slot that holds its worker
//! pool, which is filled once; the request counter that all connections
//! share; and whether the server may start.
use vstd::prelude::*;
use std::sync::Arc;
use std::sync::atomic::AtomicU64;

verus! {

/// Why the server could not start.
#[derive(Debug, Clone, PartialEq, Eq)]
pub enum InitError {
    /// The worker pool could not be built or installed; the text says why.
    InitComponentManagerPool(String),
}

/// The slot of the worker pool that serves every request. It is filled once:
/// a later pool is refused and the first one stays.
pub struct PoolSlot<T> {
    pool: Option<T>,
}

impl<T> PoolSlot<T> {
    /// The pool the slot holds, if any.
    pub closed spec fn held(&self) -> Option<T> {
        self.pool
    }

    /// An empty slot.
    pub fn new() -> (r: PoolSlot<T>)
        ensures
            r.held() is None,
    {
        PoolSlot { pool: None }
    }

    /// The pool the slot holds, if any.
    pub fn get(&self) -> (r: Option<&T>)
        ensures
            match r {
                Some(p) => self.held() == Some(*p),
                None => self.held() is None,
            },
    {
        match &self.pool {
            Some(p) => Some(p),
            None => None,
        }
    }
}

/// What the slot holds after a server was set up with the pool build `built`:
/// the built pool when the slot was empty, else what it held.
pub open spec fn installed<T>(slot: Option<T>, built: Result<T, Seq<char>>) -> Option<T> {
    match (slot, built) {
        (None, Ok(p)) => Some(p),
        _ => slot,
    }
}

/// Why setting up a server with the pool build `built` fails, if it does: the
/// build's failure, or `Failed to set pool` when the slot already holds a pool.
pub open spec fn setup_error<T>(slot: Option<T>, built: Result<T, Seq<char>>) -> Option<Seq<char>> {
    match built {
        Err(m) => Some(m),
        Ok(_) => if slot is Some {
            Some("Failed to set pool"@)
        } else {
            None
        },
    }
}

/// A pool build with its failure as a character sequence.
pub open spec fn built_view<T>(built: Result<T, String>) -> Result<T, Seq<char>> {
    match built {
        Ok(p) => Ok(p),
        Err(m) => Err(m@),
    }
}

/// What one connection's requests see: the counter that numbers requests.
pub struct ServiceContext {
    /// The counter, shared by all connections.
    pub req_id: Arc<AtomicU64>,
}

/// The server: it hands its request counter to each connection.
pub struct ServerContext {
    /// The counter that numbers requests, from 1.
    pub req_id: Arc<AtomicU64>,
}

impl ServerContext {
    /// Sets up the server with the worker pool build `built`: the pool goes
    /// into `slot` when the build succeeded and the slot is empty, and only
    /// then does the server start, numbering requests from 1. Otherwise the
    /// slot stays as it was and the error says why.
    pub fn new<T>(slot: &mut PoolSlot<T>, built: Result<T, String>) -> (r: Result<
        ServerContext,
        InitError,
    >)
        ensures
            final(slot).held() == installed(old(slot).held(), built_view(built)),
            r is Ok <==> setup_error(old(slot).held(), built_view(built)) is None,
            r matches Err(InitError::InitComponentManagerPool(e)) ==> setup_error(
                old(slot).held(),
                built_view(built),
            ) == Some(e@),
    {
        match built {
            Err(m) => Err(InitError::InitComponentManagerPool(m)),
            Ok(p) => {
                if slot.pool.is_some() {
                    Err(InitError::InitComponentManagerPool(String::from_str("Failed to set pool")))
                } else {
                    slot.pool = Some(p);
                    Ok(ServerContext { req_id: Arc::new(AtomicU64::new(1)) })
                }
            },
        }
    }

    /// The context of a new connection: it shares this server's counter.
    pub fn connection(&self) -> (r: ServiceContext)
        ensures
            r.req_id == self.req_id,
    {
        ServiceContext { req_id: self.req_id.clone() }
    }
}

/// Once a server was set up, every later set-up fails, with the pool build's
/// failure or with `Failed to set pool`, and leaves the first pool in the slot.
pub proof fn lemma_pool_set_once<T>(slot: Option<T>, first: T, later: Result<T, Seq<char>>)
    requires
        setup_error(slot, Ok::<T, Seq<char>>(first)) is None,
    ensures
        installed(slot, Ok::<T, Seq<char>>(first)) == Some(first),
        setup_error(installed(slot, Ok::<T, Seq<char>>(first)), later) == Some(
            match later {
                Err(m) => m,
                Ok(_) => "Failed to set pool"@,
            },
        ),
        installed(installed(slot, Ok::<T, Seq<char>>(first)), later) == Some(first),
{
}

} // verus!
