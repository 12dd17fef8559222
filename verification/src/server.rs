use crate::pool::PermitPool;
use vstd::prelude::*;

verus! {

/// The server's process-wide state: the listen address, fixed after
/// construction, and the permit pool bounding concurrent sessions. The
/// listening socket itself lives with the I/O layer that drives the accept
/// loop.
pub struct Server {
    pub port: u16,
    pub host: String,
    pub max_connections: PermitPool,
}

impl Server {
    /// A server that will listen on `host_str:port` and admit at most
    /// `max_connections` simultaneous sessions.
    pub fn new(port: u16, host_str: &str, max_connections: usize) -> (s: Server)
        requires
            1 <= max_connections,
        ensures
            s.port == port,
            s.host@ == host_str@,
            s.max_connections.wf(),
            s.max_connections.capacity == max_connections,
            s.max_connections.available == max_connections,
    {
        Server {
            port,
            host: String::from_str(host_str),
            max_connections: PermitPool::new(max_connections),
        }
    }
}

/// What one turn of the accept loop observed: the permit pool was closed
/// under the acceptor, a connection arrived while a permit was held, or the
/// accept itself failed.
#[derive(Clone, Copy, Debug, PartialEq, Eq, Structural)]
pub enum AcceptEvent {
    PoolClosed,
    Incoming,
    AcceptFailed,
}

/// What the accept loop does next.
#[derive(Clone, Copy, Debug, PartialEq, Eq, Structural)]
pub enum AcceptDecision {
    /// Stop serving: the pool can close only deliberately, so its loss is
    /// fatal rather than grounds for spinning on a dead pool.
    Shutdown,
    /// Hand the accepted connection and the held permit to a fresh session.
    SpawnSession,
    /// Log and accept again: a transient accept failure must not take the
    /// server down.
    Retry,
}

/// The acceptor's decision for one loop turn. Every arriving connection gets
/// its own session; failures are contained as the decision variants say.
pub fn acceptor_decision(ev: &AcceptEvent) -> (d: AcceptDecision)
    ensures
        d == (match ev {
            AcceptEvent::PoolClosed => AcceptDecision::Shutdown,
            AcceptEvent::Incoming => AcceptDecision::SpawnSession,
            AcceptEvent::AcceptFailed => AcceptDecision::Retry,
        }),
{
    match ev {
        AcceptEvent::PoolClosed => AcceptDecision::Shutdown,
        AcceptEvent::Incoming => AcceptDecision::SpawnSession,
        AcceptEvent::AcceptFailed => AcceptDecision::Retry,
    }
}

} // verus!
