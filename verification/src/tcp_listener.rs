//! The accept side: a listening handle and its accept queue.
//!
//! The engine's accept callback wraps each newly accepted connection into a
//! fresh stream socket (registering the connection's hooks as the socket's
//! constructor describes) and queues it here; `poll_accept` yields the
//! queued sockets in arrival order and suspends when none is pending. A
//! closed listener is permanently exhausted.

use vstd::prelude::*;

use crate::tcp_stream::TcpStreamImpl;

verus! {

/// A bound, listening endpoint with its accept queue. Touched only under
/// the engine lock, which every operation's exclusive borrow stands for.
pub struct TcpListener {
    /// Opaque engine handle of the listening endpoint; never dereferenced
    /// by the bridge.
    pub pcb: usize,
    /// Accepted, ready-to-use stream sockets in arrival order.
    pub queue: Vec<TcpStreamImpl>,
    /// The engine still feeds the queue (the listener was not closed).
    pub open: bool,
    /// A task is parked waiting for a connection.
    pub waker: bool,
}

/// Outcome of one accept attempt.
pub enum AcceptPoll {
    /// The oldest pending connection, as a ready stream socket.
    Connection(TcpStreamImpl),
    /// The listener is exhausted: no connection will ever arrive again.
    Closed,
    /// Nothing pending yet; the task parked in the waker slot.
    Pending,
}

impl TcpListener {
    /// A listener for the bound endpoint behind `pcb`, with an empty accept
    /// queue. The caller registers the engine's accept callback against it
    /// under the engine lock.
    pub fn new(pcb: usize) -> (l: TcpListener)
        ensures
            l.pcb == pcb,
            l.queue@ == Seq::<TcpStreamImpl>::empty(),
            l.open,
            !l.waker,
    {
        TcpListener { pcb, queue: Vec::new(), open: true, waker: false }
    }

    /// One accept attempt, under the engine lock: the oldest pending
    /// connection; or, with the queue empty, a closed answer when the
    /// listener is exhausted, else a suspension with the task parked in the
    /// waker slot.
    pub fn poll_accept(&mut self) -> (r: AcceptPoll)
        ensures
            final(self).pcb == old(self).pcb,
            final(self).open == old(self).open,
            old(self).queue@.len() > 0 ==> {
                &&& r == AcceptPoll::Connection(old(self).queue@.first())
                &&& final(self).queue@ == old(self).queue@.drop_first()
                &&& final(self).waker == old(self).waker
            },
            old(self).queue@.len() == 0 && !old(self).open ==> {
                &&& r == AcceptPoll::Closed
                &&& *final(self) == *old(self)
            },
            old(self).queue@.len() == 0 && old(self).open ==> {
                &&& r == AcceptPoll::Pending
                &&& final(self).waker
                &&& final(self).queue@ == old(self).queue@
            },
    {
        if self.queue.len() > 0 {
            let s = self.queue.remove(0);
            proof {
                assert(self.queue@ =~= old(self).queue@.drop_first());
            }
            return AcceptPoll::Connection(s);
        }
        if !self.open {
            return AcceptPoll::Closed;
        }
        self.waker = true;
        AcceptPoll::Pending
    }

    /// Teardown decision, under the engine lock; run when the listener is
    /// released. Idempotent: exactly the first call asks the caller to
    /// unbind the listening handle.
    pub fn close(&mut self) -> (unbind: bool)
        ensures
            !final(self).open,
            unbind == old(self).open,
            final(self).pcb == old(self).pcb,
            final(self).queue@ == old(self).queue@,
            final(self).waker == old(self).waker,
    {
        let was_open = self.open;
        self.open = false;
        was_open
    }
}

/// Engine hook: a new inbound connection was accepted and already wrapped
/// into a ready stream socket. Runs under the engine lock. Queues the
/// socket in arrival order; on a closed listener it is discarded. The
/// caller must wake the parked acceptor exactly when the result is true.
pub fn accept_cb(listener: &mut TcpListener, stream: TcpStreamImpl) -> (wake: bool)
    ensures
        wake == old(listener).waker,
        final(listener).pcb == old(listener).pcb,
        final(listener).open == old(listener).open,
        final(listener).waker == old(listener).waker,
        old(listener).open ==> final(listener).queue@ == old(listener).queue@.push(stream),
        !old(listener).open ==> final(listener).queue@ == old(listener).queue@,
{
    if listener.open {
        listener.queue.push(stream);
    }
    listener.waker
}

} // verus!