//! The asynchronous datagram socket.
//!
//! A `UdpSocket` wraps a bound engine endpoint and a bounded inbound queue
//! fed by the engine's receive callback; when the queue is full a new
//! arrival is dropped silently, with no error and without blocking the
//! engine's call path (datagram semantics). The socket splits into a send
//! half, which holds only the handle value, and a receive half, which owns
//! the socket and its queue.

use vstd::prelude::*;

use crate::endpoint::Endpoint;
use crate::util::slice_to_vec;
use crate::Error;
use crate::StreamError;
use crate::ERR_OK;

verus! {

/// One received datagram: payload plus the two endpoints of its journey.
pub struct UdpPkt {
    /// The datagram's bytes.
    pub payload: Vec<u8>,
    /// Endpoint the datagram came from.
    pub src_addr: Endpoint,
    /// Endpoint the datagram was addressed to.
    pub dst_addr: Endpoint,
}

/// Bound datagram endpoint with its bounded inbound queue. Touched only
/// under the engine lock, which every operation's exclusive borrow stands
/// for.
pub struct UdpSocket {
    /// Opaque engine handle of the endpoint; never dereferenced by the
    /// bridge.
    pub pcb: usize,
    /// A task is parked waiting for an inbound datagram.
    pub waker: bool,
    /// Capacity the inbound queue was created with.
    pub capacity: usize,
    /// Queued inbound datagrams, oldest first.
    pub queue: Vec<UdpPkt>,
    /// The engine still feeds the queue (the socket was not closed).
    pub open: bool,
    /// Endpoint the socket is bound to.
    pub local: Endpoint,
}

/// Outcome of one receive attempt.
pub enum DatagramPoll {
    /// The oldest queued datagram.
    Packet(UdpPkt),
    /// The queue was closed: nothing will ever arrive again.
    Closed,
    /// Nothing queued yet; the task parked in the waker slot.
    Pending,
}

impl UdpSocket {
    /// The bounded queue never exceeds the capacity it was created with.
    pub open spec fn wf(self) -> bool {
        self.queue@.len() <= self.capacity
    }

    /// A socket for the endpoint behind `pcb`, bound at `local`, with an
    /// inbound queue of capacity `buffer_size`. `bind_code` is the engine's
    /// answer to the bind: any failure there surfaces before a socket
    /// exists, carrying the code. On success the caller registers the
    /// receive callback against the new socket under the engine lock.
    pub fn new(pcb: usize, local: Endpoint, buffer_size: usize, bind_code: i8) -> (r: Result<
        UdpSocket,
        Error,
    >)
        requires
            buffer_size >= 1,
        ensures
            bind_code == ERR_OK <==> r is Ok,
            bind_code != ERR_OK ==> r == Result::<UdpSocket, Error>::Err(Error::LwIP(bind_code)),
            r matches Result::Ok(s) ==> {
                &&& s.pcb == pcb
                &&& s.local == local
                &&& s.capacity == buffer_size
                &&& s.queue@ == Seq::<UdpPkt>::empty()
                &&& !s.waker
                &&& s.open
                &&& s.wf()
            },
    {
        if bind_code != ERR_OK {
            return Result::Err(Error::LwIP(bind_code));
        }
        Result::Ok(
            UdpSocket {
                pcb,
                waker: false,
                capacity: buffer_size,
                queue: Vec::new(),
                open: true,
                local,
            },
        )
    }

    /// Split into a send half, holding only the handle value, and a receive
    /// half, owning the socket and its queue.
    pub fn split(self) -> (halves: (SendHalf, RecvHalf))
        ensures
            halves.0.pcb == self.pcb,
            halves.1.socket == self,
    {
        let pcb = self.pcb;
        (SendHalf { pcb }, RecvHalf { socket: self })
    }

    /// The endpoint the socket is bound to.
    pub fn local_addr(&self) -> (a: Endpoint)
        ensures
            a == self.local,
    {
        self.local
    }

    /// One receive attempt, under the engine lock: the oldest queued
    /// datagram; or, with the queue empty, a closed answer when nothing can
    /// arrive any more, else a suspension with the task parked in the waker
    /// slot.
    pub fn poll_next(&mut self) -> (r: DatagramPoll)
        requires
            old(self).wf(),
        ensures
            final(self).wf(),
            final(self).pcb == old(self).pcb,
            final(self).capacity == old(self).capacity,
            final(self).open == old(self).open,
            final(self).local == old(self).local,
            old(self).queue@.len() > 0 ==> {
                &&& r == DatagramPoll::Packet(old(self).queue@.first())
                &&& final(self).queue@ == old(self).queue@.drop_first()
                &&& final(self).waker == old(self).waker
            },
            old(self).queue@.len() == 0 && !old(self).open ==> {
                &&& r == DatagramPoll::Closed
                &&& *final(self) == *old(self)
            },
            old(self).queue@.len() == 0 && old(self).open ==> {
                &&& r == DatagramPoll::Pending
                &&& final(self).waker
                &&& final(self).queue@ == old(self).queue@
            },
    {
        if self.queue.len() > 0 {
            let pkt = self.queue.remove(0);
            proof {
                assert(self.queue@ =~= old(self).queue@.drop_first());
            }
            return DatagramPoll::Packet(pkt);
        }
        if !self.open {
            return DatagramPoll::Closed;
        }
        self.waker = true;
        DatagramPoll::Pending
    }

    /// Teardown decision, under the engine lock; run when the receive half
    /// is released. Idempotent: exactly the first call asks the caller to
    /// detach the receive callback and release the engine endpoint.
    pub fn close(&mut self) -> (detach: bool)
        ensures
            !final(self).open,
            detach == old(self).open,
            final(self).pcb == old(self).pcb,
            final(self).waker == old(self).waker,
            final(self).capacity == old(self).capacity,
            final(self).queue@ == old(self).queue@,
            final(self).local == old(self).local,
    {
        let was_open = self.open;
        self.open = false;
        was_open
    }
}

/// Engine hook: a datagram arrived for the socket. Runs under the engine
/// lock. Queues the datagram, or — with the queue full — drops it silently:
/// no error, no state change, and the engine's call path never blocks. The
/// caller must wake the parked receiver exactly when the result is true.
///
/// When the engine holds no socket for the endpoint any more (already
/// detached), the shell around the engine returns without reaching this
/// function.
pub fn udp_recv_cb(socket: &mut UdpSocket, payload: Vec<u8>, src_addr: Endpoint, dst_addr: Endpoint) -> (wake:
    bool)
    requires
        old(socket).wf(),
    ensures
        final(socket).wf(),
        wake == old(socket).waker,
        final(socket).pcb == old(socket).pcb,
        final(socket).waker == old(socket).waker,
        final(socket).capacity == old(socket).capacity,
        final(socket).open == old(socket).open,
        final(socket).local == old(socket).local,
        old(socket).queue@.len() < old(socket).capacity ==> final(socket).queue@ == old(
            socket,
        ).queue@.push(UdpPkt { payload, src_addr, dst_addr }),
        old(socket).queue@.len() >= old(socket).capacity ==> final(socket).queue@ == old(
            socket,
        ).queue@,
{
    if socket.queue.len() < socket.capacity {
        socket.queue.push(UdpPkt { payload, src_addr, dst_addr });
    }
    socket.waker
}

/// A datagram send, described for the engine: the caller wraps the payload
/// as a zero-copy buffer reference and invokes the engine's send primitive
/// with these endpoints, all under the engine lock.
pub struct UdpSendRequest {
    /// Handle of the endpoint to send through.
    pub pcb: usize,
    /// The bytes to send.
    pub payload: Vec<u8>,
    /// Source endpoint to stamp on the datagram.
    pub src_addr: Endpoint,
    /// Destination endpoint.
    pub dst_addr: Endpoint,
}

/// Outcome of the engine's datagram send primitive: success, or a terminal
/// transport fault carrying the engine's code.
pub fn send_udp_result(code: i8) -> (r: Result<(), StreamError>)
    ensures
        code == ERR_OK <==> r is Ok,
        code != ERR_OK ==> r == Result::<(), StreamError>::Err(StreamError::Transport(code)),
{
    if code == ERR_OK {
        Result::Ok(())
    } else {
        Result::Err(StreamError::Transport(code))
    }
}

/// Non-owning send half: holds only the handle value and performs no
/// teardown.
pub struct SendHalf {
    /// Handle of the endpoint to send through.
    pub pcb: usize,
}

impl SendHalf {
    /// Describe a synchronous send of `data` from `src_addr` to `dst_addr`
    /// through this half's endpoint. The caller performs the described
    /// engine call under the engine lock and maps the engine's answer
    /// through `send_udp_result`; nothing here suspends.
    pub fn send_to(&self, data: &[u8], src_addr: &Endpoint, dst_addr: &Endpoint) -> (req:
        UdpSendRequest)
        ensures
            req.pcb == self.pcb,
            req.payload@ == data@,
            req.src_addr == *src_addr,
            req.dst_addr == *dst_addr,
    {
        UdpSendRequest {
            pcb: self.pcb,
            payload: slice_to_vec(data),
            src_addr: *src_addr,
            dst_addr: *dst_addr,
        }
    }
}

/// Owning receive half: holds the socket object and its queue.
pub struct RecvHalf {
    /// The underlying socket.
    pub socket: UdpSocket,
}

impl RecvHalf {
    /// One receive attempt: the oldest queued datagram, a closed answer
    /// once nothing can arrive any more (the caller surfaces that as an
    /// error), or a suspension.
    pub fn recv_from(&mut self) -> (r: DatagramPoll)
        requires
            old(self).socket.wf(),
        ensures
            final(self).socket.wf(),
            final(self).socket.pcb == old(self).socket.pcb,
            final(self).socket.capacity == old(self).socket.capacity,
            final(self).socket.open == old(self).socket.open,
            final(self).socket.local == old(self).socket.local,
            old(self).socket.queue@.len() > 0 ==> {
                &&& r == DatagramPoll::Packet(old(self).socket.queue@.first())
                &&& final(self).socket.queue@ == old(self).socket.queue@.drop_first()
                &&& final(self).socket.waker == old(self).socket.waker
            },
            old(self).socket.queue@.len() == 0 && !old(self).socket.open ==> {
                &&& r == DatagramPoll::Closed
                &&& *final(self) == *old(self)
            },
            old(self).socket.queue@.len() == 0 && old(self).socket.open ==> {
                &&& r == DatagramPoll::Pending
                &&& final(self).socket.waker
                &&& final(self).socket.queue@ == old(self).socket.queue@
            },
    {
        self.socket.poll_next()
    }

    /// One receive attempt, the stream-style entry point: same behaviour as
    /// `recv_from`.
    pub fn poll_next(&mut self) -> (r: DatagramPoll)
        requires
            old(self).socket.wf(),
        ensures
            final(self).socket.wf(),
            final(self).socket.pcb == old(self).socket.pcb,
            final(self).socket.capacity == old(self).socket.capacity,
            final(self).socket.open == old(self).socket.open,
            final(self).socket.local == old(self).socket.local,
            old(self).socket.queue@.len() > 0 ==> {
                &&& r == DatagramPoll::Packet(old(self).socket.queue@.first())
                &&& final(self).socket.queue@ == old(self).socket.queue@.drop_first()
                &&& final(self).socket.waker == old(self).socket.waker
            },
            old(self).socket.queue@.len() == 0 && !old(self).socket.open ==> {
                &&& r == DatagramPoll::Closed
                &&& *final(self) == *old(self)
            },
            old(self).socket.queue@.len() == 0 && old(self).socket.open ==> {
                &&& r == DatagramPoll::Pending
                &&& final(self).socket.waker
                &&& final(self).socket.queue@ == old(self).socket.queue@
            },
    {
        self.socket.poll_next()
    }
}

} // verus!