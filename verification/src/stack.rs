//! The net-stack facade's outbound path and ingress bookkeeping.
//!
//! Inbound raw packets and timer ticks are handed straight to the engine
//! under the engine lock; the only decisions the facade makes are modelled
//! here. Outbound, the engine's output hook fires while the engine is
//! active, so the packet must be queued and handed to the caller later,
//! never by re-entering the engine from inside the callback: `output_cb`
//! queues, `poll_next_packet` drains.

use vstd::prelude::*;

use crate::Error;
use crate::ERR_OK;

verus! {

/// The facade's bridge-side state: the queue of packets the engine emitted
/// that have not yet left the system.
pub struct NetStack {
    /// Emitted packets in emission order.
    pub egress: Vec<Vec<u8>>,
    /// A task is parked waiting for an outbound packet.
    pub waker: bool,
}

/// Outcome of one attempt to fetch an outbound packet.
pub enum PacketPoll {
    /// The oldest emitted packet that has not left yet.
    Packet(Vec<u8>),
    /// Nothing emitted yet; the task parked in the waker slot.
    Pending,
}

impl NetStack {
    /// A facade with an empty outbound queue. Created once, before the
    /// first packet is injected; the caller registers the engine's output
    /// hook against it under the engine lock.
    pub fn new() -> (s: NetStack)
        ensures
            s.egress@ == Seq::<Vec<u8>>::empty(),
            !s.waker,
    {
        NetStack { egress: Vec::new(), waker: false }
    }

    /// One attempt to fetch an outbound packet: the oldest emitted packet,
    /// or a suspension with the task parked in the waker slot. Packets
    /// leave in exactly the order the engine emitted them.
    pub fn poll_next_packet(&mut self) -> (r: PacketPoll)
        ensures
            old(self).egress@.len() > 0 ==> {
                &&& r == PacketPoll::Packet(old(self).egress@.first())
                &&& final(self).egress@ == old(self).egress@.drop_first()
                &&& final(self).waker == old(self).waker
            },
            old(self).egress@.len() == 0 ==> {
                &&& r == PacketPoll::Pending
                &&& final(self).waker
                &&& final(self).egress@ == old(self).egress@
            },
    {
        if self.egress.len() > 0 {
            let pkt = self.egress.remove(0);
            proof {
                assert(self.egress@ =~= old(self).egress@.drop_first());
            }
            return PacketPoll::Packet(pkt);
        }
        self.waker = true;
        PacketPoll::Pending
    }
}

/// Engine hook: the engine has a packet ready to leave the system. Runs
/// under the engine lock, while the engine is active, so the packet is only
/// queued — never delivered synchronously — and no packet is ever dropped
/// here. The caller must wake the parked fetcher exactly when the result is
/// true.
pub fn output_cb(stack: &mut NetStack, pkt: Vec<u8>) -> (wake: bool)
    ensures
        wake == old(stack).waker,
        final(stack).waker == old(stack).waker,
        final(stack).egress@ == old(stack).egress@.push(pkt),
{
    stack.egress.push(pkt);
    stack.waker
}

/// Outcome of injecting one raw inbound packet into the engine: success, or
/// the engine's refusal carrying its code.
pub fn inject_result(code: i8) -> (r: Result<(), Error>)
    ensures
        code == ERR_OK <==> r is Ok,
        code != ERR_OK ==> r == Result::<(), Error>::Err(Error::LwIP(code)),
{
    if code == ERR_OK {
        Result::Ok(())
    } else {
        Result::Err(Error::LwIP(code))
    }
}

} // verus!