//! The asynchronous stream socket and its per-connection record.
//!
//! A `TcpStreamImpl` owns the bridge-side state of one connection: the opaque
//! engine handle, the per-connection record the engine's callbacks touch
//! (`TcpStreamContext`), and a small residual buffer for inbound bytes that
//! did not fit the reader's capacity.
//!
//! The engine is reached only through plain values. Engine callbacks arrive
//! as calls of `tcp_recv_cb`, `tcp_sent_cb`, `tcp_err_cb` and `tcp_poll_cb`
//! with the record borrowed exclusively (the caller holds the engine lock,
//! which these exclusive borrows stand for). Engine primitives the socket
//! must invoke are handed back as plan/action values together with the
//! numeric code the engine answered with.

use vstd::prelude::*;

use crate::bytes_buf::bm_extend_from_slice;
use crate::bytes_buf::bm_len;
use crate::bytes_buf::bm_new;
use crate::bytes_buf::bm_split_to;
use crate::bytes_buf::bm_to_vec;
use crate::bytes_buf::bytes_mut_view;
use crate::endpoint::Endpoint;
use crate::util::vec_skip;
use crate::util::vec_take;
use crate::StreamError;
use crate::ERR_MEM;
use crate::ERR_OK;

verus! {

/// The bytes of a sequence of inbound messages, in delivery order.
pub open spec fn chunks_bytes(chs: Seq<Seq<u8>>) -> Seq<u8>
    decreases chs.len(),
{
    if chs.len() == 0 {
        Seq::empty()
    } else {
        chs.first() + chunks_bytes(chs.drop_first())
    }
}

/// Appending one message appends its bytes.
pub proof fn lemma_chunks_bytes_push(chs: Seq<Seq<u8>>, c: Seq<u8>)
    ensures
        chunks_bytes(chs.push(c)) == chunks_bytes(chs) + c,
    decreases chs.len(),
{
    if chs.len() == 0 {
        assert(chs.push(c).first() == c);
        assert(chs.push(c).drop_first() =~= chs);
        assert(chunks_bytes(chs.push(c)) =~= chunks_bytes(chs) + c);
    } else {
        assert(chs.push(c).first() == chs.first());
        assert(chs.push(c).drop_first() =~= chs.drop_first().push(c));
        lemma_chunks_bytes_push(chs.drop_first(), c);
        assert(chunks_bytes(chs.push(c)) =~= chunks_bytes(chs) + c);
    }
}

/// Per-connection record linked to a connection handle through the engine's
/// user-data slot. Every field is read and written only under the engine
/// lock; here each operation takes the record by exclusive borrow, which
/// enforces the same serialization.
pub struct TcpStreamContext {
    /// Address the application sees as local for this connection.
    pub local_addr: Endpoint,
    /// Address of the other end of the connection.
    pub remote_addr: Endpoint,
    /// Inbound messages in delivery order; an empty message is the
    /// end-of-stream marker.
    pub inbound: Vec<Vec<u8>>,
    /// The end-of-stream marker has been handed to the reader.
    pub eof_delivered: bool,
    /// A task is parked waiting for write budget.
    pub write_waker: bool,
    /// The engine reported a fatal condition for this connection.
    pub errored: bool,
    /// A graceful transmit-side shutdown was completed.
    pub closed: bool,
}

/// The inbound messages of a record as mathematical sequences.
pub open spec fn inbound_chunks(ctx: TcpStreamContext) -> Seq<Seq<u8>> {
    ctx.inbound@.map_values(|v: Vec<u8>| v@)
}

/// All bytes buffered in a record's inbound queue, in delivery order.
pub open spec fn buffered_bytes(ctx: TcpStreamContext) -> Seq<u8> {
    chunks_bytes(inbound_chunks(ctx))
}

impl TcpStreamContext {
    /// A fresh record for a connection between the two endpoints.
    pub fn new(local_addr: Endpoint, remote_addr: Endpoint) -> (ctx: TcpStreamContext)
        ensures
            ctx.local_addr == local_addr,
            ctx.remote_addr == remote_addr,
            ctx.inbound@ == Seq::<Vec<u8>>::empty(),
            !ctx.eof_delivered,
            !ctx.write_waker,
            !ctx.errored,
            !ctx.closed,
    {
        TcpStreamContext {
            local_addr,
            remote_addr,
            inbound: Vec::new(),
            eof_delivered: false,
            write_waker: false,
            errored: false,
            closed: false,
        }
    }
}

/// True when the two records agree on everything but the inbound queue and
/// the end-of-stream flag: the frame of the receive path.
pub open spec fn recv_frame(pre: TcpStreamContext, post: TcpStreamContext) -> bool {
    &&& post.local_addr == pre.local_addr
    &&& post.remote_addr == pre.remote_addr
    &&& post.write_waker == pre.write_waker
    &&& post.errored == pre.errored
    &&& post.closed == pre.closed
}

/// Engine hook: data, or the end-of-stream marker (`None`), arrived for the
/// connection. Runs under the engine lock. Pushes the message onto the
/// inbound queue unless the session already failed (then the queue's far end
/// is gone and the message is discarded). Empty data messages carry nothing
/// and are not queued; the marker is queued as an empty message.
///
/// When the engine still holds no record for the connection (the handle was
/// already detached), the shell around the engine answers "not connected" on
/// its own and never reaches this function.
pub fn tcp_recv_cb(ctx: &mut TcpStreamContext, data: Option<Vec<u8>>) -> (code: i8)
    ensures
        code == ERR_OK,
        recv_frame(*old(ctx), *final(ctx)),
        final(ctx).eof_delivered == old(ctx).eof_delivered,
        old(ctx).errored ==> *final(ctx) == *old(ctx),
        !old(ctx).errored ==> match data {
            Option::Some(d) => if d@.len() > 0 {
                final(ctx).inbound@ == old(ctx).inbound@.push(d)
            } else {
                final(ctx).inbound@ == old(ctx).inbound@
            },
            Option::None => inbound_chunks(*final(ctx)) == inbound_chunks(*old(ctx)).push(
                Seq::empty(),
            ),
        },
        buffered_bytes(*final(ctx)) == buffered_bytes(*old(ctx)) + match data {
            Option::Some(d) => if old(ctx).errored {
                Seq::<u8>::empty()
            } else {
                d@
            },
            Option::None => Seq::<u8>::empty(),
        },
{
    if ctx.errored {
        proof {
            assert(buffered_bytes(*ctx) =~= buffered_bytes(*old(ctx)) + Seq::<u8>::empty());
        }
        return ERR_OK;
    }
    match data {
        Option::None => {
            let marker: Vec<u8> = Vec::new();
            ctx.inbound.push(marker);
            proof {
                assert(inbound_chunks(*ctx) =~= inbound_chunks(*old(ctx)).push(Seq::empty()));
                lemma_chunks_bytes_push(inbound_chunks(*old(ctx)), Seq::empty());
                assert(buffered_bytes(*ctx) =~= buffered_bytes(*old(ctx)) + Seq::<u8>::empty());
            }
        },
        Option::Some(d) => {
            if d.len() > 0 {
                let ghost dv = d@;
                ctx.inbound.push(d);
                proof {
                    assert(inbound_chunks(*ctx) =~= inbound_chunks(*old(ctx)).push(dv));
                    lemma_chunks_bytes_push(inbound_chunks(*old(ctx)), dv);
                }
            } else {
                proof {
                    assert(buffered_bytes(*ctx) =~= buffered_bytes(*old(ctx)) + d@);
                }
            }
        },
    }
    ERR_OK
}

/// Engine hook: the peer acknowledged sent data, so send-buffer space became
/// available. Runs under the engine lock. The caller must wake the parked
/// writer exactly when the result is true.
pub fn tcp_sent_cb(ctx: &TcpStreamContext, _len: u16) -> (wake: bool)
    ensures
        wake == ctx.write_waker,
{
    ctx.write_waker
}

/// Engine hook: periodic keep-alive tick. Runs under the engine lock. Gives
/// a parked writer a chance to retry even without an explicit sent or error
/// event; the caller must wake it exactly when the result is true.
pub fn tcp_poll_cb(ctx: &TcpStreamContext) -> (wake: bool)
    ensures
        wake == ctx.write_waker,
{
    ctx.write_waker
}

/// Engine hook: the engine reported a fatal condition (the carried code is
/// diagnostic only). Runs under the engine lock. Marks the session failed;
/// already-buffered data stays readable, and the caller must wake the parked
/// writer exactly when the result is true.
pub fn tcp_err_cb(ctx: &mut TcpStreamContext, _code: i8) -> (wake: bool)
    ensures
        final(ctx).errored,
        wake == old(ctx).write_waker,
        final(ctx).local_addr == old(ctx).local_addr,
        final(ctx).remote_addr == old(ctx).remote_addr,
        final(ctx).inbound@ == old(ctx).inbound@,
        final(ctx).eof_delivered == old(ctx).eof_delivered,
        final(ctx).write_waker == old(ctx).write_waker,
        final(ctx).closed == old(ctx).closed,
{
    ctx.errored = true;
    ctx.write_waker
}

/// Outcome of one read attempt.
pub enum ReadPoll {
    /// No data is available yet; the task should park on the inbound queue.
    Pending,
    /// The peer finished sending: zero bytes, now and on every later read.
    Eof,
    /// The session is torn down and all buffered data was already drained.
    Failed(StreamError),
    /// Bytes for the caller. `acked` is how many bytes were consumed from
    /// the inbound queue by this call: the caller must advance the engine's
    /// receive window by exactly that amount (flow control), which may be
    /// more than `bytes` when a remainder moved to the residual buffer.
    Data { bytes: Vec<u8>, acked: usize },
}

/// The asynchronous stream socket: engine handle, per-connection record, and
/// the residual buffer for inbound bytes that did not fit the reader.
pub struct TcpStreamImpl {
    /// Address the application sees as local for this connection.
    pub src_addr: Endpoint,
    /// Address of the other end of the connection.
    pub dest_addr: Endpoint,
    /// Opaque engine handle of the connection, valid only under the engine
    /// lock; the bridge never dereferences it.
    pub pcb: usize,
    /// Inbound bytes carried over from a message larger than the reader's
    /// capacity.
    pub residual: bytes::BytesMut,
    /// The record the engine's callbacks touch.
    pub callback_ctx: TcpStreamContext,
    /// The callbacks were detached (teardown ran).
    pub detached: bool,
}

impl TcpStreamImpl {
    /// All inbound bytes the reader has not seen yet, in order.
    pub open spec fn available(self) -> Seq<u8> {
        bytes_mut_view(self.residual) + buffered_bytes(self.callback_ctx)
    }

    /// A fresh socket for the connection behind `pcb`. The caller registers
    /// the four engine hooks against the new record under the engine lock
    /// before any packet for the connection is processed.
    pub fn new(pcb: usize, src_addr: Endpoint, dest_addr: Endpoint) -> (s: TcpStreamImpl)
        ensures
            s.pcb == pcb,
            s.src_addr == src_addr,
            s.dest_addr == dest_addr,
            s.callback_ctx.local_addr == src_addr,
            s.callback_ctx.remote_addr == dest_addr,
            s.callback_ctx.inbound@ == Seq::<Vec<u8>>::empty(),
            s.available() == Seq::<u8>::empty(),
            !s.callback_ctx.eof_delivered,
            !s.callback_ctx.write_waker,
            !s.callback_ctx.errored,
            !s.callback_ctx.closed,
            !s.detached,
    {
        let s = TcpStreamImpl {
            src_addr,
            dest_addr,
            pcb,
            residual: bm_new(),
            callback_ctx: TcpStreamContext::new(src_addr, dest_addr),
            detached: false,
        };
        proof {
            assert(inbound_chunks(s.callback_ctx) =~= Seq::<Seq<u8>>::empty());
            assert(s.available() =~= Seq::<u8>::empty());
        }
        s
    }

    /// The address the application sees as local for this connection.
    pub fn local_addr(&self) -> (a: &Endpoint)
        ensures
            *a == self.src_addr,
    {
        &self.src_addr
    }

    /// The address of the other end of the connection.
    pub fn remote_addr(&self) -> (a: &Endpoint)
        ensures
            *a == self.dest_addr,
    {
        &self.dest_addr
    }
}

/// True when the two sockets agree on everything but the residual buffer,
/// the inbound queue and the end-of-stream flag: the frame of the read path.
pub open spec fn read_frame(pre: TcpStreamImpl, post: TcpStreamImpl) -> bool {
    &&& post.src_addr == pre.src_addr
    &&& post.dest_addr == pre.dest_addr
    &&& post.pcb == pre.pcb
    &&& post.detached == pre.detached
    &&& recv_frame(pre.callback_ctx, post.callback_ctx)
}

impl TcpStreamImpl {
    /// One read attempt with caller capacity `cap`, under the engine lock.
    ///
    /// Returns, in this order of precedence: the idempotent end-of-stream
    /// answer once the marker was delivered; residual bytes carried over
    /// from an earlier message (already acknowledged then); the next inbound
    /// message, copied up to `cap` with the remainder moved to the residual
    /// buffer and the whole message's length to acknowledge; a broken-pipe
    /// failure when the session failed and everything buffered was drained;
    /// or a suspension when nothing is there yet.
    ///
    /// Every returned byte sequence is an exact prefix of the bytes
    /// available before the call, and exactly those bytes leave the socket:
    /// no reordering, no loss, no duplication.
    pub fn poll_read(&mut self, cap: usize) -> (r: ReadPoll)
        ensures
            read_frame(*old(self), *final(self)),
            old(self).callback_ctx.eof_delivered ==> r == ReadPoll::Eof && *final(self) == *old(
                self,
            ),
            final(self).callback_ctx.eof_delivered == (old(self).callback_ctx.eof_delivered || (
            bytes_mut_view(old(self).residual).len() == 0 && inbound_chunks(
                old(self).callback_ctx,
            ).len() > 0 && inbound_chunks(old(self).callback_ctx).first().len() == 0)),
            (r matches ReadPoll::Data { .. }) <==> (!old(self).callback_ctx.eof_delivered && (
            bytes_mut_view(old(self).residual).len() > 0 || (inbound_chunks(
                old(self).callback_ctx,
            ).len() > 0 && inbound_chunks(old(self).callback_ctx).first().len() > 0))),
            r == ReadPoll::Eof <==> (old(self).callback_ctx.eof_delivered || (bytes_mut_view(
                old(self).residual,
            ).len() == 0 && inbound_chunks(old(self).callback_ctx).len() > 0 && inbound_chunks(
                old(self).callback_ctx,
            ).first().len() == 0)),
            (r matches ReadPoll::Data { bytes, acked } ==> {
                let n = bytes@.len() as int;
                &&& bytes@ == old(self).available().take(n)
                &&& final(self).available() == old(self).available().skip(n)
                &&& n == vstd::math::min(
                    cap as int,
                    if bytes_mut_view(old(self).residual).len() > 0 {
                        bytes_mut_view(old(self).residual).len() as int
                    } else {
                        inbound_chunks(old(self).callback_ctx).first().len() as int
                    },
                )
            }),
            (r matches ReadPoll::Data { bytes, acked } ==> acked == if bytes_mut_view(
                old(self).residual,
            ).len() > 0 {
                0
            } else {
                inbound_chunks(old(self).callback_ctx).first().len()
            }),
            r == ReadPoll::Eof ==> final(self).available() == old(self).available(),
            r == ReadPoll::Pending ==> *final(self) == *old(self) && old(self).available().len()
                == 0 && !old(self).callback_ctx.errored,
            r == ReadPoll::Failed(StreamError::BrokenPipe) ==> *final(self) == *old(self) && old(
                self,
            ).available().len() == 0 && old(self).callback_ctx.errored,
            (r matches ReadPoll::Failed(e) ==> e == StreamError::BrokenPipe),
    {
        if self.callback_ctx.eof_delivered {
            return ReadPoll::Eof;
        }
        let res_len = bm_len(&self.residual);
        if res_len > 0 {
            let n = if cap < res_len {
                cap
            } else {
                res_len
            };
            let piece = bm_split_to(&mut self.residual, n);
            let bytes = bm_to_vec(&piece);
            proof {
                let av = old(self).available();
                assert(bytes@ =~= av.take(n as int));
                assert(self.available() =~= av.skip(n as int));
            }
            return ReadPoll::Data { bytes, acked: 0 };
        }
        if self.callback_ctx.inbound.len() > 0 {
            let chunk = self.callback_ctx.inbound.remove(0);
            proof {
                assert(old(self).callback_ctx.inbound@.remove(0) =~= old(
                    self,
                ).callback_ctx.inbound@.drop_first());
                assert(inbound_chunks(self.callback_ctx) =~= inbound_chunks(
                    old(self).callback_ctx,
                ).drop_first());
            }
            if chunk.len() == 0 {
                self.callback_ctx.eof_delivered = true;
                proof {
                    assert(old(self).available() =~= Seq::<u8>::empty() + buffered_bytes(
                        old(self).callback_ctx,
                    ));
                    assert(self.available() =~= old(self).available());
                }
                return ReadPoll::Eof;
            }
            let acked = chunk.len();
            let n = if cap < acked {
                cap
            } else {
                acked
            };
            let bytes = vec_take(&chunk, n);
            if n < acked {
                let rest = vec_skip(&chunk, n);
                bm_extend_from_slice(&mut self.residual, rest.as_slice());
            }
            proof {
                let av = old(self).available();
                let first = inbound_chunks(old(self).callback_ctx).first();
                let rest_bytes = chunks_bytes(inbound_chunks(self.callback_ctx));
                assert(av =~= first + rest_bytes);
                assert(bytes@ =~= av.take(n as int));
                assert(bytes_mut_view(self.residual) =~= first.skip(n as int));
                assert(self.available() =~= av.skip(n as int));
            }
            return ReadPoll::Data { bytes, acked };
        }
        proof {
            assert(inbound_chunks(self.callback_ctx) =~= Seq::<Seq<u8>>::empty());
            assert(self.available() =~= Seq::<u8>::empty());
        }
        if self.callback_ctx.errored {
            return ReadPoll::Failed(crate::broken_pipe());
        }
        ReadPoll::Pending
    }
}

/// First decision of a write attempt.
pub enum WritePlan {
    /// The session is torn down; fail with the carried error.
    Refuse(StreamError),
    /// No budget: the task parked and will be woken by a sent, error or
    /// keep-alive event.
    Park,
    /// Hand the first so-many bytes of the caller's buffer to the engine's
    /// buffered-copy write, then report the engine's answer back.
    Submit(usize),
}

/// What a write plan hands to the engine, out of the caller's buffer.
pub open spec fn submitted_bytes(p: WritePlan, buf: Seq<u8>) -> Seq<u8> {
    match p {
        WritePlan::Submit(n) => buf.take(n as int),
        _ => Seq::empty(),
    }
}

/// The write plan as a function of the failed flag, the buffer length and
/// the engine's current send-buffer budget.
pub open spec fn spec_write_plan(errored: bool, buf_len: int, send_buf: int) -> WritePlan {
    if errored {
        WritePlan::Refuse(StreamError::BrokenPipe)
    } else if vstd::math::min(buf_len, send_buf) == 0 {
        WritePlan::Park
    } else {
        WritePlan::Submit(vstd::math::min(buf_len, send_buf) as usize)
    }
}

/// Second decision of a write attempt, after the engine answered the
/// buffered-copy write.
pub enum WriteStep {
    /// The engine accepted the bytes: trigger its output path, then report
    /// that answer through `on_output_result`.
    Flush,
    /// The engine is out of buffer space: the task parked and the bytes were
    /// not consumed; retry the whole write when woken.
    Park,
    /// Terminal transport fault carrying the engine's code.
    Fault(StreamError),
}

/// True when the two sockets agree on everything but the write-waker slot
/// and the closed flag: the frame of the write path.
pub open spec fn write_frame(pre: TcpStreamImpl, post: TcpStreamImpl) -> bool {
    &&& post.src_addr == pre.src_addr
    &&& post.dest_addr == pre.dest_addr
    &&& post.pcb == pre.pcb
    &&& post.detached == pre.detached
    &&& post.residual == pre.residual
    &&& post.callback_ctx.local_addr == pre.callback_ctx.local_addr
    &&& post.callback_ctx.remote_addr == pre.callback_ctx.remote_addr
    &&& post.callback_ctx.inbound@ == pre.callback_ctx.inbound@
    &&& post.callback_ctx.eof_delivered == pre.callback_ctx.eof_delivered
    &&& post.callback_ctx.errored == pre.callback_ctx.errored
}

impl TcpStreamImpl {
    /// First half of a write attempt, under the engine lock. `buf_len` is
    /// the caller's buffer length and `send_buf` the engine's current
    /// send-buffer budget. A failed session is refused with broken pipe; a
    /// zero budget (or empty buffer) parks the task in the waker slot; and
    /// otherwise the first `min(buf_len, send_buf)` bytes are to be handed
    /// to the engine, whose answer then goes to `on_write_result`.
    pub fn poll_write_plan(&mut self, buf_len: usize, send_buf: usize) -> (p: WritePlan)
        ensures
            p == spec_write_plan(old(self).callback_ctx.errored, buf_len as int, send_buf as int),
            write_frame(*old(self), *final(self)),
            final(self).callback_ctx.closed == old(self).callback_ctx.closed,
            final(self).callback_ctx.write_waker == (old(self).callback_ctx.write_waker || p
                == WritePlan::Park),
    {
        if self.callback_ctx.errored {
            return WritePlan::Refuse(crate::broken_pipe());
        }
        let to_write = if buf_len < send_buf {
            buf_len
        } else {
            send_buf
        };
        if to_write == 0 {
            self.callback_ctx.write_waker = true;
            return WritePlan::Park;
        }
        WritePlan::Submit(to_write)
    }

    /// Second half of a write attempt, under the engine lock, with the code
    /// the engine's buffered-copy write answered. Success moves on to the
    /// output trigger; the out-of-memory code parks the task (the bytes were
    /// not consumed and the write will be retried whole); any other code is
    /// a terminal transport fault carrying that code.
    pub fn on_write_result(&mut self, code: i8) -> (s: WriteStep)
        ensures
            write_frame(*old(self), *final(self)),
            final(self).callback_ctx.closed == old(self).callback_ctx.closed,
            code == ERR_OK ==> s == WriteStep::Flush,
            code == ERR_MEM ==> s == WriteStep::Park,
            code != ERR_OK && code != ERR_MEM ==> s == WriteStep::Fault(
                StreamError::Transport(code),
            ),
            final(self).callback_ctx.write_waker == (old(self).callback_ctx.write_waker || code
                == ERR_MEM),
    {
        if code == ERR_OK {
            WriteStep::Flush
        } else if code == ERR_MEM {
            self.callback_ctx.write_waker = true;
            WriteStep::Park
        } else {
            WriteStep::Fault(StreamError::Transport(code))
        }
    }

    /// Gate of a flush, under the engine lock: a failed session is refused
    /// with broken pipe before the engine is touched; otherwise the caller
    /// triggers the engine's output path and maps its answer through
    /// `on_output_result`.
    pub fn poll_flush_plan(&self) -> (r: Result<(), StreamError>)
        ensures
            self.callback_ctx.errored <==> r is Err,
            self.callback_ctx.errored ==> r == Result::<(), StreamError>::Err(
                StreamError::BrokenPipe,
            ),
    {
        if self.callback_ctx.errored {
            Result::Err(crate::broken_pipe())
        } else {
            Result::Ok(())
        }
    }

    /// Gate of a transmit-side shutdown, under the engine lock: same refusal
    /// rule as a flush; on Ok the caller issues the engine's half-close and
    /// hands the answer to `on_shutdown_result`.
    pub fn poll_shutdown_plan(&self) -> (r: Result<(), StreamError>)
        ensures
            self.callback_ctx.errored <==> r is Err,
            self.callback_ctx.errored ==> r == Result::<(), StreamError>::Err(
                StreamError::BrokenPipe,
            ),
    {
        if self.callback_ctx.errored {
            Result::Err(crate::broken_pipe())
        } else {
            Result::Ok(())
        }
    }

    /// Outcome of the engine's transmit half-close: success records the
    /// graceful shutdown (so teardown will not abort the connection), any
    /// other code is a terminal transport fault and the flag is untouched.
    pub fn on_shutdown_result(&mut self, code: i8) -> (r: Result<(), StreamError>)
        ensures
            write_frame(*old(self), *final(self)),
            final(self).callback_ctx.write_waker == old(self).callback_ctx.write_waker,
            code == ERR_OK ==> r == Result::<(), StreamError>::Ok(())
                && final(self).callback_ctx.closed,
            code != ERR_OK ==> r == Result::<(), StreamError>::Err(StreamError::Transport(code))
                && final(self).callback_ctx.closed == old(self).callback_ctx.closed,
    {
        if code == ERR_OK {
            self.callback_ctx.closed = true;
            Result::Ok(())
        } else {
            Result::Err(StreamError::Transport(code))
        }
    }
}

/// Outcome of the engine's output trigger, shared by the write and flush
/// paths: success, or a terminal transport fault carrying the code.
pub fn on_output_result(code: i8) -> (r: Result<(), StreamError>)
    ensures
        code == ERR_OK <==> r is Ok,
        code != ERR_OK ==> r == Result::<(), StreamError>::Err(StreamError::Transport(code)),
{
    if code == ERR_OK {
        Result::Ok(())
    } else {
        Result::Err(StreamError::Transport(code))
    }
}

/// Engine work that teardown asks for.
pub struct CloseAction {
    /// Detach all four callbacks from the handle, so no future engine event
    /// can reach the record again.
    pub detach: bool,
    /// Forcibly abort the connection, because it was never cleanly shut
    /// down.
    pub abort: bool,
}

impl TcpStreamImpl {
    /// Teardown decision, under the engine lock; run when the socket is
    /// released. Idempotent: only the first call asks for engine work. On a
    /// failed session the engine has already discarded the connection, so
    /// neither action is asked for; otherwise the callbacks are detached,
    /// and the connection is aborted exactly when no graceful shutdown was
    /// completed.
    pub fn close(&mut self) -> (a: CloseAction)
        ensures
            final(self).detached,
            final(self).src_addr == old(self).src_addr,
            final(self).dest_addr == old(self).dest_addr,
            final(self).pcb == old(self).pcb,
            final(self).residual == old(self).residual,
            final(self).callback_ctx == old(self).callback_ctx,
            a.detach == (!old(self).detached && !old(self).callback_ctx.errored),
            a.abort == (!old(self).detached && !old(self).callback_ctx.errored && !old(
                self,
            ).callback_ctx.closed),
    {
        if self.detached {
            return CloseAction { detach: false, abort: false };
        }
        self.detached = true;
        if self.callback_ctx.errored {
            return CloseAction { detach: false, abort: false };
        }
        CloseAction { detach: true, abort: !self.callback_ctx.closed }
    }
}

/// One read at the model level: `b` is what the read returned, `pre` and
/// `post` the socket's available bytes around it. Every read of `poll_read`
/// takes this shape.
pub open spec fn read_step(pre: Seq<u8>, b: Seq<u8>, post: Seq<u8>) -> bool {
    &&& b.len() <= pre.len()
    &&& b == pre.take(b.len() as int)
    &&& post == pre.skip(b.len() as int)
}

/// Law: a chain of reads hands the reader an exact in-order prefix of the
/// bytes that were available — concatenating everything the reads returned
/// and what is still available gives back precisely the starting bytes, so
/// nothing is lost, duplicated or reordered. `avs` are the available bytes
/// before and after each read and `reads` what each read returned.
pub proof fn lemma_reads_deliver_in_order(avs: Seq<Seq<u8>>, reads: Seq<Seq<u8>>)
    requires
        avs.len() == reads.len() + 1,
        forall|i: int| 0 <= i < reads.len() ==> read_step(avs[i], #[trigger] reads[i], avs[i + 1]),
    ensures
        chunks_bytes(reads) + avs.last() == avs.first(),
    decreases reads.len(),
{
    if reads.len() == 0 {
        assert(chunks_bytes(reads) + avs.last() =~= avs.first());
    } else {
        let avs2 = avs.drop_first();
        let reads2 = reads.drop_first();
        assert forall|i: int| 0 <= i < reads2.len() implies read_step(
            avs2[i],
            #[trigger] reads2[i],
            avs2[i + 1],
        ) by {
            assert(read_step(avs[i + 1], reads[i + 1], avs[i + 2]));
        }
        lemma_reads_deliver_in_order(avs2, reads2);
        assert(read_step(avs[0], reads[0], avs[1]));
        assert(reads.first() + avs[1] =~= avs[0]);
        assert(chunks_bytes(reads) + avs.last() =~= avs.first());
    }
}

/// Law: messages the engine delivers accumulate as their exact in-order
/// concatenation. `avs` are the socket's available bytes before and after
/// each delivery and `msgs` the delivered messages; every `tcp_recv_cb`
/// call on an intact session takes this shape.
pub proof fn lemma_deliveries_accumulate(avs: Seq<Seq<u8>>, msgs: Seq<Seq<u8>>)
    requires
        avs.len() == msgs.len() + 1,
        forall|i: int| 0 <= i < msgs.len() ==> avs[i + 1] == avs[i] + #[trigger] msgs[i],
    ensures
        avs.last() == avs.first() + chunks_bytes(msgs),
    decreases msgs.len(),
{
    if msgs.len() == 0 {
        assert(avs.last() =~= avs.first() + chunks_bytes(msgs));
    } else {
        let avs2 = avs.drop_first();
        let msgs2 = msgs.drop_first();
        assert forall|i: int| 0 <= i < msgs2.len() implies avs2[i + 1] == avs2[i]
            + #[trigger] msgs2[i] by {
            assert(avs[i + 2] == avs[i + 1] + msgs[i + 1]);
        }
        lemma_deliveries_accumulate(avs2, msgs2);
        assert(avs.last() =~= avs.first() + chunks_bytes(msgs));
    }
}

/// Law: what a stream's reader observes is exactly what the engine
/// delivered, as one in-order concatenation. `dels` are the messages the
/// engine delivered to a socket that started empty, with `davs` the
/// available bytes around each delivery; `reads` are what a chain of reads
/// then returned, with `ravs` the available bytes around each read, ending
/// with the socket drained. Nothing is lost, duplicated or reordered.
pub proof fn lemma_stream_transfers_exact_bytes(
    dels: Seq<Seq<u8>>,
    davs: Seq<Seq<u8>>,
    reads: Seq<Seq<u8>>,
    ravs: Seq<Seq<u8>>,
)
    requires
        davs.len() == dels.len() + 1,
        davs.first() == Seq::<u8>::empty(),
        forall|i: int| 0 <= i < dels.len() ==> davs[i + 1] == davs[i] + #[trigger] dels[i],
        ravs.len() == reads.len() + 1,
        ravs.first() == davs.last(),
        forall|i: int| 0 <= i < reads.len() ==> read_step(ravs[i], #[trigger] reads[i], ravs[i + 1]),
        ravs.last() == Seq::<u8>::empty(),
    ensures
        chunks_bytes(reads) == chunks_bytes(dels),
{
    lemma_deliveries_accumulate(davs, dels);
    lemma_reads_deliver_in_order(ravs, reads);
    assert(chunks_bytes(reads) =~= chunks_bytes(dels));
}

/// Law: a write that finds a zero budget parks having consumed nothing, and
/// once a budget `budget > 0` is restored the retried plan submits exactly
/// the first `min(len(buf), budget)` bytes of the very same buffer — the
/// suspension drops no byte and duplicates none.
pub proof fn lemma_zero_budget_write_preserves_bytes(buf: Seq<u8>, budget: int)
    requires
        0 <= budget <= usize::MAX,
    ensures
        spec_write_plan(false, buf.len() as int, 0) == WritePlan::Park,
        submitted_bytes(spec_write_plan(false, buf.len() as int, 0), buf) + submitted_bytes(
            spec_write_plan(false, buf.len() as int, budget),
            buf,
        ) == submitted_bytes(spec_write_plan(false, buf.len() as int, budget), buf),
        budget > 0 && buf.len() > 0 ==> submitted_bytes(
            spec_write_plan(false, buf.len() as int, budget),
            buf,
        ) == buf.take(vstd::math::min(buf.len() as int, budget)),
{
    assert(submitted_bytes(spec_write_plan(false, buf.len() as int, 0), buf) + submitted_bytes(
        spec_write_plan(false, buf.len() as int, budget),
        buf,
    ) =~= submitted_bytes(spec_write_plan(false, buf.len() as int, budget), buf));
}

} // verus!
