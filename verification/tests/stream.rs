use netstack::endpoint::Endpoint;
use netstack::tcp_stream::{
    tcp_err_cb, tcp_poll_cb, tcp_recv_cb, tcp_sent_cb, on_output_result, ReadPoll, TcpStreamImpl,
    WritePlan, WriteStep,
};
use netstack::{broken_pipe, StreamError, ERR_MEM, ERR_OK};

fn fresh_stream() -> TcpStreamImpl {
    let a = Endpoint::v4(0x0a000001, 5000);
    let b = Endpoint::v4(0x0a000002, 80);
    TcpStreamImpl::new(0x1000, a, b)
}

fn read_bytes(s: &mut TcpStreamImpl, cap: usize) -> (Vec<u8>, usize) {
    match s.poll_read(cap) {
        ReadPoll::Data { bytes, acked } => (bytes, acked),
        other => panic!("expected data, got {:?}", discriminant_name(&other)),
    }
}

fn discriminant_name(r: &ReadPoll) -> &'static str {
    match r {
        ReadPoll::Pending => "Pending",
        ReadPoll::Eof => "Eof",
        ReadPoll::Failed(_) => "Failed",
        ReadPoll::Data { .. } => "Data",
    }
}

#[test]
fn addresses_are_kept() {
    let s = fresh_stream();
    assert_eq!(*s.local_addr(), Endpoint::v4(0x0a000001, 5000));
    assert_eq!(*s.remote_addr(), Endpoint::v4(0x0a000002, 80));
    assert_eq!(s.callback_ctx.local_addr, Endpoint::v4(0x0a000001, 5000));
    assert_eq!(s.callback_ctx.remote_addr, Endpoint::v4(0x0a000002, 80));
}

#[test]
fn fresh_stream_read_is_pending() {
    let mut s = fresh_stream();
    assert!(matches!(s.poll_read(16), ReadPoll::Pending));
}

#[test]
fn delivered_chunks_are_read_in_order() {
    let mut s = fresh_stream();
    assert_eq!(tcp_recv_cb(&mut s.callback_ctx, Some(b"he".to_vec())), ERR_OK);
    assert_eq!(tcp_recv_cb(&mut s.callback_ctx, Some(b"llo ".to_vec())), ERR_OK);
    assert_eq!(tcp_recv_cb(&mut s.callback_ctx, Some(b"world".to_vec())), ERR_OK);
    let mut seen = Vec::new();
    loop {
        match s.poll_read(64) {
            ReadPoll::Data { mut bytes, acked } => {
                assert_eq!(acked, bytes.len());
                seen.append(&mut bytes);
            }
            ReadPoll::Pending => break,
            other => panic!("unexpected {:?}", discriminant_name(&other)),
        }
    }
    assert_eq!(seen, b"hello world".to_vec());
}

#[test]
fn oversized_chunk_is_carried_in_residual() {
    let mut s = fresh_stream();
    tcp_recv_cb(&mut s.callback_ctx, Some(b"abcdef".to_vec()));
    // First read takes 4 bytes but acknowledges the whole 6-byte message:
    // the engine's receive window advances by what left the queue, not by
    // what the caller copied.
    let (bytes, acked) = read_bytes(&mut s, 4);
    assert_eq!(bytes, b"abcd".to_vec());
    assert_eq!(acked, 6);
    // The remainder comes from the residual buffer, already acknowledged.
    let (bytes, acked) = read_bytes(&mut s, 4);
    assert_eq!(bytes, b"ef".to_vec());
    assert_eq!(acked, 0);
    assert!(matches!(s.poll_read(4), ReadPoll::Pending));
}

#[test]
fn residual_drains_across_several_reads() {
    let mut s = fresh_stream();
    tcp_recv_cb(&mut s.callback_ctx, Some(b"0123456789".to_vec()));
    let (bytes, acked) = read_bytes(&mut s, 3);
    assert_eq!((bytes.as_slice(), acked), (&b"012"[..], 10));
    let (bytes, acked) = read_bytes(&mut s, 3);
    assert_eq!((bytes.as_slice(), acked), (&b"345"[..], 0));
    let (bytes, acked) = read_bytes(&mut s, 3);
    assert_eq!((bytes.as_slice(), acked), (&b"678"[..], 0));
    let (bytes, acked) = read_bytes(&mut s, 3);
    assert_eq!((bytes.as_slice(), acked), (&b"9"[..], 0));
    assert!(matches!(s.poll_read(3), ReadPoll::Pending));
}

#[test]
fn zero_capacity_read_carries_the_whole_message() {
    let mut s = fresh_stream();
    tcp_recv_cb(&mut s.callback_ctx, Some(b"xyz".to_vec()));
    // A full caller buffer still consumes the message from the queue (and
    // acknowledges it); the bytes wait in the residual buffer.
    let (bytes, acked) = read_bytes(&mut s, 0);
    assert_eq!(bytes, Vec::<u8>::new());
    assert_eq!(acked, 3);
    let (bytes, acked) = read_bytes(&mut s, 8);
    assert_eq!(bytes, b"xyz".to_vec());
    assert_eq!(acked, 0);
}

#[test]
fn residual_bytes_come_before_newer_messages() {
    let mut s = fresh_stream();
    tcp_recv_cb(&mut s.callback_ctx, Some(b"abcdef".to_vec()));
    let (bytes, _) = read_bytes(&mut s, 4);
    assert_eq!(bytes, b"abcd".to_vec());
    tcp_recv_cb(&mut s.callback_ctx, Some(b"gh".to_vec()));
    let (bytes, acked) = read_bytes(&mut s, 16);
    assert_eq!(bytes, b"ef".to_vec());
    assert_eq!(acked, 0);
    let (bytes, acked) = read_bytes(&mut s, 16);
    assert_eq!(bytes, b"gh".to_vec());
    assert_eq!(acked, 2);
}

#[test]
fn empty_data_message_is_not_queued() {
    let mut s = fresh_stream();
    assert_eq!(tcp_recv_cb(&mut s.callback_ctx, Some(Vec::new())), ERR_OK);
    assert!(matches!(s.poll_read(16), ReadPoll::Pending));
}

#[test]
fn eof_is_idempotent() {
    let mut s = fresh_stream();
    tcp_recv_cb(&mut s.callback_ctx, Some(b"bye".to_vec()));
    tcp_recv_cb(&mut s.callback_ctx, None);
    let (bytes, _) = read_bytes(&mut s, 16);
    assert_eq!(bytes, b"bye".to_vec());
    assert!(matches!(s.poll_read(16), ReadPoll::Eof));
    assert!(matches!(s.poll_read(16), ReadPoll::Eof));
    assert!(matches!(s.poll_read(16), ReadPoll::Eof));
}

#[test]
fn error_is_reported_once_buffered_data_is_drained() {
    let mut s = fresh_stream();
    tcp_recv_cb(&mut s.callback_ctx, Some(b"tail".to_vec()));
    let wake = tcp_err_cb(&mut s.callback_ctx, -13);
    assert!(!wake);
    assert!(s.callback_ctx.errored);
    // Buffered bytes are still handed out first.
    let (bytes, _) = read_bytes(&mut s, 16);
    assert_eq!(bytes, b"tail".to_vec());
    // Then the failure surfaces as broken pipe, repeatably.
    assert!(matches!(s.poll_read(16), ReadPoll::Failed(StreamError::BrokenPipe)));
    assert!(matches!(s.poll_read(16), ReadPoll::Failed(StreamError::BrokenPipe)));
}

#[test]
fn data_after_error_is_discarded() {
    let mut s = fresh_stream();
    tcp_err_cb(&mut s.callback_ctx, -13);
    assert_eq!(tcp_recv_cb(&mut s.callback_ctx, Some(b"late".to_vec())), ERR_OK);
    assert!(matches!(s.poll_read(16), ReadPoll::Failed(StreamError::BrokenPipe)));
}

#[test]
fn zero_budget_write_parks_and_resumes_without_losing_bytes() {
    let mut s = fresh_stream();
    // No budget: the write parks and stores the waker.
    assert!(matches!(s.poll_write_plan(5, 0), WritePlan::Park));
    assert!(s.callback_ctx.write_waker);
    // The engine acknowledges sent data: the parked writer must be woken.
    assert!(tcp_sent_cb(&s.callback_ctx, 5));
    assert!(tcp_poll_cb(&s.callback_ctx));
    // Budget restored: the retry submits exactly min(len, budget) bytes.
    match s.poll_write_plan(5, 3) {
        WritePlan::Submit(n) => assert_eq!(n, 3),
        _ => panic!("expected a submission"),
    }
    match s.poll_write_plan(5, 100) {
        WritePlan::Submit(n) => assert_eq!(n, 5),
        _ => panic!("expected a submission"),
    }
    // The engine accepts the copy; the output trigger is next, and succeeds.
    assert!(matches!(s.on_write_result(ERR_OK), WriteStep::Flush));
    assert_eq!(on_output_result(ERR_OK), Ok(()));
}

#[test]
fn write_with_empty_buffer_parks() {
    let mut s = fresh_stream();
    assert!(matches!(s.poll_write_plan(0, 1000), WritePlan::Park));
    assert!(s.callback_ctx.write_waker);
}

#[test]
fn engine_out_of_memory_parks_the_writer() {
    let mut s = fresh_stream();
    assert!(matches!(s.poll_write_plan(4, 100), WritePlan::Submit(4)));
    assert!(matches!(s.on_write_result(ERR_MEM), WriteStep::Park));
    assert!(s.callback_ctx.write_waker);
}

#[test]
fn engine_write_fault_carries_the_code() {
    let mut s = fresh_stream();
    match s.on_write_result(-4) {
        WriteStep::Fault(e) => assert_eq!(e, StreamError::Transport(-4)),
        _ => panic!("expected a fault"),
    }
    assert_eq!(on_output_result(-9), Err(StreamError::Transport(-9)));
}

#[test]
fn errored_stream_refuses_write_flush_and_shutdown() {
    let mut s = fresh_stream();
    tcp_err_cb(&mut s.callback_ctx, -13);
    assert!(matches!(
        s.poll_write_plan(4, 100),
        WritePlan::Refuse(StreamError::BrokenPipe)
    ));
    assert_eq!(s.poll_flush_plan(), Err(StreamError::BrokenPipe));
    assert_eq!(s.poll_shutdown_plan(), Err(StreamError::BrokenPipe));
    assert_eq!(broken_pipe(), StreamError::BrokenPipe);
}

#[test]
fn shutdown_success_records_the_graceful_close() {
    let mut s = fresh_stream();
    assert_eq!(s.poll_shutdown_plan(), Ok(()));
    assert_eq!(s.on_shutdown_result(ERR_OK), Ok(()));
    assert!(s.callback_ctx.closed);
}

#[test]
fn shutdown_fault_leaves_the_close_flag_untouched() {
    let mut s = fresh_stream();
    assert_eq!(s.on_shutdown_result(-8), Err(StreamError::Transport(-8)));
    assert!(!s.callback_ctx.closed);
}

#[test]
fn dropping_without_shutdown_aborts_the_connection() {
    let mut s = fresh_stream();
    let a = s.close();
    assert!(a.detach);
    assert!(a.abort);
}

#[test]
fn dropping_after_shutdown_does_not_abort() {
    let mut s = fresh_stream();
    assert_eq!(s.poll_shutdown_plan(), Ok(()));
    assert_eq!(s.on_shutdown_result(ERR_OK), Ok(()));
    let a = s.close();
    assert!(a.detach);
    assert!(!a.abort);
}

#[test]
fn close_is_idempotent() {
    let mut s = fresh_stream();
    let first = s.close();
    assert!(first.detach && first.abort);
    let second = s.close();
    assert!(!second.detach && !second.abort);
}

#[test]
fn close_after_engine_error_asks_for_no_engine_work() {
    let mut s = fresh_stream();
    tcp_err_cb(&mut s.callback_ctx, -13);
    let a = s.close();
    assert!(!a.detach);
    assert!(!a.abort);
}
