use netstack::stack::{inject_result, output_cb, NetStack, PacketPoll};
use netstack::{Error, ERR_OK};

#[test]
fn emitted_packets_leave_in_emission_order() {
    let mut stack = NetStack::new();
    assert!(!output_cb(&mut stack, b"pkt1".to_vec()));
    assert!(!output_cb(&mut stack, b"pkt2".to_vec()));
    match stack.poll_next_packet() {
        PacketPoll::Packet(p) => assert_eq!(p, b"pkt1".to_vec()),
        PacketPoll::Pending => panic!("expected a packet"),
    }
    match stack.poll_next_packet() {
        PacketPoll::Packet(p) => assert_eq!(p, b"pkt2".to_vec()),
        PacketPoll::Pending => panic!("expected a packet"),
    }
    assert!(matches!(stack.poll_next_packet(), PacketPoll::Pending));
}

#[test]
fn emission_wakes_a_parked_fetcher() {
    let mut stack = NetStack::new();
    assert!(matches!(stack.poll_next_packet(), PacketPoll::Pending));
    assert!(stack.waker);
    assert!(output_cb(&mut stack, b"pkt".to_vec()));
}

#[test]
fn injection_outcome_maps_engine_codes() {
    assert_eq!(inject_result(ERR_OK), Ok(()));
    assert_eq!(inject_result(-6), Err(Error::LwIP(-6)));
}
