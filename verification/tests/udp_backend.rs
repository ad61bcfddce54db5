use bytes::BytesMut;
use trojan::address::{Address, Host};
use trojan::codec::{frame_datagram, parse_udp, UdpParseResult};
use trojan::status::{ConnStatus, Event, Interest, PollAction};
use trojan::udp_backend::{
    Backend, ReadyPlan, SendOutcome, SendStep, UdpBackend, MAX_BUFFER_SIZE,
};

fn backend() -> UdpBackend {
    UdpBackend::new(7, 22, 60_000, Address::v4([0, 0, 0, 0], 4000))
}

fn frame(addr: &Address, payload: &[u8]) -> Vec<u8> {
    let mut buf = BytesMut::new();
    frame_datagram(&mut buf, addr, payload);
    buf.to_vec()
}

#[test]
fn new_backend_is_established_and_reads() {
    let b = backend();
    assert_eq!(b.index(), 7);
    assert_eq!(b.token(), 22);
    assert_eq!(b.status(), ConnStatus::Established);
    assert_eq!(b.interest(), Interest::Readable);
    assert_eq!(b.get_timeout(), 60_000);
    assert_eq!(b.bytes_read(), 0);
    assert_eq!(b.bytes_sent(), 0);
    assert_eq!(b.remote_addr(), &Address::v4([0, 0, 0, 0], 4000));
    assert_eq!(b.pending_bytes(), b"");
    assert_eq!(b.frame(), b"");
    assert!(b.writable());
}

#[test]
fn frames_are_sent_one_datagram_at_a_time() {
    let mut b = backend();
    let a1 = Address::v4([8, 8, 8, 8], 53);
    let a2 = Address::v4([1, 1, 1, 1], 53);
    let mut bytes = frame(&a1, b"first");
    bytes.extend_from_slice(&frame(&a2, b"second!"));
    b.dispatch(&bytes);
    assert_eq!(b.pending_bytes(), bytes.as_slice());

    match b.do_send() {
        SendStep::Transmit { address, from, to } => {
            assert_eq!(address, a1);
            assert_eq!((from, to), (11, 16));
            assert_eq!(&b.pending_bytes()[from..to], b"first");
        }
        other => panic!("unexpected {:?}", other),
    }
    assert!(b.sent(SendOutcome::Sent(5)));
    assert_eq!(b.bytes_sent(), 5);
    assert_eq!(b.pending_bytes(), frame(&a2, b"second!").as_slice());

    match b.do_send() {
        SendStep::Transmit { address, from, to } => {
            assert_eq!(address, a2);
            assert_eq!(&b.pending_bytes()[from..to], b"second!");
        }
        other => panic!("unexpected {:?}", other),
    }
    assert!(b.sent(SendOutcome::Sent(7)));
    assert_eq!(b.bytes_sent(), 12);
    assert_eq!(b.pending_bytes(), b"");
    assert_eq!(b.do_send(), SendStep::Stop);
    assert_eq!(b.status(), ConnStatus::Established);
}

#[test]
fn a_frame_cut_short_waits_for_the_rest() {
    let mut b = backend();
    let a = Address::v4([8, 8, 8, 8], 53);
    let bytes = frame(&a, b"payload");
    b.dispatch(&bytes[..13]);
    assert_eq!(b.do_send(), SendStep::Stop);
    assert_eq!(b.status(), ConnStatus::Established);
    assert_eq!(b.pending_bytes(), &bytes[..13]);
    b.dispatch(&bytes[13..]);
    match b.do_send() {
        SendStep::Transmit { address, from, to } => {
            assert_eq!(address, a);
            assert_eq!(&b.pending_bytes()[from..to], b"payload");
        }
        other => panic!("unexpected {:?}", other),
    }
}

#[test]
fn a_blocked_socket_keeps_everything_pending() {
    let mut b = backend();
    let bytes = frame(&Address::v4([8, 8, 8, 8], 53), b"abc");
    b.dispatch(&bytes);
    assert!(matches!(b.do_send(), SendStep::Transmit { .. }));
    assert!(!b.sent(SendOutcome::WouldBlock));
    assert_eq!(b.pending_bytes(), bytes.as_slice());
    assert_eq!(b.status(), ConnStatus::Established);
    assert_eq!(b.bytes_sent(), 0);
    assert_eq!(b.reregister(true), PollAction::Reregister(Interest::Both));
    assert_eq!(b.interest(), Interest::Both);
}

#[test]
fn a_malformed_frame_closes_the_backend() {
    let mut b = backend();
    b.dispatch(&[0x09, 1, 2, 3]);
    assert_eq!(b.do_send(), SendStep::Stop);
    assert_eq!(b.status(), ConnStatus::Closing);
    assert_eq!(b.pending_bytes(), b"");
    assert_eq!(b.reregister(true), PollAction::Deregister);
    assert!(b.check_close());
    assert_eq!(b.status(), ConnStatus::Closed);
    assert!(!b.check_close());
    assert_eq!(b.reregister(true), PollAction::Keep);
}

#[test]
fn a_malformed_frame_closes_only_its_own_flow() {
    let mut one = backend();
    let mut other = UdpBackend::new(8, 25, 60_000, Address::v4([0, 0, 0, 0], 4001));
    let good = frame(&Address::v4([8, 8, 8, 8], 53), b"ok");
    one.dispatch(&[0x01, 8, 8, 8, 8, 0, 53, 0, 2, 0xff, 0xff, 1, 2]);
    other.dispatch(&good);
    assert_eq!(one.do_send(), SendStep::Stop);
    assert_eq!(one.status(), ConnStatus::Closing);
    assert!(matches!(other.do_send(), SendStep::Transmit { .. }));
    assert!(other.sent(SendOutcome::Sent(2)));
    assert_eq!(other.status(), ConnStatus::Established);
    assert_eq!(other.bytes_sent(), 2);
}

#[test]
fn a_truncated_datagram_closes_the_backend() {
    let mut b = backend();
    b.dispatch(&frame(&Address::v4([8, 8, 8, 8], 53), b"abcdef"));
    assert!(matches!(b.do_send(), SendStep::Transmit { .. }));
    assert!(!b.sent(SendOutcome::Sent(4)));
    assert_eq!(b.status(), ConnStatus::Closing);
    assert_eq!(b.bytes_sent(), 4);
    assert_eq!(b.pending_bytes(), b"");
}

#[test]
fn a_failed_send_closes_the_backend() {
    let mut b = backend();
    b.dispatch(&frame(&Address::v4([8, 8, 8, 8], 53), b"abcdef"));
    assert!(matches!(b.do_send(), SendStep::Transmit { .. }));
    assert!(!b.sent(SendOutcome::Failed));
    assert_eq!(b.status(), ConnStatus::Closing);
    assert_eq!(b.bytes_sent(), 0);
    assert_eq!(b.pending_bytes(), b"");
}

#[test]
fn a_datagram_read_is_framed_for_the_tunnel() {
    let mut b = backend();
    let peer = Address::v4([8, 8, 8, 8], 53);
    let query: Vec<u8> = (100..128u8).collect();
    b.do_read(&peer, &query);
    let mut want = vec![0x01, 8, 8, 8, 8, 0x00, 0x35, 0x00, 0x1c, 0x0d, 0x0a];
    want.extend_from_slice(&query);
    assert_eq!(b.frame(), want.as_slice());
    assert_eq!(b.bytes_read(), 28);
    assert_eq!(b.remote_addr(), &peer);
    match parse_udp(b.frame()) {
        UdpParseResult::Packet(p) => {
            assert_eq!(p.address, peer);
            assert_eq!(p.length, 28);
            assert_eq!(p.payload.len(), 28);
        }
        other => panic!("unexpected {:?}", other),
    }
    b.do_read(&peer, b"xy");
    assert_eq!(b.frame(), &[0x01, 8, 8, 8, 8, 0x00, 0x35, 0x00, 0x02, 0x0d, 0x0a, b'x', b'y']);
    assert_eq!(b.bytes_read(), 30);
}

#[test]
fn two_peers_share_one_tunnel_and_answers_find_their_peer() {
    let mut b = backend();
    let peer_a = Address::v4([10, 9, 8, 7], 1111);
    let peer_b = Address::v4([10, 9, 8, 6], 2222);
    let mut tunnel = Vec::new();
    b.do_read(&peer_a, b"from a");
    tunnel.extend_from_slice(b.frame());
    b.do_read(&peer_b, b"from b");
    tunnel.extend_from_slice(b.frame());
    assert_eq!(b.bytes_read(), 12);

    // the other end reads two frames and answers each peer by its address
    let mut end = UdpBackend::new(9, 28, 60_000, Address::v4([0, 0, 0, 0], 1));
    end.dispatch(&tunnel);
    let mut seen = Vec::new();
    loop {
        match end.do_send() {
            SendStep::Transmit { address, from, to } => {
                seen.push((address, end.pending_bytes()[from..to].to_vec()));
                assert!(end.sent(SendOutcome::Sent(to - from)));
            }
            SendStep::Stop => break,
        }
    }
    assert_eq!(seen, vec![(peer_a, b"from a".to_vec()), (peer_b, b"from b".to_vec())]);
}

#[test]
fn reregister_follows_pending_bytes_and_back_pressure() {
    // nothing pending, reading allowed: stays readable, nothing to do
    let mut b = backend();
    assert_eq!(b.reregister(true), PollAction::Keep);
    assert_eq!(b.interest(), Interest::Readable);
    // reading held back with nothing pending: only writing is left
    assert_eq!(b.reregister(false), PollAction::Reregister(Interest::Writable));
    assert_eq!(b.interest(), Interest::Writable);
    // the same again registers again although the interest is the same
    assert_eq!(b.reregister(false), PollAction::Reregister(Interest::Writable));
    // reading allowed again
    assert_eq!(b.reregister(true), PollAction::Reregister(Interest::Readable));
    // bytes pending: writing is added
    b.dispatch(&[0x01]);
    assert_eq!(b.reregister(true), PollAction::Reregister(Interest::Both));
    assert_eq!(b.reregister(true), PollAction::Keep);
    assert_eq!(b.reregister(false), PollAction::Reregister(Interest::Writable));
    assert_eq!(b.reregister(false), PollAction::Keep);
}

#[test]
fn shutdown_with_nothing_pending_closes_at_once() {
    let mut b = backend();
    assert_eq!(b.shutdown(), PollAction::Deregister);
    assert_eq!(b.status(), ConnStatus::Closed);
}

#[test]
fn shutdown_with_pending_bytes_waits_for_them() {
    let mut b = backend();
    let bytes = frame(&Address::v4([8, 8, 8, 8], 53), b"abc");
    b.dispatch(&bytes);
    assert_eq!(b.shutdown(), PollAction::Reregister(Interest::Writable));
    assert_eq!(b.status(), ConnStatus::Shutdown);
    assert_eq!(b.interest(), Interest::Writable);
    b.setup(true);
    assert!(!b.check_close());
    assert!(matches!(b.do_send(), SendStep::Transmit { .. }));
    assert!(b.sent(SendOutcome::Sent(3)));
    assert_eq!(b.status(), ConnStatus::Shutdown);
    assert_eq!(b.do_send(), SendStep::Stop);
    assert_eq!(b.status(), ConnStatus::Closing);
    assert!(b.check_close());
    assert_eq!(b.status(), ConnStatus::Closed);
}

#[test]
fn a_refused_registration_closes_the_backend() {
    let mut b = backend();
    b.setup(true);
    assert_eq!(b.status(), ConnStatus::Established);
    b.setup(false);
    assert_eq!(b.status(), ConnStatus::Closing);
}

#[test]
fn fail_closes_the_backend() {
    let mut b = backend();
    b.fail();
    assert_eq!(b.status(), ConnStatus::Closing);
}

#[test]
fn ready_reads_when_readable_and_flushes_when_writable() {
    let b = backend();
    let plan = b.ready(&Event { token: 22, readable: true, writable: false });
    assert_eq!(plan, ReadyPlan { read: true, flush: false });
    let plan = b.ready(&Event { token: 22, readable: false, writable: true });
    assert_eq!(plan, ReadyPlan { read: false, flush: true });
}

#[test]
fn backend_times_out_after_more_than_its_limit() {
    let b = backend();
    assert!(!b.timeout(1_000, 61_000));
    assert!(b.timeout(1_000, 61_001));
    assert!(!b.timeout(5_000, 1_000));
}

#[test]
fn writable_until_the_buffer_limit() {
    let mut b = backend();
    let chunk = vec![0x01u8; MAX_BUFFER_SIZE - 1];
    b.dispatch(&chunk);
    assert!(b.writable());
    b.dispatch(&[0x01]);
    assert!(!b.writable());
    assert_eq!(b.pending_bytes().len(), MAX_BUFFER_SIZE);
}

#[test]
fn domain_targets_are_handed_out_as_they_are() {
    let mut b = backend();
    let target = Address { host: Host::Domain(b"example.org".to_vec()), port: 123 };
    b.dispatch(&frame(&target, b"ntp"));
    match b.do_send() {
        SendStep::Transmit { address, from, to } => {
            assert_eq!(address, target);
            assert_eq!(&b.pending_bytes()[from..to], b"ntp");
        }
        other => panic!("unexpected {:?}", other),
    }
}

#[test]
fn an_outcome_without_a_frame_changes_nothing() {
    let mut b = backend();
    b.dispatch(&[0x01, 8, 8]);
    assert!(!b.sent(SendOutcome::Sent(3)));
    assert!(!b.sent(SendOutcome::Failed));
    assert_eq!(b.bytes_sent(), 0);
    assert_eq!(b.status(), ConnStatus::Established);
    assert_eq!(b.pending_bytes(), &[0x01, 8, 8]);
}
