use trojan::address::Address;
use trojan::pipe::Pipe;
use trojan::status::ConnStatus;
use trojan::tcp_flow::TcpFlow;
use trojan::udp_backend::MAX_BUFFER_SIZE;

fn password_hash() -> Vec<u8> {
    vec![b'f'; 56]
}

fn open() -> TcpFlow {
    TcpFlow::open(4, 2, &password_hash(), &Address::v4([93, 184, 216, 34], 443), 1_000, 600_000)
}

fn request() -> Vec<u8> {
    let mut want = password_hash();
    want.extend_from_slice(&[0x0d, 0x0a, 0x01, 0x01, 93, 184, 216, 34, 0x01, 0xbb, 0x0d, 0x0a]);
    want
}

#[test]
fn pipe_hands_bytes_on_in_order() {
    let mut p = Pipe::new();
    assert!(p.is_empty());
    assert!(p.writable());
    p.push(b"abc");
    p.push(b"defg");
    assert_eq!(p.pending(), b"abcdefg");
    assert_eq!(p.len(), 7);
    assert_eq!(p.consume(2), 2);
    assert_eq!(p.pending(), b"cdefg");
    p.push(b"h");
    assert_eq!(p.consume(0), 0);
    assert_eq!(p.consume(100), 6);
    assert!(p.is_empty());
    assert_eq!(p.consume(1), 0);
}

#[test]
fn pipe_takes_no_more_at_its_limit() {
    let mut p = Pipe::new();
    p.push(&vec![0u8; MAX_BUFFER_SIZE - 1]);
    assert!(p.writable());
    p.push(&[0]);
    assert!(!p.writable());
    p.consume(1);
    assert!(p.writable());
}

#[test]
fn connect_request_is_written_before_any_payload() {
    let mut f = open();
    assert_eq!(f.handle(), 4);
    assert_eq!(f.conn(), 2);
    assert_eq!(f.status(), ConnStatus::Established);
    assert_eq!(f.relay_pending(), request().as_slice());
    assert_eq!(f.local_pending(), b"");
    assert!(f.from_local(b"GET / HTTP/1.1\r\n", 1_001));
    let mut want = request();
    want.extend_from_slice(b"GET / HTTP/1.1\r\n");
    assert_eq!(f.relay_pending(), want.as_slice());
}

#[test]
fn what_reaches_the_relay_is_what_the_peer_sent() {
    let mut f = open();
    let mut sent = Vec::new();
    let mut emitted = Vec::new();
    let chunks: [&[u8]; 4] = [b"one", b"", b"two two", b"3"];
    for (i, chunk) in chunks.iter().enumerate() {
        assert!(f.from_local(chunk, i as u64));
        sent.extend_from_slice(chunk);
        let n = f.relay_pending().len().min(5);
        emitted.extend_from_slice(&f.relay_pending()[..n]);
        assert_eq!(f.relay_took(n), n);
    }
    while !f.relay_pending().is_empty() {
        let n = f.relay_pending().len().min(7);
        emitted.extend_from_slice(&f.relay_pending()[..n]);
        f.relay_took(n);
    }
    let mut want = request();
    want.extend_from_slice(&sent);
    assert_eq!(emitted, want);
}

#[test]
fn what_reaches_the_peer_is_what_the_relay_sent() {
    let mut f = open();
    assert!(f.from_relay(b"HTTP/1.1 200 OK\r\n", 5));
    assert!(f.from_relay(b"\r\nbody", 6));
    assert_eq!(f.local_pending(), b"HTTP/1.1 200 OK\r\n\r\nbody");
    assert_eq!(f.local_took(4), 4);
    assert_eq!(f.local_pending(), b"/1.1 200 OK\r\n\r\nbody");
    assert_eq!(f.local_took(1_000), 19);
    assert_eq!(f.local_pending(), b"");
}

#[test]
fn a_full_pipe_holds_the_sender_back() {
    let mut f = open();
    let big = vec![7u8; MAX_BUFFER_SIZE];
    assert!(f.from_local(&big, 1));
    let before = f.relay_pending().len();
    assert!(!f.from_local(b"more", 2));
    assert_eq!(f.relay_pending().len(), before);
    f.relay_took(before);
    assert!(f.from_local(b"more", 3));
    assert_eq!(f.relay_pending(), b"more");

    assert!(f.from_relay(&big, 4));
    assert!(!f.from_relay(b"x", 5));
    f.local_took(1);
    assert!(f.from_relay(b"x", 6));
}

#[test]
fn half_close_is_passed_on_and_the_flow_ends_when_drained() {
    let mut f = open();
    f.from_local(b"bye", 1);
    f.local_fin();
    assert_eq!(f.status(), ConnStatus::Shutdown);
    assert!(!f.from_local(b"late", 2));
    // the relay may still answer
    assert!(f.from_relay(b"ok", 3));
    assert_eq!(f.settle(), ConnStatus::Shutdown);
    let n = f.relay_pending().len();
    f.relay_took(n);
    assert_eq!(f.settle(), ConnStatus::Shutdown);
    f.relay_closed();
    assert!(!f.from_relay(b"late", 4));
    assert_eq!(f.settle(), ConnStatus::Shutdown);
    f.local_took(2);
    assert_eq!(f.settle(), ConnStatus::Closing);
    assert!(f.check_close());
    assert_eq!(f.status(), ConnStatus::Closed);
    assert!(!f.check_close());
}

#[test]
fn an_error_closes_the_flow() {
    let mut f = open();
    f.fail();
    assert_eq!(f.status(), ConnStatus::Closing);
    assert!(!f.from_local(b"x", 1));
    assert!(!f.from_relay(b"x", 1));
    assert!(f.check_close());
    f.fail();
    assert_eq!(f.status(), ConnStatus::Closed);
}

#[test]
fn flow_times_out_after_more_than_its_limit() {
    let mut f = open();
    assert!(!f.timed_out(601_000));
    assert!(f.timed_out(601_001));
    f.from_local(b"x", 500_000);
    assert!(!f.timed_out(1_100_000));
    assert!(f.timed_out(1_100_001));
}
