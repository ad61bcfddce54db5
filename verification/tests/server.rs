use trojan::idle::Expires;
use trojan::server::{Accepted, Connection, TlsServer};
use trojan::status::Event;
use trojan::token::{PollEvent, MAX_INDEX, MIN_INDEX};

fn event(token: usize) -> PollEvent {
    PollEvent::Network(Event { token, readable: true, writable: false })
}

#[test]
fn first_connection_gets_the_smallest_index() {
    let mut s = TlsServer::new();
    assert_eq!(s.len(), 0);
    assert_eq!(s.accept(), Some(Accepted { index: 2, token: 6 }));
    assert_eq!(s.accept(), Some(Accepted { index: 3, token: 9 }));
    assert_eq!(s.next_index(), Some(4));
    assert_eq!(s.len(), 0);
}

#[test]
fn only_registered_connections_join_the_table() {
    let mut s = TlsServer::new();
    let a = s.accept().unwrap();
    assert!(s.register(a.index, true, 100, 5_000));
    assert!(s.contains(2));
    let b = s.accept().unwrap();
    assert!(!s.register(b.index, false, 100, 5_000));
    assert!(!s.contains(3));
    assert_eq!(s.len(), 1);
    // an index that is live or not valid is refused
    assert!(!s.register(2, true, 200, 5_000));
    assert!(!s.register(1, true, 200, 5_000));
    assert!(!s.register(0, true, 200, 5_000));
    assert!(!s.register(MAX_INDEX + 1, true, 200, 5_000));
    assert_eq!(s.len(), 1);
}

#[test]
fn counter_wraps_from_the_largest_index_to_the_smallest() {
    let mut s = TlsServer::with_counter(MAX_INDEX);
    assert_eq!(s.next_index(), Some(MAX_INDEX));
    assert_eq!(s.next_index(), Some(MIN_INDEX));
    assert_eq!(s.next_index(), Some(MIN_INDEX + 1));
}

#[test]
fn counter_that_is_no_index_starts_at_the_smallest() {
    assert_eq!(TlsServer::with_counter(0).next_index(), Some(MIN_INDEX));
    assert_eq!(TlsServer::with_counter(1).next_index(), Some(MIN_INDEX));
    assert_eq!(TlsServer::with_counter(MAX_INDEX + 1).next_index(), Some(MIN_INDEX));
    assert_eq!(TlsServer::with_counter(77).next_index(), Some(77));
}

#[test]
fn a_live_index_is_not_handed_out_again() {
    let mut s = TlsServer::with_counter(MAX_INDEX - 1);
    // connections live at MAX_INDEX, MIN_INDEX and MIN_INDEX + 1
    for index in [MAX_INDEX, MIN_INDEX, MIN_INDEX + 1] {
        assert!(s.register(index, true, 0, 1_000));
    }
    assert_eq!(s.next_index(), Some(MAX_INDEX - 1));
    // the search passes the live ones, wrapping on the way
    assert_eq!(s.next_index(), Some(MIN_INDEX + 2));
    assert_eq!(s.next_index(), Some(MIN_INDEX + 3));
    // once a connection is gone its index can be used again
    let mut again = TlsServer::with_counter(MAX_INDEX);
    assert!(again.register(MAX_INDEX, true, 0, 1_000));
    assert_eq!(again.next_index(), Some(MIN_INDEX));
    again.conn_done(MAX_INDEX, true);
    let mut fresh = TlsServer::with_counter(MAX_INDEX);
    assert_eq!(fresh.next_index(), Some(MAX_INDEX));
}

#[test]
fn events_find_their_connection_by_token() {
    let mut s = TlsServer::new();
    let a = s.accept().unwrap();
    s.register(a.index, true, 0, 1_000);
    assert_eq!(s.token2index(6), 2);
    assert_eq!(s.token2index(7), 2);
    assert_eq!(s.token2index(8), 2);
    assert_eq!(s.token2index(9), 3);
    assert_eq!(s.do_conn_event(&event(a.token)), Some(2));
    assert_eq!(s.do_conn_event(&event(7)), Some(2));
    assert_eq!(s.do_conn_event(&event(9)), None);
    assert_eq!(s.do_conn_event(&PollEvent::Dns(6, None)), Some(2));
}

#[test]
fn a_destroyed_connection_leaves_the_table() {
    let mut s = TlsServer::new();
    let a = s.accept().unwrap();
    s.register(a.index, true, 0, 1_000);
    s.conn_done(a.index, false);
    assert!(s.contains(a.index));
    s.conn_done(a.index, true);
    assert!(!s.contains(a.index));
    assert_eq!(s.do_conn_event(&event(a.token)), None);
    s.conn_done(a.index, true);
    assert_eq!(s.len(), 0);
}

#[test]
fn idle_connections_are_removed_by_the_check() {
    let mut s = TlsServer::new();
    for timeout in [1_000u64, 2_000, 3_000] {
        let a = s.accept().unwrap();
        assert!(s.register(a.index, true, 10_000, timeout));
    }
    // exactly at the limit nothing has expired
    assert_eq!(s.check_timeout(11_000), Vec::<usize>::new());
    assert_eq!(s.len(), 3);
    let mut closed = s.check_timeout(12_001);
    closed.sort();
    assert_eq!(closed, vec![2, 3]);
    assert_eq!(s.live(), vec![4]);
    assert!(s.contains(4));
    // the freed indices are handed out again once the counter comes round
    let mut round = TlsServer::with_counter(2);
    assert_eq!(round.next_index(), Some(2));
}

#[test]
fn activity_puts_the_check_off() {
    let mut s = TlsServer::new();
    let a = s.accept().unwrap();
    s.register(a.index, true, 0, 1_000);
    s.touch(a.index, 900);
    assert_eq!(s.check_timeout(1_500), Vec::<usize>::new());
    assert_eq!(s.check_timeout(1_901), vec![a.index]);
    s.touch(a.index, 2_000);
    assert_eq!(s.len(), 0);
}

#[test]
fn connection_expires_after_more_than_its_limit() {
    let c = Connection { index: 2, token: 6, last_active: 500, timeout: 100 };
    assert!(!c.timeout(600));
    assert!(c.timeout(601));
    assert!(!c.timeout(0));
}

#[test]
fn live_lists_every_connection_once() {
    let mut s = TlsServer::new();
    for _ in 0..5 {
        let a = s.accept().unwrap();
        s.register(a.index, true, 0, 1);
    }
    let mut live = s.live();
    live.sort();
    assert_eq!(live, vec![2, 3, 4, 5, 6]);
}
