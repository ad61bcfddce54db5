use trojan::flow::{FlowRecord, FlowTable, Opened};
use trojan::idle::Expires;

#[test]
fn a_new_flow_gets_its_record() {
    let mut t = FlowTable::new(30_000);
    assert_eq!(t.len(), 0);
    assert_eq!(t.open(5, Some(2), 1_000), Opened::New);
    assert_eq!(
        t.lookup(5),
        Some(FlowRecord { handle: 5, conn: 2, last_active: 1_000, timeout: 30_000 })
    );
    assert_eq!(t.lookup(6), None);
    assert_eq!(t.by_conn(2), Some(5));
    assert_eq!(t.by_conn(3), None);
}

#[test]
fn an_empty_pool_opens_no_flow_until_it_refills() {
    let mut t = FlowTable::new(30_000);
    assert_eq!(t.open(5, None, 1_000), Opened::Exhausted);
    assert_eq!(t.open(5, None, 1_200), Opened::Exhausted);
    assert_eq!(t.len(), 0);
    assert_eq!(t.lookup(5), None);
    // the peer sends its packet again once the pool has a connection
    assert_eq!(t.open(5, Some(9), 2_000), Opened::New);
    assert_eq!(t.lookup(5).unwrap().conn, 9);
}

#[test]
fn a_flow_has_one_socket_and_one_connection_of_its_own() {
    let mut t = FlowTable::new(30_000);
    assert_eq!(t.open(5, Some(2), 0), Opened::New);
    // the socket has its flow already, whatever connection is offered
    assert_eq!(t.open(5, Some(3), 10), Opened::Exists);
    assert_eq!(t.open(5, None, 10), Opened::Exists);
    assert_eq!(t.lookup(5).unwrap().conn, 2);
    // the connection carries a flow already
    assert_eq!(t.open(6, Some(2), 10), Opened::ConnBusy);
    assert_eq!(t.lookup(6), None);
    assert_eq!(t.open(6, Some(3), 10), Opened::New);
    assert_eq!(t.len(), 2);
    assert_eq!(t.by_conn(2), Some(5));
    assert_eq!(t.by_conn(3), Some(6));
}

#[test]
fn closing_a_flow_gives_its_connection_back() {
    let mut t = FlowTable::new(30_000);
    t.open(5, Some(2), 0);
    assert_eq!(t.close(5), Some(2));
    assert_eq!(t.close(5), None);
    assert_eq!(t.by_conn(2), None);
    assert_eq!(t.open(7, Some(2), 5), Opened::New);
}

#[test]
fn an_idle_flow_is_torn_down_at_the_next_check() {
    let mut t = FlowTable::new(30_000);
    t.open(5, Some(2), 0);
    t.open(6, Some(3), 0);
    t.touch(6, 25_000);
    t.touch(99, 25_000);
    // the ten-second checks before the limit and at the limit find nothing
    assert_eq!(t.check_timeout(10_000), Vec::<usize>::new());
    assert_eq!(t.check_timeout(30_000), Vec::<usize>::new());
    // idle for one second more than the limit
    assert_eq!(t.check_timeout(31_000), vec![5]);
    assert_eq!(t.lookup(5), None);
    assert_eq!(t.by_conn(2), None);
    assert_eq!(t.len(), 1);
    // the connection of the flow can carry a new flow
    assert_eq!(t.open(8, Some(2), 31_000), Opened::New);
    let mut closed = t.check_timeout(70_000);
    closed.sort();
    assert_eq!(closed, vec![6, 8]);
    assert_eq!(t.len(), 0);
}

#[test]
fn record_expires_after_more_than_its_limit() {
    let r = FlowRecord { handle: 1, conn: 2, last_active: 100, timeout: 50 };
    assert!(!r.timeout(150));
    assert!(r.timeout(151));
    assert!(!r.timeout(99));
}
