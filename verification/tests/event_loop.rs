use trojan::event_loop::{
    poll_timeout, Cadence, EventLoop, Tick, Turn, POLL_CAP_MS, TCP_CHECK_MS,
};
use trojan::token::Dispatch;
use trojan::status::elapsed;

#[test]
fn poll_waits_no_longer_than_the_cap() {
    assert_eq!(POLL_CAP_MS, 1);
    assert_eq!(poll_timeout(None), 1);
    assert_eq!(poll_timeout(Some(0)), 0);
    assert_eq!(poll_timeout(Some(1)), 1);
    assert_eq!(poll_timeout(Some(250)), 1);
    assert_eq!(poll_timeout(Some(u64::MAX)), 1);
}

#[test]
fn elapsed_is_zero_when_the_clock_has_not_moved_on() {
    assert_eq!(elapsed(10, 25), 15);
    assert_eq!(elapsed(25, 25), 0);
    assert_eq!(elapsed(25, 10), 0);
    assert_eq!(elapsed(0, u64::MAX), u64::MAX);
}

#[test]
fn cadence_is_due_after_more_than_a_period() {
    let mut c = Cadence::new(1_000, 10_000);
    assert!(!c.due(1_000));
    assert!(!c.due(11_000));
    assert_eq!(c.last, 1_000);
    assert!(c.due(11_001));
    assert_eq!(c.last, 11_001);
    assert!(!c.due(21_001));
    assert!(c.due(21_002));
}

#[test]
fn tcp_flows_are_checked_every_ten_seconds() {
    assert_eq!(TCP_CHECK_MS, 10_000);
    let mut timers = EventLoop::new(0, 60_000);
    assert_eq!(timers.tick(10_000), Tick { check_tcp: false, check_udp: false });
    assert_eq!(timers.tick(10_001), Tick { check_tcp: true, check_udp: false });
    assert_eq!(timers.tick(20_001), Tick { check_tcp: false, check_udp: false });
    assert_eq!(timers.tick(20_002), Tick { check_tcp: true, check_udp: false });
    assert_eq!(timers.tick(60_001), Tick { check_tcp: true, check_udp: true });
    assert_eq!(timers.tick(60_002), Tick { check_tcp: false, check_udp: false });
    assert_eq!(timers.udp.last, 60_001);
    assert_eq!(timers.tcp.last, 60_001);
}

#[test]
fn a_turn_hands_every_event_to_its_receiver_in_order() {
    let mut timers = EventLoop::new(0, 60_000);
    let plan = timers.turn(&[8, 1, 6, 7, 3002], 5_000);
    assert_eq!(
        plan,
        Turn {
            targets: vec![
                Dispatch::Tcp(2),
                Dispatch::Resolver,
                Dispatch::Idle(2),
                Dispatch::Udp(2),
                Dispatch::Tcp(1000),
            ],
            tick: Tick { check_tcp: false, check_udp: false },
        }
    );
    let plan = timers.turn(&[], 10_001);
    assert_eq!(plan.targets, vec![]);
    assert_eq!(plan.tick, Tick { check_tcp: true, check_udp: false });
}
