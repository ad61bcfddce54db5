use trojan::route::{field_end, split_route, RouteLine};
use trojan::status::{ConnStatus, Interest};

#[test]
fn interest_is_never_empty() {
    assert!(Interest::Readable.is_readable());
    assert!(!Interest::Readable.is_writable());
    assert!(Interest::Writable.is_writable());
    assert!(!Interest::Writable.is_readable());
    assert!(Interest::Both.is_readable() && Interest::Both.is_writable());
    assert_eq!(Interest::Readable.union(Interest::Writable), Interest::Both);
    assert_eq!(Interest::Readable.union(Interest::Readable), Interest::Readable);
    assert_eq!(Interest::Writable.union(Interest::Both), Interest::Both);
    assert_eq!(Interest::Both.remove(Interest::Readable), Some(Interest::Writable));
    assert_eq!(Interest::Both.remove(Interest::Writable), Some(Interest::Readable));
    assert_eq!(Interest::Both.remove(Interest::Both), None);
    assert_eq!(Interest::Readable.remove(Interest::Readable), None);
    assert_eq!(Interest::Readable.remove(Interest::Writable), Some(Interest::Readable));
    assert_eq!(Interest::Writable.remove(Interest::Both), None);
}

#[test]
fn closing_and_closed_are_not_alive() {
    for s in [ConnStatus::PreConnecting, ConnStatus::Connecting, ConnStatus::Established, ConnStatus::Shutdown] {
        assert!(s.is_alive());
    }
    assert!(!ConnStatus::Closing.is_alive());
    assert!(!ConnStatus::Closed.is_alive());
}

#[test]
fn allow_list_lines_are_split_at_the_slash() {
    assert_eq!(
        split_route(b"10.0.0.0/255.0.0.0"),
        Some(RouteLine { address: b"10.0.0.0", netmask: b"255.0.0.0" })
    );
    assert_eq!(
        split_route(b"1.2.3.4/255.255.255.255/extra/more"),
        Some(RouteLine { address: b"1.2.3.4", netmask: b"255.255.255.255" })
    );
    assert_eq!(split_route(b"/"), Some(RouteLine { address: b"", netmask: b"" }));
    assert_eq!(split_route(b"a/"), Some(RouteLine { address: b"a", netmask: b"" }));
    assert_eq!(split_route(b"/b"), Some(RouteLine { address: b"", netmask: b"b" }));
    assert_eq!(split_route(b"no slash here"), None);
    assert_eq!(split_route(b""), None);
}

#[test]
fn a_field_ends_at_the_next_slash_or_the_end() {
    assert_eq!(field_end(b"ab/cd/e", 0), 2);
    assert_eq!(field_end(b"ab/cd/e", 2), 2);
    assert_eq!(field_end(b"ab/cd/e", 3), 5);
    assert_eq!(field_end(b"ab/cd/e", 6), 7);
    assert_eq!(field_end(b"ab/cd/e", 7), 7);
    assert_eq!(field_end(b"", 0), 0);
}
