use bytes::BytesMut;
use trojan::address::{Address, Host};
use trojan::codec::{
    encode_address, encode_request, encode_udp, frame_datagram, is_hash, parse_address,
    parse_request,
    parse_udp, read_be16, to_be16, AddressParseResult, RequestParseResult, UdpParseResult,
    CONNECT, HASH_LEN, UDP_ASSOCIATE,
};

fn hash() -> Vec<u8> {
    let mut h = Vec::new();
    for i in 0..HASH_LEN {
        h.push(b"0123456789abcdef"[i % 16]);
    }
    h
}

fn domain(name: &[u8], port: u16) -> Address {
    Address { host: Host::Domain(name.to_vec()), port }
}

#[test]
fn be16_splits_most_significant_byte_first() {
    assert_eq!(to_be16(0x01bb), [0x01, 0xbb]);
    assert_eq!(to_be16(0), [0, 0]);
    assert_eq!(to_be16(0xffff), [0xff, 0xff]);
    assert_eq!(to_be16(53), [0x00, 0x35]);
}

#[test]
fn be16_reads_back() {
    assert_eq!(read_be16(0x01, 0xbb), 443);
    assert_eq!(read_be16(0xff, 0xff), 65535);
    assert_eq!(read_be16(0x00, 0x1c), 28);
    let bytes = to_be16(0xabcd);
    assert_eq!(read_be16(bytes[0], bytes[1]), 0xabcd);
}

#[test]
fn connect_request_is_bit_exact() {
    let mut buf = BytesMut::new();
    let dst = Address::v4([93, 184, 216, 34], 443);
    encode_request(&mut buf, &hash(), CONNECT, &dst);
    let mut want = hash();
    want.extend_from_slice(&[0x0d, 0x0a, 0x01, 0x01, 93, 184, 216, 34, 0x01, 0xbb, 0x0d, 0x0a]);
    assert_eq!(buf.as_ref(), want.as_slice());
    assert_eq!(buf.len(), 56 + 12);
}

#[test]
fn request_is_appended_behind_what_the_buffer_holds() {
    let mut buf = BytesMut::new();
    buf.extend_from_slice(b"xy");
    encode_request(&mut buf, &hash(), UDP_ASSOCIATE, &Address::v4([1, 2, 3, 4], 5));
    assert_eq!(&buf[..2], b"xy");
    assert_eq!(&buf[2..58], hash().as_slice());
    assert_eq!(&buf[58..], &[0x0d, 0x0a, 0x03, 0x01, 1, 2, 3, 4, 0, 5, 0x0d, 0x0a]);
}

#[test]
fn request_reads_back_ipv4() {
    let mut buf = BytesMut::new();
    let dst = Address::v4([93, 184, 216, 34], 443);
    encode_request(&mut buf, &hash(), CONNECT, &dst);
    buf.extend_from_slice(b"GET /");
    match parse_request(buf.as_ref()) {
        RequestParseResult::Request(r) => {
            assert_eq!(r.hash, hash().as_slice());
            assert_eq!(r.command, CONNECT);
            assert_eq!(r.address, dst);
            assert_eq!(r.payload, b"GET /");
        }
        other => panic!("unexpected {:?}", other),
    }
}

#[test]
fn request_reads_back_ipv6_and_domain() {
    let v6 = Address::v6([0x20, 0x01, 0x0d, 0xb8, 0, 0, 0, 0, 0, 0, 0, 0, 0, 0, 0, 1], 8443);
    let name = domain(b"example.com", 80);
    for dst in [v6, name] {
        let mut buf = BytesMut::new();
        encode_request(&mut buf, &hash(), UDP_ASSOCIATE, &dst);
        match parse_request(buf.as_ref()) {
            RequestParseResult::Request(r) => {
                assert_eq!(r.command, UDP_ASSOCIATE);
                assert_eq!(r.address, dst);
                assert_eq!(r.payload, b"");
                let mut again = BytesMut::new();
                encode_address(&mut again, &r.address);
                let mut first = BytesMut::new();
                encode_address(&mut first, &dst);
                assert_eq!(again, first);
            }
            other => panic!("unexpected {:?}", other),
        }
    }
}

#[test]
fn request_cut_short_is_invalid() {
    let mut buf = BytesMut::new();
    encode_request(&mut buf, &hash(), CONNECT, &Address::v4([1, 1, 1, 1], 1));
    for cut in 0..buf.len() {
        assert_eq!(parse_request(&buf[..cut]), RequestParseResult::InvalidProtocol, "cut {}", cut);
    }
    assert!(matches!(parse_request(buf.as_ref()), RequestParseResult::Request(_)));
}

#[test]
fn request_with_wrong_line_end_or_command_is_invalid() {
    let mut buf = BytesMut::new();
    encode_request(&mut buf, &hash(), CONNECT, &Address::v4([1, 1, 1, 1], 1));
    let good = buf.to_vec();
    for (at, byte) in [(56usize, 0x0au8), (57, 0x0d), (58, 0x02), (58, 0x00), (59, 0x05), (66, 0x00), (67, 0x00)] {
        let mut bad = good.clone();
        bad[at] = byte;
        assert_eq!(parse_request(&bad), RequestParseResult::InvalidProtocol, "byte {}", at);
    }
}

#[test]
fn address_encodings_are_bit_exact() {
    let mut buf = BytesMut::new();
    encode_address(&mut buf, &Address::v4([8, 8, 8, 8], 53));
    assert_eq!(buf.as_ref(), &[0x01, 8, 8, 8, 8, 0x00, 0x35]);

    let mut buf = BytesMut::new();
    encode_address(&mut buf, &domain(b"ab", 0x1234));
    assert_eq!(buf.as_ref(), &[0x03, 2, b'a', b'b', 0x12, 0x34]);

    let mut buf = BytesMut::new();
    let mut octets = [0u8; 16];
    octets[15] = 1;
    encode_address(&mut buf, &Address::v6(octets, 1));
    let mut want = vec![0x04];
    want.extend_from_slice(&octets);
    want.extend_from_slice(&[0, 1]);
    assert_eq!(buf.as_ref(), want.as_slice());
}

#[test]
fn address_parse_says_how_much_it_took() {
    let bytes = [0x01, 10, 20, 30, 40, 0x1f, 0x90, 0xee, 0xee];
    assert_eq!(
        parse_address(&bytes),
        AddressParseResult::Address(Address::v4([10, 20, 30, 40], 8080), 7)
    );
    let bytes = [0x03, 3, b'f', b'o', b'o', 0, 80, 9];
    assert_eq!(parse_address(&bytes), AddressParseResult::Address(domain(b"foo", 80), 7));
    let bytes = [0x03, 0, 0, 80];
    assert_eq!(parse_address(&bytes), AddressParseResult::Address(domain(b"", 80), 4));
}

#[test]
fn address_parse_waits_for_more_and_refuses_unknown_types() {
    assert_eq!(parse_address(&[]), AddressParseResult::Continued);
    assert_eq!(parse_address(&[0x01, 1, 2, 3, 4, 0]), AddressParseResult::Continued);
    assert_eq!(parse_address(&[0x03]), AddressParseResult::Continued);
    assert_eq!(parse_address(&[0x03, 2, b'a', b'b', 0]), AddressParseResult::Continued);
    assert_eq!(parse_address(&[0x04; 18]), AddressParseResult::Continued);
    assert_eq!(parse_address(&[0x00]), AddressParseResult::InvalidProtocol);
    assert_eq!(parse_address(&[0x02, 1, 2, 3, 4, 5, 6, 7]), AddressParseResult::InvalidProtocol);
    assert_eq!(parse_address(&[0x05]), AddressParseResult::InvalidProtocol);
}

#[test]
fn longest_domain_name_is_well_formed_and_one_more_is_not() {
    let longest = domain(&[b'a'; 255], 1);
    assert!(longest.is_wf());
    assert!(!domain(&[b'a'; 256], 1).is_wf());
    let mut buf = BytesMut::new();
    encode_address(&mut buf, &longest);
    assert_eq!(buf.len(), 259);
    assert_eq!(parse_address(buf.as_ref()), AddressParseResult::Address(longest, 259));
}

#[test]
fn udp_header_is_bit_exact() {
    let mut buf = BytesMut::new();
    encode_udp(&mut buf, &Address::v4([8, 8, 8, 8], 53), 28);
    assert_eq!(buf.as_ref(), &[0x01, 8, 8, 8, 8, 0x00, 0x35, 0x00, 0x1c, 0x0d, 0x0a]);
}

#[test]
fn dns_query_is_framed_as_one_frame() {
    let query: Vec<u8> = (0..28u8).collect();
    let mut buf = BytesMut::new();
    frame_datagram(&mut buf, &Address::v4([8, 8, 8, 8], 53), &query);
    let mut want = vec![0x01, 8, 8, 8, 8, 0x00, 0x35, 0x00, 0x1c, 0x0d, 0x0a];
    want.extend_from_slice(&query);
    assert_eq!(buf.as_ref(), want.as_slice());
    match parse_udp(buf.as_ref()) {
        UdpParseResult::Packet(p) => {
            assert_eq!(p.address, Address::v4([8, 8, 8, 8], 53));
            assert_eq!(p.length, 28);
            assert_eq!(p.payload, query.as_slice());
        }
        other => panic!("unexpected {:?}", other),
    }
}

#[test]
fn udp_frame_reads_back_with_what_follows() {
    let addr = domain(b"dns.example", 5353);
    let payload = [9u8, 8, 7, 6, 5];
    let rest = [0x01u8, 1, 2];
    let mut buf = BytesMut::new();
    encode_udp(&mut buf, &addr, 3);
    buf.extend_from_slice(&payload[..3]);
    buf.extend_from_slice(&rest);
    match parse_udp(buf.as_ref()) {
        UdpParseResult::Packet(p) => {
            assert_eq!(p.address, addr);
            assert_eq!(p.length, 3);
            assert_eq!(&p.payload[..p.length], &payload[..3]);
            assert_eq!(&p.payload[p.length..], &rest);
        }
        other => panic!("unexpected {:?}", other),
    }
}

#[test]
fn udp_frame_with_empty_payload() {
    let mut buf = BytesMut::new();
    frame_datagram(&mut buf, &Address::v4([1, 2, 3, 4], 9), &[]);
    match parse_udp(buf.as_ref()) {
        UdpParseResult::Packet(p) => {
            assert_eq!(p.length, 0);
            assert_eq!(p.payload, b"");
        }
        other => panic!("unexpected {:?}", other),
    }
}

#[test]
fn udp_parse_continues_while_payload_is_short() {
    let mut buf = BytesMut::new();
    frame_datagram(&mut buf, &Address::v4([8, 8, 8, 8], 53), &[1, 2, 3, 4]);
    let whole = buf.to_vec();
    // header complete (11 bytes), payload short by 4, 3, 2 and 1
    for cut in 11..whole.len() {
        assert_eq!(parse_udp(&whole[..cut]), UdpParseResult::Continued, "cut {}", cut);
    }
    assert!(matches!(parse_udp(&whole), UdpParseResult::Packet(_)));
}

#[test]
fn udp_parse_continues_while_header_is_short() {
    let mut buf = BytesMut::new();
    frame_datagram(&mut buf, &Address::v4([8, 8, 8, 8], 53), &[1, 2, 3, 4]);
    let whole = buf.to_vec();
    for cut in 0..11 {
        assert_eq!(parse_udp(&whole[..cut]), UdpParseResult::Continued, "cut {}", cut);
    }
}

#[test]
fn udp_parse_refuses_broken_frames() {
    assert_eq!(parse_udp(&[0x02, 0, 0, 0]), UdpParseResult::InvalidProtocol);
    assert_eq!(parse_udp(&[0xff]), UdpParseResult::InvalidProtocol);
    // line end missing behind the length
    let bad = [0x01, 8, 8, 8, 8, 0, 53, 0, 1, 0x0a, 0x0d, 7];
    assert_eq!(parse_udp(&bad), UdpParseResult::InvalidProtocol);
    let bad = [0x01, 8, 8, 8, 8, 0, 53, 0, 1, 0x0d, 0x00, 7];
    assert_eq!(parse_udp(&bad), UdpParseResult::InvalidProtocol);
}

#[test]
fn udp_frame_of_largest_payload() {
    let payload = vec![0x5au8; 65535];
    let mut buf = BytesMut::new();
    frame_datagram(&mut buf, &Address::v4([1, 1, 1, 1], 1), &payload);
    assert_eq!(&buf[7..9], &[0xff, 0xff]);
    match parse_udp(buf.as_ref()) {
        UdpParseResult::Packet(p) => {
            assert_eq!(p.length, 65535);
            assert_eq!(p.payload.len(), 65535);
        }
        other => panic!("unexpected {:?}", other),
    }
    assert_eq!(parse_udp(&buf[..buf.len() - 1]), UdpParseResult::Continued);
}

#[test]
fn same_and_duplicate_go_by_the_octets() {
    let a = Address::v4([1, 2, 3, 4], 5);
    assert!(a.same(&a.duplicate()));
    assert!(!a.same(&Address::v4([1, 2, 3, 4], 6)));
    assert!(!a.same(&Address::v4([1, 2, 3, 5], 5)));
    assert!(!a.same(&domain(&[1, 2, 3, 4], 5)));
    let d = domain(b"host", 1);
    assert_eq!(d.duplicate(), d);
    assert!(d.same(&domain(b"host", 1)));
    assert!(!d.same(&domain(b"hosts", 1)));
    assert!(a.is_ip());
    assert!(!d.is_ip());
    assert_eq!(Address::new(Host::V4([1, 2, 3, 4]), 5), a);
}

#[test]
fn a_hash_is_fifty_six_hex_digits() {
    assert!(is_hash(&hash()));
    assert!(is_hash(&[b'A'; 56]));
    assert!(is_hash(&[b'0'; 56]));
    assert!(!is_hash(&[b'0'; 55]));
    assert!(!is_hash(&[b'0'; 57]));
    assert!(!is_hash(&[]));
    for bad in [b'g', b'G', b'/', b':', b'@', b'`', b' ', 0u8, 0xff] {
        let mut h = hash();
        h[31] = bad;
        assert!(!is_hash(&h), "{}", bad);
    }
    for good in [b'0', b'9', b'a', b'f', b'A', b'F'] {
        let mut h = hash();
        h[55] = good;
        assert!(is_hash(&h), "{}", good);
    }
}

#[test]
fn request_with_a_hash_that_is_not_hex_is_invalid() {
    let mut buf = BytesMut::new();
    encode_request(&mut buf, &hash(), CONNECT, &Address::v4([1, 1, 1, 1], 1));
    let mut bad = buf.to_vec();
    bad[10] = b'z';
    assert_eq!(parse_request(&bad), RequestParseResult::InvalidProtocol);
    bad[10] = b'E';
    assert!(matches!(parse_request(&bad), RequestParseResult::Request(_)));
}
