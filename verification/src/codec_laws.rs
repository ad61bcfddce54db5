use crate::address::{AddressModel, HostModel};
use crate::codec::{
    be16, crlf, from_be16, spec_encode_address, spec_is_hash, spec_parse_address,
    spec_parse_request,
    spec_parse_udp, spec_request, spec_udp_announced, spec_udp_frame, spec_udp_header,
    spec_udp_header_complete, spec_udp_header_len, AddressParse, RequestParse, UdpParse,
    ATYP_DOMAIN, ATYP_IPV4, CONNECT, HASH_LEN, UDP_ASSOCIATE,
};
use vstd::prelude::*;

verus! {

/// Two bytes in network order read back as the number they were made from.
pub proof fn lemma_be16_roundtrip(x: u16)
    ensures
        be16(x).len() == 2,
        from_be16(be16(x)[0], be16(x)[1]) == x,
{
}

/// An encoded address is at least seven and at most 259 bytes long.
pub proof fn lemma_encoded_address_len(a: AddressModel)
    requires
        a.wf(),
    ensures
        spec_encode_address(a).len() == match a.host {
            HostModel::V4(_) => 7nat,
            HostModel::Domain(n) => 4 + n.len(),
            HostModel::V6(_) => 19nat,
        },
{
}

/// Reading an encoded address gives the address back, whatever follows it,
/// and takes exactly the bytes of the encoding.
pub proof fn lemma_address_roundtrip(a: AddressModel, tail: Seq<u8>)
    requires
        a.wf(),
    ensures
        spec_parse_address(spec_encode_address(a) + tail) == (AddressParse::Address {
            address: a,
            consumed: spec_encode_address(a).len(),
        }),
{
    let e = spec_encode_address(a);
    let s = e + tail;
    lemma_be16_roundtrip(a.port);
    match a.host {
        HostModel::V4(o) => {
            assert(s.subrange(1, 5) =~= o);
            assert(s[5] == be16(a.port)[0]);
            assert(s[6] == be16(a.port)[1]);
        },
        HostModel::Domain(n) => {
            let k = n.len() as int;
            assert(s[1] == k);
            assert(s.subrange(2, 2 + k) =~= n);
            assert(s[2 + k] == be16(a.port)[0]);
            assert(s[3 + k] == be16(a.port)[1]);
        },
        HostModel::V6(o) => {
            assert(s.subrange(1, 17) =~= o);
            assert(s[17] == be16(a.port)[0]);
            assert(s[18] == be16(a.port)[1]);
        },
    }
}

/// A frame header followed by the first `length` bytes of a payload and by
/// any further bytes reads back as that address and that length; the bytes
/// behind the header are the datagram and then the further bytes.
pub proof fn law_udp_roundtrip(a: AddressModel, length: u16, payload: Seq<u8>, rest: Seq<u8>)
    requires
        a.wf(),
        length <= payload.len(),
    ensures
        spec_parse_udp(spec_udp_header(a, length) + payload.take(length as int) + rest) == (
        UdpParse::Packet {
            address: a,
            length: length as nat,
            payload: payload.take(length as int) + rest,
        }),
        (payload.take(length as int) + rest).take(length as int) == payload.take(length as int),
        (payload.take(length as int) + rest).skip(length as int) == rest,
{
    let e = spec_encode_address(a);
    let h = spec_udp_header(a, length);
    let body = payload.take(length as int);
    let s = h + body + rest;
    let n = e.len() as int;
    lemma_encoded_address_len(a);
    lemma_be16_roundtrip(length);
    assert(s =~= e + (be16(length) + crlf() + body + rest));
    lemma_address_roundtrip(a, be16(length) + crlf() + body + rest);
    assert(s[n] == be16(length)[0]);
    assert(s[n + 1] == be16(length)[1]);
    assert(s[n + 2] == crlf()[0]);
    assert(s[n + 3] == crlf()[1]);
    assert(s.skip(n + 4) =~= body + rest);
    assert((body + rest).take(length as int) =~= body);
    assert((body + rest).skip(length as int) =~= rest);
}

/// A datagram framed on its own reads back as one frame with nothing behind
/// it: the address and the payload are the ones that were framed.
pub proof fn law_udp_frame_is_one_packet(a: AddressModel, payload: Seq<u8>)
    requires
        a.wf(),
        payload.len() <= u16::MAX,
    ensures
        spec_parse_udp(spec_udp_frame(a, payload)) == (UdpParse::Packet {
            address: a,
            length: payload.len(),
            payload,
        }),
{
    let length = payload.len() as u16;
    law_udp_roundtrip(a, length, payload, Seq::<u8>::empty());
    assert(payload.take(length as int) =~= payload);
    assert(payload + Seq::<u8>::empty() =~= payload);
    assert(spec_udp_frame(a, payload) =~= spec_udp_header(a, length) + payload.take(
        length as int,
    ) + Seq::<u8>::empty());
}

/// A request header followed by any bytes reads back as the hash, the
/// command and the destination that were encoded, byte for byte, with the
/// following bytes as payload.
pub proof fn law_request_roundtrip(hash: Seq<u8>, command: u8, a: AddressModel, payload: Seq<u8>)
    requires
        spec_is_hash(hash),
        command == CONNECT || command == UDP_ASSOCIATE,
        a.wf(),
    ensures
        spec_parse_request(spec_request(hash, command, a) + payload) == (RequestParse::Request {
            hash,
            command,
            address: a,
            payload,
        }),
        spec_encode_address(
            spec_parse_request(spec_request(hash, command, a) + payload)->address,
        ) == spec_encode_address(a),
{
    let e = spec_encode_address(a);
    let s = spec_request(hash, command, a) + payload;
    let h = HASH_LEN as int;
    let n = e.len() as int;
    lemma_encoded_address_len(a);
    assert(s[h] == crlf()[0]);
    assert(s[h + 1] == crlf()[1]);
    assert(s[h + 2] == command);
    assert(s.skip(h + 3) =~= e + (crlf() + payload));
    lemma_address_roundtrip(a, crlf() + payload);
    assert(s[h + 3 + n] == crlf()[0]);
    assert(s[h + 3 + n + 1] == crlf()[1]);
    assert(s.take(h) =~= hash);
    assert(s.skip(h + 3 + n + 2) =~= payload);
}

/// Once the header of a frame stands whole in the bytes, reading them gives
/// `Continued` exactly when fewer payload bytes follow than the header
/// announces, and a packet otherwise.
pub proof fn law_udp_continued_iff_payload_short(s: Seq<u8>)
    requires
        spec_udp_header_complete(s),
    ensures
        spec_parse_udp(s) is Continued <==> s.len() - spec_udp_header_len(s) < spec_udp_announced(
            s,
        ),
        !(spec_parse_udp(s) is Continued) ==> spec_parse_udp(s) is Packet,
        !(spec_parse_udp(s) is InvalidProtocol),
{
}

/// Reading is `Continued` in three cases and no other: the address is cut
/// short, the length and line end behind a whole address are cut short, or
/// the header is whole and the payload is cut short.
pub proof fn law_udp_continued_cases(s: Seq<u8>)
    ensures
        spec_parse_udp(s) is Continued <==> {
            ||| spec_parse_address(s) is Continued
            ||| (spec_parse_address(s) is Address && s.len() < spec_udp_header_len(s))
            ||| (spec_udp_header_complete(s) && s.len() - spec_udp_header_len(s)
                < spec_udp_announced(s))
        },
{
}

/// A frame that has been read stays the same frame when more bytes arrive
/// behind it.
pub proof fn law_udp_packet_stable(s: Seq<u8>, more: Seq<u8>)
    requires
        spec_parse_udp(s) is Packet,
    ensures
        spec_parse_udp(s + more) is Packet,
        spec_parse_udp(s + more)->address == spec_parse_udp(s)->address,
        spec_parse_udp(s + more)->length == spec_parse_udp(s)->length,
        spec_parse_udp(s + more)->payload == spec_parse_udp(s)->payload + more,
{
    let t = s + more;
    assert(s.len() > 0);
    assert(t[0] == s[0]);
    if s[0] == ATYP_IPV4 {
        assert(t.subrange(1, 5) =~= s.subrange(1, 5));
    } else if s[0] == ATYP_DOMAIN {
        let n = s[1] as int;
        assert(t[1] == s[1]);
        assert(t.subrange(2, 2 + n) =~= s.subrange(2, 2 + n));
    } else {
        assert(t.subrange(1, 17) =~= s.subrange(1, 17));
    }
    let n = spec_udp_header_len(s) as int;
    assert(t.skip(n) =~= s.skip(n) + more);
}

} // verus!
