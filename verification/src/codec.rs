use crate::address::{Address, AddressModel, Host, HostModel};
use crate::buffer::buffer_bytes;
use bytes::BytesMut;
use vstd::prelude::*;
use vstd::slice::{slice_subrange, slice_to_vec};

verus! {

/// Command byte that asks the relay to open a TCP connection.
pub const CONNECT: u8 = 0x01;

/// Command byte that asks the relay to carry UDP datagrams.
pub const UDP_ASSOCIATE: u8 = 0x03;

/// Address type of four IPv4 octets.
pub const ATYP_IPV4: u8 = 0x01;

/// Address type of a length byte and a domain name.
pub const ATYP_DOMAIN: u8 = 0x03;

/// Address type of sixteen IPv6 octets.
pub const ATYP_IPV6: u8 = 0x04;

/// Length of the hex-encoded password hash that opens a request.
pub const HASH_LEN: usize = 56;

pub const CR: u8 = 0x0d;

pub const LF: u8 = 0x0a;

/// Longest encoding of an address: type, length byte, 255 name bytes, port.
pub const MAX_ADDRESS_LEN: usize = 259;

/// Longest header of a datagram frame: an address, a length and a line end.
pub const MAX_UDP_HEADER_LEN: usize = 263;

/// The two bytes of `x`, most significant first.
pub open spec fn be16(x: u16) -> Seq<u8> {
    seq![(x / 256) as u8, (x % 256) as u8]
}

/// The number whose two bytes are `hi` and `lo`, most significant first.
pub open spec fn from_be16(hi: u8, lo: u8) -> u16 {
    (hi as int * 256 + lo as int) as u16
}

pub open spec fn crlf() -> Seq<u8> {
    seq![CR, LF]
}

/// Whether `b` is a hex digit in ASCII, of either case.
pub open spec fn spec_is_hex(b: u8) -> bool {
    (0x30 <= b <= 0x39) || (0x61 <= b <= 0x66) || (0x41 <= b <= 0x46)
}

/// Whether `s` can be a hex-encoded password hash: 56 hex digits.
pub open spec fn spec_is_hash(s: Seq<u8>) -> bool {
    s.len() == HASH_LEN && forall|i: int| 0 <= i < s.len() ==> spec_is_hex(#[trigger] s[i])
}

/// Wire form of an address: type, host, port in network order.
pub open spec fn spec_encode_address(a: AddressModel) -> Seq<u8> {
    match a.host {
        HostModel::V4(o) => seq![ATYP_IPV4] + o + be16(a.port),
        HostModel::Domain(n) => seq![ATYP_DOMAIN, n.len() as u8] + n + be16(a.port),
        HostModel::V6(o) => seq![ATYP_IPV6] + o + be16(a.port),
    }
}

/// Wire form of a request header: password hash, line end, command,
/// destination, line end.
pub open spec fn spec_request(hash: Seq<u8>, command: u8, a: AddressModel) -> Seq<u8> {
    hash + crlf() + seq![command] + spec_encode_address(a) + crlf()
}

/// Wire form of the header of a datagram frame: address, payload length in
/// network order, line end.
pub open spec fn spec_udp_header(a: AddressModel, length: u16) -> Seq<u8> {
    spec_encode_address(a) + be16(length) + crlf()
}

/// Wire form of one datagram frame: the header that announces the length of
/// `payload`, then `payload`.
pub open spec fn spec_udp_frame(a: AddressModel, payload: Seq<u8>) -> Seq<u8> {
    spec_udp_header(a, payload.len() as u16) + payload
}

/// What the front of a byte string says when read as an address.
pub enum AddressParse {
    /// A whole address, and the number of bytes it takes.
    Address { address: AddressModel, consumed: nat },
    /// The bytes end before the address does.
    Continued,
    /// The first byte is no address type.
    InvalidProtocol,
}

pub open spec fn spec_parse_address(s: Seq<u8>) -> AddressParse {
    if s.len() == 0 {
        AddressParse::Continued
    } else if s[0] == ATYP_IPV4 {
        if s.len() < 7 {
            AddressParse::Continued
        } else {
            AddressParse::Address {
                address: AddressModel {
                    host: HostModel::V4(s.subrange(1, 5)),
                    port: from_be16(s[5], s[6]),
                },
                consumed: 7,
            }
        }
    } else if s[0] == ATYP_DOMAIN {
        if s.len() < 2 || s.len() < 4 + s[1] {
            AddressParse::Continued
        } else {
            let n = s[1] as int;
            AddressParse::Address {
                address: AddressModel {
                    host: HostModel::Domain(s.subrange(2, 2 + n)),
                    port: from_be16(s[2 + n], s[3 + n]),
                },
                consumed: (4 + n) as nat,
            }
        }
    } else if s[0] == ATYP_IPV6 {
        if s.len() < 19 {
            AddressParse::Continued
        } else {
            AddressParse::Address {
                address: AddressModel {
                    host: HostModel::V6(s.subrange(1, 17)),
                    port: from_be16(s[17], s[18]),
                },
                consumed: 19,
            }
        }
    } else {
        AddressParse::InvalidProtocol
    }
}

/// What the front of a byte stream says when read as a datagram frame.
pub enum UdpParse {
    /// A whole frame. `payload` is everything behind the header: its first
    /// `length` bytes are the datagram, what follows belongs to later frames.
    Packet { address: AddressModel, length: nat, payload: Seq<u8> },
    /// The bytes so far may begin a frame, but more are needed.
    Continued,
    /// No frame begins like this.
    InvalidProtocol,
}

pub open spec fn spec_parse_udp(s: Seq<u8>) -> UdpParse {
    match spec_parse_address(s) {
        AddressParse::InvalidProtocol => UdpParse::InvalidProtocol,
        AddressParse::Continued => UdpParse::Continued,
        AddressParse::Address { address, consumed } => {
            let n = consumed as int;
            if s.len() < n + 4 {
                UdpParse::Continued
            } else if s[n + 2] != CR || s[n + 3] != LF {
                UdpParse::InvalidProtocol
            } else {
                let length = from_be16(s[n], s[n + 1]) as nat;
                if s.len() < n + 4 + length {
                    UdpParse::Continued
                } else {
                    UdpParse::Packet { address, length, payload: s.skip(n + 4) }
                }
            }
        },
    }
}

/// Whether the header of a datagram frame stands whole at the front of `s`:
/// an address, two length bytes and a line end.
pub open spec fn spec_udp_header_complete(s: Seq<u8>) -> bool {
    match spec_parse_address(s) {
        AddressParse::Address { address, consumed } => {
            let n = consumed as int;
            &&& s.len() >= n + 4
            &&& s[n + 2] == CR
            &&& s[n + 3] == LF
        },
        _ => false,
    }
}

/// The payload length that a whole frame header at the front of `s` announces.
pub open spec fn spec_udp_announced(s: Seq<u8>) -> nat {
    match spec_parse_address(s) {
        AddressParse::Address { address, consumed } => {
            let n = consumed as int;
            from_be16(s[n], s[n + 1]) as nat
        },
        _ => 0,
    }
}

/// The number of bytes that a whole frame header at the front of `s` takes.
pub open spec fn spec_udp_header_len(s: Seq<u8>) -> nat {
    match spec_parse_address(s) {
        AddressParse::Address { address, consumed } => consumed + 4,
        _ => 0,
    }
}

/// What a byte string says when read as a request header.
pub enum RequestParse {
    /// A whole header, and what follows it.
    Request { hash: Seq<u8>, command: u8, address: AddressModel, payload: Seq<u8> },
    /// The bytes are no whole request header.
    InvalidProtocol,
}

pub open spec fn spec_parse_request(s: Seq<u8>) -> RequestParse {
    let h = HASH_LEN as int;
    if s.len() < h + 3 {
        RequestParse::InvalidProtocol
    } else if !spec_is_hash(s.take(h)) {
        RequestParse::InvalidProtocol
    } else if s[h] != CR || s[h + 1] != LF {
        RequestParse::InvalidProtocol
    } else if s[h + 2] != CONNECT && s[h + 2] != UDP_ASSOCIATE {
        RequestParse::InvalidProtocol
    } else {
        match spec_parse_address(s.skip(h + 3)) {
            AddressParse::Address { address, consumed } => {
                let end = h + 3 + consumed;
                if s.len() < end + 2 || s[end] != CR || s[end + 1] != LF {
                    RequestParse::InvalidProtocol
                } else {
                    RequestParse::Request {
                        hash: s.take(h),
                        command: s[h + 2],
                        address,
                        payload: s.skip(end + 2),
                    }
                }
            },
            _ => RequestParse::InvalidProtocol,
        }
    }
}

/// Result of reading an address from the front of a buffer.
#[derive(Debug, PartialEq, Eq)]
pub enum AddressParseResult {
    Address(Address, usize),
    Continued,
    InvalidProtocol,
}

impl View for AddressParseResult {
    type V = AddressParse;

    open spec fn view(&self) -> AddressParse {
        match self {
            AddressParseResult::Address(address, consumed) => AddressParse::Address {
                address: address@,
                consumed: *consumed as nat,
            },
            AddressParseResult::Continued => AddressParse::Continued,
            AddressParseResult::InvalidProtocol => AddressParse::InvalidProtocol,
        }
    }
}

/// One datagram frame as found in a buffer.
#[derive(Debug, PartialEq, Eq)]
pub struct UdpAssociate<'a> {
    /// The peer that the datagram goes to or comes from.
    pub address: Address,
    /// Number of payload bytes that belong to this frame.
    pub length: usize,
    /// Everything behind the frame header.
    pub payload: &'a [u8],
}

/// Result of reading a datagram frame from the front of a buffer.
#[derive(Debug, PartialEq, Eq)]
pub enum UdpParseResult<'a> {
    Packet(UdpAssociate<'a>),
    Continued,
    InvalidProtocol,
}

impl<'a> View for UdpParseResult<'a> {
    type V = UdpParse;

    open spec fn view(&self) -> UdpParse {
        match self {
            UdpParseResult::Packet(p) => UdpParse::Packet {
                address: p.address@,
                length: p.length as nat,
                payload: p.payload@,
            },
            UdpParseResult::Continued => UdpParse::Continued,
            UdpParseResult::InvalidProtocol => UdpParse::InvalidProtocol,
        }
    }
}

/// A request header as found in a buffer.
#[derive(Debug, PartialEq, Eq)]
pub struct TrojanRequest<'a> {
    /// The hex-encoded password hash that the sender presented.
    pub hash: &'a [u8],
    pub command: u8,
    pub address: Address,
    /// Everything behind the header.
    pub payload: &'a [u8],
}

/// Result of reading a request header.
#[derive(Debug, PartialEq, Eq)]
pub enum RequestParseResult<'a> {
    Request(TrojanRequest<'a>),
    InvalidProtocol,
}

impl<'a> View for RequestParseResult<'a> {
    type V = RequestParse;

    open spec fn view(&self) -> RequestParse {
        match self {
            RequestParseResult::Request(r) => RequestParse::Request {
                hash: r.hash@,
                command: r.command,
                address: r.address@,
                payload: r.payload@,
            },
            RequestParseResult::InvalidProtocol => RequestParse::InvalidProtocol,
        }
    }
}

/// Whether `bytes` can be a hex-encoded password hash: 56 hex digits.
pub fn is_hash(bytes: &[u8]) -> (ok: bool)
    ensures
        ok == spec_is_hash(bytes@),
{
    if bytes.len() != HASH_LEN {
        return false;
    }
    let mut i: usize = 0;
    while i < bytes.len()
        invariant
            i <= bytes@.len(),
            forall|k: int| 0 <= k < i ==> spec_is_hex(#[trigger] bytes@[k]),
        decreases bytes@.len() - i,
    {
        let b = bytes[i];
        let hex = (0x30 <= b && b <= 0x39) || (0x61 <= b && b <= 0x66) || (0x41 <= b && b <= 0x46);
        if !hex {
            return false;
        }
        i += 1;
    }
    true
}

/// The two bytes of `x`, most significant first.
pub fn to_be16(x: u16) -> (bytes: [u8; 2])
    ensures
        bytes@ == be16(x),
{
    let bytes = [(x / 256) as u8, (x % 256) as u8];
    assert(bytes@ =~= be16(x));
    bytes
}

/// The number whose two bytes are `hi` and `lo`, most significant first.
pub fn read_be16(hi: u8, lo: u8) -> (x: u16)
    ensures
        x == from_be16(hi, lo),
        x == hi * 256 + lo,
{
    (hi as u16) * 256 + (lo as u16)
}

/// Reads an address from the front of `buffer`.
pub fn parse_address(buffer: &[u8]) -> (result: AddressParseResult)
    ensures
        result@ == spec_parse_address(buffer@),
        result matches AddressParseResult::Address(address, consumed) ==> address.wf()
            && consumed <= buffer@.len(),
{
    let len = buffer.len();
    if len == 0 {
        return AddressParseResult::Continued;
    }
    let atyp = buffer[0];
    if atyp == ATYP_IPV4 {
        if len < 7 {
            return AddressParseResult::Continued;
        }
        let octets = [buffer[1], buffer[2], buffer[3], buffer[4]];
        assert(octets@ =~= buffer@.subrange(1, 5));
        let port = read_be16(buffer[5], buffer[6]);
        AddressParseResult::Address(Address { host: Host::V4(octets), port }, 7)
    } else if atyp == ATYP_DOMAIN {
        if len < 2 {
            return AddressParseResult::Continued;
        }
        let n = buffer[1] as usize;
        if len < 4 + n {
            return AddressParseResult::Continued;
        }
        let name = slice_to_vec(slice_subrange(buffer, 2, 2 + n));
        let port = read_be16(buffer[2 + n], buffer[3 + n]);
        AddressParseResult::Address(Address { host: Host::Domain(name), port }, 4 + n)
    } else if atyp == ATYP_IPV6 {
        if len < 19 {
            return AddressParseResult::Continued;
        }
        let octets = [
            buffer[1],
            buffer[2],
            buffer[3],
            buffer[4],
            buffer[5],
            buffer[6],
            buffer[7],
            buffer[8],
            buffer[9],
            buffer[10],
            buffer[11],
            buffer[12],
            buffer[13],
            buffer[14],
            buffer[15],
            buffer[16],
        ];
        assert(octets@ =~= buffer@.subrange(1, 17));
        let port = read_be16(buffer[17], buffer[18]);
        AddressParseResult::Address(Address { host: Host::V6(octets), port }, 19)
    } else {
        AddressParseResult::InvalidProtocol
    }
}

/// Reads one datagram frame from the front of `buffer`.
///
/// A frame is an address, the payload length as two bytes in network order,
/// a line end, and the payload. The result is `Continued` while the bytes so
/// far may still grow into a frame, and `InvalidProtocol` when the address
/// type is unknown or the line end is missing.
pub fn parse_udp<'a>(buffer: &'a [u8]) -> (result: UdpParseResult<'a>)
    ensures
        result@ == spec_parse_udp(buffer@),
        result matches UdpParseResult::Packet(p) ==> p.address.wf() && p.length <= p.payload@.len()
            && p.length <= u16::MAX,
{
    match parse_address(buffer) {
        AddressParseResult::InvalidProtocol => UdpParseResult::InvalidProtocol,
        AddressParseResult::Continued => UdpParseResult::Continued,
        AddressParseResult::Address(address, n) => {
            let len = buffer.len();
            if len - n < 4 {
                return UdpParseResult::Continued;
            }
            if buffer[n + 2] != CR || buffer[n + 3] != LF {
                return UdpParseResult::InvalidProtocol;
            }
            let length = read_be16(buffer[n], buffer[n + 1]) as usize;
            if len - n - 4 < length {
                return UdpParseResult::Continued;
            }
            let payload = slice_subrange(buffer, n + 4, len);
            assert(payload@ =~= buffer@.skip(n + 4));
            UdpParseResult::Packet(UdpAssociate { address, length, payload })
        },
    }
}

/// Reads a request header from the front of `buffer`.
///
/// The header is 56 hex digits of password hash, a line end, a command
/// byte (`CONNECT` or `UDP_ASSOCIATE`), the destination, and a line end.
/// Anything else, a header cut short included, is `InvalidProtocol`.
pub fn parse_request<'a>(buffer: &'a [u8]) -> (result: RequestParseResult<'a>)
    ensures
        result@ == spec_parse_request(buffer@),
        result matches RequestParseResult::Request(r) ==> r.address.wf(),
{
    let len = buffer.len();
    if len < HASH_LEN + 3 {
        return RequestParseResult::InvalidProtocol;
    }
    let hash = slice_subrange(buffer, 0, HASH_LEN);
    assert(hash@ =~= buffer@.take(HASH_LEN as int));
    if !is_hash(hash) {
        return RequestParseResult::InvalidProtocol;
    }
    if buffer[HASH_LEN] != CR || buffer[HASH_LEN + 1] != LF {
        return RequestParseResult::InvalidProtocol;
    }
    let command = buffer[HASH_LEN + 2];
    if command != CONNECT && command != UDP_ASSOCIATE {
        return RequestParseResult::InvalidProtocol;
    }
    let tail = slice_subrange(buffer, HASH_LEN + 3, len);
    assert(tail@ =~= buffer@.skip(HASH_LEN as int + 3));
    match parse_address(tail) {
        AddressParseResult::Address(address, consumed) => {
            let end = HASH_LEN + 3 + consumed;
            if len - end < 2 || buffer[end] != CR || buffer[end + 1] != LF {
                return RequestParseResult::InvalidProtocol;
            }
            let payload = slice_subrange(buffer, end + 2, len);
            assert(payload@ =~= buffer@.skip(end + 2));
            RequestParseResult::Request(TrojanRequest { hash, command, address, payload })
        },
        _ => RequestParseResult::InvalidProtocol,
    }
}

/// Appends the wire form of `address` to `buffer`.
pub fn encode_address(buffer: &mut BytesMut, address: &Address)
    requires
        address.wf(),
        buffer_bytes(*old(buffer)).len() + MAX_ADDRESS_LEN <= usize::MAX,
    ensures
        buffer_bytes(*final(buffer)) == buffer_bytes(*old(buffer)) + spec_encode_address(address@),
        spec_encode_address(address@).len() <= MAX_ADDRESS_LEN,
{
    let ghost before = buffer_bytes(*buffer);
    match &address.host {
        Host::V4(octets) => {
            let kind = [ATYP_IPV4];
            buffer.extend_from_slice(kind.as_slice());
            buffer.extend_from_slice(octets.as_slice());
            assert(buffer_bytes(*buffer) =~= before + (seq![ATYP_IPV4] + octets@));
        },
        Host::Domain(name) => {
            let kind = [ATYP_DOMAIN, name.len() as u8];
            buffer.extend_from_slice(kind.as_slice());
            buffer.extend_from_slice(name.as_slice());
            assert(buffer_bytes(*buffer) =~= before + (seq![ATYP_DOMAIN, name@.len() as u8]
                + name@));
        },
        Host::V6(octets) => {
            let kind = [ATYP_IPV6];
            buffer.extend_from_slice(kind.as_slice());
            buffer.extend_from_slice(octets.as_slice());
            assert(buffer_bytes(*buffer) =~= before + (seq![ATYP_IPV6] + octets@));
        },
    }
    let port = to_be16(address.port);
    buffer.extend_from_slice(port.as_slice());
    assert(buffer_bytes(*buffer) =~= before + spec_encode_address(address@));
}

/// Appends a request header to `buffer`: the password hash, a line end, the
/// command byte, the destination and a line end.
pub fn encode_request(buffer: &mut BytesMut, hash: &[u8], command: u8, address: &Address)
    requires
        spec_is_hash(hash@),
        command == CONNECT || command == UDP_ASSOCIATE,
        address.wf(),
        buffer_bytes(*old(buffer)).len() + HASH_LEN + 5 + MAX_ADDRESS_LEN <= usize::MAX,
    ensures
        buffer_bytes(*final(buffer)) == buffer_bytes(*old(buffer)) + spec_request(
            hash@,
            command,
            address@,
        ),
{
    let ghost before = buffer_bytes(*buffer);
    buffer.extend_from_slice(hash);
    let head = [CR, LF, command];
    buffer.extend_from_slice(head.as_slice());
    encode_address(buffer, address);
    let tail = [CR, LF];
    buffer.extend_from_slice(tail.as_slice());
    assert(buffer_bytes(*buffer) =~= before + spec_request(hash@, command, address@));
}

/// Appends the header of a datagram frame to `buffer`: the address, the
/// payload length in network order and a line end. The payload itself is
/// not written.
pub fn encode_udp(buffer: &mut BytesMut, address: &Address, length: u16)
    requires
        address.wf(),
        buffer_bytes(*old(buffer)).len() + MAX_UDP_HEADER_LEN <= usize::MAX,
    ensures
        buffer_bytes(*final(buffer)) == buffer_bytes(*old(buffer)) + spec_udp_header(
            address@,
            length,
        ),
        spec_udp_header(address@, length).len() <= MAX_UDP_HEADER_LEN,
{
    let ghost before = buffer_bytes(*buffer);
    encode_address(buffer, address);
    let size = to_be16(length);
    buffer.extend_from_slice(size.as_slice());
    let tail = [CR, LF];
    buffer.extend_from_slice(tail.as_slice());
    assert(buffer_bytes(*buffer) =~= before + spec_udp_header(address@, length));
}

/// Appends one whole datagram frame to `buffer`: the header for `address`
/// and the length of `payload`, then `payload`, with nothing in between.
pub fn frame_datagram(buffer: &mut BytesMut, address: &Address, payload: &[u8])
    requires
        address.wf(),
        payload@.len() <= u16::MAX,
        buffer_bytes(*old(buffer)).len() + MAX_UDP_HEADER_LEN + payload@.len() <= usize::MAX,
    ensures
        buffer_bytes(*final(buffer)) == buffer_bytes(*old(buffer)) + spec_udp_frame(
            address@,
            payload@,
        ),
{
    let ghost before = buffer_bytes(*buffer);
    encode_udp(buffer, address, payload.len() as u16);
    buffer.extend_from_slice(payload);
    assert(buffer_bytes(*buffer) =~= before + spec_udp_frame(address@, payload@));
}

} // verus!
