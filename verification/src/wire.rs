use crate::address::{Host, HostModel};
use crate::codec::from_be16;
use vstd::prelude::*;

verus! {

/// Protocol number of TCP in an IP header.
pub const PROTO_TCP: u8 = 6;

/// Protocol number of UDP in an IP header.
pub const PROTO_UDP: u8 = 17;

/// The IP versions that the reader takes.
#[derive(Clone, Copy, Debug, PartialEq, Eq, Structural)]
pub enum IpVersion {
    Ipv4,
    Ipv6,
}

/// What the reader needs of an IP header.
#[derive(Clone, Debug, PartialEq, Eq)]
pub struct IpHeader {
    pub src: Host,
    pub dst: Host,
    /// Number of the protocol that the payload belongs to.
    pub protocol: u8,
    /// Where the payload begins in the packet.
    pub payload_start: usize,
    /// Where the payload ends in the packet.
    pub payload_end: usize,
}

/// Mathematical value of an [`IpHeader`].
pub struct IpHeaderModel {
    pub src: HostModel,
    pub dst: HostModel,
    pub protocol: u8,
    pub payload_start: nat,
    pub payload_end: nat,
}

impl View for IpHeader {
    type V = IpHeaderModel;

    open spec fn view(&self) -> IpHeaderModel {
        IpHeaderModel {
            src: self.src@,
            dst: self.dst@,
            protocol: self.protocol,
            payload_start: self.payload_start as nat,
            payload_end: self.payload_end as nat,
        }
    }
}

/// The ports of a UDP datagram.
#[derive(Clone, Copy, Debug, PartialEq, Eq, Structural)]
pub struct UdpHeader {
    pub src_port: u16,
    pub dst_port: u16,
}

/// What the reader needs of a TCP header.
#[derive(Clone, Copy, Debug, PartialEq, Eq, Structural)]
pub struct TcpHeader {
    pub src_port: u16,
    pub dst_port: u16,
    pub syn: bool,
    pub ack: bool,
    pub fin: bool,
    /// Length of the header, which is where the payload begins in the segment.
    pub header_len: usize,
}

/// The version that the first four bits of a packet name.
pub open spec fn spec_ip_version(s: Seq<u8>) -> Option<IpVersion> {
    if s[0] / 16 == 4 {
        Some(IpVersion::Ipv4)
    } else if s[0] / 16 == 6 {
        Some(IpVersion::Ipv6)
    } else {
        None
    }
}

/// An IPv4 header as it stands at the front of `s`, if the packet is whole:
/// at least twenty bytes, no shorter than its header length and its total
/// length say, and the header no longer than the total.
pub open spec fn spec_ipv4_header(s: Seq<u8>) -> Option<IpHeaderModel> {
    if s.len() < 20 {
        None
    } else {
        let header_len = (s[0] % 16) * 4;
        let total_len = from_be16(s[2], s[3]) as int;
        if s.len() < header_len || header_len > total_len || s.len() < total_len {
            None
        } else {
            Some(
                IpHeaderModel {
                    src: HostModel::V4(s.subrange(12, 16)),
                    dst: HostModel::V4(s.subrange(16, 20)),
                    protocol: s[9],
                    payload_start: header_len as nat,
                    payload_end: total_len as nat,
                },
            )
        }
    }
}

/// An IPv6 header as it stands at the front of `s`, if the packet is whole:
/// forty bytes of header and no fewer payload bytes than the header says.
pub open spec fn spec_ipv6_header(s: Seq<u8>) -> Option<IpHeaderModel> {
    if s.len() < 40 || s.len() < 40 + from_be16(s[4], s[5]) {
        None
    } else {
        Some(
            IpHeaderModel {
                src: HostModel::V6(s.subrange(8, 24)),
                dst: HostModel::V6(s.subrange(24, 40)),
                protocol: s[6],
                payload_start: 40,
                payload_end: (40 + from_be16(s[4], s[5])) as nat,
            },
        )
    }
}

/// The ports of the UDP datagram `s`, if it is whole: eight bytes of header,
/// and a length field that is at least eight and no more than there is.
pub open spec fn spec_udp_ports(s: Seq<u8>) -> Option<UdpHeader> {
    if s.len() < 8 || s.len() < from_be16(s[4], s[5]) || from_be16(s[4], s[5]) < 8 {
        None
    } else {
        Some(UdpHeader { src_port: from_be16(s[0], s[1]), dst_port: from_be16(s[2], s[3]) })
    }
}

/// The header of the TCP segment `s`, if it is whole: at least twenty bytes,
/// and a header length that is at least twenty and no more than there is.
pub open spec fn spec_tcp_segment(s: Seq<u8>) -> Option<TcpHeader> {
    if s.len() < 20 {
        None
    } else {
        let header_len = (s[12] / 16) * 4;
        if s.len() < header_len || header_len < 20 {
            None
        } else {
            Some(
                TcpHeader {
                    src_port: from_be16(s[0], s[1]),
                    dst_port: from_be16(s[2], s[3]),
                    syn: (s[13] / 2) % 2 == 1,
                    ack: (s[13] / 16) % 2 == 1,
                    fin: s[13] % 2 == 1,
                    header_len: header_len as usize,
                },
            )
        }
    }
}

/// Calls `smoltcp::wire::IpVersion::of_packet`, which reads the upper four
/// bits of the first byte: 4 is IPv4, 6 is IPv6, anything else an error.
/// It indexes the first byte, so the packet must not be empty.
#[verifier::external_body]
pub(crate) fn ip_version(packet: &[u8]) -> (version: Option<IpVersion>)
    requires
        packet@.len() > 0,
    ensures
        version == spec_ip_version(packet@),
{
    match smoltcp::wire::IpVersion::of_packet(packet) {
        Ok(smoltcp::wire::IpVersion::Ipv4) => Some(IpVersion::Ipv4),
        Ok(smoltcp::wire::IpVersion::Ipv6) => Some(IpVersion::Ipv6),
        _ => None,
    }
}

/// Calls `smoltcp::wire::Ipv4Packet::new_checked` and, where it accepts the
/// packet, the accessors `src_addr`, `dst_addr`, `protocol`, `header_len`
/// and `total_len`. The check refuses a packet of fewer than twenty bytes,
/// one shorter than its header length (the lower four bits of the first
/// byte, times four) or its total length (bytes 2 and 3), and one whose
/// header is longer than its total length. The addresses are bytes 12 to
/// 15 and 16 to 19, the protocol is byte 9, and the payload lies between
/// the header length and the total length.
#[verifier::external_body]
pub(crate) fn ipv4_header(packet: &[u8]) -> (header: Option<IpHeader>)
    ensures
        header is Some == spec_ipv4_header(packet@) is Some,
        header matches Some(h) ==> h@ == spec_ipv4_header(packet@)->0,
{
    match smoltcp::wire::Ipv4Packet::new_checked(packet) {
        Ok(p) => Some(
            IpHeader {
                src: Host::V4(p.src_addr().0),
                dst: Host::V4(p.dst_addr().0),
                protocol: u8::from(p.protocol()),
                payload_start: usize::from(p.header_len()),
                payload_end: usize::from(p.total_len()),
            },
        ),
        Err(_) => None,
    }
}

/// Calls `smoltcp::wire::Ipv6Packet::new_checked` and, where it accepts the
/// packet, the accessors `src_addr`, `dst_addr`, `next_header`,
/// `header_len` and `total_len`. The check refuses a packet of fewer than
/// forty bytes and one shorter than forty plus its payload length (bytes 4
/// and 5). The addresses are bytes 8 to 23 and 24 to 39, the next header is
/// byte 6, and the payload lies between byte 40 and the total length.
#[verifier::external_body]
pub(crate) fn ipv6_header(packet: &[u8]) -> (header: Option<IpHeader>)
    ensures
        header is Some == spec_ipv6_header(packet@) is Some,
        header matches Some(h) ==> h@ == spec_ipv6_header(packet@)->0,
{
    match smoltcp::wire::Ipv6Packet::new_checked(packet) {
        Ok(p) => Some(
            IpHeader {
                src: Host::V6(p.src_addr().0),
                dst: Host::V6(p.dst_addr().0),
                protocol: u8::from(p.next_header()),
                payload_start: p.header_len(),
                payload_end: p.total_len(),
            },
        ),
        Err(_) => None,
    }
}

/// Calls `smoltcp::wire::UdpPacket::new_checked` and, where it accepts the
/// datagram, the accessors `src_port` and `dst_port`. The check refuses a
/// datagram of fewer than eight bytes, one shorter than its length field
/// (bytes 4 and 5), and a length field below eight. The ports are bytes 0
/// and 1, and 2 and 3.
#[verifier::external_body]
pub(crate) fn udp_header(datagram: &[u8]) -> (header: Option<UdpHeader>)
    ensures
        header == spec_udp_ports(datagram@),
{
    match smoltcp::wire::UdpPacket::new_checked(datagram) {
        Ok(p) => Some(UdpHeader { src_port: p.src_port(), dst_port: p.dst_port() }),
        Err(_) => None,
    }
}

/// Calls `smoltcp::wire::TcpPacket::new_checked` and, where it accepts the
/// segment, the accessors `src_port`, `dst_port`, `syn`, `ack`, `fin` and
/// `header_len`. The check refuses a segment of fewer than twenty bytes,
/// one shorter than its header length (the upper four bits of byte 12,
/// times four), and a header length below twenty. The ports are bytes 0 and
/// 1, and 2 and 3; FIN, SYN and ACK are the bits of value 1, 2 and 16 of
/// byte 13.
#[verifier::external_body]
pub(crate) fn tcp_header(segment: &[u8]) -> (header: Option<TcpHeader>)
    ensures
        header == spec_tcp_segment(segment@),
{
    match smoltcp::wire::TcpPacket::new_checked(segment) {
        Ok(p) => Some(
            TcpHeader {
                src_port: p.src_port(),
                dst_port: p.dst_port(),
                syn: p.syn(),
                ack: p.ack(),
                fin: p.fin(),
                header_len: usize::from(p.header_len()),
            },
        ),
        Err(_) => None,
    }
}

} // verus!
