use crate::address::{Address, AddressModel};
use crate::private::{spec_private, CidrModel, PrivateSet};
use crate::wire::{
    ip_version, ipv4_header, ipv6_header, spec_ip_version, spec_ipv4_header, spec_ipv6_header,
    spec_tcp_segment, spec_udp_ports, tcp_header, udp_header, IpHeader, IpHeaderModel, IpVersion,
    PROTO_TCP, PROTO_UDP,
};
use vstd::prelude::*;
use vstd::slice::slice_subrange;

verus! {

/// What a packet from the device means to the reader.
#[derive(Debug, PartialEq, Eq)]
pub enum PacketKind {
    /// The packet does not concern the tunnel and is dropped.
    Skip,
    /// A UDP datagram from `src` to `dst`.
    Udp { src: Address, dst: Address },
    /// A TCP segment from `src` to `dst`. `connect` says that it opens a
    /// connection (SYN without ACK), `notify` that the flow manager has to
    /// look at the flow (the segment carries data or FIN).
    Tcp { src: Address, dst: Address, connect: bool, notify: bool },
}

/// Mathematical value of a [`PacketKind`].
pub enum PacketKindModel {
    Skip,
    Udp { src: AddressModel, dst: AddressModel },
    Tcp { src: AddressModel, dst: AddressModel, connect: bool, notify: bool },
}

impl View for PacketKind {
    type V = PacketKindModel;

    open spec fn view(&self) -> PacketKindModel {
        match self {
            PacketKind::Skip => PacketKindModel::Skip,
            PacketKind::Udp { src, dst } => PacketKindModel::Udp { src: src@, dst: dst@ },
            PacketKind::Tcp { src, dst, connect, notify } => PacketKindModel::Tcp {
                src: src@,
                dst: dst@,
                connect: *connect,
                notify: *notify,
            },
        }
    }
}

impl PacketKindModel {
    /// Where the packet goes to, if it is not skipped.
    pub open spec fn dst(self) -> Option<AddressModel> {
        match self {
            PacketKindModel::Skip => None,
            PacketKindModel::Udp { src, dst } => Some(dst),
            PacketKindModel::Tcp { src, dst, connect, notify } => Some(dst),
        }
    }
}

/// What the transport header behind an IP header says. Anything but a whole
/// UDP datagram or a whole TCP segment is skipped.
pub open spec fn spec_transport(ip: IpHeaderModel, payload: Seq<u8>) -> PacketKindModel {
    if ip.protocol == PROTO_UDP {
        match spec_udp_ports(payload) {
            Some(udp) => PacketKindModel::Udp {
                src: AddressModel { host: ip.src, port: udp.src_port },
                dst: AddressModel { host: ip.dst, port: udp.dst_port },
            },
            None => PacketKindModel::Skip,
        }
    } else if ip.protocol == PROTO_TCP {
        match spec_tcp_segment(payload) {
            Some(tcp) => PacketKindModel::Tcp {
                src: AddressModel { host: ip.src, port: tcp.src_port },
                dst: AddressModel { host: ip.dst, port: tcp.dst_port },
                connect: tcp.syn && !tcp.ack,
                notify: tcp.header_len < payload.len() || tcp.fin,
            },
            None => PacketKindModel::Skip,
        }
    } else {
        PacketKindModel::Skip
    }
}

/// What the headers of a packet say, whatever its destination.
pub open spec fn spec_classify(packet: Seq<u8>) -> PacketKindModel {
    if packet.len() == 0 {
        PacketKindModel::Skip
    } else {
        let header = match spec_ip_version(packet) {
            Some(IpVersion::Ipv4) => spec_ipv4_header(packet),
            Some(IpVersion::Ipv6) => spec_ipv6_header(packet),
            None => None,
        };
        match header {
            Some(ip) => spec_transport(
                ip,
                packet.subrange(ip.payload_start as int, ip.payload_end as int),
            ),
            None => PacketKindModel::Skip,
        }
    }
}

/// Whether a destination stays out of the tunnel: its address is in the
/// private set, or it has no port.
pub open spec fn spec_stays_local(private: Seq<CidrModel>, dst: AddressModel) -> bool {
    dst.port == 0 || spec_private(private, dst.host)
}

/// What a packet means to the reader: what its headers say, unless its
/// destination stays out of the tunnel.
pub open spec fn spec_packet_kind(packet: Seq<u8>, private: Seq<CidrModel>) -> PacketKindModel {
    let kind = spec_classify(packet);
    match kind.dst() {
        Some(dst) => if spec_stays_local(private, dst) {
            PacketKindModel::Skip
        } else {
            kind
        },
        None => PacketKindModel::Skip,
    }
}

/// Reads the transport header behind an IP header.
fn transport(ip: IpHeader, payload: &[u8]) -> (kind: PacketKind)
    ensures
        kind@ == spec_transport(ip@, payload@),
{
    if ip.protocol == PROTO_UDP {
        match udp_header(payload) {
            Some(udp) => PacketKind::Udp {
                src: Address { host: ip.src, port: udp.src_port },
                dst: Address { host: ip.dst, port: udp.dst_port },
            },
            None => PacketKind::Skip,
        }
    } else if ip.protocol == PROTO_TCP {
        match tcp_header(payload) {
            Some(tcp) => PacketKind::Tcp {
                src: Address { host: ip.src, port: tcp.src_port },
                dst: Address { host: ip.dst, port: tcp.dst_port },
                connect: tcp.syn && !tcp.ack,
                notify: tcp.header_len < payload.len() || tcp.fin,
            },
            None => PacketKind::Skip,
        }
    } else {
        PacketKind::Skip
    }
}

/// Decides what a packet from the device means to the reader.
///
/// The packet is skipped when it is empty, is neither IPv4 nor IPv6, is cut
/// short, carries neither UDP nor TCP, goes to a private address or goes
/// to port zero. Otherwise the result names the two endpoints and, for
/// TCP, whether the segment opens a connection and whether the flow manager
/// has to be told.
pub fn classify(packet: &[u8], private: &PrivateSet) -> (kind: PacketKind)
    ensures
        kind@ == spec_packet_kind(packet@, private@),
{
    if packet.len() == 0 {
        return PacketKind::Skip;
    }
    let header = match ip_version(packet) {
        Some(IpVersion::Ipv4) => ipv4_header(packet),
        Some(IpVersion::Ipv6) => ipv6_header(packet),
        None => None,
    };
    let kind = match header {
        Some(ip) => {
            let payload = slice_subrange(packet, ip.payload_start, ip.payload_end);
            transport(ip, payload)
        },
        None => PacketKind::Skip,
    };
    let local = match &kind {
        PacketKind::Skip => true,
        PacketKind::Udp { src, dst } => dst.port == 0 || private.contains(&dst.host),
        PacketKind::Tcp { src, dst, connect, notify } => dst.port == 0 || private.contains(
            &dst.host,
        ),
    };
    if local {
        PacketKind::Skip
    } else {
        kind
    }
}

/// The kind of a socket of the stack.
#[derive(Clone, Copy, Debug, PartialEq, Eq, Structural)]
pub enum SocketKind {
    Tcp,
    Udp,
}

/// What the reader needs to know of one socket of the stack. An endpoint
/// that the stack has not set is `None`.
#[derive(Debug, PartialEq, Eq)]
pub struct SocketEntry {
    pub kind: SocketKind,
    /// The endpoint that the socket listens on or is bound to.
    pub local: Option<Address>,
    /// The peer of a TCP socket that is connected.
    pub remote: Option<Address>,
}

/// Mathematical value of a [`SocketEntry`].
pub struct SocketEntryModel {
    pub kind: SocketKind,
    pub local: Option<AddressModel>,
    pub remote: Option<AddressModel>,
}

/// Mathematical value of an endpoint that may be unset.
pub open spec fn spec_endpoint(endpoint: Option<Address>) -> Option<AddressModel> {
    match endpoint {
        Some(a) => Some(a@),
        None => None,
    }
}

impl View for SocketEntry {
    type V = SocketEntryModel;

    open spec fn view(&self) -> SocketEntryModel {
        SocketEntryModel {
            kind: self.kind,
            local: spec_endpoint(self.local),
            remote: spec_endpoint(self.remote),
        }
    }
}

/// Mathematical value of a table of sockets.
pub open spec fn spec_table(table: Seq<SocketEntry>) -> Seq<SocketEntryModel> {
    Seq::new(table.len(), |i: int| table[i]@)
}

impl SocketEntryModel {
    /// Whether this is the TCP socket of the connection between the
    /// destination `local` and the source `remote`.
    pub open spec fn is_tcp_flow(self, local: AddressModel, remote: AddressModel) -> bool {
        self.kind == SocketKind::Tcp && self.local == Some(local) && self.remote == Some(
            remote,
        )
    }

    /// Whether this is the UDP socket bound to `endpoint`.
    pub open spec fn is_udp_bound(self, endpoint: AddressModel) -> bool {
        self.kind == SocketKind::Udp && self.local == Some(endpoint)
    }
}

/// What a flow is looked up by.
pub enum Wanted {
    /// The TCP socket with this local and this remote endpoint.
    TcpFlow { local: AddressModel, remote: AddressModel },
    /// The UDP socket bound to this endpoint.
    UdpBound { endpoint: AddressModel },
}

impl Wanted {
    pub open spec fn fits(self, entry: SocketEntryModel) -> bool {
        match self {
            Wanted::TcpFlow { local, remote } => entry.is_tcp_flow(local, remote),
            Wanted::UdpBound { endpoint } => entry.is_udp_bound(endpoint),
        }
    }
}

/// The position of the first socket in the table that fits.
pub open spec fn spec_find(table: Seq<SocketEntryModel>, wanted: Wanted) -> Option<nat>
    decreases table.len(),
{
    if table.len() == 0 {
        None
    } else {
        match spec_find(table.drop_last(), wanted) {
            Some(i) => Some(i),
            None => if wanted.fits(table.last()) {
                Some((table.len() - 1) as nat)
            } else {
                None
            },
        }
    }
}

/// What is found is the first socket that fits; nothing is found exactly
/// when no socket fits.
pub proof fn lemma_find_first(table: Seq<SocketEntryModel>, wanted: Wanted)
    ensures
        match spec_find(table, wanted) {
            Some(i) => i < table.len() && wanted.fits(table[i as int]) && forall|j: int|
                0 <= j < i ==> !wanted.fits(#[trigger] table[j]),
            None => forall|j: int| 0 <= j < table.len() ==> !wanted.fits(#[trigger] table[j]),
        },
    decreases table.len(),
{
    if table.len() > 0 {
        lemma_find_first(table.drop_last(), wanted);
        assert forall|j: int| 0 <= j < table.len() - 1 implies table.drop_last()[j]
            == table[j] by {}
        match spec_find(table.drop_last(), wanted) {
            Some(i) => {
                assert(table.drop_last()[i as int] == table[i as int]);
                assert forall|j: int| 0 <= j < i implies !wanted.fits(#[trigger] table[j]) by {
                    assert(table.drop_last()[j] == table[j]);
                }
            },
            None => {
                assert forall|j: int| 0 <= j < table.len() - 1 implies !wanted.fits(
                    #[trigger] table[j],
                ) by {
                    assert(table.drop_last()[j] == table[j]);
                }
            },
        }
    }
}

/// Looking a socket up in two tables, one behind the other, finds it in
/// the first if it is there, and else in the second.
pub proof fn lemma_find_append(a: Seq<SocketEntryModel>, b: Seq<SocketEntryModel>, wanted: Wanted)
    ensures
        spec_find(a + b, wanted) == match spec_find(a, wanted) {
            Some(i) => Some(i),
            None => match spec_find(b, wanted) {
                Some(i) => Some(a.len() + i),
                None => None,
            },
        },
    decreases b.len(),
{
    if b.len() == 0 {
        assert(a + b =~= a);
    } else {
        lemma_find_append(a, b.drop_last(), wanted);
        assert((a + b).drop_last() =~= a + b.drop_last());
        assert((a + b).last() == b.last());
    }
}

/// Whether two endpoints that may be unset are the same.
fn same_endpoint(entry: &Option<Address>, wanted: &Address) -> (same: bool)
    ensures
        same == (spec_endpoint(*entry) == Some(wanted@)),
{
    match entry {
        Some(a) => a.same(wanted),
        None => false,
    }
}

/// The position of the first TCP socket in the table whose local endpoint is
/// `local` and whose remote endpoint is `remote`.
pub fn find_tcp(table: &[SocketEntry], local: &Address, remote: &Address) -> (found: Option<usize>)
    ensures
        found matches Some(i) ==> i < table@.len(),
        spec_find(spec_table(table@), Wanted::TcpFlow { local: local@, remote: remote@ }) == (
        match found {
            Some(i) => Some(i as nat),
            None => None,
        }),
{
    let ghost wanted = Wanted::TcpFlow { local: local@, remote: remote@ };
    let ghost all = spec_table(table@);
    let mut i: usize = 0;
    while i < table.len()
        invariant
            i <= table@.len(),
            all == spec_table(table@),
            wanted == (Wanted::TcpFlow { local: local@, remote: remote@ }),
            forall|j: int| 0 <= j < i ==> !wanted.fits(#[trigger] all[j]),
        decreases table@.len() - i,
    {
        let entry = &table[i];
        let fits = match entry.kind {
            SocketKind::Tcp => same_endpoint(&entry.local, local) && same_endpoint(
                &entry.remote,
                remote,
            ),
            SocketKind::Udp => false,
        };
        if fits {
            proof {
                assert(wanted.fits(all[i as int]));
                lemma_find_first(all, wanted);
            }
            return Some(i);
        }
        i += 1;
    }
    proof {
        lemma_find_first(all, wanted);
    }
    None
}

/// The position of the first UDP socket in the table that is bound to
/// `endpoint`.
pub fn find_udp(table: &[SocketEntry], endpoint: &Address) -> (found: Option<usize>)
    ensures
        found matches Some(i) ==> i < table@.len(),
        spec_find(spec_table(table@), Wanted::UdpBound { endpoint: endpoint@ }) == (match found {
            Some(i) => Some(i as nat),
            None => None,
        }),
{
    let ghost wanted = Wanted::UdpBound { endpoint: endpoint@ };
    let ghost all = spec_table(table@);
    let mut i: usize = 0;
    while i < table.len()
        invariant
            i <= table@.len(),
            all == spec_table(table@),
            wanted == (Wanted::UdpBound { endpoint: endpoint@ }),
            forall|j: int| 0 <= j < i ==> !wanted.fits(#[trigger] all[j]),
        decreases table@.len() - i,
    {
        let entry = &table[i];
        let fits = match entry.kind {
            SocketKind::Udp => same_endpoint(&entry.local, endpoint),
            SocketKind::Tcp => false,
        };
        if fits {
            proof {
                assert(wanted.fits(all[i as int]));
                lemma_find_first(all, wanted);
            }
            return Some(i);
        }
        i += 1;
    }
    proof {
        lemma_find_first(all, wanted);
    }
    None
}

} // verus!
