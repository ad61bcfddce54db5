use crate::address::{Address, AddressModel};
use crate::private::{spec_private, CidrModel, PrivateSet};
use crate::tun::{
    classify, find_tcp, find_udp, lemma_find_append, lemma_find_first, spec_classify, spec_find,
    spec_packet_kind, spec_table, PacketKind, PacketKindModel, SocketEntry, SocketEntryModel,
    SocketKind, Wanted,
};
use vstd::prelude::*;

verus! {

/// What one round of reading the device asks of the stack.
///
/// Sockets are named by position: a position below the length of the table
/// that the reader was given names a socket of that table, and the position
/// `table.len() + k` names the `k`-th socket of `created`.
#[derive(Debug, PartialEq, Eq)]
pub struct ReadAll {
    /// The sockets to add to the stack, in this order: a TCP socket listens
    /// on its local endpoint, a UDP socket is bound to it.
    pub created: Vec<SocketEntry>,
    /// The UDP sockets that datagrams arrived for, one entry per datagram.
    pub udp_handles: Vec<usize>,
    /// The TCP sockets whose flows have data or a FIN to look at, one entry
    /// per such segment.
    pub tcp_handles: Vec<usize>,
    /// For every packet that was read, whether it goes on into the stack.
    pub forward: Vec<bool>,
}

/// Mathematical value of a [`ReadAll`].
pub struct ReadAllModel {
    pub created: Seq<SocketEntryModel>,
    pub udp_handles: Seq<usize>,
    pub tcp_handles: Seq<usize>,
    pub forward: Seq<bool>,
}

impl View for ReadAll {
    type V = ReadAllModel;

    open spec fn view(&self) -> ReadAllModel {
        ReadAllModel {
            created: spec_table(self.created@),
            udp_handles: self.udp_handles@,
            tcp_handles: self.tcp_handles@,
            forward: self.forward@,
        }
    }
}

/// The bytes of every packet of a batch.
pub open spec fn spec_packets(packets: Seq<Vec<u8>>) -> Seq<Seq<u8>> {
    Seq::new(packets.len(), |i: int| packets[i]@)
}

/// A TCP socket that listens on `dst`.
pub open spec fn spec_listener(dst: AddressModel) -> SocketEntryModel {
    SocketEntryModel { kind: SocketKind::Tcp, local: Some(dst), remote: None }
}

/// A UDP socket that is bound to `dst`.
pub open spec fn spec_bound(dst: AddressModel) -> SocketEntryModel {
    SocketEntryModel { kind: SocketKind::Udp, local: Some(dst), remote: None }
}

/// The result of a round that has read nothing.
pub open spec fn spec_nothing_read() -> ReadAllModel {
    ReadAllModel {
        created: Seq::empty(),
        udp_handles: Seq::empty(),
        tcp_handles: Seq::empty(),
        forward: Seq::empty(),
    }
}

/// What one more packet adds to the result of a round.
///
/// A packet that is skipped is not forwarded and changes nothing else. A
/// datagram names the UDP socket bound to its destination, which is created
/// if there is none. A segment that opens a connection gets a new listening
/// socket; any other segment belongs to the socket whose local endpoint is
/// its destination and whose remote endpoint is its source, if there is
/// one. A TCP socket is named only for a segment with data or FIN.
pub open spec fn spec_read_one(
    so_far: ReadAllModel,
    table: Seq<SocketEntryModel>,
    private: Seq<CidrModel>,
    packet: Seq<u8>,
) -> ReadAllModel {
    let all = table + so_far.created;
    let next = all.len() as usize;
    match spec_packet_kind(packet, private) {
        PacketKindModel::Skip => ReadAllModel { forward: so_far.forward.push(false), ..so_far },
        PacketKindModel::Udp { src, dst } => match spec_find(
            all,
            Wanted::UdpBound { endpoint: dst },
        ) {
            Some(i) => ReadAllModel {
                udp_handles: so_far.udp_handles.push(i as usize),
                forward: so_far.forward.push(true),
                ..so_far
            },
            None => ReadAllModel {
                created: so_far.created.push(spec_bound(dst)),
                udp_handles: so_far.udp_handles.push(next),
                forward: so_far.forward.push(true),
                ..so_far
            },
        },
        PacketKindModel::Tcp { src, dst, connect, notify } => if connect {
            ReadAllModel {
                created: so_far.created.push(spec_listener(dst)),
                tcp_handles: if notify {
                    so_far.tcp_handles.push(next)
                } else {
                    so_far.tcp_handles
                },
                forward: so_far.forward.push(true),
                ..so_far
            }
        } else {
            match spec_find(all, Wanted::TcpFlow { local: dst, remote: src }) {
                Some(i) => ReadAllModel {
                    tcp_handles: if notify {
                        so_far.tcp_handles.push(i as usize)
                    } else {
                        so_far.tcp_handles
                    },
                    forward: so_far.forward.push(true),
                    ..so_far
                },
                None => ReadAllModel { forward: so_far.forward.push(true), ..so_far },
            }
        },
    }
}

/// The result of a round that read `packets`, in this order, while the stack
/// held the sockets of `table`.
pub open spec fn spec_read_all(
    packets: Seq<Seq<u8>>,
    private: Seq<CidrModel>,
    table: Seq<SocketEntryModel>,
) -> ReadAllModel
    decreases packets.len(),
{
    if packets.len() == 0 {
        spec_nothing_read()
    } else {
        spec_read_one(
            spec_read_all(packets.drop_last(), private, table),
            table,
            private,
            packets.last(),
        )
    }
}

/// Looks a socket up among those of the stack and those that this round
/// has created.
fn find_udp_in(table: &[SocketEntry], created: &Vec<SocketEntry>, dst: &Address) -> (found: Option<
    usize,
>)
    requires
        table@.len() + created@.len() <= usize::MAX,
    ensures
        spec_find(
            spec_table(table@) + spec_table(created@),
            Wanted::UdpBound { endpoint: dst@ },
        ) == (match found {
            Some(i) => Some(i as nat),
            None => None,
        }),
{
    proof {
        lemma_find_append(
            spec_table(table@),
            spec_table(created@),
            Wanted::UdpBound { endpoint: dst@ },
        );
    }
    match find_udp(table, dst) {
        Some(i) => Some(i),
        None => match find_udp(created.as_slice(), dst) {
            Some(i) => Some(table.len() + i),
            None => None,
        },
    }
}

/// Looks a flow up among the sockets of the stack and those that this round
/// has created.
fn find_tcp_in(
    table: &[SocketEntry],
    created: &Vec<SocketEntry>,
    local: &Address,
    remote: &Address,
) -> (found: Option<usize>)
    requires
        table@.len() + created@.len() <= usize::MAX,
    ensures
        spec_find(
            spec_table(table@) + spec_table(created@),
            Wanted::TcpFlow { local: local@, remote: remote@ },
        ) == (match found {
            Some(i) => Some(i as nat),
            None => None,
        }),
{
    proof {
        lemma_find_append(
            spec_table(table@),
            spec_table(created@),
            Wanted::TcpFlow { local: local@, remote: remote@ },
        );
    }
    match find_tcp(table, local, remote) {
        Some(i) => Some(i),
        None => match find_tcp(created.as_slice(), local, remote) {
            Some(i) => Some(table.len() + i),
            None => None,
        },
    }
}

/// Reads one round of packets from the device.
///
/// `packets` are the frames that the device had, in the order in which
/// they came; `table` holds the sockets of the stack, in the order in which
/// the stack lists them. The result says which sockets to create, which
/// sockets the flow managers have to look at, and which packets go on into
/// the stack. No packet ends the round: one that cannot be read is skipped.
pub fn read_all(packets: &[Vec<u8>], private: &PrivateSet, table: &[SocketEntry]) -> (result:
    ReadAll)
    requires
        table@.len() + packets@.len() <= usize::MAX,
    ensures
        result@ == spec_read_all(spec_packets(packets@), private@, spec_table(table@)),
{
    let mut result = ReadAll {
        created: Vec::new(),
        udp_handles: Vec::new(),
        tcp_handles: Vec::new(),
        forward: Vec::new(),
    };
    let ghost all_packets = spec_packets(packets@);
    let ghost sockets = spec_table(table@);
    assert(result@.created =~= Seq::<SocketEntryModel>::empty());
    assert(all_packets.take(0) =~= Seq::<Seq<u8>>::empty());
    let mut k: usize = 0;
    while k < packets.len()
        invariant
            k <= packets@.len(),
            table@.len() + packets@.len() <= usize::MAX,
            all_packets == spec_packets(packets@),
            sockets == spec_table(table@),
            result.created@.len() <= k,
            result@ == spec_read_all(all_packets.take(k as int), private@, sockets),
        decreases packets@.len() - k,
    {
        let ghost so_far = result@;
        let ghost all = sockets + so_far.created;
        proof {
            assert(all_packets.take(k + 1).drop_last() =~= all_packets.take(k as int));
            assert(all_packets.take(k + 1).last() == packets@[k as int]@);
        }
        let next = table.len() + result.created.len();
        let kind = classify(packets[k].as_slice(), private);
        match kind {
            PacketKind::Skip => {
                result.forward.push(false);
            },
            PacketKind::Udp { src, dst } => {
                match find_udp_in(table, &result.created, &dst) {
                    Some(i) => {
                        result.udp_handles.push(i);
                    },
                    None => {
                        result.created.push(
                            SocketEntry { kind: SocketKind::Udp, local: Some(dst), remote: None },
                        );
                        result.udp_handles.push(next);
                        assert(spec_table(result.created@) =~= so_far.created.push(
                            spec_bound(dst@),
                        ));
                    },
                }
                result.forward.push(true);
            },
            PacketKind::Tcp { src, dst, connect, notify } => {
                if connect {
                    result.created.push(
                        SocketEntry { kind: SocketKind::Tcp, local: Some(dst), remote: None },
                    );
                    assert(spec_table(result.created@) =~= so_far.created.push(
                        spec_listener(dst@),
                    ));
                    if notify {
                        result.tcp_handles.push(next);
                    }
                } else {
                    match find_tcp_in(table, &result.created, &dst, &src) {
                        Some(i) => {
                            if notify {
                                result.tcp_handles.push(i);
                            }
                        },
                        None => {},
                    }
                }
                result.forward.push(true);
            },
        }
        assert(result@ == spec_read_one(so_far, sockets, private@, packets@[k as int]@));
        k += 1;
    }
    assert(all_packets.take(packets@.len() as int) =~= all_packets);
    result
}

/// A packet whose destination is in the private set is skipped, whatever
/// else its headers say; so is one that goes to port zero.
pub proof fn law_private_destination_is_skipped(packet: Seq<u8>, private: Seq<CidrModel>)
    ensures
        spec_classify(packet).dst() matches Some(dst) && (spec_private(private, dst.host)
            || dst.port == 0) ==> spec_packet_kind(packet, private) is Skip,
        spec_classify(packet).dst() matches Some(dst) && !spec_private(private, dst.host)
            && dst.port != 0 ==> spec_packet_kind(packet, private) == spec_classify(packet),
{
}

/// A packet that is skipped leaves no trace in a round but the note that it
/// is not forwarded: no socket is created for it and none is named.
pub proof fn law_skipped_packet_changes_nothing(
    so_far: ReadAllModel,
    table: Seq<SocketEntryModel>,
    private: Seq<CidrModel>,
    packet: Seq<u8>,
)
    requires
        spec_packet_kind(packet, private) is Skip,
    ensures
        spec_read_one(so_far, table, private, packet) == (ReadAllModel {
            forward: so_far.forward.push(false),
            ..so_far
        }),
{
}

/// A round says of every packet whether it is forwarded, and forwards
/// exactly those that are not skipped.
pub proof fn law_forward_unless_skipped(
    packets: Seq<Seq<u8>>,
    private: Seq<CidrModel>,
    table: Seq<SocketEntryModel>,
)
    ensures
        spec_read_all(packets, private, table).forward.len() == packets.len(),
        forall|k: int|
            0 <= k < packets.len() ==> #[trigger] spec_read_all(packets, private, table).forward[k]
                == !(spec_packet_kind(packets[k], private) is Skip),
    decreases packets.len(),
{
    if packets.len() > 0 {
        law_forward_unless_skipped(packets.drop_last(), private, table);
        let before = spec_read_all(packets.drop_last(), private, table);
        let after = spec_read_all(packets, private, table);
        assert(after.forward == before.forward.push(
            !(spec_packet_kind(packets.last(), private) is Skip),
        ));
        assert forall|k: int| 0 <= k < packets.len() implies #[trigger] after.forward[k] == !(
        spec_packet_kind(packets[k], private) is Skip) by {
            if k < packets.len() - 1 {
                assert(packets.drop_last()[k] == packets[k]);
            }
        }
    }
}

/// Every socket that a round names exists once the round's sockets have
/// been created: its position lies below the length of the table plus the
/// number of sockets created.
pub proof fn law_handles_name_sockets(
    packets: Seq<Seq<u8>>,
    private: Seq<CidrModel>,
    table: Seq<SocketEntryModel>,
)
    requires
        table.len() + packets.len() <= usize::MAX,
    ensures
        spec_read_all(packets, private, table).created.len() <= packets.len(),
        forall|j: int|
            0 <= j < spec_read_all(packets, private, table).udp_handles.len()
                ==> #[trigger] spec_read_all(packets, private, table).udp_handles[j] < table.len()
                + spec_read_all(packets, private, table).created.len(),
        forall|j: int|
            0 <= j < spec_read_all(packets, private, table).tcp_handles.len()
                ==> #[trigger] spec_read_all(packets, private, table).tcp_handles[j] < table.len()
                + spec_read_all(packets, private, table).created.len(),
    decreases packets.len(),
{
    if packets.len() > 0 {
        law_handles_name_sockets(packets.drop_last(), private, table);
        let before = spec_read_all(packets.drop_last(), private, table);
        let all = table + before.created;
        match spec_packet_kind(packets.last(), private) {
            PacketKindModel::Skip => {},
            PacketKindModel::Udp { src, dst } => {
                lemma_find_first(all, Wanted::UdpBound { endpoint: dst });
            },
            PacketKindModel::Tcp { src, dst, connect, notify } => {
                lemma_find_first(all, Wanted::TcpFlow { local: dst, remote: src });
            },
        }
    }
}

/// Datagrams for one destination share one socket: once a datagram has
/// had a socket bound for its destination, a later datagram of the same
/// round to that destination names that socket and creates none.
pub proof fn law_udp_socket_is_shared(
    so_far: ReadAllModel,
    table: Seq<SocketEntryModel>,
    private: Seq<CidrModel>,
    first: Seq<u8>,
    second: Seq<u8>,
)
    requires
        table.len() + so_far.created.len() < usize::MAX,
        spec_packet_kind(first, private) is Udp,
        spec_packet_kind(second, private) is Udp,
        spec_packet_kind(first, private).dst() == spec_packet_kind(second, private).dst(),
    ensures
        ({
            let one = spec_read_one(so_far, table, private, first);
            let two = spec_read_one(one, table, private, second);
            &&& two.created == one.created
            &&& one.udp_handles == so_far.udp_handles.push(one.udp_handles.last())
            &&& two.udp_handles == one.udp_handles.push(one.udp_handles.last())
        }),
{
    let dst = spec_packet_kind(first, private).dst()->0;
    let wanted = Wanted::UdpBound { endpoint: dst };
    let all = table + so_far.created;
    let one = spec_read_one(so_far, table, private, first);
    lemma_find_first(all, wanted);
    lemma_find_first(table + one.created, wanted);
    match spec_find(all, wanted) {
        Some(i) => {
            assert(one.created == so_far.created);
        },
        None => {
            let grown = table + one.created;
            assert(grown =~= all.push(spec_bound(dst)));
            assert(wanted.fits(grown[all.len() as int]));
            assert forall|j: int| 0 <= j < all.len() implies !wanted.fits(#[trigger] grown[j]) by {
                assert(grown[j] == all[j]);
            }
        },
    }
}

} // verus!
