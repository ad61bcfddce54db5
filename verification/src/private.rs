use crate::address::{Host, HostModel};
use vstd::prelude::*;

verus! {

/// A block of addresses: those that agree with `network` in their first
/// `prefix` bits.
#[derive(Clone, Debug, PartialEq, Eq)]
pub struct Cidr {
    pub network: Host,
    pub prefix: u8,
}

/// Mathematical value of a [`Cidr`].
pub struct CidrModel {
    pub network: HostModel,
    pub prefix: u8,
}

impl View for Cidr {
    type V = CidrModel;

    open spec fn view(&self) -> CidrModel {
        CidrModel { network: self.network@, prefix: self.prefix }
    }
}

/// The number that a byte is divided by to keep its first `bits` bits.
pub open spec fn spec_divisor(bits: int) -> int {
    if bits == 1 {
        128
    } else if bits == 2 {
        64
    } else if bits == 3 {
        32
    } else if bits == 4 {
        16
    } else if bits == 5 {
        8
    } else if bits == 6 {
        4
    } else if bits == 7 {
        2
    } else {
        1
    }
}

/// Whether two byte strings of one length agree in their first `prefix`
/// bits: in the whole bytes of the prefix, and in the leading bits of the
/// byte that the prefix ends in.
pub open spec fn spec_prefix_match(net: Seq<u8>, addr: Seq<u8>, prefix: u8) -> bool {
    let full = prefix as int / 8;
    let rest = prefix as int % 8;
    &&& net.len() == addr.len()
    &&& prefix <= 8 * net.len()
    &&& forall|i: int| 0 <= i < full ==> net[i] == addr[i]
    &&& rest > 0 ==> net[full] as int / spec_divisor(rest) == addr[full] as int / spec_divisor(rest)
}

impl CidrModel {
    /// Whether the block holds `host`: both are addresses of one family and
    /// agree in the prefix. A name is in no block.
    pub open spec fn contains(self, host: HostModel) -> bool {
        match (self.network, host) {
            (HostModel::V4(n), HostModel::V4(a)) => spec_prefix_match(n, a, self.prefix),
            (HostModel::V6(n), HostModel::V6(a)) => spec_prefix_match(n, a, self.prefix),
            _ => false,
        }
    }
}

/// Whether one of the blocks holds `host`.
pub open spec fn spec_private(blocks: Seq<CidrModel>, host: HostModel) -> bool {
    exists|i: int| 0 <= i < blocks.len() && (#[trigger] blocks[i]).contains(host)
}

/// The blocks that a fresh `PrivateSet::standard` holds: this network,
/// the three private ranges, loopback, link-local, multicast and broadcast.
pub open spec fn spec_standard_blocks() -> Seq<CidrModel> {
    seq![
        CidrModel { network: HostModel::V4(seq![0u8, 0u8, 0u8, 0u8]), prefix: 8 },
        CidrModel { network: HostModel::V4(seq![10u8, 0u8, 0u8, 0u8]), prefix: 8 },
        CidrModel { network: HostModel::V4(seq![127u8, 0u8, 0u8, 0u8]), prefix: 8 },
        CidrModel { network: HostModel::V4(seq![169u8, 254u8, 0u8, 0u8]), prefix: 16 },
        CidrModel { network: HostModel::V4(seq![172u8, 16u8, 0u8, 0u8]), prefix: 12 },
        CidrModel { network: HostModel::V4(seq![192u8, 168u8, 0u8, 0u8]), prefix: 16 },
        CidrModel { network: HostModel::V4(seq![224u8, 0u8, 0u8, 0u8]), prefix: 4 },
        CidrModel { network: HostModel::V4(seq![255u8, 255u8, 255u8, 255u8]), prefix: 32 },
    ]
}

/// The number that a byte is divided by to keep its first `bits` bits.
pub fn divisor(bits: u8) -> (d: u8)
    ensures
        d == spec_divisor(bits as int),
        d >= 1,
{
    if bits == 1 {
        128
    } else if bits == 2 {
        64
    } else if bits == 3 {
        32
    } else if bits == 4 {
        16
    } else if bits == 5 {
        8
    } else if bits == 6 {
        4
    } else if bits == 7 {
        2
    } else {
        1
    }
}

/// Whether two byte strings of one length agree in their first `prefix`
/// bits.
pub fn prefix_match(net: &[u8], addr: &[u8], prefix: u8) -> (same: bool)
    ensures
        same == spec_prefix_match(net@, addr@, prefix),
{
    if net.len() != addr.len() {
        return false;
    }
    let full = (prefix / 8) as usize;
    let rest = prefix % 8;
    if net.len() < full || (net.len() == full && rest > 0) {
        return false;
    }
    let mut i: usize = 0;
    while i < full
        invariant
            i <= full <= net@.len(),
            full == prefix as int / 8,
            net@.len() == addr@.len(),
            forall|k: int| 0 <= k < i ==> net@[k] == addr@[k],
        decreases full - i,
    {
        if net[i] != addr[i] {
            assert(net@[i as int] != addr@[i as int]);
            return false;
        }
        i += 1;
    }
    if rest > 0 {
        let d = divisor(rest);
        net[full] / d == addr[full] / d
    } else {
        true
    }
}

impl Cidr {
    /// Whether the block holds `host`.
    pub fn contains(&self, host: &Host) -> (inside: bool)
        ensures
            inside == self@.contains(host@),
    {
        match (&self.network, host) {
            (Host::V4(n), Host::V4(a)) => prefix_match(n.as_slice(), a.as_slice(), self.prefix),
            (Host::V6(n), Host::V6(a)) => prefix_match(n.as_slice(), a.as_slice(), self.prefix),
            _ => false,
        }
    }
}

/// The destinations that stay out of the tunnel.
#[derive(Debug)]
pub struct PrivateSet {
    blocks: Vec<Cidr>,
}

impl View for PrivateSet {
    type V = Seq<CidrModel>;

    closed spec fn view(&self) -> Seq<CidrModel> {
        Seq::new(self.blocks@.len(), |i: int| self.blocks@[i]@)
    }
}

impl PrivateSet {
    /// A set that holds nothing.
    pub fn new() -> (set: PrivateSet)
        ensures
            set@ == Seq::<CidrModel>::empty(),
    {
        let set = PrivateSet { blocks: Vec::new() };
        assert(set@ =~= Seq::<CidrModel>::empty());
        set
    }

    /// The set of the IPv4 ranges that never leave the local network.
    pub fn standard() -> (set: PrivateSet)
        ensures
            set@ == spec_standard_blocks(),
    {
        let mut blocks: Vec<Cidr> = Vec::new();
        blocks.push(Cidr { network: Host::V4([0, 0, 0, 0]), prefix: 8 });
        blocks.push(Cidr { network: Host::V4([10, 0, 0, 0]), prefix: 8 });
        blocks.push(Cidr { network: Host::V4([127, 0, 0, 0]), prefix: 8 });
        blocks.push(Cidr { network: Host::V4([169, 254, 0, 0]), prefix: 16 });
        blocks.push(Cidr { network: Host::V4([172, 16, 0, 0]), prefix: 12 });
        blocks.push(Cidr { network: Host::V4([192, 168, 0, 0]), prefix: 16 });
        blocks.push(Cidr { network: Host::V4([224, 0, 0, 0]), prefix: 4 });
        blocks.push(Cidr { network: Host::V4([255, 255, 255, 255]), prefix: 32 });
        let set = PrivateSet { blocks };
        proof {
            let want = spec_standard_blocks();
            assert(set@.len() == want.len());
            assert forall|i: int| 0 <= i < want.len() implies set@[i] == want[i] by {
                assert(set.blocks@[i]@.network->V4_0 =~= want[i].network->V4_0);
            }
            assert(set@ =~= want);
        }
        set
    }

    /// Adds a block to the set.
    pub fn insert(&mut self, block: Cidr)
        ensures
            final(self)@ == old(self)@.push(block@),
    {
        self.blocks.push(block);
        assert(self@ =~= old(self)@.push(block@));
    }

    /// Whether one of the blocks holds `host`.
    pub fn contains(&self, host: &Host) -> (inside: bool)
        ensures
            inside == spec_private(self@, host@),
    {
        let mut i: usize = 0;
        while i < self.blocks.len()
            invariant
                i <= self.blocks@.len(),
                forall|k: int| 0 <= k < i ==> !(#[trigger] self@[k]).contains(host@),
            decreases self.blocks@.len() - i,
        {
            if self.blocks[i].contains(host) {
                assert(self@[i as int].contains(host@));
                return true;
            }
            i += 1;
        }
        false
    }
}

/// An IPv4 address is in the standard set exactly when it lies in one of
/// its ranges: 0.0.0.0/8, 10.0.0.0/8, 127.0.0.0/8, 169.254.0.0/16,
/// 172.16.0.0/12, 192.168.0.0/16, 224.0.0.0/4 or 255.255.255.255; no IPv6
/// address and no name is in it.
pub proof fn law_standard_ranges(host: HostModel)
    requires
        host.wf(),
    ensures
        spec_private(spec_standard_blocks(), host) <==> (host matches HostModel::V4(a) && {
            ||| a[0] == 0
            ||| a[0] == 10
            ||| a[0] == 127
            ||| (a[0] == 169 && a[1] == 254)
            ||| (a[0] == 172 && 16 <= a[1] <= 31)
            ||| (a[0] == 192 && a[1] == 168)
            ||| 224 <= a[0] <= 239
            ||| (a[0] == 255 && a[1] == 255 && a[2] == 255 && a[3] == 255)
        }),
{
    let blocks = spec_standard_blocks();
    match host {
        HostModel::V4(a) => {
            assert(blocks[0].contains(host) <==> a[0] == 0);
            assert(blocks[1].contains(host) <==> a[0] == 10);
            assert(blocks[2].contains(host) <==> a[0] == 127);
            assert(blocks[3].contains(host) <==> (a[0] == 169 && a[1] == 254));
            assert(blocks[4].contains(host) <==> (a[0] == 172 && 16 <= a[1] <= 31));
            assert(blocks[5].contains(host) <==> (a[0] == 192 && a[1] == 168));
            assert(blocks[6].contains(host) <==> 224 <= a[0] <= 239) by {
                let n = blocks[6].network->V4_0;
                assert(n[0] == 224);
                assert(spec_divisor(4) == 16);
                assert(spec_prefix_match(n, a, 4) <==> n[0] as int / 16 == a[0] as int / 16);
            }
            assert(blocks[7].contains(host) <==> (a[0] == 255 && a[1] == 255 && a[2] == 255
                && a[3] == 255));
        },
        _ => {},
    }
}

} // verus!
