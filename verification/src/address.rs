use vstd::prelude::*;

verus! {

/// The host part of a destination.
#[derive(Clone, Debug, PartialEq, Eq)]
pub enum Host {
    /// Four octets of an IPv4 address, in network order.
    V4([u8; 4]),
    /// A domain name, not terminated.
    Domain(Vec<u8>),
    /// Sixteen octets of an IPv6 address, in network order.
    V6([u8; 16]),
}

/// A destination or peer: a host and a port.
#[derive(Clone, Debug, PartialEq, Eq)]
pub struct Address {
    pub host: Host,
    pub port: u16,
}

/// Mathematical value of a [`Host`].
pub enum HostModel {
    V4(Seq<u8>),
    Domain(Seq<u8>),
    V6(Seq<u8>),
}

/// Mathematical value of an [`Address`].
pub struct AddressModel {
    pub host: HostModel,
    pub port: u16,
}

impl HostModel {
    /// The octets of the host as they travel on the wire.
    pub open spec fn octets(self) -> Seq<u8> {
        match self {
            HostModel::V4(o) => o,
            HostModel::Domain(n) => n,
            HostModel::V6(o) => o,
        }
    }

    /// An IPv4 host has four octets, an IPv6 host sixteen, and the length of
    /// a domain name fits in one byte.
    pub open spec fn wf(self) -> bool {
        match self {
            HostModel::V4(o) => o.len() == 4,
            HostModel::Domain(n) => n.len() <= 255,
            HostModel::V6(o) => o.len() == 16,
        }
    }
}

impl AddressModel {
    pub open spec fn wf(self) -> bool {
        self.host.wf()
    }

    /// Whether the host is an IP address rather than a name.
    pub open spec fn is_ip(self) -> bool {
        !(self.host is Domain)
    }
}

impl View for Host {
    type V = HostModel;

    open spec fn view(&self) -> HostModel {
        match self {
            Host::V4(a) => HostModel::V4(a@),
            Host::Domain(n) => HostModel::Domain(n@),
            Host::V6(a) => HostModel::V6(a@),
        }
    }
}

impl View for Address {
    type V = AddressModel;

    open spec fn view(&self) -> AddressModel {
        AddressModel { host: self.host@, port: self.port }
    }
}

/// Whether two byte strings hold the same bytes.
pub fn same_bytes(a: &[u8], b: &[u8]) -> (same: bool)
    ensures
        same == (a@ == b@),
{
    if a.len() != b.len() {
        return false;
    }
    let mut i: usize = 0;
    while i < a.len()
        invariant
            a@.len() == b@.len(),
            i <= a@.len(),
            forall|k: int| 0 <= k < i ==> a@[k] == b@[k],
        decreases a@.len() - i,
    {
        if a[i] != b[i] {
            return false;
        }
        i += 1;
    }
    assert(a@ =~= b@);
    true
}

impl Host {
    /// A host is well formed when its domain name, if it is one, is at most
    /// 255 bytes long.
    pub open spec fn wf(&self) -> bool {
        self@.wf()
    }

    pub fn is_wf(&self) -> (ok: bool)
        ensures
            ok == self.wf(),
    {
        match self {
            Host::V4(_) => true,
            Host::Domain(name) => name.len() <= 255,
            Host::V6(_) => true,
        }
    }

    /// Whether both hosts are of the same kind and hold the same octets.
    pub fn same(&self, other: &Host) -> (same: bool)
        ensures
            same == (self@ == other@),
    {
        match (self, other) {
            (Host::V4(a), Host::V4(b)) => same_bytes(a.as_slice(), b.as_slice()),
            (Host::Domain(a), Host::Domain(b)) => same_bytes(a.as_slice(), b.as_slice()),
            (Host::V6(a), Host::V6(b)) => same_bytes(a.as_slice(), b.as_slice()),
            _ => false,
        }
    }

    /// A copy that holds the same octets.
    pub fn duplicate(&self) -> (copy: Host)
        ensures
            copy@ == self@,
    {
        match self {
            Host::V4(a) => Host::V4(*a),
            Host::Domain(name) => {
                let mut bytes: Vec<u8> = Vec::new();
                let mut i: usize = 0;
                while i < name.len()
                    invariant
                        i <= name@.len(),
                        bytes@ == name@.take(i as int),
                    decreases name@.len() - i,
                {
                    bytes.push(name[i]);
                    assert(name@.take(i as int).push(name@[i as int]) =~= name@.take(i + 1));
                    i += 1;
                }
                assert(name@.take(name@.len() as int) =~= name@);
                Host::Domain(bytes)
            },
            Host::V6(a) => Host::V6(*a),
        }
    }
}

impl Address {
    pub open spec fn wf(&self) -> bool {
        self@.wf()
    }

    pub fn new(host: Host, port: u16) -> (address: Address)
        ensures
            address.host == host,
            address.port == port,
    {
        Address { host, port }
    }

    /// An IPv4 destination.
    pub fn v4(octets: [u8; 4], port: u16) -> (address: Address)
        ensures
            address@ == (AddressModel { host: HostModel::V4(octets@), port }),
            address.wf(),
    {
        Address { host: Host::V4(octets), port }
    }

    /// An IPv6 destination.
    pub fn v6(octets: [u8; 16], port: u16) -> (address: Address)
        ensures
            address@ == (AddressModel { host: HostModel::V6(octets@), port }),
            address.wf(),
    {
        Address { host: Host::V6(octets), port }
    }

    pub fn is_wf(&self) -> (ok: bool)
        ensures
            ok == self.wf(),
    {
        self.host.is_wf()
    }

    /// Whether the host is an IP address rather than a name.
    pub fn is_ip(&self) -> (ip: bool)
        ensures
            ip == self@.is_ip(),
    {
        match self.host {
            Host::Domain(_) => false,
            _ => true,
        }
    }

    /// Whether both addresses name the same host and port.
    pub fn same(&self, other: &Address) -> (same: bool)
        ensures
            same == (self@ == other@),
    {
        self.port == other.port && self.host.same(&other.host)
    }

    /// A copy that names the same host and port.
    pub fn duplicate(&self) -> (copy: Address)
        ensures
            copy@ == self@,
    {
        Address { host: self.host.duplicate(), port: self.port }
    }
}

} // verus!
