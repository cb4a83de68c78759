//! IP addresses and network prefixes, held as plain integers.

use vstd::arithmetic::power2::pow2;
use vstd::prelude::*;

verus! {

/// An IPv4 or IPv6 address, as its big-endian integer value.
#[derive(Clone, Copy, Debug, PartialEq, Eq, Hash, Structural)]
pub enum IpAddress {
    V4(u32),
    V6(u128),
}

/// A network prefix: an address and the number of leading bits that name the network.
/// The address is kept as written; bits past the prefix take no part in matching.
#[derive(Clone, Copy, Debug, PartialEq, Eq, Hash, Structural)]
pub struct IpNet {
    pub addr: IpAddress,
    pub prefix: u8,
}

impl IpAddress {
    /// Number of bits in an address of this family.
    pub open spec fn bits(self) -> nat {
        match self {
            IpAddress::V4(_) => 32,
            IpAddress::V6(_) => 128,
        }
    }

    /// The address as a natural number.
    pub open spec fn value(self) -> nat {
        match self {
            IpAddress::V4(a) => a as nat,
            IpAddress::V6(a) => a as nat,
        }
    }

    pub open spec fn same_family(self, other: IpAddress) -> bool {
        self.bits() == other.bits()
    }
}

impl IpNet {
    /// The prefix length fits the address family.
    pub open spec fn wf(self) -> bool {
        self.prefix as nat <= self.addr.bits()
    }

    /// Number of trailing host bits.
    pub open spec fn host_bits(self) -> nat {
        (self.addr.bits() - self.prefix as nat) as nat
    }

    /// Prefix match: `ip` is of the same family and agrees with the network
    /// address on the leading `prefix` bits.
    pub open spec fn contains(self, ip: IpAddress) -> bool {
        &&& self.addr.same_family(ip)
        &&& self.addr.value() / pow2(self.host_bits()) == ip.value() / pow2(self.host_bits())
    }
}

/// What `ipnetwork::IpNetwork::from_str` makes of a text: a CIDR prefix, or a bare
/// address taken as a full-length prefix.
pub uninterp spec fn parsed_network(s: Seq<char>) -> Option<IpNet>;

/// Relies on `ipnetwork::IpNetwork::from_str` (IPv4 tried first, then IPv6), and on
/// `Ipv4Network::new` / `Ipv6Network::new` refusing a prefix longer than the address.
#[verifier::external_body]
pub(crate) fn parse_network(s: &str) -> (r: Option<IpNet>)
    ensures
        r == parsed_network(s@),
        r matches Some(n) ==> n.wf(),
{
    match s.parse::<ipnetwork::IpNetwork>() {
        Ok(ipnetwork::IpNetwork::V4(n)) => Some(IpNet { addr: IpAddress::V4(n.ip().into()), prefix: n.prefix() }),
        Ok(ipnetwork::IpNetwork::V6(n)) => Some(IpNet { addr: IpAddress::V6(n.ip().into()), prefix: n.prefix() }),
        Err(_) => None,
    }
}

/// Relies on `ipnetwork::IpNetwork::contains`: the masked network address equals the
/// masked `ip`, and an address of the other family is never contained.
#[verifier::external_body]
pub(crate) fn network_contains(net: &IpNet, ip: &IpAddress) -> (r: bool)
    requires
        net.wf(),
    ensures
        r == net.contains(*ip),
{
    let network = match net.addr {
        IpAddress::V4(a) => ipnetwork::IpNetwork::new(a.to_be_bytes().into(), net.prefix),
        IpAddress::V6(a) => ipnetwork::IpNetwork::new(a.to_be_bytes().into(), net.prefix),
    };
    match (network, *ip) {
        (Ok(n), IpAddress::V4(b)) => n.contains(b.to_be_bytes().into()),
        (Ok(n), IpAddress::V6(b)) => n.contains(b.to_be_bytes().into()),
        (Err(_), _) => false,
    }
}

/// Whether any prefix of `nets` contains `ip`.
pub fn any_contains(nets: &Vec<IpNet>, ip: &IpAddress) -> (r: bool)
    requires
        forall|i: int| 0 <= i < nets@.len() ==> (#[trigger] nets@[i]).wf(),
    ensures
        r == exists|i: int| 0 <= i < nets@.len() && (#[trigger] nets@[i]).contains(*ip),
{
    let mut i: usize = 0;
    while i < nets.len()
        invariant
            i <= nets@.len(),
            forall|k: int| 0 <= k < nets@.len() ==> (#[trigger] nets@[k]).wf(),
            forall|k: int| 0 <= k < i ==> !(#[trigger] nets@[k]).contains(*ip),
        decreases nets@.len() - i,
    {
        if network_contains(&nets[i], ip) {
            return true;
        }
        i = i + 1;
    }
    false
}

} // verus!
