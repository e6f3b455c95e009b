//! IP addresses and CIDR networks as plain integers.
use vstd::prelude::*;

verus! {

/// An IPv4 or IPv6 address, as its 32- or 128-bit big-endian integer.
#[derive(Debug, Clone, Copy, PartialEq, Eq, Structural)]
pub enum IpAddress {
    V4(u32),
    V6(u128),
}

/// A CIDR network: an address and the length of its routing prefix. The address keeps
/// the host bits it was written with, as `ipnet::IpNet` does.
#[derive(Debug, Clone, Copy, PartialEq, Eq, Structural)]
pub struct IpNetwork {
    pub addr: IpAddress,
    pub prefix_len: u8,
}

impl IpNetwork {
    /// The prefix length fits the address family.
    pub open spec fn wf(self) -> bool {
        match self.addr {
            IpAddress::V4(_) => self.prefix_len <= 32,
            IpAddress::V6(_) => self.prefix_len <= 128,
        }
    }
}

/// Whether a network holds an address: same family, and the first `prefix_len` bits of
/// the address equal those of the network.
pub open spec fn spec_network_contains(net: IpNetwork, ip: IpAddress) -> bool {
    let p = net.prefix_len;
    match (net.addr, ip) {
        (IpAddress::V4(n), IpAddress::V4(a)) => p == 0 || (n >> ((32 - p) as u32)) == (a >> ((32
            - p) as u32)),
        (IpAddress::V6(n), IpAddress::V6(a)) => p == 0 || (n >> ((128 - p) as u32)) == (a >> ((128
            - p) as u32)),
        _ => false,
    }
}

/// Whether `ip` lies in `net` (`ipnet::IpNet::contains`).
pub fn network_contains(net: &IpNetwork, ip: IpAddress) -> (res: bool)
    requires
        net.wf(),
    ensures
        res == spec_network_contains(*net, ip),
{
    let p = net.prefix_len;
    match (net.addr, ip) {
        (IpAddress::V4(n), IpAddress::V4(a)) => {
            if p == 0 {
                true
            } else {
                let shift: u32 = 32 - p as u32;
                (n >> shift) == (a >> shift)
            }
        },
        (IpAddress::V6(n), IpAddress::V6(a)) => {
            if p == 0 {
                true
            } else {
                let shift: u32 = 128 - p as u32;
                (n >> shift) == (a >> shift)
            }
        },
        _ => false,
    }
}

/// Whether any of the networks holds `ip`.
pub open spec fn spec_any_contains(nets: Seq<IpNetwork>, ip: IpAddress) -> bool {
    exists|i: int| 0 <= i < nets.len() && spec_network_contains(#[trigger] nets[i], ip)
}

/// Every network of the list is well formed.
pub open spec fn all_wf(nets: Seq<IpNetwork>) -> bool {
    forall|i: int| 0 <= i < nets.len() ==> (#[trigger] nets[i]).wf()
}

/// Whether one of the networks holds `ip`.
pub fn any_network_contains(nets: &[IpNetwork], ip: IpAddress) -> (res: bool)
    requires
        all_wf(nets@),
    ensures
        res == spec_any_contains(nets@, ip),
{
    let mut i: usize = 0;
    while i < nets.len()
        invariant
            i <= nets@.len(),
            all_wf(nets@),
            forall|j: int| 0 <= j < i ==> !spec_network_contains(#[trigger] nets@[j], ip),
        decreases nets.len() - i,
    {
        if network_contains(&nets[i], ip) {
            return true;
        }
        i = i + 1;
    }
    false
}

/// The network that `ipnet::IpNet`'s `FromStr` reads from `s`: an IPv4 or IPv6 address,
/// a slash and a prefix length; `None` when the text is not of that form.
pub uninterp spec fn spec_parse_ip_network(s: Seq<char>) -> Option<IpNetwork>;

/// Parses CIDR notation with `ipnet::IpNet`'s `FromStr`. The crate refuses prefix
/// lengths longer than the address, so a parsed network is well formed.
#[verifier::external_body]
pub(crate) fn parse_ip_network(s: &str) -> (res: Option<IpNetwork>)
    ensures
        res == spec_parse_ip_network(s@),
        res matches Some(n) ==> n.wf(),
{
    match s.parse::<ipnet::IpNet>() {
        Ok(ipnet::IpNet::V4(n)) => Some(IpNetwork { addr: IpAddress::V4(u32::from(n.addr())), prefix_len: n.prefix_len() }),
        Ok(ipnet::IpNet::V6(n)) => Some(IpNetwork { addr: IpAddress::V6(u128::from(n.addr())), prefix_len: n.prefix_len() }),
        Err(_) => None,
    }
}

} // verus!
