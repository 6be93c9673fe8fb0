//! Socket addresses and networks as plain values.

use vstd::prelude::*;

verus! {

/// An IP address: the 32 bits of an IPv4 address or the 128 bits of an IPv6
/// address, most significant byte first.
#[derive(Clone, Copy, Debug, PartialEq, Eq, Structural)]
pub enum IpAddress {
    V4(u32),
    V6(u128),
}

#[derive(Clone, Copy, Debug, PartialEq, Eq, Structural)]
pub struct SocketAddress {
    pub ip: IpAddress,
    pub port: u16,
}

/// The IPv4 network that `ipnetwork::Ipv4Network::from_str` reads from a
/// text, as its address and the length of its prefix, if it reads one.
pub uninterp spec fn parsed_network(text: Seq<char>) -> Option<(u32, u8)>;

/// The mask of a network whose prefix has `prefix` bits: that many high bits
/// set, the others clear.
pub open spec fn netmask(prefix: u8) -> u32 {
    !((0xffff_ffffu64 >> prefix) as u32)
}

/// Whether `ip` lies in the network of `address` with a prefix of `prefix`
/// bits: the two agree under the mask.
pub open spec fn in_network(address: u32, prefix: u8, ip: u32) -> bool {
    ip & netmask(prefix) == address & netmask(prefix)
}

/// The IPv4 address that an IPv6 address carries, where it is an
/// IPv4-compatible address (`::a.b.c.d`) or an IPv4-mapped one
/// (`::ffff:a.b.c.d`).
pub open spec fn embedded_v4(v6: u128) -> Option<u32> {
    if v6 >> 32 == 0 || v6 >> 32 == 0xffff {
        Some((v6 & 0xffff_ffff) as u32)
    } else {
        None
    }
}

/// `ipnetwork::Ipv4Network::from_str`, then `ip` and `prefix`: the network
/// that `text` names in CIDR notation, with a prefix length or a netmask
/// behind the slash, or with neither. The result depends on the text alone,
/// and a prefix has 32 bits at most.
#[verifier::external_body]
fn parse_network(text: &str) -> (r: Option<(u32, u8)>)
    ensures
        r == parsed_network(text@),
        r matches Some((_, prefix)) ==> prefix <= 32,
{
    match text.parse::<ipnetwork::Ipv4Network>() {
        Ok(network) => Some((u32::from(network.ip()), network.prefix())),
        Err(_) => None,
    }
}

/// `ipnetwork::Ipv4Network::new`, then `contains`: whether `ip` agrees with
/// the network's address under the mask of its prefix.
#[verifier::external_body]
fn network_contains(address: u32, prefix: u8, ip: u32) -> (r: bool)
    requires
        prefix <= 32,
    ensures
        r == in_network(address, prefix, ip),
{
    match ipnetwork::Ipv4Network::new(address.into(), prefix) {
        Ok(network) => network.contains(ip.into()),
        Err(_) => false,
    }
}

impl IpAddress {
    /// The IPv4 address that this address is or carries.
    pub open spec fn spec_to_ipv4(self) -> Option<u32> {
        match self {
            IpAddress::V4(a) => Some(a),
            IpAddress::V6(a) => embedded_v4(a),
        }
    }

    #[verifier::when_used_as_spec(spec_to_ipv4)]
    pub fn to_ipv4(self) -> (r: Option<u32>)
        ensures
            r == self.spec_to_ipv4(),
    {
        match self {
            IpAddress::V4(a) => Some(a),
            IpAddress::V6(a) => {
                let high: u128 = a >> 32;
                if high == 0 || high == 0xffff {
                    Some((a & 0xffff_ffff) as u32)
                } else {
                    None
                }
            },
        }
    }
}

impl SocketAddress {
    /// `0.0.0.0:0`, the address of a peer that has not been seen yet.
    pub open spec fn spec_unspecified() -> SocketAddress {
        SocketAddress { ip: IpAddress::V4(0), port: 0 }
    }

    #[verifier::when_used_as_spec(spec_unspecified)]
    pub fn unspecified() -> (a: SocketAddress)
        ensures
            a == Self::spec_unspecified(),
    {
        SocketAddress { ip: IpAddress::V4(0), port: 0 }
    }
}

/// The network that counts as the local one.
#[derive(Clone, Copy, Debug)]
pub struct LanMask {
    address: u32,
    prefix: u8,
}

impl LanMask {
    #[verifier::type_invariant]
    spec fn prefix_in_range(self) -> bool {
        self.prefix <= 32
    }

    pub closed spec fn spec_address(&self) -> u32 {
        self.address
    }

    pub closed spec fn spec_prefix(&self) -> u8 {
        self.prefix
    }

    #[verifier::when_used_as_spec(spec_address)]
    pub fn address(&self) -> (a: u32)
        ensures
            a == self.spec_address(),
    {
        self.address
    }

    #[verifier::when_used_as_spec(spec_prefix)]
    pub fn prefix(&self) -> (p: u8)
        ensures
            p == self.spec_prefix(),
            p <= 32,
    {
        proof {
            use_type_invariant(self);
        }
        self.prefix
    }

    /// The network with this address and prefix; none where the prefix has
    /// more than 32 bits.
    pub fn new(address: u32, prefix: u8) -> (r: Option<LanMask>)
        ensures
            match r {
                Some(mask) => prefix <= 32 && mask.address() == address && mask.prefix() == prefix,
                None => prefix > 32,
            },
    {
        if prefix <= 32 {
            Some(LanMask { address, prefix })
        } else {
            None
        }
    }

    /// The network that `text` names, where it names one.
    pub fn parse(text: &str) -> (r: Option<LanMask>)
        ensures
            match r {
                Some(mask) => parsed_network(text@) == Some((mask.address(), mask.prefix())),
                None => parsed_network(text@) is None,
            },
    {
        match parse_network(text) {
            Some((address, prefix)) => Some(LanMask { address, prefix }),
            None => None,
        }
    }

    /// Whether an address lies in the network. An IPv6 address lies in it
    /// where it carries an IPv4 address that does.
    pub open spec fn holds(self, ip: IpAddress) -> bool {
        match ip.to_ipv4() {
            Some(v4) => in_network(self.address(), self.prefix(), v4),
            None => false,
        }
    }

    pub fn contains(&self, ip: IpAddress) -> (r: bool)
        ensures
            r == self.holds(ip),
    {
        proof {
            use_type_invariant(self);
        }
        match ip.to_ipv4() {
            Some(v4) => network_contains(self.address, self.prefix, v4),
            None => false,
        }
    }
}

} // verus!
