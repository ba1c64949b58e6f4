//! Common network-related types.
//!
//! Addresses and prefixes are modelled as plain values: an IPv4 address is
//! its 32-bit value, an IPv6 address its 128-bit value, and a prefix is an
//! address together with a prefix length bounded by the address width.

use vstd::prelude::*;
use std::str::FromStr;

verus! {

/// ASN -- Autonomous System Number
pub type Asn = u32;

/// AS number length: 16 or 32 bits.
#[derive(Debug, Clone, Copy, PartialEq, Eq, Structural)]
pub enum AsnLength {
    Bits16,
    Bits32,
}

/// Meta information for an address/prefix: address family and AS number
/// length, carried along while reading table-dump records.
#[derive(Debug, Clone)]
pub struct AddrMeta {
    pub afi: Afi,
    pub asn_len: AsnLength,
}

/// AFI -- Address Family Identifier
#[derive(Debug, Clone, Copy, PartialEq, Eq, Structural)]
pub enum Afi {
    Ipv4,
    Ipv6,
}

impl Afi {
    /// The IANA-assigned address-family number.
    pub open spec fn spec_code(self) -> u16 {
        match self {
            Afi::Ipv4 => 1,
            Afi::Ipv6 => 2,
        }
    }

    pub fn code(&self) -> (r: u16)
        ensures
            r == self.spec_code(),
    {
        match self {
            Afi::Ipv4 => 1,
            Afi::Ipv6 => 2,
        }
    }

    pub open spec fn spec_from_code(code: u16) -> Option<Afi> {
        match code {
            1u16 => Some(Afi::Ipv4),
            2u16 => Some(Afi::Ipv6),
            _ => None,
        }
    }

    pub fn from_code(code: u16) -> (r: Option<Afi>)
        ensures
            r == Afi::spec_from_code(code),
    {
        match code {
            1u16 => Some(Afi::Ipv4),
            2u16 => Some(Afi::Ipv6),
            _ => None,
        }
    }
}

/// SAFI -- Subsequent Address Family Identifier
///
/// SAFI can be: Unicast, Multicast, or both.
#[derive(Debug, Clone, Copy, PartialEq, Eq, Structural)]
pub enum Safi {
    Unicast,
    Multicast,
    UnicastMulticast,
}

impl Safi {
    pub open spec fn spec_code(self) -> u8 {
        match self {
            Safi::Unicast => 1,
            Safi::Multicast => 2,
            Safi::UnicastMulticast => 3,
        }
    }

    pub fn code(&self) -> (r: u8)
        ensures
            r == self.spec_code(),
    {
        match self {
            Safi::Unicast => 1,
            Safi::Multicast => 2,
            Safi::UnicastMulticast => 3,
        }
    }

    pub open spec fn spec_from_code(code: u8) -> Option<Safi> {
        match code {
            1u8 => Some(Safi::Unicast),
            2u8 => Some(Safi::Multicast),
            3u8 => Some(Safi::UnicastMulticast),
            _ => None,
        }
    }

    pub fn from_code(code: u8) -> (r: Option<Safi>)
        ensures
            r == Safi::spec_from_code(code),
    {
        match code {
            1u8 => Some(Safi::Unicast),
            2u8 => Some(Safi::Multicast),
            3u8 => Some(Safi::UnicastMulticast),
            _ => None,
        }
    }
}

/// An IPv4 address, held as its 32-bit big-endian numeric value.
#[derive(Debug, Clone, Copy, PartialEq, Eq, Structural)]
pub struct Ipv4Address(pub u32);

/// An IPv6 address, held as its 128-bit big-endian numeric value.
#[derive(Debug, Clone, Copy, PartialEq, Eq, Structural)]
pub struct Ipv6Address(pub u128);

/// An IP address of either family.
#[derive(Debug, Clone, Copy, PartialEq, Eq, Structural)]
pub enum IpAddress {
    V4(Ipv4Address),
    V6(Ipv6Address),
}

/// The type of the next hop address carried in an [Nlri](crate::bgp::attributes::Nlri).
#[derive(Debug, Clone, Copy, PartialEq, Eq, Structural)]
pub enum NextHopAddress {
    Ipv4(Ipv4Address),
    Ipv6(Ipv6Address),
    Ipv6LinkLocal(Ipv6Address, Ipv6Address),
}

/// An IPv4 network: an address and a prefix length of at most 32.
#[derive(Debug, Clone, Copy, PartialEq, Eq, Structural)]
pub struct Ipv4Net {
    pub address: Ipv4Address,
    pub length: u8,
}

/// An IPv6 network: an address and a prefix length of at most 128.
#[derive(Debug, Clone, Copy, PartialEq, Eq, Structural)]
pub struct Ipv6Net {
    pub address: Ipv6Address,
    pub length: u8,
}

/// An IP network of either family.
#[derive(Debug, Clone, Copy, PartialEq, Eq, Structural)]
pub enum IpNet {
    V4(Ipv4Net),
    V6(Ipv6Net),
}

impl IpNet {
    /// The prefix length never exceeds the width of the address.
    pub open spec fn well_formed(self) -> bool {
        match self {
            IpNet::V4(n) => n.length <= 32,
            IpNet::V6(n) => n.length <= 128,
        }
    }
}

/// A representation of an IP prefix with optional path ID.
#[derive(Debug, Clone, Copy, PartialEq, Eq, Structural)]
pub struct NetworkPrefix {
    pub prefix: IpNet,
    pub path_id: u32,
}

impl NetworkPrefix {
    pub open spec fn well_formed(self) -> bool {
        self.prefix.well_formed()
    }

    pub fn new(prefix: IpNet, path_id: u32) -> (r: NetworkPrefix)
        ensures
            r.prefix == prefix,
            r.path_id == path_id,
    {
        NetworkPrefix { prefix, path_id }
    }
}

/// The error of reading a model value from text.
#[derive(Debug, Clone, Copy, PartialEq, Eq, Structural)]
pub enum BgpModelsError {
    InvalidPrefix,
}

/// What `ipnetwork::IpNetwork::from_str` parses a string to: a family
/// flag (true for IPv4), the address value, and the prefix length; `None`
/// where the string is not a valid CIDR network. The result depends on
/// the input text alone.
pub uninterp spec fn spec_parsed_ip_network(s: Seq<char>) -> Option<(bool, u128, u8)>;

/// Relies on ipnetwork::IpNetwork::from_str: it parses dotted-quad or
/// colon-hex CIDR text (a missing length means a host network), rejects a
/// prefix length over the address width, and depends on its input alone.
#[verifier::external_body]
fn parse_ip_network(s: &str) -> (r: Option<(bool, u128, u8)>)
    ensures
        r == spec_parsed_ip_network(s@),
        r matches Some(t) ==> ((t.0 ==> t.1 <= u32::MAX as u128 && t.2 <= 32)
            && (!t.0 ==> t.2 <= 128)),
{
    match ipnetwork::IpNetwork::from_str(s) {
        Ok(ipnetwork::IpNetwork::V4(n)) => Some((true, u32::from(n.ip()) as u128, n.prefix())),
        Ok(ipnetwork::IpNetwork::V6(n)) => Some((false, u128::from(n.ip()), n.prefix())),
        Err(_) => None,
    }
}

/// The prefix a successful parse yields: the parsed network with a zero
/// path identifier.
pub open spec fn spec_prefix_of_parsed(t: (bool, u128, u8)) -> NetworkPrefix {
    NetworkPrefix {
        prefix: if t.0 {
            IpNet::V4(Ipv4Net { address: Ipv4Address(t.1 as u32), length: t.2 })
        } else {
            IpNet::V6(Ipv6Net { address: Ipv6Address(t.1), length: t.2 })
        },
        path_id: 0,
    }
}

impl NetworkPrefix {
    /// Parse a prefix from CIDR text. A parsed prefix carries a zero path
    /// identifier and is well formed; the error comes exactly when the
    /// text is not a valid network.
    pub fn from_str(s: &str) -> (r: Result<NetworkPrefix, BgpModelsError>)
        ensures
            (match spec_parsed_ip_network(s@) {
                Some(t) => r matches Ok(p) && p == spec_prefix_of_parsed(t) && p.well_formed(),
                None => r matches Err(e) && e == BgpModelsError::InvalidPrefix,
            }),
    {
        match parse_ip_network(s) {
            Some((is_v4, addr, length)) => {
                if is_v4 {
                    Ok(NetworkPrefix {
                        prefix: IpNet::V4(Ipv4Net {
                            address: Ipv4Address(addr as u32),
                            length,
                        }),
                        path_id: 0,
                    })
                } else {
                    Ok(NetworkPrefix {
                        prefix: IpNet::V6(Ipv6Net { address: Ipv6Address(addr), length }),
                        path_id: 0,
                    })
                }
            },
            None => Err(BgpModelsError::InvalidPrefix),
        }
    }
}

} // verus!
