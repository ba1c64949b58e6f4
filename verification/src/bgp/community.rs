//! BGP communities: regular, extended, and large communities.
//!
//! Every extended-community variant encodes to exactly eight octets; the
//! fixed-width field types make any other width unrepresentable, and
//! [`lemma_extended_community_eight_octets`] states the law once and for all.

use vstd::prelude::*;
use vstd::string::StringExecFns;
use crate::bgp::display::{
    append_u32_dec, bytes_to_string, spec_dec_str, spec_hex_str, spec_ipv4_str, spec_ipv6_str,
};
use crate::network::{Asn, Ipv4Address, Ipv6Address};

verus! {

/// The top-level community union that downstream code iterates over when
/// rendering an attribute's community list.
#[derive(Debug, Clone, Copy, PartialEq)]
pub enum Community {
    RegularCommunity(RegularCommunity),
    ExtendedCommunity(ExtendedCommunity),
    Ipv6SpecificExtendedCommunity(Ipv6AddressSpecificExtendedCommunity),
    LargeCommunity(LargeCommunity),
}

/// Regular communities: the three well-known values plus the custom
/// administrator/value pair.
#[derive(Debug, Clone, Copy, PartialEq, Eq, Structural)]
pub enum RegularCommunity {
    NoExport,
    NoAdvertise,
    NoExportSubConfed,
    Custom(Asn, u16),
}

/// A large community: a fixed 12-octet structure of three 4-octet fields.
#[derive(Debug, Clone, Copy, PartialEq)]
pub struct LargeCommunity {
    pub global_administrator: u32,
    pub local_data: [u32; 2],
}

impl LargeCommunity {
    pub fn new(global_administrator: u32, local_data: [u32; 2]) -> (r: LargeCommunity)
        ensures
            r.global_administrator == global_administrator,
            r.local_data == local_data,
    {
        LargeCommunity { global_administrator, local_data }
    }
}

/// Type definitions of extended communities.
#[derive(Debug, Clone, Copy, PartialEq, Eq, Structural, Hash)]
pub enum ExtendedCommunityType {
    TransitiveTwoOctetAsSpecific,
    TransitiveIpv4AddressSpecific,
    TransitiveFourOctetAsSpecific,
    TransitiveOpaque,
    NonTransitiveTwoOctetAsSpecific,
    NonTransitiveIpv4AddressSpecific,
    NonTransitiveFourOctetAsSpecific,
    NonTransitiveOpaque,
    // the rest are either draft or experimental
}

impl ExtendedCommunityType {
    /// The IANA-assigned type octet; the high bit of 0x40 marks the
    /// non-transitive types.
    pub open spec fn spec_code(self) -> u8 {
        match self {
            ExtendedCommunityType::TransitiveTwoOctetAsSpecific => 0x00,
            ExtendedCommunityType::TransitiveIpv4AddressSpecific => 0x01,
            ExtendedCommunityType::TransitiveFourOctetAsSpecific => 0x02,
            ExtendedCommunityType::TransitiveOpaque => 0x03,
            ExtendedCommunityType::NonTransitiveTwoOctetAsSpecific => 0x40,
            ExtendedCommunityType::NonTransitiveIpv4AddressSpecific => 0x41,
            ExtendedCommunityType::NonTransitiveFourOctetAsSpecific => 0x42,
            ExtendedCommunityType::NonTransitiveOpaque => 0x43,
        }
    }

    pub fn code(&self) -> (r: u8)
        ensures
            r == self.spec_code(),
    {
        match self {
            ExtendedCommunityType::TransitiveTwoOctetAsSpecific => 0x00,
            ExtendedCommunityType::TransitiveIpv4AddressSpecific => 0x01,
            ExtendedCommunityType::TransitiveFourOctetAsSpecific => 0x02,
            ExtendedCommunityType::TransitiveOpaque => 0x03,
            ExtendedCommunityType::NonTransitiveTwoOctetAsSpecific => 0x40,
            ExtendedCommunityType::NonTransitiveIpv4AddressSpecific => 0x41,
            ExtendedCommunityType::NonTransitiveFourOctetAsSpecific => 0x42,
            ExtendedCommunityType::NonTransitiveOpaque => 0x43,
        }
    }

    pub open spec fn spec_from_code(code: u8) -> Option<ExtendedCommunityType> {
        match code {
            0x00u8 => Some(ExtendedCommunityType::TransitiveTwoOctetAsSpecific),
            0x01u8 => Some(ExtendedCommunityType::TransitiveIpv4AddressSpecific),
            0x02u8 => Some(ExtendedCommunityType::TransitiveFourOctetAsSpecific),
            0x03u8 => Some(ExtendedCommunityType::TransitiveOpaque),
            0x40u8 => Some(ExtendedCommunityType::NonTransitiveTwoOctetAsSpecific),
            0x41u8 => Some(ExtendedCommunityType::NonTransitiveIpv4AddressSpecific),
            0x42u8 => Some(ExtendedCommunityType::NonTransitiveFourOctetAsSpecific),
            0x43u8 => Some(ExtendedCommunityType::NonTransitiveOpaque),
            _ => None,
        }
    }

    pub fn from_code(code: u8) -> (r: Option<ExtendedCommunityType>)
        ensures
            r == ExtendedCommunityType::spec_from_code(code),
    {
        match code {
            0x00u8 => Some(ExtendedCommunityType::TransitiveTwoOctetAsSpecific),
            0x01u8 => Some(ExtendedCommunityType::TransitiveIpv4AddressSpecific),
            0x02u8 => Some(ExtendedCommunityType::TransitiveFourOctetAsSpecific),
            0x03u8 => Some(ExtendedCommunityType::TransitiveOpaque),
            0x40u8 => Some(ExtendedCommunityType::NonTransitiveTwoOctetAsSpecific),
            0x41u8 => Some(ExtendedCommunityType::NonTransitiveIpv4AddressSpecific),
            0x42u8 => Some(ExtendedCommunityType::NonTransitiveFourOctetAsSpecific),
            0x43u8 => Some(ExtendedCommunityType::NonTransitiveOpaque),
            _ => None,
        }
    }
}

/// Extended Communities.
///
/// An 8-octet quantity whose layout depends on the type octet: a type and
/// subtype octet, a global administrator whose width depends on the variant,
/// and a local administrator filling the remaining octets, so that
/// type + subtype + global + local always sum to exactly 8 octets.
/// `Raw` is the escape hatch for unrecognized 8-octet payloads.
#[derive(Debug, Clone, Copy, PartialEq)]
pub enum ExtendedCommunity {
    TransitiveTwoOctetAsSpecific(TwoOctetAsSpecific),
    TransitiveIpv4AddressSpecific(Ipv4AddressSpecific),
    TransitiveFourOctetAsSpecific(FourOctetAsSpecific),
    TransitiveOpaque(Opaque),
    NonTransitiveTwoOctetAsSpecific(TwoOctetAsSpecific),
    NonTransitiveIpv4AddressSpecific(Ipv4AddressSpecific),
    NonTransitiveFourOctetAsSpecific(FourOctetAsSpecific),
    NonTransitiveOpaque(Opaque),
    Raw([u8; 8]),
}

/// IPv6 Address Specific Extended Community: 16-octet global administrator,
/// 2-octet local administrator.
#[derive(Debug, Clone, Copy, PartialEq)]
pub struct Ipv6AddressSpecificExtendedCommunity {
    pub ec_type: u8,
    pub ec_subtype: u8,
    // 16 octets
    pub global_administrator: Ipv6Address,
    // 2 octets
    pub local_administrator: [u8; 2],
}

/// Two-Octet AS Specific Extended Community: 2-octet global administrator,
/// 4-octet local administrator.
#[derive(Debug, Clone, Copy, PartialEq)]
pub struct TwoOctetAsSpecific {
    pub ec_type: u8,
    pub ec_subtype: u8,
    // 2 octets
    pub global_administrator: Asn,
    // 4 octets
    pub local_administrator: [u8; 4],
}

/// Four-Octet AS Specific Extended Community: 4-octet global administrator,
/// 2-octet local administrator.
#[derive(Debug, Clone, Copy, PartialEq)]
pub struct FourOctetAsSpecific {
    pub ec_type: u8,
    pub ec_subtype: u8,
    // 4 octets
    pub global_administrator: Asn,
    // 2 octets
    pub local_administrator: [u8; 2],
}

/// IPv4 Address Specific Extended Community: 4-octet global administrator,
/// 2-octet local administrator.
#[derive(Debug, Clone, Copy, PartialEq)]
pub struct Ipv4AddressSpecific {
    pub ec_type: u8,
    pub ec_subtype: u8,
    // 4 octets
    pub global_administrator: Ipv4Address,
    // 2 octets
    pub local_administrator: [u8; 2],
}

/// Opaque Extended Community: 6-octet opaque value.
#[derive(Debug, Clone, Copy, PartialEq)]
pub struct Opaque {
    pub ec_type: u8,
    pub ec_subtype: u8,
    // 6 octets
    pub value: [u8; 6],
}

///////////////
// ENCODING  //
///////////////

/// The two big-endian octets of a 16-bit value.
pub open spec fn spec_be_bytes_u16(x: u16) -> Seq<u8> {
    seq![(x as int / 0x100) as u8, (x as int % 0x100) as u8]
}

/// The low two big-endian octets of a 32-bit value.
pub open spec fn spec_be_low_bytes_u32(x: u32) -> Seq<u8> {
    seq![(x as int / 0x100 % 0x100) as u8, (x as int % 0x100) as u8]
}

/// The four big-endian octets of a 32-bit value.
pub open spec fn spec_be_bytes_u32(x: u32) -> Seq<u8> {
    seq![
        (x as int / 0x1000000) as u8,
        (x as int / 0x10000 % 0x100) as u8,
        (x as int / 0x100 % 0x100) as u8,
        (x as int % 0x100) as u8,
    ]
}

fn push_be_low_u32(out: &mut Vec<u8>, x: u32)
    ensures
        final(out)@ == old(out)@ + spec_be_low_bytes_u32(x),
{
    out.push((x / 0x100 % 0x100) as u8);
    out.push((x % 0x100) as u8);
    proof {
        assert(out@ =~= old(out)@ + spec_be_low_bytes_u32(x));
    }
}

fn push_be_u32(out: &mut Vec<u8>, x: u32)
    ensures
        final(out)@ == old(out)@ + spec_be_bytes_u32(x),
{
    out.push((x / 0x1000000) as u8);
    out.push((x / 0x10000 % 0x100) as u8);
    out.push((x / 0x100 % 0x100) as u8);
    out.push((x % 0x100) as u8);
    proof {
        assert(out@ =~= old(out)@ + spec_be_bytes_u32(x));
    }
}

impl ExtendedCommunity {
    /// The eight octets of the wire encoding, as a sequence.
    pub open spec fn spec_bytes(self) -> Seq<u8> {
        match self {
            ExtendedCommunity::TransitiveTwoOctetAsSpecific(ec)
            | ExtendedCommunity::NonTransitiveTwoOctetAsSpecific(ec) => {
                seq![ec.ec_type, ec.ec_subtype] + spec_be_low_bytes_u32(ec.global_administrator)
                    + ec.local_administrator@
            },
            ExtendedCommunity::TransitiveIpv4AddressSpecific(ec)
            | ExtendedCommunity::NonTransitiveIpv4AddressSpecific(ec) => {
                seq![ec.ec_type, ec.ec_subtype] + spec_be_bytes_u32(ec.global_administrator.0)
                    + ec.local_administrator@
            },
            ExtendedCommunity::TransitiveFourOctetAsSpecific(ec)
            | ExtendedCommunity::NonTransitiveFourOctetAsSpecific(ec) => {
                seq![ec.ec_type, ec.ec_subtype] + spec_be_bytes_u32(ec.global_administrator)
                    + ec.local_administrator@
            },
            ExtendedCommunity::TransitiveOpaque(ec)
            | ExtendedCommunity::NonTransitiveOpaque(ec) => {
                seq![ec.ec_type, ec.ec_subtype] + ec.value@
            },
            ExtendedCommunity::Raw(bytes) => bytes@,
        }
    }

    /// Serialize to the 8-octet wire form.
    pub fn to_bytes(&self) -> (r: Vec<u8>)
        ensures
            r@ == self.spec_bytes(),
            r@.len() == 8,
    {
        let mut out: Vec<u8> = Vec::new();
        match self {
            ExtendedCommunity::TransitiveTwoOctetAsSpecific(ec)
            | ExtendedCommunity::NonTransitiveTwoOctetAsSpecific(ec) => {
                out.push(ec.ec_type);
                out.push(ec.ec_subtype);
                push_be_low_u32(&mut out, ec.global_administrator);
                let mut i: usize = 0;
                while i < 4
                    invariant
                        i <= 4,
                        out@ == seq![ec.ec_type, ec.ec_subtype]
                            + spec_be_low_bytes_u32(ec.global_administrator)
                            + ec.local_administrator@.take(i as int),
                    decreases 4 - i,
                {
                    out.push(ec.local_administrator[i]);
                    i += 1;
                    proof {
                        assert(ec.local_administrator@.take(i as int)
                            =~= ec.local_administrator@.take(i - 1).push(
                                ec.local_administrator@[i - 1]));
                        assert(out@ =~= seq![ec.ec_type, ec.ec_subtype]
                            + spec_be_low_bytes_u32(ec.global_administrator)
                            + ec.local_administrator@.take(i as int));
                    }
                }
                proof {
                    assert(ec.local_administrator@.take(4) =~= ec.local_administrator@);
                    assert(out@ =~= self.spec_bytes());
                }
            },
            ExtendedCommunity::TransitiveIpv4AddressSpecific(ec)
            | ExtendedCommunity::NonTransitiveIpv4AddressSpecific(ec) => {
                out.push(ec.ec_type);
                out.push(ec.ec_subtype);
                push_be_u32(&mut out, ec.global_administrator.0);
                out.push(ec.local_administrator[0]);
                out.push(ec.local_administrator[1]);
                proof {
                    assert(ec.local_administrator@
                        =~= seq![ec.local_administrator@[0], ec.local_administrator@[1]]);
                    assert(out@ =~= self.spec_bytes());
                }
            },
            ExtendedCommunity::TransitiveFourOctetAsSpecific(ec)
            | ExtendedCommunity::NonTransitiveFourOctetAsSpecific(ec) => {
                out.push(ec.ec_type);
                out.push(ec.ec_subtype);
                push_be_u32(&mut out, ec.global_administrator);
                out.push(ec.local_administrator[0]);
                out.push(ec.local_administrator[1]);
                proof {
                    assert(ec.local_administrator@
                        =~= seq![ec.local_administrator@[0], ec.local_administrator@[1]]);
                    assert(out@ =~= self.spec_bytes());
                }
            },
            ExtendedCommunity::TransitiveOpaque(ec)
            | ExtendedCommunity::NonTransitiveOpaque(ec) => {
                out.push(ec.ec_type);
                out.push(ec.ec_subtype);
                let mut i: usize = 0;
                while i < 6
                    invariant
                        i <= 6,
                        out@ == seq![ec.ec_type, ec.ec_subtype] + ec.value@.take(i as int),
                    decreases 6 - i,
                {
                    out.push(ec.value[i]);
                    i += 1;
                    proof {
                        assert(ec.value@.take(i as int)
                            =~= ec.value@.take(i - 1).push(ec.value@[i - 1]));
                        assert(out@ =~= seq![ec.ec_type, ec.ec_subtype]
                            + ec.value@.take(i as int));
                    }
                }
                proof {
                    assert(ec.value@.take(6) =~= ec.value@);
                    assert(out@ =~= self.spec_bytes());
                }
            },
            ExtendedCommunity::Raw(bytes) => {
                let mut i: usize = 0;
                while i < 8
                    invariant
                        i <= 8,
                        out@ == bytes@.take(i as int),
                    decreases 8 - i,
                {
                    out.push(bytes[i]);
                    i += 1;
                    proof {
                        assert(bytes@.take(i as int)
                            =~= bytes@.take(i - 1).push(bytes@[i - 1]));
                        assert(out@ =~= bytes@.take(i as int));
                    }
                }
                proof {
                    assert(bytes@.take(8) =~= bytes@);
                }
            },
        }
        out
    }
}

/// Law: every extended community variant's fields serialize to exactly
/// eight octets.
pub proof fn lemma_extended_community_eight_octets(ec: ExtendedCommunity)
    ensures
        ec.spec_bytes().len() == 8,
{
}

///////////////
// RENDERING //
///////////////

impl RegularCommunity {
    /// The conventional text form: the well-known name, or `asn:value`.
    pub open spec fn spec_str(self) -> Seq<char> {
        match self {
            RegularCommunity::NoExport => "no-export"@,
            RegularCommunity::NoAdvertise => "no-advertise"@,
            RegularCommunity::NoExportSubConfed => "no-export-sub-confed"@,
            RegularCommunity::Custom(asn, value) =>
                spec_dec_str(asn as nat) + ":"@ + spec_dec_str(value as nat),
        }
    }

    pub fn to_str(&self) -> (r: String)
        ensures
            r@ == self.spec_str(),
    {
        match self {
            RegularCommunity::NoExport => String::from_str("no-export"),
            RegularCommunity::NoAdvertise => String::from_str("no-advertise"),
            RegularCommunity::NoExportSubConfed => String::from_str("no-export-sub-confed"),
            RegularCommunity::Custom(asn, value) => {
                let mut out = String::new();
                append_u32_dec(&mut out, *asn);
                out.append(":");
                append_u32_dec(&mut out, *value as u32);
                proof {
                    assert(out@ =~= self.spec_str());
                }
                out
            },
        }
    }
}

impl LargeCommunity {
    /// The conventional text form: the three fields in decimal, colon-joined.
    pub open spec fn spec_str(self) -> Seq<char> {
        spec_dec_str(self.global_administrator as nat) + ":"@
            + spec_dec_str(self.local_data@[0] as nat) + ":"@
            + spec_dec_str(self.local_data@[1] as nat)
    }

    pub fn to_str(&self) -> (r: String)
        ensures
            r@ == self.spec_str(),
    {
        let mut out = String::new();
        append_u32_dec(&mut out, self.global_administrator);
        out.append(":");
        append_u32_dec(&mut out, self.local_data[0]);
        out.append(":");
        append_u32_dec(&mut out, self.local_data[1]);
        proof {
            assert(out@ =~= self.spec_str());
        }
        out
    }
}

impl ExtendedCommunity {
    /// The conventional text form: type and subtype in decimal, the global
    /// administrator in its own form, and the local administrator (or the
    /// opaque value) in upper-case hexadecimal, colon-joined; a raw
    /// community renders as its eight octets in hexadecimal.
    pub open spec fn spec_str(self) -> Seq<char> {
        match self {
            ExtendedCommunity::TransitiveTwoOctetAsSpecific(ec)
            | ExtendedCommunity::NonTransitiveTwoOctetAsSpecific(ec) => {
                spec_dec_str(ec.ec_type as nat) + ":"@ + spec_dec_str(ec.ec_subtype as nat)
                    + ":"@ + spec_dec_str(ec.global_administrator as nat) + ":"@
                    + spec_hex_str(ec.local_administrator@)
            },
            ExtendedCommunity::TransitiveIpv4AddressSpecific(ec)
            | ExtendedCommunity::NonTransitiveIpv4AddressSpecific(ec) => {
                spec_dec_str(ec.ec_type as nat) + ":"@ + spec_dec_str(ec.ec_subtype as nat)
                    + ":"@ + spec_ipv4_str(ec.global_administrator.0) + ":"@
                    + spec_hex_str(ec.local_administrator@)
            },
            ExtendedCommunity::TransitiveFourOctetAsSpecific(ec)
            | ExtendedCommunity::NonTransitiveFourOctetAsSpecific(ec) => {
                spec_dec_str(ec.ec_type as nat) + ":"@ + spec_dec_str(ec.ec_subtype as nat)
                    + ":"@ + spec_dec_str(ec.global_administrator as nat) + ":"@
                    + spec_hex_str(ec.local_administrator@)
            },
            ExtendedCommunity::TransitiveOpaque(ec)
            | ExtendedCommunity::NonTransitiveOpaque(ec) => {
                spec_dec_str(ec.ec_type as nat) + ":"@ + spec_dec_str(ec.ec_subtype as nat)
                    + ":"@ + spec_hex_str(ec.value@)
            },
            ExtendedCommunity::Raw(bytes) => spec_hex_str(bytes@),
        }
    }

    pub fn to_str(&self) -> (r: String)
        ensures
            r@ == self.spec_str(),
    {
        let mut out = String::new();
        match self {
            ExtendedCommunity::TransitiveTwoOctetAsSpecific(ec)
            | ExtendedCommunity::NonTransitiveTwoOctetAsSpecific(ec) => {
                append_u32_dec(&mut out, ec.ec_type as u32);
                out.append(":");
                append_u32_dec(&mut out, ec.ec_subtype as u32);
                out.append(":");
                append_u32_dec(&mut out, ec.global_administrator);
                out.append(":");
                let hex = bytes_to_string(ec.local_administrator.as_slice());
                out.append(hex.as_str());
            },
            ExtendedCommunity::TransitiveIpv4AddressSpecific(ec)
            | ExtendedCommunity::NonTransitiveIpv4AddressSpecific(ec) => {
                append_u32_dec(&mut out, ec.ec_type as u32);
                out.append(":");
                append_u32_dec(&mut out, ec.ec_subtype as u32);
                out.append(":");
                let addr = ec.global_administrator.to_str();
                out.append(addr.as_str());
                out.append(":");
                let hex = bytes_to_string(ec.local_administrator.as_slice());
                out.append(hex.as_str());
            },
            ExtendedCommunity::TransitiveFourOctetAsSpecific(ec)
            | ExtendedCommunity::NonTransitiveFourOctetAsSpecific(ec) => {
                append_u32_dec(&mut out, ec.ec_type as u32);
                out.append(":");
                append_u32_dec(&mut out, ec.ec_subtype as u32);
                out.append(":");
                append_u32_dec(&mut out, ec.global_administrator);
                out.append(":");
                let hex = bytes_to_string(ec.local_administrator.as_slice());
                out.append(hex.as_str());
            },
            ExtendedCommunity::TransitiveOpaque(ec)
            | ExtendedCommunity::NonTransitiveOpaque(ec) => {
                append_u32_dec(&mut out, ec.ec_type as u32);
                out.append(":");
                append_u32_dec(&mut out, ec.ec_subtype as u32);
                out.append(":");
                let hex = bytes_to_string(ec.value.as_slice());
                out.append(hex.as_str());
            },
            ExtendedCommunity::Raw(bytes) => {
                let hex = bytes_to_string(bytes.as_slice());
                out.append(hex.as_str());
            },
        }
        proof {
            assert(out@ =~= self.spec_str());
        }
        out
    }
}

impl Ipv6AddressSpecificExtendedCommunity {
    /// The conventional text form: type and subtype in decimal, the IPv6
    /// global administrator, and the local administrator in upper-case
    /// hexadecimal, colon-joined.
    pub open spec fn spec_str(self) -> Seq<char> {
        spec_dec_str(self.ec_type as nat) + ":"@ + spec_dec_str(self.ec_subtype as nat)
            + ":"@ + spec_ipv6_str(self.global_administrator.0) + ":"@
            + spec_hex_str(self.local_administrator@)
    }

    pub fn to_str(&self) -> (r: String)
        ensures
            r@ == self.spec_str(),
    {
        let mut out = String::new();
        append_u32_dec(&mut out, self.ec_type as u32);
        out.append(":");
        append_u32_dec(&mut out, self.ec_subtype as u32);
        out.append(":");
        let addr = self.global_administrator.to_str();
        out.append(addr.as_str());
        out.append(":");
        let hex = bytes_to_string(self.local_administrator.as_slice());
        out.append(hex.as_str());
        proof {
            assert(out@ =~= self.spec_str());
        }
        out
    }
}

impl Community {
    /// The text form of whichever community kind this value wraps.
    pub open spec fn spec_str(self) -> Seq<char> {
        match self {
            Community::RegularCommunity(c) => c.spec_str(),
            Community::ExtendedCommunity(c) => c.spec_str(),
            Community::Ipv6SpecificExtendedCommunity(c) => c.spec_str(),
            Community::LargeCommunity(c) => c.spec_str(),
        }
    }

    pub fn to_str(&self) -> (r: String)
        ensures
            r@ == self.spec_str(),
    {
        match self {
            Community::RegularCommunity(c) => c.to_str(),
            Community::ExtendedCommunity(c) => c.to_str(),
            Community::Ipv6SpecificExtendedCommunity(c) => c.to_str(),
            Community::LargeCommunity(c) => c.to_str(),
        }
    }
}

} // verus!
