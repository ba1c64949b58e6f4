//! MRT BGP4MP structs.

use vstd::prelude::*;
use crate::bgp::BgpMessage;
use crate::network::{Afi, Asn, IpAddress};

verus! {

/// BGP session states.
#[derive(Debug, Clone, Copy, PartialEq, Eq, Structural)]
pub enum BgpState {
    Idle,
    Connect,
    Active,
    OpenSent,
    OpenConfirm,
    Established,
}

impl BgpState {
    /// The IANA-assigned code.
    pub open spec fn spec_code(self) -> u16 {
        match self {
            BgpState::Idle => 1,
            BgpState::Connect => 2,
            BgpState::Active => 3,
            BgpState::OpenSent => 4,
            BgpState::OpenConfirm => 5,
            BgpState::Established => 6,
        }
    }

    pub fn code(&self) -> (r: u16)
        ensures
            r == self.spec_code(),
    {
        match self {
            BgpState::Idle => 1,
            BgpState::Connect => 2,
            BgpState::Active => 3,
            BgpState::OpenSent => 4,
            BgpState::OpenConfirm => 5,
            BgpState::Established => 6,
        }
    }

    pub open spec fn spec_from_code(code: u16) -> Option<BgpState> {
        match code {
            1u16 => Some(BgpState::Idle),
            2u16 => Some(BgpState::Connect),
            3u16 => Some(BgpState::Active),
            4u16 => Some(BgpState::OpenSent),
            5u16 => Some(BgpState::OpenConfirm),
            6u16 => Some(BgpState::Established),
            _ => None,
        }
    }

    pub fn from_code(code: u16) -> (r: Option<BgpState>)
        ensures
            r == BgpState::spec_from_code(code),
    {
        match code {
            1u16 => Some(BgpState::Idle),
            2u16 => Some(BgpState::Connect),
            3u16 => Some(BgpState::Active),
            4u16 => Some(BgpState::OpenSent),
            5u16 => Some(BgpState::OpenConfirm),
            6u16 => Some(BgpState::Established),
            _ => None,
        }
    }
}

/// BGP4MP message variants.
#[derive(Debug)]
pub enum Bgp4Mp {
    Bgp4MpStateChange(Bgp4MpStateChange),
    Bgp4MpStateChangeAs4(Bgp4MpStateChange),
    Bgp4MpMessage(Bgp4MpMessage),
    Bgp4MpMessageLocal(Bgp4MpMessage),
    Bgp4MpMessageAs4(Bgp4MpMessage),
    Bgp4MpMessageAs4Local(Bgp4MpMessage),
}

/// BGP4MP message subtypes.
#[derive(Debug, Clone, Copy, PartialEq, Eq, Structural)]
pub enum Bgp4MpType {
    Bgp4MpStateChange,
    Bgp4MpMessage,
    Bgp4MpMessageAs4,
    Bgp4MpStateChangeAs4,
    Bgp4MpMessageLocal,
    Bgp4MpMessageAs4Local,
    Bgp4MpMessageAddpath,
    Bgp4MpMessageAs4Addpath,
    Bgp4MpMessageLocalAddpath,
    Bgp4MpMessageLocalAs4Addpath,
}

impl Bgp4MpType {
    /// The IANA-assigned code.
    pub open spec fn spec_code(self) -> u16 {
        match self {
            Bgp4MpType::Bgp4MpStateChange => 0,
            Bgp4MpType::Bgp4MpMessage => 1,
            Bgp4MpType::Bgp4MpMessageAs4 => 4,
            Bgp4MpType::Bgp4MpStateChangeAs4 => 5,
            Bgp4MpType::Bgp4MpMessageLocal => 6,
            Bgp4MpType::Bgp4MpMessageAs4Local => 7,
            Bgp4MpType::Bgp4MpMessageAddpath => 8,
            Bgp4MpType::Bgp4MpMessageAs4Addpath => 9,
            Bgp4MpType::Bgp4MpMessageLocalAddpath => 10,
            Bgp4MpType::Bgp4MpMessageLocalAs4Addpath => 11,
        }
    }

    pub fn code(&self) -> (r: u16)
        ensures
            r == self.spec_code(),
    {
        match self {
            Bgp4MpType::Bgp4MpStateChange => 0,
            Bgp4MpType::Bgp4MpMessage => 1,
            Bgp4MpType::Bgp4MpMessageAs4 => 4,
            Bgp4MpType::Bgp4MpStateChangeAs4 => 5,
            Bgp4MpType::Bgp4MpMessageLocal => 6,
            Bgp4MpType::Bgp4MpMessageAs4Local => 7,
            Bgp4MpType::Bgp4MpMessageAddpath => 8,
            Bgp4MpType::Bgp4MpMessageAs4Addpath => 9,
            Bgp4MpType::Bgp4MpMessageLocalAddpath => 10,
            Bgp4MpType::Bgp4MpMessageLocalAs4Addpath => 11,
        }
    }

    pub open spec fn spec_from_code(code: u16) -> Option<Bgp4MpType> {
        match code {
            0u16 => Some(Bgp4MpType::Bgp4MpStateChange),
            1u16 => Some(Bgp4MpType::Bgp4MpMessage),
            4u16 => Some(Bgp4MpType::Bgp4MpMessageAs4),
            5u16 => Some(Bgp4MpType::Bgp4MpStateChangeAs4),
            6u16 => Some(Bgp4MpType::Bgp4MpMessageLocal),
            7u16 => Some(Bgp4MpType::Bgp4MpMessageAs4Local),
            8u16 => Some(Bgp4MpType::Bgp4MpMessageAddpath),
            9u16 => Some(Bgp4MpType::Bgp4MpMessageAs4Addpath),
            10u16 => Some(Bgp4MpType::Bgp4MpMessageLocalAddpath),
            11u16 => Some(Bgp4MpType::Bgp4MpMessageLocalAs4Addpath),
            _ => None,
        }
    }

    pub fn from_code(code: u16) -> (r: Option<Bgp4MpType>)
        ensures
            r == Bgp4MpType::spec_from_code(code),
    {
        match code {
            0u16 => Some(Bgp4MpType::Bgp4MpStateChange),
            1u16 => Some(Bgp4MpType::Bgp4MpMessage),
            4u16 => Some(Bgp4MpType::Bgp4MpMessageAs4),
            5u16 => Some(Bgp4MpType::Bgp4MpStateChangeAs4),
            6u16 => Some(Bgp4MpType::Bgp4MpMessageLocal),
            7u16 => Some(Bgp4MpType::Bgp4MpMessageAs4Local),
            8u16 => Some(Bgp4MpType::Bgp4MpMessageAddpath),
            9u16 => Some(Bgp4MpType::Bgp4MpMessageAs4Addpath),
            10u16 => Some(Bgp4MpType::Bgp4MpMessageLocalAddpath),
            11u16 => Some(Bgp4MpType::Bgp4MpMessageLocalAs4Addpath),
            _ => None,
        }
    }
}

/// BGP4MP state change message.
#[derive(Debug, Clone)]
pub struct Bgp4MpStateChange {
    pub peer_asn: Asn,
    pub local_asn: Asn,
    pub interface_index: u16,
    pub address_family: Afi,
    pub peer_addr: IpAddress,
    pub local_addr: IpAddress,
    pub old_state: BgpState,
    pub new_state: BgpState,
}

/// BGP4MP state change message with 4-byte ASN.
#[derive(Debug, Clone)]
pub struct Bgp4MpStateChangeAs4 {
    pub peer_asn: Asn,
    pub local_asn: Asn,
    pub interface_index: u16,
    pub address_family: Afi,
    pub peer_addr: IpAddress,
    pub local_addr: IpAddress,
    pub old_state: BgpState,
    pub new_state: BgpState,
}

/// BGP4MP message: the carried BGP message with its session context.
#[derive(Debug)]
pub struct Bgp4MpMessage {
    pub peer_asn: Asn,
    pub local_asn: Asn,
    pub interface_index: u16,
    pub afi: Afi,
    pub peer_ip: IpAddress,
    pub local_ip: IpAddress,
    pub bgp_message: BgpMessage,
}

} // verus!
