//! BGP messages and relevant structs.

pub mod attributes;
pub mod community;
pub mod display;
pub mod elem;
pub mod error_codes;

use vstd::prelude::*;
use crate::bgp::attributes::Attributes;
use crate::network::{Asn, Ipv4Address, NetworkPrefix};

verus! {

/// The four BGP message types of RFC 4271.
#[allow(non_camel_case_types)]
#[derive(Debug, Clone, Copy, PartialEq, Eq, Structural)]
pub enum BgpMessageType {
    OPEN,
    UPDATE,
    NOTIFICATION,
    KEEPALIVE,
}

impl BgpMessageType {
    /// The message type octet.
    pub open spec fn spec_code(self) -> u8 {
        match self {
            BgpMessageType::OPEN => 1,
            BgpMessageType::UPDATE => 2,
            BgpMessageType::NOTIFICATION => 3,
            BgpMessageType::KEEPALIVE => 4,
        }
    }

    pub fn code(&self) -> (r: u8)
        ensures
            r == self.spec_code(),
    {
        match self {
            BgpMessageType::OPEN => 1,
            BgpMessageType::UPDATE => 2,
            BgpMessageType::NOTIFICATION => 3,
            BgpMessageType::KEEPALIVE => 4,
        }
    }

    pub open spec fn spec_from_code(code: u8) -> Option<BgpMessageType> {
        match code {
            1u8 => Some(BgpMessageType::OPEN),
            2u8 => Some(BgpMessageType::UPDATE),
            3u8 => Some(BgpMessageType::NOTIFICATION),
            4u8 => Some(BgpMessageType::KEEPALIVE),
            _ => None,
        }
    }

    pub fn from_code(code: u8) -> (r: Option<BgpMessageType>)
        ensures
            r == BgpMessageType::spec_from_code(code),
    {
        match code {
            1u8 => Some(BgpMessageType::OPEN),
            2u8 => Some(BgpMessageType::UPDATE),
            3u8 => Some(BgpMessageType::NOTIFICATION),
            4u8 => Some(BgpMessageType::KEEPALIVE),
            _ => None,
        }
    }
}

/// A BGP message of any of the four types (RFC 4271 section 4).
#[derive(Debug)]
pub enum BgpMessage {
    Open(BgpOpenMessage),
    Update(BgpUpdateMessage),
    Notification(BgpNotificationMessage),
    KeepAlive(BgpKeepAliveMessage),
}

/// BGP Open Message: version, ASN, hold time, sender identifier and the
/// optional parameters.
#[derive(Debug)]
pub struct BgpOpenMessage {
    pub version: u8,
    pub asn: Asn,
    pub hold_time: u16,
    pub sender_ip: Ipv4Address,
    pub extended_length: bool,
    pub opt_params: Vec<OptParam>,
}

/// One optional parameter of an OPEN message.
#[derive(Debug, Clone)]
pub struct OptParam {
    pub param_type: u8,
    pub param_len: u16,
    pub param_value: ParamValue,
}

/// The value of an optional parameter: a capability, or raw octets for an
/// unrecognized parameter type.
#[derive(Debug, Clone)]
pub enum ParamValue {
    Raw(Vec<u8>),
    Capability(Capability),
}

/// A capability advertisement (RFC 3392).
#[derive(Debug, Clone)]
pub struct Capability {
    pub code: u8,
    pub len: u8,
    pub value: Vec<u8>,
}

/// BGP Update Message: withdrawn prefixes, the per-update attribute
/// collection, and announced prefixes.
#[derive(Debug)]
pub struct BgpUpdateMessage {
    pub withdrawn_prefixes: Vec<NetworkPrefix>,
    pub attributes: Attributes,
    pub announced_prefixes: Vec<NetworkPrefix>,
}

/// BGP Notification Message: an error code, subcode, and diagnostic data.
#[derive(Debug, Clone)]
pub struct BgpNotificationMessage {
    pub error_code: u8,
    pub error_subcode: u8,
    pub data: Vec<u8>,
}

/// BGP KeepAlive Message: it carries nothing.
#[derive(Debug, Clone)]
pub struct BgpKeepAliveMessage {
}

} // verus!
