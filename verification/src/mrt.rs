//! MRT records: the common header and the message variants of RFC 6396.

pub mod bgp4mp;
pub mod tabledump;

use vstd::prelude::*;
use crate::mrt::bgp4mp::Bgp4Mp;
use crate::mrt::tabledump::{TableDumpMessage, TableDumpV2Message};

verus! {

/// MRT record entry-point struct: the common header followed by the
/// message body.
#[derive(Debug)]
pub struct MrtRecord {
    pub common_header: CommonHeader,
    pub message: MrtMessage,
}

/// The MRT message body variants handled by this model.
#[derive(Debug)]
pub enum MrtMessage {
    TableDumpMessage(TableDumpMessage),
    TableDumpV2Message(TableDumpV2Message),
    Bgp4Mp(Bgp4Mp),
}

/// MRT entry types.
#[allow(non_camel_case_types)]
#[derive(Debug, Clone, Copy, PartialEq, Eq, Structural)]
pub enum EntryType {
    NULL,
    START,
    DIE,
    I_AM_DEAD,
    PEER_DOWN,
    BGP,
    RIP,
    IDRP,
    RIPNG,
    BGP4PLUS,
    BGP4PLUS_01,
    OSPFv2,
    TABLE_DUMP,
    TABLE_DUMP_V2,
    BGP4MP,
    BGP4MP_ET,
    ISIS,
    ISIS_ET,
    OSPFv3,
    OSPFv3_ET,
}

impl EntryType {
    /// The IANA-assigned code.
    pub open spec fn spec_code(self) -> u16 {
        match self {
            EntryType::NULL => 0,
            EntryType::START => 1,
            EntryType::DIE => 2,
            EntryType::I_AM_DEAD => 3,
            EntryType::PEER_DOWN => 4,
            EntryType::BGP => 5,
            EntryType::RIP => 6,
            EntryType::IDRP => 7,
            EntryType::RIPNG => 8,
            EntryType::BGP4PLUS => 9,
            EntryType::BGP4PLUS_01 => 10,
            EntryType::OSPFv2 => 11,
            EntryType::TABLE_DUMP => 12,
            EntryType::TABLE_DUMP_V2 => 13,
            EntryType::BGP4MP => 16,
            EntryType::BGP4MP_ET => 17,
            EntryType::ISIS => 32,
            EntryType::ISIS_ET => 33,
            EntryType::OSPFv3 => 48,
            EntryType::OSPFv3_ET => 49,
        }
    }

    pub fn code(&self) -> (r: u16)
        ensures
            r == self.spec_code(),
    {
        match self {
            EntryType::NULL => 0,
            EntryType::START => 1,
            EntryType::DIE => 2,
            EntryType::I_AM_DEAD => 3,
            EntryType::PEER_DOWN => 4,
            EntryType::BGP => 5,
            EntryType::RIP => 6,
            EntryType::IDRP => 7,
            EntryType::RIPNG => 8,
            EntryType::BGP4PLUS => 9,
            EntryType::BGP4PLUS_01 => 10,
            EntryType::OSPFv2 => 11,
            EntryType::TABLE_DUMP => 12,
            EntryType::TABLE_DUMP_V2 => 13,
            EntryType::BGP4MP => 16,
            EntryType::BGP4MP_ET => 17,
            EntryType::ISIS => 32,
            EntryType::ISIS_ET => 33,
            EntryType::OSPFv3 => 48,
            EntryType::OSPFv3_ET => 49,
        }
    }

    pub open spec fn spec_from_code(code: u16) -> Option<EntryType> {
        match code {
            0u16 => Some(EntryType::NULL),
            1u16 => Some(EntryType::START),
            2u16 => Some(EntryType::DIE),
            3u16 => Some(EntryType::I_AM_DEAD),
            4u16 => Some(EntryType::PEER_DOWN),
            5u16 => Some(EntryType::BGP),
            6u16 => Some(EntryType::RIP),
            7u16 => Some(EntryType::IDRP),
            8u16 => Some(EntryType::RIPNG),
            9u16 => Some(EntryType::BGP4PLUS),
            10u16 => Some(EntryType::BGP4PLUS_01),
            11u16 => Some(EntryType::OSPFv2),
            12u16 => Some(EntryType::TABLE_DUMP),
            13u16 => Some(EntryType::TABLE_DUMP_V2),
            16u16 => Some(EntryType::BGP4MP),
            17u16 => Some(EntryType::BGP4MP_ET),
            32u16 => Some(EntryType::ISIS),
            33u16 => Some(EntryType::ISIS_ET),
            48u16 => Some(EntryType::OSPFv3),
            49u16 => Some(EntryType::OSPFv3_ET),
            _ => None,
        }
    }

    pub fn from_code(code: u16) -> (r: Option<EntryType>)
        ensures
            r == EntryType::spec_from_code(code),
    {
        match code {
            0u16 => Some(EntryType::NULL),
            1u16 => Some(EntryType::START),
            2u16 => Some(EntryType::DIE),
            3u16 => Some(EntryType::I_AM_DEAD),
            4u16 => Some(EntryType::PEER_DOWN),
            5u16 => Some(EntryType::BGP),
            6u16 => Some(EntryType::RIP),
            7u16 => Some(EntryType::IDRP),
            8u16 => Some(EntryType::RIPNG),
            9u16 => Some(EntryType::BGP4PLUS),
            10u16 => Some(EntryType::BGP4PLUS_01),
            11u16 => Some(EntryType::OSPFv2),
            12u16 => Some(EntryType::TABLE_DUMP),
            13u16 => Some(EntryType::TABLE_DUMP_V2),
            16u16 => Some(EntryType::BGP4MP),
            17u16 => Some(EntryType::BGP4MP_ET),
            32u16 => Some(EntryType::ISIS),
            33u16 => Some(EntryType::ISIS_ET),
            48u16 => Some(EntryType::OSPFv3),
            49u16 => Some(EntryType::OSPFv3_ET),
            _ => None,
        }
    }
}

/// MRT common header: timestamp, entry type and subtype, message length,
/// and for the extended-timestamp entry types the microsecond part.
#[derive(Debug, Clone)]
pub struct CommonHeader {
    pub timestamp: u32,
    pub microsecond_timestamp: Option<u32>,
    pub entry_type: EntryType,
    pub entry_subtype: u16,
    pub length: u32,
}

} // verus!
