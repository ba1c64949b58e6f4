//! MRT table dump structs: full-table snapshots in the original and the
//! second version of the format.

use vstd::prelude::*;
use std::collections::HashMap;
use crate::bgp::attributes::Attributes;
use crate::network::{Afi, Asn, IpAddress, NetworkPrefix, Safi};

verus! {

/// A message of the original TABLE_DUMP format: one prefix with its
/// attributes as seen from one peer.
#[derive(Debug)]
pub struct TableDumpMessage {
    pub view_number: u16,
    pub sequence_number: u16,
    pub prefix: NetworkPrefix,
    pub status: u8,
    pub originated_time: u64,
    pub peer_address: IpAddress,
    pub peer_asn: Asn,
    pub attributes: Attributes,
}

/// The TABLE_DUMP_V2 message variants.
#[derive(Debug)]
pub enum TableDumpV2Message {
    PeerIndexTable(PeerIndexTable),
    RibAfiEntries(RibAfiEntries),
    RibGenericEntries(RibGenericEntries),
}

/// The RIB entries for one prefix of a known address family.
#[derive(Debug)]
pub struct RibAfiEntries {
    pub sequence_number: u32,
    pub prefix: NetworkPrefix,
    pub rib_entries: Vec<RibEntry>,
}

/// The RIB entries for one piece of generic reachability information.
#[derive(Debug)]
pub struct RibGenericEntries {
    pub sequence_number: u32,
    pub afi: Afi,
    pub safi: Safi,
    pub nlri: NetworkPrefix,
    pub rib_entries: Vec<RibEntry>,
}

/// One RIB entry: the peer it came from, its origination time, and its
/// attribute collection.
#[derive(Debug)]
pub struct RibEntry {
    pub peer_index: u16,
    pub originated_time: u32,
    pub attributes: Attributes,
}

/// TABLE_DUMP_V2 subtypes.
#[derive(Debug, Clone, Copy, PartialEq, Eq, Structural)]
pub enum TableDumpV2Type {
    PeerIndexTable,
    RibIpv4Unicast,
    RibIpv4Multicast,
    RibIpv6Unicast,
    RibIpv6Multicast,
    RibGeneric,
    GeoPeerTable,
    RibIpv4UnicastAddPath,
    RibIpv4MulticastAddPath,
    RibIpv6UnicastAddPath,
    RibIpv6MulticastAddPath,
    RibGenericAddPath,
}

impl TableDumpV2Type {
    /// The IANA-assigned code.
    pub open spec fn spec_code(self) -> u16 {
        match self {
            TableDumpV2Type::PeerIndexTable => 1,
            TableDumpV2Type::RibIpv4Unicast => 2,
            TableDumpV2Type::RibIpv4Multicast => 3,
            TableDumpV2Type::RibIpv6Unicast => 4,
            TableDumpV2Type::RibIpv6Multicast => 5,
            TableDumpV2Type::RibGeneric => 6,
            TableDumpV2Type::GeoPeerTable => 7,
            TableDumpV2Type::RibIpv4UnicastAddPath => 8,
            TableDumpV2Type::RibIpv4MulticastAddPath => 9,
            TableDumpV2Type::RibIpv6UnicastAddPath => 10,
            TableDumpV2Type::RibIpv6MulticastAddPath => 11,
            TableDumpV2Type::RibGenericAddPath => 12,
        }
    }

    pub fn code(&self) -> (r: u16)
        ensures
            r == self.spec_code(),
    {
        match self {
            TableDumpV2Type::PeerIndexTable => 1,
            TableDumpV2Type::RibIpv4Unicast => 2,
            TableDumpV2Type::RibIpv4Multicast => 3,
            TableDumpV2Type::RibIpv6Unicast => 4,
            TableDumpV2Type::RibIpv6Multicast => 5,
            TableDumpV2Type::RibGeneric => 6,
            TableDumpV2Type::GeoPeerTable => 7,
            TableDumpV2Type::RibIpv4UnicastAddPath => 8,
            TableDumpV2Type::RibIpv4MulticastAddPath => 9,
            TableDumpV2Type::RibIpv6UnicastAddPath => 10,
            TableDumpV2Type::RibIpv6MulticastAddPath => 11,
            TableDumpV2Type::RibGenericAddPath => 12,
        }
    }

    pub open spec fn spec_from_code(code: u16) -> Option<TableDumpV2Type> {
        match code {
            1u16 => Some(TableDumpV2Type::PeerIndexTable),
            2u16 => Some(TableDumpV2Type::RibIpv4Unicast),
            3u16 => Some(TableDumpV2Type::RibIpv4Multicast),
            4u16 => Some(TableDumpV2Type::RibIpv6Unicast),
            5u16 => Some(TableDumpV2Type::RibIpv6Multicast),
            6u16 => Some(TableDumpV2Type::RibGeneric),
            7u16 => Some(TableDumpV2Type::GeoPeerTable),
            8u16 => Some(TableDumpV2Type::RibIpv4UnicastAddPath),
            9u16 => Some(TableDumpV2Type::RibIpv4MulticastAddPath),
            10u16 => Some(TableDumpV2Type::RibIpv6UnicastAddPath),
            11u16 => Some(TableDumpV2Type::RibIpv6MulticastAddPath),
            12u16 => Some(TableDumpV2Type::RibGenericAddPath),
            _ => None,
        }
    }

    pub fn from_code(code: u16) -> (r: Option<TableDumpV2Type>)
        ensures
            r == TableDumpV2Type::spec_from_code(code),
    {
        match code {
            1u16 => Some(TableDumpV2Type::PeerIndexTable),
            2u16 => Some(TableDumpV2Type::RibIpv4Unicast),
            3u16 => Some(TableDumpV2Type::RibIpv4Multicast),
            4u16 => Some(TableDumpV2Type::RibIpv6Unicast),
            5u16 => Some(TableDumpV2Type::RibIpv6Multicast),
            6u16 => Some(TableDumpV2Type::RibGeneric),
            7u16 => Some(TableDumpV2Type::GeoPeerTable),
            8u16 => Some(TableDumpV2Type::RibIpv4UnicastAddPath),
            9u16 => Some(TableDumpV2Type::RibIpv4MulticastAddPath),
            10u16 => Some(TableDumpV2Type::RibIpv6UnicastAddPath),
            11u16 => Some(TableDumpV2Type::RibIpv6MulticastAddPath),
            12u16 => Some(TableDumpV2Type::RibGenericAddPath),
            _ => None,
        }
    }
}

/// The peer index table of a TABLE_DUMP_V2 dump: the collector identity
/// and the peers that RIB entries refer to by index.
#[derive(Debug)]
pub struct PeerIndexTable {
    pub collector_bgp_id: u32,
    pub view_name_length: u16,
    pub view_name: String,
    pub peer_count: u16,
    pub peers_map: HashMap<u32, Peer>,
}

/// One peer of the peer index table.
#[derive(Debug, Clone)]
pub struct Peer {
    pub peer_type: u8,
    pub peer_bgp_id: u32,
    pub peer_address: IpAddress,
    pub peer_asn: Asn,
}

} // verus!
