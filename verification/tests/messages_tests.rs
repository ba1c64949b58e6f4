use bgp_models::bgp::attributes::{
    AttrType, Attribute, Attributes, MpReachableNlri, MpUnreachableNlri, Nlri, Origin,
};
use bgp_models::bgp::{
    BgpKeepAliveMessage, BgpMessage, BgpNotificationMessage, BgpOpenMessage, BgpUpdateMessage,
    Capability, OptParam, ParamValue,
};
use bgp_models::mrt::{CommonHeader, EntryType, MrtMessage, MrtRecord};
use bgp_models::mrt::bgp4mp::{Bgp4Mp, Bgp4MpMessage, BgpState};
use bgp_models::mrt::tabledump::{Peer, RibEntry};
use bgp_models::network::{
    Afi, IpAddress, Ipv4Address, NetworkPrefix, NextHopAddress, Safi,
};

#[test]
fn test_mp_nlri_constructors() {
    let prefix = NetworkPrefix::from_str("192.0.2.0/24").unwrap();
    let reach = MpReachableNlri::new(
        Afi::Ipv4,
        Safi::Unicast,
        NextHopAddress::Ipv4(Ipv4Address(0x0A000001)),
        vec![prefix],
    );
    assert_eq!(reach.afi, Afi::Ipv4);
    assert_eq!(reach.prefixes.len(), 1);

    let unreach = MpUnreachableNlri::new(Afi::Ipv6, Safi::Multicast, vec![]);
    assert_eq!(unreach.safi, Safi::Multicast);
    assert_eq!(unreach.prefixes.len(), 0);

    let nlri = Nlri {
        afi: Afi::Ipv4,
        safi: Safi::Unicast,
        next_hop: None,
        prefixes: vec![prefix],
    };
    assert!(nlri.next_hop.is_none());
}

#[test]
fn test_network_prefix_new() {
    let parsed = NetworkPrefix::from_str("10.0.0.0/8").unwrap();
    let built = NetworkPrefix::new(parsed.prefix, 7);
    assert_eq!(built.path_id, 7);
    assert_eq!(built.prefix, parsed.prefix);
    // The path identifier is not part of the text form.
    assert_eq!(built.to_str(), "10.0.0.0/8");
}

#[test]
fn test_mrt_record_construction() {
    let mut attributes = Attributes::new();
    attributes.insert(AttrType::ORIGIN, Attribute::Origin(Origin::IGP));
    let update = BgpUpdateMessage {
        withdrawn_prefixes: vec![],
        attributes,
        announced_prefixes: vec![NetworkPrefix::from_str("192.0.2.0/24").unwrap()],
    };
    let message = Bgp4MpMessage {
        peer_asn: 64512,
        local_asn: 65000,
        interface_index: 0,
        afi: Afi::Ipv4,
        peer_ip: IpAddress::V4(Ipv4Address(0x0A000001)),
        local_ip: IpAddress::V4(Ipv4Address(0x0A000002)),
        bgp_message: BgpMessage::Update(update),
    };
    let record = MrtRecord {
        common_header: CommonHeader {
            timestamp: 1625112000,
            microsecond_timestamp: None,
            entry_type: EntryType::BGP4MP,
            entry_subtype: 1,
            length: 0,
        },
        message: MrtMessage::Bgp4Mp(Bgp4Mp::Bgp4MpMessage(message)),
    };
    assert_eq!(record.common_header.entry_type.code(), 16);
    match &record.message {
        MrtMessage::Bgp4Mp(Bgp4Mp::Bgp4MpMessage(m)) => assert_eq!(m.peer_asn, 64512),
        _ => panic!("expected a BGP4MP message"),
    }
}

#[test]
fn test_open_and_notification_messages() {
    let open = BgpOpenMessage {
        version: 4,
        asn: 64512,
        hold_time: 180,
        sender_ip: Ipv4Address(0x0A000001),
        extended_length: false,
        opt_params: vec![OptParam {
            param_type: 2,
            param_len: 2,
            param_value: ParamValue::Capability(Capability {
                code: 65,
                len: 4,
                value: vec![0, 0, 0xFC, 0],
            }),
        }],
    };
    assert_eq!(open.opt_params.len(), 1);
    match &open.opt_params[0].param_value {
        ParamValue::Capability(c) => assert_eq!(c.code, 65),
        ParamValue::Raw(_) => panic!("expected a capability"),
    }

    let notification = BgpNotificationMessage {
        error_code: 6,
        error_subcode: 2,
        data: vec![],
    };
    assert_eq!(notification.error_code, 6);
    let _keepalive = BgpKeepAliveMessage {};
}

#[test]
fn test_rib_entry_and_peer() {
    let peer = Peer {
        peer_type: 0,
        peer_bgp_id: 1,
        peer_address: IpAddress::V4(Ipv4Address(0x0A000001)),
        peer_asn: 64512,
    };
    assert_eq!(peer.peer_asn, 64512);
    let entry = RibEntry {
        peer_index: 0,
        originated_time: 1625112000,
        attributes: Attributes::new(),
    };
    assert_eq!(entry.attributes.map.len(), 0);
    assert_eq!(BgpState::Established.code(), 6);
}
