use bgp_models::bgp::attributes::{AsPath, AsPathSegment, AtomicAggregate, Origin};
use bgp_models::bgp::community::{Community, RegularCommunity};
use bgp_models::bgp::elem::{option_to_string_communities, BgpElem, ElemType, Timestamp};
use bgp_models::network::{IpAddress, Ipv4Address, NetworkPrefix};

#[test]
fn test_default() {
    let elem = BgpElem {
        timestamp: Timestamp { seconds: 0, microseconds: 0 },
        elem_type: ElemType::ANNOUNCE,
        peer_ip: IpAddress::V4(Ipv4Address(0xC0A80101)),
        peer_asn: 0,
        prefix: NetworkPrefix::from_str("8.8.8.0/24").unwrap(),
        ..Default::default()
    };
    assert_eq!(elem.to_str(), "A|0|192.168.1.1|0|8.8.8.0/24|||||||||");
}

#[test]
fn test_default_element_fields() {
    let elem = BgpElem::default();
    assert_eq!(elem.peer_asn, 0);
    assert!(elem.as_path.is_none());
    assert!(elem.communities.is_none());
    assert_eq!(elem.to_str(), "A|0|0.0.0.0|0|0.0.0.0/0|||||||||");
}

#[test]
fn test_withdrawal_line() {
    // A withdrawal with no optional fields: empty fields for every absent
    // optional, the pipe count constant.
    let elem = BgpElem {
        timestamp: Timestamp { seconds: 1625112000, microseconds: 0 },
        elem_type: ElemType::WITHDRAW,
        peer_ip: IpAddress::V4(Ipv4Address(0x0A000001)),
        peer_asn: 64512,
        prefix: NetworkPrefix::from_str("192.0.2.0/24").unwrap(),
        ..Default::default()
    };
    assert_eq!(elem.to_str(), "W|1625112000|10.0.0.1|64512|192.0.2.0/24|||||||||");
}

#[test]
fn test_announce_line_full() {
    let elem = BgpElem {
        timestamp: Timestamp { seconds: 1625112000, microseconds: 0 },
        elem_type: ElemType::ANNOUNCE,
        peer_ip: IpAddress::V4(Ipv4Address(0x0A000001)),
        peer_asn: 64512,
        prefix: NetworkPrefix::from_str("192.0.2.0/24").unwrap(),
        next_hop: Some(IpAddress::V4(Ipv4Address(0x0A000002))),
        as_path: Some(AsPath::from_segments(vec![AsPathSegment::AsSequence(
            [64512, 65000].to_vec(),
        )])),
        origin: Some(Origin::IGP),
        local_pref: Some(100),
        med: Some(20),
        communities: Some(vec![
            Community::RegularCommunity(RegularCommunity::Custom(65000, 100)),
            Community::RegularCommunity(RegularCommunity::NoExport),
        ]),
        atomic: Some(AtomicAggregate::AG),
        aggr_asn: Some(65000),
        aggr_ip: Some(IpAddress::V4(Ipv4Address(0x0A000003))),
        ..Default::default()
    };
    assert_eq!(
        elem.to_str(),
        "A|1625112000|10.0.0.1|64512|192.0.2.0/24|64512 65000|IGP|10.0.0.2|100|20|65000:100 no-export|AG|65000|10.0.0.3"
    );
}

#[test]
fn test_timestamp_fraction() {
    let base = BgpElem::default();
    let make = |seconds: u32, microseconds: u32| BgpElem {
        timestamp: Timestamp { seconds, microseconds },
        ..base.clone()
    };
    // Trailing zeros of the fractional part are dropped; leading zeros of
    // the six-digit field are kept.
    assert_eq!(make(10, 500000).to_str(), "A|10.5|0.0.0.0|0|0.0.0.0/0|||||||||");
    assert_eq!(make(10, 10500).to_str(), "A|10.0105|0.0.0.0|0|0.0.0.0/0|||||||||");
    assert_eq!(make(10, 123456).to_str(), "A|10.123456|0.0.0.0|0|0.0.0.0/0|||||||||");
    assert_eq!(make(10, 1).to_str(), "A|10.000001|0.0.0.0|0|0.0.0.0/0|||||||||");
}

#[test]
fn test_option_to_string_communities() {
    assert_eq!(option_to_string_communities(&None), "");
    let communities = vec![
        Community::RegularCommunity(RegularCommunity::Custom(65000, 100)),
        Community::RegularCommunity(RegularCommunity::NoAdvertise),
    ];
    assert_eq!(
        option_to_string_communities(&Some(communities)),
        "65000:100 no-advertise"
    );
}
