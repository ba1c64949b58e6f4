use bgp_models::bgp::community::{
    Community, ExtendedCommunity, ExtendedCommunityType, FourOctetAsSpecific,
    Ipv4AddressSpecific, Ipv6AddressSpecificExtendedCommunity, LargeCommunity, Opaque,
    RegularCommunity, TwoOctetAsSpecific,
};
use bgp_models::network::{Ipv4Address, Ipv6Address};

fn all_variants() -> Vec<ExtendedCommunity> {
    let two = TwoOctetAsSpecific {
        ec_type: 0x00,
        ec_subtype: 0x02,
        global_administrator: 0x1234,
        local_administrator: [1, 2, 3, 4],
    };
    let ipv4 = Ipv4AddressSpecific {
        ec_type: 0x01,
        ec_subtype: 0x02,
        global_administrator: Ipv4Address(0xC0000201),
        local_administrator: [5, 6],
    };
    let four = FourOctetAsSpecific {
        ec_type: 0x02,
        ec_subtype: 0x02,
        global_administrator: 0x00FF00FF,
        local_administrator: [7, 8],
    };
    let opaque = Opaque {
        ec_type: 0x03,
        ec_subtype: 0x00,
        value: [1, 2, 3, 4, 5, 0xFF],
    };
    vec![
        ExtendedCommunity::TransitiveTwoOctetAsSpecific(two),
        ExtendedCommunity::TransitiveIpv4AddressSpecific(ipv4),
        ExtendedCommunity::TransitiveFourOctetAsSpecific(four),
        ExtendedCommunity::TransitiveOpaque(opaque),
        ExtendedCommunity::NonTransitiveTwoOctetAsSpecific(two),
        ExtendedCommunity::NonTransitiveIpv4AddressSpecific(ipv4),
        ExtendedCommunity::NonTransitiveFourOctetAsSpecific(four),
        ExtendedCommunity::NonTransitiveOpaque(opaque),
        ExtendedCommunity::Raw([0xDE, 0xAD, 0xBE, 0xEF, 0, 1, 2, 3]),
    ]
}

#[test]
fn test_extended_community_eight_octets() {
    // Every variant's fields serialize to exactly eight octets.
    for ec in all_variants() {
        assert_eq!(ec.to_bytes().len(), 8);
    }
}

#[test]
fn test_extended_community_byte_layout() {
    let two = ExtendedCommunity::TransitiveTwoOctetAsSpecific(TwoOctetAsSpecific {
        ec_type: 0x00,
        ec_subtype: 0x02,
        global_administrator: 0x1234,
        local_administrator: [1, 2, 3, 4],
    });
    assert_eq!(two.to_bytes(), vec![0x00, 0x02, 0x12, 0x34, 1, 2, 3, 4]);

    let four = ExtendedCommunity::NonTransitiveFourOctetAsSpecific(FourOctetAsSpecific {
        ec_type: 0x42,
        ec_subtype: 0x02,
        global_administrator: 0x00FF00FF,
        local_administrator: [7, 8],
    });
    assert_eq!(four.to_bytes(), vec![0x42, 0x02, 0x00, 0xFF, 0x00, 0xFF, 7, 8]);

    let raw = ExtendedCommunity::Raw([9, 8, 7, 6, 5, 4, 3, 2]);
    assert_eq!(raw.to_bytes(), vec![9, 8, 7, 6, 5, 4, 3, 2]);
}

#[test]
fn test_regular_community_rendering() {
    assert_eq!(RegularCommunity::NoExport.to_str(), "no-export");
    assert_eq!(RegularCommunity::NoAdvertise.to_str(), "no-advertise");
    assert_eq!(RegularCommunity::NoExportSubConfed.to_str(), "no-export-sub-confed");
    assert_eq!(RegularCommunity::Custom(65000, 100).to_str(), "65000:100");
}

#[test]
fn test_large_community() {
    let lc = LargeCommunity::new(65551, [1, 2]);
    assert_eq!(lc.global_administrator, 65551);
    assert_eq!(lc.local_data, [1, 2]);
    assert_eq!(lc.to_str(), "65551:1:2");
}

#[test]
fn test_extended_community_rendering() {
    let two = ExtendedCommunity::TransitiveTwoOctetAsSpecific(TwoOctetAsSpecific {
        ec_type: 0,
        ec_subtype: 2,
        global_administrator: 64512,
        local_administrator: [0, 0, 0, 100],
    });
    assert_eq!(two.to_str(), "0:2:64512:00000064");

    let ipv4 = ExtendedCommunity::TransitiveIpv4AddressSpecific(Ipv4AddressSpecific {
        ec_type: 1,
        ec_subtype: 2,
        global_administrator: Ipv4Address(0xC0000201),
        local_administrator: [0, 10],
    });
    assert_eq!(ipv4.to_str(), "1:2:192.0.2.1:000A");

    let opaque = ExtendedCommunity::NonTransitiveOpaque(Opaque {
        ec_type: 0x43,
        ec_subtype: 0,
        value: [1, 2, 3, 4, 5, 0xFF],
    });
    assert_eq!(opaque.to_str(), "67:0:0102030405FF");

    let raw = ExtendedCommunity::Raw([0xDE, 0xAD, 0xBE, 0xEF, 0, 1, 2, 3]);
    assert_eq!(raw.to_str(), "DEADBEEF00010203");
}

#[test]
fn test_ipv6_specific_rendering() {
    let ec = Ipv6AddressSpecificExtendedCommunity {
        ec_type: 0,
        ec_subtype: 2,
        global_administrator: Ipv6Address(0x2001_0db8_0000_0000_0000_0000_0000_0001),
        local_administrator: [0, 1],
    };
    assert_eq!(ec.to_str(), "0:2:2001:db8::1:0001");
}

#[test]
fn test_community_union_rendering() {
    let c = Community::RegularCommunity(RegularCommunity::Custom(65000, 100));
    assert_eq!(c.to_str(), "65000:100");
    let c = Community::LargeCommunity(LargeCommunity::new(1, [2, 3]));
    assert_eq!(c.to_str(), "1:2:3");
}

#[test]
fn test_extended_community_type_codes() {
    assert_eq!(ExtendedCommunityType::TransitiveTwoOctetAsSpecific.code(), 0x00);
    assert_eq!(ExtendedCommunityType::NonTransitiveOpaque.code(), 0x43);
    assert_eq!(
        ExtendedCommunityType::from_code(0x41),
        Some(ExtendedCommunityType::NonTransitiveIpv4AddressSpecific)
    );
    assert_eq!(ExtendedCommunityType::from_code(0x44), None);
}
