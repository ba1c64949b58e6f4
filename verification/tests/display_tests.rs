use bgp_models::bgp::attributes::{AsPath, AsPathSegment, AtomicAggregate, Origin};
use bgp_models::bgp::display::{bytes_to_string, u32_to_string};
use bgp_models::network::{
    Ipv4Address, Ipv6Address, NetworkPrefix, NextHopAddress,
};

#[test]
fn test_aspath_display() {
    let aspath = AsPath {
        segments: vec![AsPathSegment::AsSequence([1, 2, 3, 5].to_vec())],
    };
    let mut paths = vec![];
    for _ in 0..1000000 {
        paths.push(aspath.clone());
    }
    for p in paths {
        p.to_str();
    }
}

#[test]
fn test_segment_rendering() {
    // A sequence renders as plain space-joined ASNs, a set as the
    // brace-delimited, comma-joined form.
    assert_eq!(AsPathSegment::AsSequence([1, 2, 3].to_vec()).to_str(), "1 2 3");
    assert_eq!(AsPathSegment::ConfedSequence([1, 2].to_vec()).to_str(), "1 2");
    assert_eq!(AsPathSegment::AsSet([1, 2].to_vec()).to_str(), "{ 1, 2 }");
    assert_eq!(AsPathSegment::ConfedSet([7].to_vec()).to_str(), "{ 7 }");
    assert_eq!(AsPathSegment::AsSequence(vec![]).to_str(), "");
    assert_eq!(AsPathSegment::AsSet(vec![]).to_str(), "{  }");
}

#[test]
fn test_path_rendering() {
    let path = AsPath::from_segments(vec![
        AsPathSegment::AsSequence([1, 2, 3, 5].to_vec()),
        AsPathSegment::AsSet([4, 5].to_vec()),
    ]);
    assert_eq!(path.to_str(), "1 2 3 5 { 4, 5 }");
    assert_eq!(AsPath::new().to_str(), "");
}

#[test]
fn test_u32_rendering() {
    assert_eq!(u32_to_string(0), "0");
    assert_eq!(u32_to_string(7), "7");
    assert_eq!(u32_to_string(65536), "65536");
    assert_eq!(u32_to_string(u32::MAX), "4294967295");
}

#[test]
fn test_bytes_to_string() {
    assert_eq!(bytes_to_string(&[]), "");
    assert_eq!(bytes_to_string(&[0x00, 0xAB, 0x1f]), "00AB1F");
    assert_eq!(bytes_to_string(&[255, 1]), "FF01");
}

#[test]
fn test_ipv4_rendering() {
    assert_eq!(Ipv4Address(0).to_str(), "0.0.0.0");
    assert_eq!(Ipv4Address(0xC0A80101).to_str(), "192.168.1.1");
    assert_eq!(Ipv4Address(u32::MAX).to_str(), "255.255.255.255");
}

#[test]
fn test_ipv6_rendering() {
    assert_eq!(Ipv6Address(0).to_str(), "::");
    assert_eq!(Ipv6Address(1).to_str(), "::1");
    // 2001:db8::1
    assert_eq!(
        Ipv6Address(0x2001_0db8_0000_0000_0000_0000_0000_0001).to_str(),
        "2001:db8::1"
    );
    // No run of two zero groups: nothing is shortened.
    assert_eq!(
        Ipv6Address(0x0001_0002_0003_0004_0005_0006_0007_0008).to_str(),
        "1:2:3:4:5:6:7:8"
    );
    // A single zero group is not shortened.
    assert_eq!(
        Ipv6Address(0x0001_0000_0001_0001_0001_0001_0001_0001).to_str(),
        "1:0:1:1:1:1:1:1"
    );
    // Two runs of equal length: the leftmost is shortened.
    assert_eq!(
        Ipv6Address(0x0001_0000_0000_0001_0000_0000_0001_0001).to_str(),
        "1::1:0:0:1:1"
    );
    // The longer run wins even when it comes later.
    assert_eq!(
        Ipv6Address(0x0001_0000_0000_0001_0000_0000_0000_0001).to_str(),
        "1:0:0:1::1"
    );
    // An IPv4-mapped address renders in its mixed form.
    assert_eq!(
        Ipv6Address(0x0000_0000_0000_0000_0000_ffff_c000_0201).to_str(),
        "::ffff:192.0.2.1"
    );
    // The run may reach the end of the address.
    assert_eq!(
        Ipv6Address(0xfe80_0000_0000_0000_0000_0000_0000_0000).to_str(),
        "fe80::"
    );
}

#[test]
fn test_next_hop_rendering() {
    assert_eq!(NextHopAddress::Ipv4(Ipv4Address(0x0A000001)).to_str(), "10.0.0.1");
    assert_eq!(NextHopAddress::Ipv6(Ipv6Address(1)).to_str(), "::1");
    // A link-local pair renders as its first address.
    assert_eq!(
        NextHopAddress::Ipv6LinkLocal(Ipv6Address(1), Ipv6Address(2)).to_str(),
        "::1"
    );
}

#[test]
fn test_prefix_parse_and_render() {
    let p = NetworkPrefix::from_str("8.8.8.0/24").unwrap();
    assert_eq!(p.path_id, 0);
    assert_eq!(p.to_str(), "8.8.8.0/24");

    // A bare address parses as a host network.
    let p = NetworkPrefix::from_str("10.0.0.1").unwrap();
    assert_eq!(p.to_str(), "10.0.0.1/32");

    let p = NetworkPrefix::from_str("2001:db8::/32").unwrap();
    assert_eq!(p.to_str(), "2001:db8::/32");

    assert!(NetworkPrefix::from_str("8.8.8.0/33").is_err());
    assert!(NetworkPrefix::from_str("300.1.2.3/8").is_err());
    assert!(NetworkPrefix::from_str("not a prefix").is_err());
}

#[test]
fn test_simple_enum_rendering() {
    assert_eq!(Origin::IGP.to_str(), "IGP");
    assert_eq!(Origin::EGP.to_str(), "EGP");
    assert_eq!(Origin::INCOMPLETE.to_str(), "INCOMPLETE");
    assert_eq!(AtomicAggregate::AG.to_str(), "AG");
    assert_eq!(AtomicAggregate::NAG.to_str(), "NAG");
}
