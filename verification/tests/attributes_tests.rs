use bgp_models::bgp::attributes::{AsPath, AsPathSegment, AttrType, Attribute, Attributes, Origin};

#[test]
fn test_aspath_as4path_merge() {
    let aspath = AsPath {
        segments: vec![AsPathSegment::AsSequence([1, 2, 3, 5].to_vec())],
    };
    let as4path = AsPath {
        segments: vec![AsPathSegment::AsSequence([2, 3, 7].to_vec())],
    };
    let newpath = AsPath::merge_aspath_as4path(
        Some(&Attribute::AsPath(aspath)),
        Some(&Attribute::As4Path(as4path)),
    )
    .unwrap();
    assert_eq!(newpath.segments[0], AsPathSegment::AsSequence([1, 2, 3, 7].to_vec()));
}

#[test]
fn test_merge_ignores_longer_as4path() {
    let aspath = AsPath {
        segments: vec![AsPathSegment::AsSequence([1, 2].to_vec())],
    };
    let as4path = AsPath {
        segments: vec![AsPathSegment::AsSequence([9, 8, 7].to_vec())],
    };
    let merged = AsPath::merge_aspath_as4path(
        Some(&Attribute::AsPath(aspath.clone())),
        Some(&Attribute::As4Path(as4path)),
    )
    .unwrap();
    assert_eq!(merged, aspath);
}

#[test]
fn test_merge_single_attribute_present() {
    let aspath = AsPath {
        segments: vec![AsPathSegment::AsSequence([1, 2].to_vec())],
    };
    let merged =
        AsPath::merge_aspath_as4path(Some(&Attribute::AsPath(aspath.clone())), None).unwrap();
    assert_eq!(merged, aspath);

    let as4path = AsPath {
        segments: vec![AsPathSegment::AsSequence([3, 4].to_vec())],
    };
    let merged =
        AsPath::merge_aspath_as4path(None, Some(&Attribute::As4Path(as4path.clone()))).unwrap();
    assert_eq!(merged, as4path);

    assert!(AsPath::merge_aspath_as4path(None, None).is_none());
}

#[test]
fn test_merge_type_tag_mismatch() {
    let aspath = AsPath {
        segments: vec![AsPathSegment::AsSequence([1, 2].to_vec())],
    };
    // A slot holding an attribute of the wrong kind yields no usable path.
    let merged = AsPath::merge_aspath_as4path(
        Some(&Attribute::Origin(Origin::IGP)),
        Some(&Attribute::As4Path(aspath.clone())),
    );
    assert!(merged.is_none());
    let merged = AsPath::merge_aspath_as4path(Some(&Attribute::Origin(Origin::IGP)), None);
    assert!(merged.is_none());
}

#[test]
fn test_merge_as4path_exhausted() {
    // The AS4_PATH has fewer segments: the remaining AS_PATH segments are
    // kept verbatim.
    let aspath = AsPath {
        segments: vec![
            AsPathSegment::AsSequence([1, 2, 3].to_vec()),
            AsPathSegment::AsSet([4, 5].to_vec()),
        ],
    };
    let as4path = AsPath {
        segments: vec![AsPathSegment::AsSequence([2, 3].to_vec())],
    };
    let merged = AsPath::merge_aspath_as4path(
        Some(&Attribute::AsPath(aspath)),
        Some(&Attribute::As4Path(as4path)),
    )
    .unwrap();
    assert_eq!(
        merged.segments,
        vec![
            AsPathSegment::AsSequence([1, 2, 3].to_vec()),
            AsPathSegment::AsSet([4, 5].to_vec()),
        ]
    );
}

#[test]
fn test_merge_preserves_asn_count() {
    let aspath = AsPath {
        segments: vec![
            AsPathSegment::AsSequence([1, 2, 3, 5].to_vec()),
            AsPathSegment::AsSequence([6, 7].to_vec()),
        ],
    };
    let as4path = AsPath {
        segments: vec![AsPathSegment::AsSequence([2, 3, 7].to_vec())],
    };
    let total = aspath.count_asns();
    let merged = AsPath::merge_aspath_as4path(
        Some(&Attribute::AsPath(aspath)),
        Some(&Attribute::As4Path(as4path)),
    )
    .unwrap();
    assert_eq!(merged.count_asns(), total);
}

#[test]
fn test_count_asns() {
    // A set counts as one hop, a sequence as its length.
    let path = AsPath::from_segments(vec![
        AsPathSegment::AsSet([1, 2, 3].to_vec()),
        AsPathSegment::AsSequence([4, 5].to_vec()),
    ]);
    assert_eq!(path.count_asns(), 3);
    assert_eq!(AsPathSegment::AsSet([1, 2, 3].to_vec()).count_asns(), 1);
    assert_eq!(AsPathSegment::ConfedSequence([1, 2].to_vec()).count_asns(), 0);
    assert_eq!(AsPathSegment::ConfedSet([1, 2].to_vec()).count_asns(), 0);
}

#[test]
fn test_aspath_builders() {
    let mut path = AsPath::new();
    assert_eq!(path.segments().len(), 0);
    assert_eq!(path.count_asns(), 0);
    path.add_segment(AsPathSegment::AsSequence([64512, 64513].to_vec()));
    assert_eq!(path.segments().len(), 1);
    assert_eq!(path.count_asns(), 2);
}

#[test]
fn test_attributes_last_write_wins() {
    let mut attributes = Attributes::new();
    attributes.insert(AttrType::ORIGIN, Attribute::Origin(Origin::IGP));
    attributes.insert(AttrType::ORIGIN, Attribute::Origin(Origin::EGP));
    // One value per type key: the second insert overwrote the first.
    assert_eq!(attributes.map.len(), 1);
    match attributes.get(AttrType::ORIGIN) {
        Some(Attribute::Origin(o)) => assert_eq!(*o, Origin::EGP),
        _ => panic!("expected the overwritten origin"),
    }
    assert!(attributes.get(AttrType::AS_PATH).is_none());
}

#[test]
fn test_attr_type_codes() {
    assert_eq!(AttrType::ORIGIN.code(), 1);
    assert_eq!(AttrType::AS_PATH.code(), 2);
    assert_eq!(AttrType::MP_REACHABLE_NLRI.code(), 14);
    assert_eq!(AttrType::AS4_PATH.code(), 17);
    assert_eq!(AttrType::LARGE_COMMUNITIES.code(), 32);
    assert_eq!(AttrType::from_code(2), Some(AttrType::AS_PATH));
    assert_eq!(AttrType::from_code(11), None);
    assert_eq!(Origin::from_code(0), Some(Origin::IGP));
    assert_eq!(Origin::from_code(3), None);
}
