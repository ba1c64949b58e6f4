use bgp_models::bgp::attributes::{AtomicAggregate, AttributeFlagsBit};
use bgp_models::bgp::error_codes::{
    BgpCeaseNotificationMessageSubcode, BgpErrorCode, BgpFiniteStateMachineErrorSubcode,
    BgpRouteRefreshMessageErrorSubcode, MessageHeaderErrorSubcode, OpenMessageErrorSubcode,
    UpdateMessageErrorSubcode,
};
use bgp_models::bgp::BgpMessageType;
use bgp_models::mrt::bgp4mp::{Bgp4MpType, BgpState};
use bgp_models::mrt::tabledump::TableDumpV2Type;
use bgp_models::mrt::EntryType;
use bgp_models::network::{Afi, Safi};

#[test]
fn test_bgp_message_type_codes() {
    assert_eq!(BgpMessageType::OPEN.code(), 1);
    assert_eq!(BgpMessageType::KEEPALIVE.code(), 4);
    assert_eq!(BgpMessageType::from_code(2), Some(BgpMessageType::UPDATE));
    assert_eq!(BgpMessageType::from_code(5), None);
}

#[test]
fn test_afi_safi_codes() {
    assert_eq!(Afi::Ipv4.code(), 1);
    assert_eq!(Afi::Ipv6.code(), 2);
    assert_eq!(Afi::from_code(2), Some(Afi::Ipv6));
    assert_eq!(Afi::from_code(3), None);
    assert_eq!(Safi::Unicast.code(), 1);
    assert_eq!(Safi::from_code(3), Some(Safi::UnicastMulticast));
    assert_eq!(Safi::from_code(4), None);
}

#[test]
fn test_attribute_flag_bits() {
    assert_eq!(AttributeFlagsBit::OptionalBit.value(), 0b10000000);
    assert_eq!(AttributeFlagsBit::TransitiveBit.value(), 0b01000000);
    assert_eq!(AttributeFlagsBit::PartialBit.value(), 0b00100000);
    assert_eq!(AttributeFlagsBit::ExtendedLengthBit.value(), 0b00010000);
}

#[test]
fn test_atomic_aggregate_codes() {
    assert_eq!(AtomicAggregate::NAG.code(), 0);
    assert_eq!(AtomicAggregate::AG.code(), 1);
    assert_eq!(AtomicAggregate::from_code(1), Some(AtomicAggregate::AG));
    assert_eq!(AtomicAggregate::from_code(2), None);
}

#[test]
fn test_error_code_assignments() {
    assert_eq!(BgpErrorCode::RESERVED.code(), 0);
    assert_eq!(BgpErrorCode::UPDATE_MESSAGE_ERROR.code(), 3);
    assert_eq!(BgpErrorCode::ROUTE_REFRESH_MESSAGE_ERROR.code(), 7);
    assert_eq!(BgpErrorCode::from_code(4), Some(BgpErrorCode::HOLD_TIMER_EXPIRED));
    assert_eq!(BgpErrorCode::from_code(8), None);

    assert_eq!(MessageHeaderErrorSubcode::BAD_MESSAGE_TYPE.code(), 3);
    assert_eq!(MessageHeaderErrorSubcode::from_code(4), None);

    // The deprecated subcodes stay unassigned.
    assert_eq!(OpenMessageErrorSubcode::UNACCEPTABLE_HOLD_TIME.code(), 6);
    assert_eq!(OpenMessageErrorSubcode::ROLE_MISMATCH.code(), 11);
    assert_eq!(OpenMessageErrorSubcode::from_code(5), None);
    assert_eq!(OpenMessageErrorSubcode::from_code(10), None);

    assert_eq!(UpdateMessageErrorSubcode::MALFORMED_AS_PATH.code(), 11);
    assert_eq!(UpdateMessageErrorSubcode::from_code(7), None);
    assert_eq!(
        UpdateMessageErrorSubcode::from_code(8),
        Some(UpdateMessageErrorSubcode::INVALID_NEXT_HOP_ATTRIBUTE)
    );

    assert_eq!(
        BgpFiniteStateMachineErrorSubcode::RECEIVE_UNEXPECTED_MESSAGE_IN_ESTABLISHED_STATE
            .code(),
        3
    );
    assert_eq!(BgpCeaseNotificationMessageSubcode::HARD_RESET.code(), 9);
    assert_eq!(BgpCeaseNotificationMessageSubcode::BFD_DOWN.code(), 10);
    assert_eq!(BgpRouteRefreshMessageErrorSubcode::INVALID_MESSAGE_LENGTH.code(), 1);
}

#[test]
fn test_mrt_entry_type_codes() {
    assert_eq!(EntryType::NULL.code(), 0);
    assert_eq!(EntryType::TABLE_DUMP.code(), 12);
    assert_eq!(EntryType::TABLE_DUMP_V2.code(), 13);
    assert_eq!(EntryType::BGP4MP.code(), 16);
    assert_eq!(EntryType::BGP4MP_ET.code(), 17);
    assert_eq!(EntryType::OSPFv3_ET.code(), 49);
    assert_eq!(EntryType::from_code(16), Some(EntryType::BGP4MP));
    assert_eq!(EntryType::from_code(14), None);
}

#[test]
fn test_bgp4mp_codes() {
    assert_eq!(BgpState::Idle.code(), 1);
    assert_eq!(BgpState::Established.code(), 6);
    assert_eq!(BgpState::from_code(7), None);
    assert_eq!(Bgp4MpType::Bgp4MpStateChange.code(), 0);
    assert_eq!(Bgp4MpType::Bgp4MpMessageAs4.code(), 4);
    assert_eq!(Bgp4MpType::Bgp4MpMessageLocalAs4Addpath.code(), 11);
    assert_eq!(Bgp4MpType::from_code(2), None);
    assert_eq!(Bgp4MpType::from_code(8), Some(Bgp4MpType::Bgp4MpMessageAddpath));
}

#[test]
fn test_tabledump_v2_codes() {
    assert_eq!(TableDumpV2Type::PeerIndexTable.code(), 1);
    assert_eq!(TableDumpV2Type::RibGenericAddPath.code(), 12);
    assert_eq!(TableDumpV2Type::from_code(7), Some(TableDumpV2Type::GeoPeerTable));
    assert_eq!(TableDumpV2Type::from_code(13), None);
}
