//! BGP error code module that maintains explicit error codes assigned by
//! IANA for notification messages, with verified conversions between the
//! typed values and their wire codes.

use vstd::prelude::*;

verus! {

/// BGP Error Codes for notification messages, as assigned by IANA (RFC 4271 and RFC 7313).
#[allow(non_camel_case_types)]
#[derive(Debug, Clone, Copy, PartialEq, Eq, Structural, Hash)]
pub enum BgpErrorCode {
    RESERVED,
    MESSAGE_HEADER_ERROR,
    OPEN_MESSAGE_ERROR,
    UPDATE_MESSAGE_ERROR,
    HOLD_TIMER_EXPIRED,
    FINITE_STATE_MACHINE_ERROR,
    CEASE,
    ROUTE_REFRESH_MESSAGE_ERROR,
}

impl BgpErrorCode {
    /// The IANA-assigned code.
    pub open spec fn spec_code(self) -> u8 {
        match self {
            BgpErrorCode::RESERVED => 0,
            BgpErrorCode::MESSAGE_HEADER_ERROR => 1,
            BgpErrorCode::OPEN_MESSAGE_ERROR => 2,
            BgpErrorCode::UPDATE_MESSAGE_ERROR => 3,
            BgpErrorCode::HOLD_TIMER_EXPIRED => 4,
            BgpErrorCode::FINITE_STATE_MACHINE_ERROR => 5,
            BgpErrorCode::CEASE => 6,
            BgpErrorCode::ROUTE_REFRESH_MESSAGE_ERROR => 7,
        }
    }

    pub fn code(&self) -> (r: u8)
        ensures
            r == self.spec_code(),
    {
        match self {
            BgpErrorCode::RESERVED => 0,
            BgpErrorCode::MESSAGE_HEADER_ERROR => 1,
            BgpErrorCode::OPEN_MESSAGE_ERROR => 2,
            BgpErrorCode::UPDATE_MESSAGE_ERROR => 3,
            BgpErrorCode::HOLD_TIMER_EXPIRED => 4,
            BgpErrorCode::FINITE_STATE_MACHINE_ERROR => 5,
            BgpErrorCode::CEASE => 6,
            BgpErrorCode::ROUTE_REFRESH_MESSAGE_ERROR => 7,
        }
    }

    pub open spec fn spec_from_code(code: u8) -> Option<BgpErrorCode> {
        match code {
            0u8 => Some(BgpErrorCode::RESERVED),
            1u8 => Some(BgpErrorCode::MESSAGE_HEADER_ERROR),
            2u8 => Some(BgpErrorCode::OPEN_MESSAGE_ERROR),
            3u8 => Some(BgpErrorCode::UPDATE_MESSAGE_ERROR),
            4u8 => Some(BgpErrorCode::HOLD_TIMER_EXPIRED),
            5u8 => Some(BgpErrorCode::FINITE_STATE_MACHINE_ERROR),
            6u8 => Some(BgpErrorCode::CEASE),
            7u8 => Some(BgpErrorCode::ROUTE_REFRESH_MESSAGE_ERROR),
            _ => None,
        }
    }

    pub fn from_code(code: u8) -> (r: Option<BgpErrorCode>)
        ensures
            r == BgpErrorCode::spec_from_code(code),
    {
        match code {
            0u8 => Some(BgpErrorCode::RESERVED),
            1u8 => Some(BgpErrorCode::MESSAGE_HEADER_ERROR),
            2u8 => Some(BgpErrorCode::OPEN_MESSAGE_ERROR),
            3u8 => Some(BgpErrorCode::UPDATE_MESSAGE_ERROR),
            4u8 => Some(BgpErrorCode::HOLD_TIMER_EXPIRED),
            5u8 => Some(BgpErrorCode::FINITE_STATE_MACHINE_ERROR),
            6u8 => Some(BgpErrorCode::CEASE),
            7u8 => Some(BgpErrorCode::ROUTE_REFRESH_MESSAGE_ERROR),
            _ => None,
        }
    }
}

/// BGP Error Subcode enum: the subcode family that goes with each error
/// code.
#[allow(non_camel_case_types)]
#[derive(Debug, Clone, Copy, PartialEq, Eq, Structural, Hash)]
pub enum BgpErrorSubcode {
    MessageHeaderError(MessageHeaderErrorSubcode),
    OpenMessageError(OpenMessageErrorSubcode),
    UpdateMessageError(UpdateMessageErrorSubcode),
    HoldTimerExpired,
    BgpFiniteStateMachineError(BgpFiniteStateMachineErrorSubcode),
    BgpCeaseNotification(BgpCeaseNotificationMessageSubcode),
    BgpRouteFreshMessageError(BgpRouteRefreshMessageErrorSubcode),
}

/// Message Header Error subcodes.
#[allow(non_camel_case_types)]
#[derive(Debug, Clone, Copy, PartialEq, Eq, Structural, Hash)]
pub enum MessageHeaderErrorSubcode {
    UNSPECIFIED,
    CONNECTION_NOT_SYNCHRONIZED,
    BAD_MESSAGE_LENGTH,
    BAD_MESSAGE_TYPE,
}

impl MessageHeaderErrorSubcode {
    /// The IANA-assigned code.
    pub open spec fn spec_code(self) -> u8 {
        match self {
            MessageHeaderErrorSubcode::UNSPECIFIED => 0,
            MessageHeaderErrorSubcode::CONNECTION_NOT_SYNCHRONIZED => 1,
            MessageHeaderErrorSubcode::BAD_MESSAGE_LENGTH => 2,
            MessageHeaderErrorSubcode::BAD_MESSAGE_TYPE => 3,
        }
    }

    pub fn code(&self) -> (r: u8)
        ensures
            r == self.spec_code(),
    {
        match self {
            MessageHeaderErrorSubcode::UNSPECIFIED => 0,
            MessageHeaderErrorSubcode::CONNECTION_NOT_SYNCHRONIZED => 1,
            MessageHeaderErrorSubcode::BAD_MESSAGE_LENGTH => 2,
            MessageHeaderErrorSubcode::BAD_MESSAGE_TYPE => 3,
        }
    }

    pub open spec fn spec_from_code(code: u8) -> Option<MessageHeaderErrorSubcode> {
        match code {
            0u8 => Some(MessageHeaderErrorSubcode::UNSPECIFIED),
            1u8 => Some(MessageHeaderErrorSubcode::CONNECTION_NOT_SYNCHRONIZED),
            2u8 => Some(MessageHeaderErrorSubcode::BAD_MESSAGE_LENGTH),
            3u8 => Some(MessageHeaderErrorSubcode::BAD_MESSAGE_TYPE),
            _ => None,
        }
    }

    pub fn from_code(code: u8) -> (r: Option<MessageHeaderErrorSubcode>)
        ensures
            r == MessageHeaderErrorSubcode::spec_from_code(code),
    {
        match code {
            0u8 => Some(MessageHeaderErrorSubcode::UNSPECIFIED),
            1u8 => Some(MessageHeaderErrorSubcode::CONNECTION_NOT_SYNCHRONIZED),
            2u8 => Some(MessageHeaderErrorSubcode::BAD_MESSAGE_LENGTH),
            3u8 => Some(MessageHeaderErrorSubcode::BAD_MESSAGE_TYPE),
            _ => None,
        }
    }
}

/// OPEN Message Error subcodes.
#[allow(non_camel_case_types)]
#[derive(Debug, Clone, Copy, PartialEq, Eq, Structural, Hash)]
pub enum OpenMessageErrorSubcode {
    UNSPECIFIED,
    UNSUPPORTED_VERSION_NUMBER,
    BAD_PEER_AS,
    BAD_BGP_IDENTIFIER,
    UNSUPPORTED_OPTIONAL_PARAMETER,
    UNACCEPTABLE_HOLD_TIME,
    UNSUPPORTED_CAPACITY,
    ROLE_MISMATCH,
}

impl OpenMessageErrorSubcode {
    /// The IANA-assigned code.
    pub open spec fn spec_code(self) -> u8 {
        match self {
            OpenMessageErrorSubcode::UNSPECIFIED => 0,
            OpenMessageErrorSubcode::UNSUPPORTED_VERSION_NUMBER => 1,
            OpenMessageErrorSubcode::BAD_PEER_AS => 2,
            OpenMessageErrorSubcode::BAD_BGP_IDENTIFIER => 3,
            OpenMessageErrorSubcode::UNSUPPORTED_OPTIONAL_PARAMETER => 4,
            OpenMessageErrorSubcode::UNACCEPTABLE_HOLD_TIME => 6,
            OpenMessageErrorSubcode::UNSUPPORTED_CAPACITY => 7,
            OpenMessageErrorSubcode::ROLE_MISMATCH => 11,
        }
    }

    pub fn code(&self) -> (r: u8)
        ensures
            r == self.spec_code(),
    {
        match self {
            OpenMessageErrorSubcode::UNSPECIFIED => 0,
            OpenMessageErrorSubcode::UNSUPPORTED_VERSION_NUMBER => 1,
            OpenMessageErrorSubcode::BAD_PEER_AS => 2,
            OpenMessageErrorSubcode::BAD_BGP_IDENTIFIER => 3,
            OpenMessageErrorSubcode::UNSUPPORTED_OPTIONAL_PARAMETER => 4,
            OpenMessageErrorSubcode::UNACCEPTABLE_HOLD_TIME => 6,
            OpenMessageErrorSubcode::UNSUPPORTED_CAPACITY => 7,
            OpenMessageErrorSubcode::ROLE_MISMATCH => 11,
        }
    }

    pub open spec fn spec_from_code(code: u8) -> Option<OpenMessageErrorSubcode> {
        match code {
            0u8 => Some(OpenMessageErrorSubcode::UNSPECIFIED),
            1u8 => Some(OpenMessageErrorSubcode::UNSUPPORTED_VERSION_NUMBER),
            2u8 => Some(OpenMessageErrorSubcode::BAD_PEER_AS),
            3u8 => Some(OpenMessageErrorSubcode::BAD_BGP_IDENTIFIER),
            4u8 => Some(OpenMessageErrorSubcode::UNSUPPORTED_OPTIONAL_PARAMETER),
            6u8 => Some(OpenMessageErrorSubcode::UNACCEPTABLE_HOLD_TIME),
            7u8 => Some(OpenMessageErrorSubcode::UNSUPPORTED_CAPACITY),
            11u8 => Some(OpenMessageErrorSubcode::ROLE_MISMATCH),
            _ => None,
        }
    }

    pub fn from_code(code: u8) -> (r: Option<OpenMessageErrorSubcode>)
        ensures
            r == OpenMessageErrorSubcode::spec_from_code(code),
    {
        match code {
            0u8 => Some(OpenMessageErrorSubcode::UNSPECIFIED),
            1u8 => Some(OpenMessageErrorSubcode::UNSUPPORTED_VERSION_NUMBER),
            2u8 => Some(OpenMessageErrorSubcode::BAD_PEER_AS),
            3u8 => Some(OpenMessageErrorSubcode::BAD_BGP_IDENTIFIER),
            4u8 => Some(OpenMessageErrorSubcode::UNSUPPORTED_OPTIONAL_PARAMETER),
            6u8 => Some(OpenMessageErrorSubcode::UNACCEPTABLE_HOLD_TIME),
            7u8 => Some(OpenMessageErrorSubcode::UNSUPPORTED_CAPACITY),
            11u8 => Some(OpenMessageErrorSubcode::ROLE_MISMATCH),
            _ => None,
        }
    }
}

/// UPDATE Message Error subcodes.
#[allow(non_camel_case_types)]
#[derive(Debug, Clone, Copy, PartialEq, Eq, Structural, Hash)]
pub enum UpdateMessageErrorSubcode {
    UNSPECIFIED,
    MALFORMED_ATTRIBUTE_LIST,
    UNRECOGNIZED_WELL_KNOWN_ATTRIBUTE,
    MISSING_WELL_KNOWN_ATTRIBUTE,
    ATTRIBUTE_FLAGS_ERROR,
    ATTRIBUTE_LENGTH_ERROR,
    INVALID_ORIGIN_ERROR,
    INVALID_NEXT_HOP_ATTRIBUTE,
    OPTIONAL_ATTRIBUTE_ERROR,
    INVALID_NETWORK_FIELD,
    MALFORMED_AS_PATH,
}

impl UpdateMessageErrorSubcode {
    /// The IANA-assigned code.
    pub open spec fn spec_code(self) -> u8 {
        match self {
            UpdateMessageErrorSubcode::UNSPECIFIED => 0,
            UpdateMessageErrorSubcode::MALFORMED_ATTRIBUTE_LIST => 1,
            UpdateMessageErrorSubcode::UNRECOGNIZED_WELL_KNOWN_ATTRIBUTE => 2,
            UpdateMessageErrorSubcode::MISSING_WELL_KNOWN_ATTRIBUTE => 3,
            UpdateMessageErrorSubcode::ATTRIBUTE_FLAGS_ERROR => 4,
            UpdateMessageErrorSubcode::ATTRIBUTE_LENGTH_ERROR => 5,
            UpdateMessageErrorSubcode::INVALID_ORIGIN_ERROR => 6,
            UpdateMessageErrorSubcode::INVALID_NEXT_HOP_ATTRIBUTE => 8,
            UpdateMessageErrorSubcode::OPTIONAL_ATTRIBUTE_ERROR => 9,
            UpdateMessageErrorSubcode::INVALID_NETWORK_FIELD => 10,
            UpdateMessageErrorSubcode::MALFORMED_AS_PATH => 11,
        }
    }

    pub fn code(&self) -> (r: u8)
        ensures
            r == self.spec_code(),
    {
        match self {
            UpdateMessageErrorSubcode::UNSPECIFIED => 0,
            UpdateMessageErrorSubcode::MALFORMED_ATTRIBUTE_LIST => 1,
            UpdateMessageErrorSubcode::UNRECOGNIZED_WELL_KNOWN_ATTRIBUTE => 2,
            UpdateMessageErrorSubcode::MISSING_WELL_KNOWN_ATTRIBUTE => 3,
            UpdateMessageErrorSubcode::ATTRIBUTE_FLAGS_ERROR => 4,
            UpdateMessageErrorSubcode::ATTRIBUTE_LENGTH_ERROR => 5,
            UpdateMessageErrorSubcode::INVALID_ORIGIN_ERROR => 6,
            UpdateMessageErrorSubcode::INVALID_NEXT_HOP_ATTRIBUTE => 8,
            UpdateMessageErrorSubcode::OPTIONAL_ATTRIBUTE_ERROR => 9,
            UpdateMessageErrorSubcode::INVALID_NETWORK_FIELD => 10,
            UpdateMessageErrorSubcode::MALFORMED_AS_PATH => 11,
        }
    }

    pub open spec fn spec_from_code(code: u8) -> Option<UpdateMessageErrorSubcode> {
        match code {
            0u8 => Some(UpdateMessageErrorSubcode::UNSPECIFIED),
            1u8 => Some(UpdateMessageErrorSubcode::MALFORMED_ATTRIBUTE_LIST),
            2u8 => Some(UpdateMessageErrorSubcode::UNRECOGNIZED_WELL_KNOWN_ATTRIBUTE),
            3u8 => Some(UpdateMessageErrorSubcode::MISSING_WELL_KNOWN_ATTRIBUTE),
            4u8 => Some(UpdateMessageErrorSubcode::ATTRIBUTE_FLAGS_ERROR),
            5u8 => Some(UpdateMessageErrorSubcode::ATTRIBUTE_LENGTH_ERROR),
            6u8 => Some(UpdateMessageErrorSubcode::INVALID_ORIGIN_ERROR),
            8u8 => Some(UpdateMessageErrorSubcode::INVALID_NEXT_HOP_ATTRIBUTE),
            9u8 => Some(UpdateMessageErrorSubcode::OPTIONAL_ATTRIBUTE_ERROR),
            10u8 => Some(UpdateMessageErrorSubcode::INVALID_NETWORK_FIELD),
            11u8 => Some(UpdateMessageErrorSubcode::MALFORMED_AS_PATH),
            _ => None,
        }
    }

    pub fn from_code(code: u8) -> (r: Option<UpdateMessageErrorSubcode>)
        ensures
            r == UpdateMessageErrorSubcode::spec_from_code(code),
    {
        match code {
            0u8 => Some(UpdateMessageErrorSubcode::UNSPECIFIED),
            1u8 => Some(UpdateMessageErrorSubcode::MALFORMED_ATTRIBUTE_LIST),
            2u8 => Some(UpdateMessageErrorSubcode::UNRECOGNIZED_WELL_KNOWN_ATTRIBUTE),
            3u8 => Some(UpdateMessageErrorSubcode::MISSING_WELL_KNOWN_ATTRIBUTE),
            4u8 => Some(UpdateMessageErrorSubcode::ATTRIBUTE_FLAGS_ERROR),
            5u8 => Some(UpdateMessageErrorSubcode::ATTRIBUTE_LENGTH_ERROR),
            6u8 => Some(UpdateMessageErrorSubcode::INVALID_ORIGIN_ERROR),
            8u8 => Some(UpdateMessageErrorSubcode::INVALID_NEXT_HOP_ATTRIBUTE),
            9u8 => Some(UpdateMessageErrorSubcode::OPTIONAL_ATTRIBUTE_ERROR),
            10u8 => Some(UpdateMessageErrorSubcode::INVALID_NETWORK_FIELD),
            11u8 => Some(UpdateMessageErrorSubcode::MALFORMED_AS_PATH),
            _ => None,
        }
    }
}

/// BGP Finite State Machine Error subcodes.
#[allow(non_camel_case_types)]
#[derive(Debug, Clone, Copy, PartialEq, Eq, Structural, Hash)]
pub enum BgpFiniteStateMachineErrorSubcode {
    UNSPECIFIED,
    RECEIVE_UNEXPECTED_MESSAGE_IN_OPENSENT_State,
    RECEIVE_UNEXPECTED_MESSAGE_IN_OPENCONFIRM_STATE,
    RECEIVE_UNEXPECTED_MESSAGE_IN_ESTABLISHED_STATE,
}

impl BgpFiniteStateMachineErrorSubcode {
    /// The IANA-assigned code.
    pub open spec fn spec_code(self) -> u8 {
        match self {
            BgpFiniteStateMachineErrorSubcode::UNSPECIFIED => 0,
            BgpFiniteStateMachineErrorSubcode::RECEIVE_UNEXPECTED_MESSAGE_IN_OPENSENT_State => 1,
            BgpFiniteStateMachineErrorSubcode::RECEIVE_UNEXPECTED_MESSAGE_IN_OPENCONFIRM_STATE => 2,
            BgpFiniteStateMachineErrorSubcode::RECEIVE_UNEXPECTED_MESSAGE_IN_ESTABLISHED_STATE => 3,
        }
    }

    pub fn code(&self) -> (r: u8)
        ensures
            r == self.spec_code(),
    {
        match self {
            BgpFiniteStateMachineErrorSubcode::UNSPECIFIED => 0,
            BgpFiniteStateMachineErrorSubcode::RECEIVE_UNEXPECTED_MESSAGE_IN_OPENSENT_State => 1,
            BgpFiniteStateMachineErrorSubcode::RECEIVE_UNEXPECTED_MESSAGE_IN_OPENCONFIRM_STATE => 2,
            BgpFiniteStateMachineErrorSubcode::RECEIVE_UNEXPECTED_MESSAGE_IN_ESTABLISHED_STATE => 3,
        }
    }

    pub open spec fn spec_from_code(code: u8) -> Option<BgpFiniteStateMachineErrorSubcode> {
        match code {
            0u8 => Some(BgpFiniteStateMachineErrorSubcode::UNSPECIFIED),
            1u8 => Some(BgpFiniteStateMachineErrorSubcode::RECEIVE_UNEXPECTED_MESSAGE_IN_OPENSENT_State),
            2u8 => Some(BgpFiniteStateMachineErrorSubcode::RECEIVE_UNEXPECTED_MESSAGE_IN_OPENCONFIRM_STATE),
            3u8 => Some(BgpFiniteStateMachineErrorSubcode::RECEIVE_UNEXPECTED_MESSAGE_IN_ESTABLISHED_STATE),
            _ => None,
        }
    }

    pub fn from_code(code: u8) -> (r: Option<BgpFiniteStateMachineErrorSubcode>)
        ensures
            r == BgpFiniteStateMachineErrorSubcode::spec_from_code(code),
    {
        match code {
            0u8 => Some(BgpFiniteStateMachineErrorSubcode::UNSPECIFIED),
            1u8 => Some(BgpFiniteStateMachineErrorSubcode::RECEIVE_UNEXPECTED_MESSAGE_IN_OPENSENT_State),
            2u8 => Some(BgpFiniteStateMachineErrorSubcode::RECEIVE_UNEXPECTED_MESSAGE_IN_OPENCONFIRM_STATE),
            3u8 => Some(BgpFiniteStateMachineErrorSubcode::RECEIVE_UNEXPECTED_MESSAGE_IN_ESTABLISHED_STATE),
            _ => None,
        }
    }
}

/// BGP Cease NOTIFICATION message subcodes.
#[allow(non_camel_case_types)]
#[derive(Debug, Clone, Copy, PartialEq, Eq, Structural, Hash)]
pub enum BgpCeaseNotificationMessageSubcode {
    RESERVED,
    MAXIMUM_NUMBER_OF_PREFIXES_REACHED,
    ADMINISTRATIVE_SHUTDOWN,
    PEER_DE_CONFIGURED,
    ADMINISTRATIVE_RESET,
    CONNECTION_REJECTED,
    OTHER_CONFIGURATION_CHANGE,
    CONNECTION_COLLISION_RESOLUTION,
    OUT_OF_RESOURCES,
    HARD_RESET,
    BFD_DOWN,
}

impl BgpCeaseNotificationMessageSubcode {
    /// The IANA-assigned code.
    pub open spec fn spec_code(self) -> u8 {
        match self {
            BgpCeaseNotificationMessageSubcode::RESERVED => 0,
            BgpCeaseNotificationMessageSubcode::MAXIMUM_NUMBER_OF_PREFIXES_REACHED => 1,
            BgpCeaseNotificationMessageSubcode::ADMINISTRATIVE_SHUTDOWN => 2,
            BgpCeaseNotificationMessageSubcode::PEER_DE_CONFIGURED => 3,
            BgpCeaseNotificationMessageSubcode::ADMINISTRATIVE_RESET => 4,
            BgpCeaseNotificationMessageSubcode::CONNECTION_REJECTED => 5,
            BgpCeaseNotificationMessageSubcode::OTHER_CONFIGURATION_CHANGE => 6,
            BgpCeaseNotificationMessageSubcode::CONNECTION_COLLISION_RESOLUTION => 7,
            BgpCeaseNotificationMessageSubcode::OUT_OF_RESOURCES => 8,
            BgpCeaseNotificationMessageSubcode::HARD_RESET => 9,
            BgpCeaseNotificationMessageSubcode::BFD_DOWN => 10,
        }
    }

    pub fn code(&self) -> (r: u8)
        ensures
            r == self.spec_code(),
    {
        match self {
            BgpCeaseNotificationMessageSubcode::RESERVED => 0,
            BgpCeaseNotificationMessageSubcode::MAXIMUM_NUMBER_OF_PREFIXES_REACHED => 1,
            BgpCeaseNotificationMessageSubcode::ADMINISTRATIVE_SHUTDOWN => 2,
            BgpCeaseNotificationMessageSubcode::PEER_DE_CONFIGURED => 3,
            BgpCeaseNotificationMessageSubcode::ADMINISTRATIVE_RESET => 4,
            BgpCeaseNotificationMessageSubcode::CONNECTION_REJECTED => 5,
            BgpCeaseNotificationMessageSubcode::OTHER_CONFIGURATION_CHANGE => 6,
            BgpCeaseNotificationMessageSubcode::CONNECTION_COLLISION_RESOLUTION => 7,
            BgpCeaseNotificationMessageSubcode::OUT_OF_RESOURCES => 8,
            BgpCeaseNotificationMessageSubcode::HARD_RESET => 9,
            BgpCeaseNotificationMessageSubcode::BFD_DOWN => 10,
        }
    }

    pub open spec fn spec_from_code(code: u8) -> Option<BgpCeaseNotificationMessageSubcode> {
        match code {
            0u8 => Some(BgpCeaseNotificationMessageSubcode::RESERVED),
            1u8 => Some(BgpCeaseNotificationMessageSubcode::MAXIMUM_NUMBER_OF_PREFIXES_REACHED),
            2u8 => Some(BgpCeaseNotificationMessageSubcode::ADMINISTRATIVE_SHUTDOWN),
            3u8 => Some(BgpCeaseNotificationMessageSubcode::PEER_DE_CONFIGURED),
            4u8 => Some(BgpCeaseNotificationMessageSubcode::ADMINISTRATIVE_RESET),
            5u8 => Some(BgpCeaseNotificationMessageSubcode::CONNECTION_REJECTED),
            6u8 => Some(BgpCeaseNotificationMessageSubcode::OTHER_CONFIGURATION_CHANGE),
            7u8 => Some(BgpCeaseNotificationMessageSubcode::CONNECTION_COLLISION_RESOLUTION),
            8u8 => Some(BgpCeaseNotificationMessageSubcode::OUT_OF_RESOURCES),
            9u8 => Some(BgpCeaseNotificationMessageSubcode::HARD_RESET),
            10u8 => Some(BgpCeaseNotificationMessageSubcode::BFD_DOWN),
            _ => None,
        }
    }

    pub fn from_code(code: u8) -> (r: Option<BgpCeaseNotificationMessageSubcode>)
        ensures
            r == BgpCeaseNotificationMessageSubcode::spec_from_code(code),
    {
        match code {
            0u8 => Some(BgpCeaseNotificationMessageSubcode::RESERVED),
            1u8 => Some(BgpCeaseNotificationMessageSubcode::MAXIMUM_NUMBER_OF_PREFIXES_REACHED),
            2u8 => Some(BgpCeaseNotificationMessageSubcode::ADMINISTRATIVE_SHUTDOWN),
            3u8 => Some(BgpCeaseNotificationMessageSubcode::PEER_DE_CONFIGURED),
            4u8 => Some(BgpCeaseNotificationMessageSubcode::ADMINISTRATIVE_RESET),
            5u8 => Some(BgpCeaseNotificationMessageSubcode::CONNECTION_REJECTED),
            6u8 => Some(BgpCeaseNotificationMessageSubcode::OTHER_CONFIGURATION_CHANGE),
            7u8 => Some(BgpCeaseNotificationMessageSubcode::CONNECTION_COLLISION_RESOLUTION),
            8u8 => Some(BgpCeaseNotificationMessageSubcode::OUT_OF_RESOURCES),
            9u8 => Some(BgpCeaseNotificationMessageSubcode::HARD_RESET),
            10u8 => Some(BgpCeaseNotificationMessageSubcode::BFD_DOWN),
            _ => None,
        }
    }
}

/// BGP ROUTE-REFRESH Message Error subcodes.
#[allow(non_camel_case_types)]
#[derive(Debug, Clone, Copy, PartialEq, Eq, Structural, Hash)]
pub enum BgpRouteRefreshMessageErrorSubcode {
    RESERVED,
    INVALID_MESSAGE_LENGTH,
}

impl BgpRouteRefreshMessageErrorSubcode {
    /// The IANA-assigned code.
    pub open spec fn spec_code(self) -> u8 {
        match self {
            BgpRouteRefreshMessageErrorSubcode::RESERVED => 0,
            BgpRouteRefreshMessageErrorSubcode::INVALID_MESSAGE_LENGTH => 1,
        }
    }

    pub fn code(&self) -> (r: u8)
        ensures
            r == self.spec_code(),
    {
        match self {
            BgpRouteRefreshMessageErrorSubcode::RESERVED => 0,
            BgpRouteRefreshMessageErrorSubcode::INVALID_MESSAGE_LENGTH => 1,
        }
    }

    pub open spec fn spec_from_code(code: u8) -> Option<BgpRouteRefreshMessageErrorSubcode> {
        match code {
            0u8 => Some(BgpRouteRefreshMessageErrorSubcode::RESERVED),
            1u8 => Some(BgpRouteRefreshMessageErrorSubcode::INVALID_MESSAGE_LENGTH),
            _ => None,
        }
    }

    pub fn from_code(code: u8) -> (r: Option<BgpRouteRefreshMessageErrorSubcode>)
        ensures
            r == BgpRouteRefreshMessageErrorSubcode::spec_from_code(code),
    {
        match code {
            0u8 => Some(BgpRouteRefreshMessageErrorSubcode::RESERVED),
            1u8 => Some(BgpRouteRefreshMessageErrorSubcode::INVALID_MESSAGE_LENGTH),
            _ => None,
        }
    }
}

} // verus!
