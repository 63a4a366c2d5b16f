//! NOTIFICATION messages: why a session ends.

use crate::seqs::copy_items;
use vstd::prelude::*;

verus! {

/// What is wrong with the header of a message.
#[derive(Debug, Clone, Copy, PartialEq, Eq, Structural)]
pub enum MessageHeaderError {
    ConnectionNotSynchronized,
    BadMessageLength,
    BadMessageType,
    Unknown(u8),
}

/// What is wrong with an OPEN message.
#[derive(Debug, Clone, Copy, PartialEq, Eq, Structural)]
pub enum OpenMessageError {
    UnsupportedVersionNumber,
    BadPeerAs,
    BadBgpIdentifier,
    UnsupportedOptionalParameter,
    UnacceptableHoldTime,
    UnsupportedCapability,
    Unknown(u8),
}

/// What is wrong with an UPDATE message.
#[derive(Debug, Clone, Copy, PartialEq, Eq, Structural)]
pub enum UpdateMessageError {
    MalformedAttributeList,
    UnrecognizedWellKnownAttribute,
    MissingWellKnownAttribute,
    AttributeFlagsError,
    AttributeLengthError,
    InvalidOriginAttribute,
    InvalidNextHopAttribute,
    OptionalAttributeError,
    InvalidNetworkField,
    MalformedAsPath,
    Unknown(u8),
}

/// Why a session is ended without an error.
#[derive(Debug, Clone, Copy, PartialEq, Eq, Structural)]
pub enum CeaseSubcode {
    MaxPrefixesReached,
    AdministrativeShutdown,
    PeerDeConfigured,
    AdministrativeReset,
    ConnectionRejected,
    OtherConfigurationChange,
    ConnectionCollisionResolution,
    OutOfResources,
    HardReset,
    Unknown(u8),
}

/// Why a session ends.
#[derive(Debug, Clone, Copy, PartialEq, Eq, Structural)]
pub enum BgpError {
    MessageHeaderError(MessageHeaderError),
    OpenMessageError(OpenMessageError),
    UpdateMessageError(UpdateMessageError),
    HoldTimerExpired,
    FiniteStateMachineError,
    Cease(CeaseSubcode),
    Unknown { code: u8, subcode: u8 },
}

impl MessageHeaderError {
    pub open spec fn code_spec(self) -> u8 {
        match self {
            MessageHeaderError::ConnectionNotSynchronized => 1,
            MessageHeaderError::BadMessageLength => 2,
            MessageHeaderError::BadMessageType => 3,
            MessageHeaderError::Unknown(n) => n,
        }
    }

    fn code(&self) -> (r: u8)
        ensures
            r == self.code_spec(),
    {
        match self {
            MessageHeaderError::ConnectionNotSynchronized => 1,
            MessageHeaderError::BadMessageLength => 2,
            MessageHeaderError::BadMessageType => 3,
            MessageHeaderError::Unknown(n) => *n,
        }
    }
}

impl OpenMessageError {
    pub open spec fn code_spec(self) -> u8 {
        match self {
            OpenMessageError::UnsupportedVersionNumber => 1,
            OpenMessageError::BadPeerAs => 2,
            OpenMessageError::BadBgpIdentifier => 3,
            OpenMessageError::UnsupportedOptionalParameter => 4,
            OpenMessageError::UnacceptableHoldTime => 6,
            OpenMessageError::UnsupportedCapability => 7,
            OpenMessageError::Unknown(n) => n,
        }
    }

    fn code(&self) -> (r: u8)
        ensures
            r == self.code_spec(),
    {
        match self {
            OpenMessageError::UnsupportedVersionNumber => 1,
            OpenMessageError::BadPeerAs => 2,
            OpenMessageError::BadBgpIdentifier => 3,
            OpenMessageError::UnsupportedOptionalParameter => 4,
            OpenMessageError::UnacceptableHoldTime => 6,
            OpenMessageError::UnsupportedCapability => 7,
            OpenMessageError::Unknown(n) => *n,
        }
    }
}

impl UpdateMessageError {
    pub open spec fn code_spec(self) -> u8 {
        match self {
            UpdateMessageError::MalformedAttributeList => 1,
            UpdateMessageError::UnrecognizedWellKnownAttribute => 2,
            UpdateMessageError::MissingWellKnownAttribute => 3,
            UpdateMessageError::AttributeFlagsError => 4,
            UpdateMessageError::AttributeLengthError => 5,
            UpdateMessageError::InvalidOriginAttribute => 6,
            UpdateMessageError::InvalidNextHopAttribute => 8,
            UpdateMessageError::OptionalAttributeError => 9,
            UpdateMessageError::InvalidNetworkField => 10,
            UpdateMessageError::MalformedAsPath => 11,
            UpdateMessageError::Unknown(n) => n,
        }
    }

    fn code(&self) -> (r: u8)
        ensures
            r == self.code_spec(),
    {
        match self {
            UpdateMessageError::MalformedAttributeList => 1,
            UpdateMessageError::UnrecognizedWellKnownAttribute => 2,
            UpdateMessageError::MissingWellKnownAttribute => 3,
            UpdateMessageError::AttributeFlagsError => 4,
            UpdateMessageError::AttributeLengthError => 5,
            UpdateMessageError::InvalidOriginAttribute => 6,
            UpdateMessageError::InvalidNextHopAttribute => 8,
            UpdateMessageError::OptionalAttributeError => 9,
            UpdateMessageError::InvalidNetworkField => 10,
            UpdateMessageError::MalformedAsPath => 11,
            UpdateMessageError::Unknown(n) => *n,
        }
    }
}

impl CeaseSubcode {
    pub open spec fn code_spec(self) -> u8 {
        match self {
            CeaseSubcode::MaxPrefixesReached => 1,
            CeaseSubcode::AdministrativeShutdown => 2,
            CeaseSubcode::PeerDeConfigured => 3,
            CeaseSubcode::AdministrativeReset => 4,
            CeaseSubcode::ConnectionRejected => 5,
            CeaseSubcode::OtherConfigurationChange => 6,
            CeaseSubcode::ConnectionCollisionResolution => 7,
            CeaseSubcode::OutOfResources => 8,
            CeaseSubcode::HardReset => 9,
            CeaseSubcode::Unknown(n) => n,
        }
    }

    fn code(&self) -> (r: u8)
        ensures
            r == self.code_spec(),
    {
        match self {
            CeaseSubcode::MaxPrefixesReached => 1,
            CeaseSubcode::AdministrativeShutdown => 2,
            CeaseSubcode::PeerDeConfigured => 3,
            CeaseSubcode::AdministrativeReset => 4,
            CeaseSubcode::ConnectionRejected => 5,
            CeaseSubcode::OtherConfigurationChange => 6,
            CeaseSubcode::ConnectionCollisionResolution => 7,
            CeaseSubcode::OutOfResources => 8,
            CeaseSubcode::HardReset => 9,
            CeaseSubcode::Unknown(n) => *n,
        }
    }
}

impl BgpError {
    /// The assigned number of the kind of error.
    pub open spec fn code_spec(self) -> u8 {
        match self {
            BgpError::MessageHeaderError(_) => 1,
            BgpError::OpenMessageError(_) => 2,
            BgpError::UpdateMessageError(_) => 3,
            BgpError::HoldTimerExpired => 4,
            BgpError::FiniteStateMachineError => 5,
            BgpError::Cease(_) => 6,
            BgpError::Unknown { code, subcode: _ } => code,
        }
    }

    /// The assigned number of the error within its kind.
    pub open spec fn subcode_spec(self) -> u8 {
        match self {
            BgpError::MessageHeaderError(e) => e.code_spec(),
            BgpError::OpenMessageError(e) => e.code_spec(),
            BgpError::UpdateMessageError(e) => e.code_spec(),
            BgpError::HoldTimerExpired => 0,
            BgpError::FiniteStateMachineError => 0,
            BgpError::Cease(e) => e.code_spec(),
            BgpError::Unknown { code: _, subcode } => subcode,
        }
    }

    pub fn error_code(&self) -> (r: u8)
        ensures
            r == self.code_spec(),
    {
        match self {
            BgpError::MessageHeaderError(_) => 1,
            BgpError::OpenMessageError(_) => 2,
            BgpError::UpdateMessageError(_) => 3,
            BgpError::HoldTimerExpired => 4,
            BgpError::FiniteStateMachineError => 5,
            BgpError::Cease(_) => 6,
            BgpError::Unknown { code, subcode: _ } => *code,
        }
    }

    pub fn error_subcode(&self) -> (r: u8)
        ensures
            r == self.subcode_spec(),
    {
        match self {
            BgpError::MessageHeaderError(e) => e.code(),
            BgpError::OpenMessageError(e) => e.code(),
            BgpError::UpdateMessageError(e) => e.code(),
            BgpError::HoldTimerExpired => 0,
            BgpError::FiniteStateMachineError => 0,
            BgpError::Cease(e) => e.code(),
            BgpError::Unknown { code: _, subcode } => *subcode,
        }
    }
}

/// A message that ends a session.
#[derive(Debug, PartialEq, Eq)]
pub struct NotificationMessage {
    error: BgpError,
    data: Vec<u8>,
}

pub struct NotificationView {
    pub error: BgpError,
    pub data: Seq<u8>,
}

impl View for NotificationMessage {
    type V = NotificationView;

    closed spec fn view(&self) -> NotificationView {
        NotificationView { error: self.error, data: self.data@ }
    }
}

/// A notification without data.
pub open spec fn bare_notification(error: BgpError) -> NotificationView {
    NotificationView { error, data: Seq::empty() }
}

impl Clone for NotificationMessage {
    fn clone(&self) -> (r: Self)
        ensures
            r@ == self@,
    {
        NotificationMessage { error: self.error, data: copy_items(&self.data) }
    }
}

impl NotificationView {
    /// The peer does not know the version of the protocol.
    pub open spec fn version_error(self) -> bool {
        self.error == BgpError::OpenMessageError(OpenMessageError::UnsupportedVersionNumber)
    }

    /// The peer does not know optional parameters.
    pub open spec fn rejects_parameters(self) -> bool {
        self.error == BgpError::OpenMessageError(OpenMessageError::UnsupportedOptionalParameter)
    }

    /// The body of the message: two numbers and the data.
    pub open spec fn octets(self) -> Seq<u8> {
        seq![self.error.code_spec(), self.error.subcode_spec()] + self.data
    }
}

impl NotificationMessage {
    pub fn new(error: BgpError, data: Vec<u8>) -> (r: Self)
        ensures
            r@ == (NotificationView { error, data: data@ }),
    {
        NotificationMessage { error, data }
    }

    pub fn error(&self) -> (r: BgpError)
        ensures
            r == self@.error,
    {
        self.error
    }

    /// Whether the peer does not know the version of the protocol.
    pub fn is_version_error(&self) -> (r: bool)
        ensures
            r == self@.version_error(),
    {
        match self.error {
            BgpError::OpenMessageError(OpenMessageError::UnsupportedVersionNumber) => true,
            _ => false,
        }
    }

    /// Whether the peer does not know optional parameters.
    pub fn rejects_optional_parameters(&self) -> (r: bool)
        ensures
            r == self@.rejects_parameters(),
    {
        match self.error {
            BgpError::OpenMessageError(OpenMessageError::UnsupportedOptionalParameter) => true,
            _ => false,
        }
    }

    /// The body of the message.
    pub fn to_bytes(&self) -> (r: Vec<u8>)
        ensures
            r@ == self@.octets(),
    {
        let mut r: Vec<u8> = vec![self.error.error_code(), self.error.error_subcode()];
        let mut data = copy_items(&self.data);
        r.append(&mut data);
        assert(r@ =~= self@.octets());
        r
    }
}

} // verus!
