//! What is said of errors.

use crate::bgp::msg_notification::CeaseSubcode;
use crate::peer::session::{IoError, PeerError};
use crate::text;
use crate::text::{cat2, cat3, render_decimal};
use vstd::prelude::*;

verus! {

impl CeaseSubcode {
    /// The name of the reason.
    pub open spec fn name_text(self) -> Seq<char> {
        match self {
            CeaseSubcode::MaxPrefixesReached => "MaxPrefixesReached"@,
            CeaseSubcode::AdministrativeShutdown => "AdministrativeShutdown"@,
            CeaseSubcode::PeerDeConfigured => "PeerDeConfigured"@,
            CeaseSubcode::AdministrativeReset => "AdministrativeReset"@,
            CeaseSubcode::ConnectionRejected => "ConnectionRejected"@,
            CeaseSubcode::OtherConfigurationChange => "OtherConfigurationChange"@,
            CeaseSubcode::ConnectionCollisionResolution => "ConnectionCollisionResolution"@,
            CeaseSubcode::OutOfResources => "OutOfResources"@,
            CeaseSubcode::HardReset => "HardReset"@,
            CeaseSubcode::Unknown(n) => "Unknown("@ + text::decimal(n as nat) + ")"@,
        }
    }

    pub fn name(&self) -> (r: String)
        ensures
            r@ == self.name_text(),
    {
        match self {
            CeaseSubcode::MaxPrefixesReached => "MaxPrefixesReached".to_owned(),
            CeaseSubcode::AdministrativeShutdown => "AdministrativeShutdown".to_owned(),
            CeaseSubcode::PeerDeConfigured => "PeerDeConfigured".to_owned(),
            CeaseSubcode::AdministrativeReset => "AdministrativeReset".to_owned(),
            CeaseSubcode::ConnectionRejected => "ConnectionRejected".to_owned(),
            CeaseSubcode::OtherConfigurationChange => "OtherConfigurationChange".to_owned(),
            CeaseSubcode::ConnectionCollisionResolution =>
                "ConnectionCollisionResolution".to_owned(),
            CeaseSubcode::OutOfResources => "OutOfResources".to_owned(),
            CeaseSubcode::HardReset => "HardReset".to_owned(),
            CeaseSubcode::Unknown(n) => cat3("Unknown(", render_decimal(*n as u64).as_str(), ")"),
        }
    }
}

impl IoError {
    /// What is said of the error.
    pub open spec fn text(self) -> Seq<char> {
        match self {
            IoError::NotConnected => "no TCP connection"@,
            IoError::WriteFailed => "write failed"@,
            IoError::NotificationReceived => "notification received"@,
            IoError::AsnMismatch { expected, received } => "remote ASN mismatch: expected "@
                + text::decimal(expected as nat) + (", received "@ + text::decimal(
                received as nat,
            )),
            IoError::NoCommonFamily => "no common AFI/SAFI"@,
            IoError::NoFourOctetAsn => "peer does not support 4-byte ASNs (RFC 6793)"@,
            IoError::NoRestartState => "no GR state"@,
        }
    }

    pub fn to_text(&self) -> (r: String)
        ensures
            r@ == self.text(),
    {
        match self {
            IoError::NotConnected => "no TCP connection".to_owned(),
            IoError::WriteFailed => "write failed".to_owned(),
            IoError::NotificationReceived => "notification received".to_owned(),
            IoError::AsnMismatch { expected, received } => cat3(
                "remote ASN mismatch: expected ",
                render_decimal(*expected as u64).as_str(),
                cat2(", received ", render_decimal(*received as u64).as_str()).as_str(),
            ),
            IoError::NoCommonFamily => "no common AFI/SAFI".to_owned(),
            IoError::NoFourOctetAsn => "peer does not support 4-byte ASNs (RFC 6793)".to_owned(),
            IoError::NoRestartState => "no GR state".to_owned(),
        }
    }
}

impl PeerError {
    /// What is said of the error.
    pub open spec fn text(self) -> Seq<char> {
        match self {
            PeerError::FsmError => "FSM protocol error"@,
            PeerError::AutomaticStop(c) => "automatic stop: "@ + c.name_text(),
            PeerError::UpdateError => "UPDATE message error"@,
            PeerError::IoError(e) => "I/O error: "@ + e.text(),
        }
    }

    pub fn to_text(&self) -> (r: String)
        ensures
            r@ == self.text(),
    {
        match self {
            PeerError::FsmError => "FSM protocol error".to_owned(),
            PeerError::AutomaticStop(c) => cat2("automatic stop: ", c.name().as_str()),
            PeerError::UpdateError => "UPDATE message error".to_owned(),
            PeerError::IoError(e) => cat2("I/O error: ", e.to_text().as_str()),
        }
    }
}

} // verus!
