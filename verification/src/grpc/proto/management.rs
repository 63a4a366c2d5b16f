//! Peers, servers and requests in messages.

use crate::conf;
use crate::grpc::proto::session::{SessionConfig, SessionConfigView};
use crate::seqs;
use vstd::prelude::*;

verus! {

/// How many messages of each kind were exchanged.
#[derive(Debug, Clone, Copy, PartialEq, Eq, Structural)]
pub struct PeerStatistics {
    pub open_sent: u64,
    pub keepalive_sent: u64,
    pub update_sent: u64,
    pub notification_sent: u64,
    pub open_received: u64,
    pub keepalive_received: u64,
    pub update_received: u64,
    pub notification_received: u64,
}

/// A peer; the states are numbers.
#[derive(Debug, PartialEq, Eq)]
pub struct Peer {
    pub address: String,
    pub asn: u32,
    pub state: i32,
    pub admin_state: i32,
    pub import_policies: Vec<String>,
    pub export_policies: Vec<String>,
    pub session_config: Option<SessionConfig>,
}

pub struct PeerView {
    pub address: Seq<char>,
    pub asn: u32,
    pub state: i32,
    pub admin_state: i32,
    pub import_policies: Seq<Seq<char>>,
    pub export_policies: Seq<Seq<char>>,
    pub session_config: Option<SessionConfigView>,
}

impl View for Peer {
    type V = PeerView;

    open spec fn view(&self) -> PeerView {
        PeerView {
            address: self.address@,
            asn: self.asn,
            state: self.state,
            admin_state: self.admin_state,
            import_policies: seqs::views(self.import_policies@),
            export_policies: seqs::views(self.export_policies@),
            session_config: conf::opt_view(self.session_config),
        }
    }
}

/// What is known of a peer.
#[derive(Debug, PartialEq, Eq)]
pub struct GetPeerResponse {
    pub peer: Option<Peer>,
    pub statistics: Option<PeerStatistics>,
}

pub struct GetPeerResponseView {
    pub peer: Option<PeerView>,
    pub statistics: Option<PeerStatistics>,
}

impl View for GetPeerResponse {
    type V = GetPeerResponseView;

    open spec fn view(&self) -> GetPeerResponseView {
        GetPeerResponseView {
            peer: conf::opt_view(self.peer),
            statistics: self.statistics,
        }
    }
}

/// A peer that is to be reset, and how.
#[derive(Debug, PartialEq, Eq)]
pub struct ResetPeerRequest {
    pub address: String,
    pub reset_type: i32,
    pub afi: Option<i32>,
    pub safi: Option<i32>,
}

pub struct ResetPeerRequestView {
    pub address: Seq<char>,
    pub reset_type: i32,
    pub afi: Option<i32>,
    pub safi: Option<i32>,
}

impl View for ResetPeerRequest {
    type V = ResetPeerRequestView;

    open spec fn view(&self) -> ResetPeerRequestView {
        ResetPeerRequestView {
            address: self.address@,
            reset_type: self.reset_type,
            afi: self.afi,
            safi: self.safi,
        }
    }
}

/// A cache of validated origins that is to be added.
#[derive(Debug, PartialEq, Eq)]
pub struct AddRpkiCacheRequest {
    pub address: String,
    pub preference: Option<u32>,
    pub transport: Option<String>,
    pub ssh_username: Option<String>,
    pub ssh_private_key_file: Option<String>,
    pub ssh_known_hosts_file: Option<String>,
    pub retry_interval: Option<u64>,
    pub refresh_interval: Option<u64>,
    pub expire_interval: Option<u64>,
}

pub struct AddRpkiCacheRequestView {
    pub address: Seq<char>,
    pub preference: Option<u32>,
    pub transport: Option<Seq<char>>,
    pub ssh_username: Option<Seq<char>>,
    pub ssh_private_key_file: Option<Seq<char>>,
    pub ssh_known_hosts_file: Option<Seq<char>>,
    pub retry_interval: Option<u64>,
    pub refresh_interval: Option<u64>,
    pub expire_interval: Option<u64>,
}

impl View for AddRpkiCacheRequest {
    type V = AddRpkiCacheRequestView;

    open spec fn view(&self) -> AddRpkiCacheRequestView {
        AddRpkiCacheRequestView {
            address: self.address@,
            preference: self.preference,
            transport: seqs::opt_text(self.transport),
            ssh_username: seqs::opt_text(self.ssh_username),
            ssh_private_key_file: seqs::opt_text(self.ssh_private_key_file),
            ssh_known_hosts_file: seqs::opt_text(self.ssh_known_hosts_file),
            retry_interval: self.retry_interval,
            refresh_interval: self.refresh_interval,
            expire_interval: self.expire_interval,
        }
    }
}

/// The policies that a peer is to have in one direction.
#[derive(Debug, PartialEq, Eq)]
pub struct SetPolicyAssignmentRequest {
    pub peer_address: String,
    pub direction: String,
    pub afi: u32,
    pub safi: u32,
    pub policy_names: Vec<String>,
    pub default_action: Option<String>,
}

pub struct SetPolicyAssignmentRequestView {
    pub peer_address: Seq<char>,
    pub direction: Seq<char>,
    pub afi: u32,
    pub safi: u32,
    pub policy_names: Seq<Seq<char>>,
    pub default_action: Option<Seq<char>>,
}

impl View for SetPolicyAssignmentRequest {
    type V = SetPolicyAssignmentRequestView;

    open spec fn view(&self) -> SetPolicyAssignmentRequestView {
        SetPolicyAssignmentRequestView {
            peer_address: self.peer_address@,
            direction: self.direction@,
            afi: self.afi,
            safi: self.safi,
            policy_names: seqs::views(self.policy_names@),
            default_action: seqs::opt_text(self.default_action),
        }
    }
}

/// A cache.
#[derive(Debug, PartialEq, Eq)]
pub struct RpkiCacheInfo {
    pub address: String,
    pub preference: u32,
    pub transport: String,
    pub session_active: bool,
    pub vrp_count: u64,
}

pub struct RpkiCacheInfoView {
    pub address: Seq<char>,
    pub preference: u32,
    pub transport: Seq<char>,
    pub session_active: bool,
    pub vrp_count: u64,
}

impl View for RpkiCacheInfo {
    type V = RpkiCacheInfoView;

    open spec fn view(&self) -> RpkiCacheInfoView {
        RpkiCacheInfoView {
            address: self.address@,
            preference: self.preference,
            transport: self.transport@,
            session_active: self.session_active,
            vrp_count: self.vrp_count,
        }
    }
}

/// All caches, and how many authorizations they gave.
#[derive(Debug, PartialEq, Eq)]
pub struct ListRpkiCachesResponse {
    pub caches: Vec<RpkiCacheInfo>,
    pub total_vrp_count: u64,
}

pub struct ListRpkiCachesResponseView {
    pub caches: Seq<RpkiCacheInfoView>,
    pub total_vrp_count: u64,
}

impl View for ListRpkiCachesResponse {
    type V = ListRpkiCachesResponseView;

    open spec fn view(&self) -> ListRpkiCachesResponseView {
        ListRpkiCachesResponseView {
            caches: seqs::views(self.caches@),
            total_vrp_count: self.total_vrp_count,
        }
    }
}

/// An authorization to originate a prefix.
#[derive(Debug, PartialEq, Eq)]
pub struct RpkiVrp {
    pub prefix: String,
    pub max_length: u32,
    pub origin_as: u32,
}

pub struct RpkiVrpView {
    pub prefix: Seq<char>,
    pub max_length: u32,
    pub origin_as: u32,
}

impl View for RpkiVrp {
    type V = RpkiVrpView;

    open spec fn view(&self) -> RpkiVrpView {
        RpkiVrpView {
            prefix: self.prefix@,
            max_length: self.max_length,
            origin_as: self.origin_as,
        }
    }
}

/// Whether a prefix may have its origin; the outcome is a number.
#[derive(Debug, PartialEq, Eq)]
pub struct GetRpkiValidationResponse {
    pub validation: i32,
    pub covering_vrps: Vec<RpkiVrp>,
}

pub struct GetRpkiValidationResponseView {
    pub validation: i32,
    pub covering_vrps: Seq<RpkiVrpView>,
}

impl View for GetRpkiValidationResponse {
    type V = GetRpkiValidationResponseView;

    open spec fn view(&self) -> GetRpkiValidationResponseView {
        GetRpkiValidationResponseView {
            validation: self.validation,
            covering_vrps: seqs::views(self.covering_vrps@),
        }
    }
}

/// Where the server listens, and how many routes it has.
#[derive(Debug, PartialEq, Eq)]
pub struct ServerInfo {
    pub listen_addr: String,
    pub listen_port: u32,
    pub num_routes: u64,
}

pub struct ServerInfoView {
    pub listen_addr: Seq<char>,
    pub listen_port: u32,
    pub num_routes: u64,
}

impl View for ServerInfo {
    type V = ServerInfoView;

    open spec fn view(&self) -> ServerInfoView {
        ServerInfoView {
            listen_addr: self.listen_addr@,
            listen_port: self.listen_port,
            num_routes: self.num_routes,
        }
    }
}

} // verus!
