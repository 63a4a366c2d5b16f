//! What requests of the management interface ask for, and how they are answered.

use crate::bgp::multiprotocol::{Afi, AfiSafi, Safi};
use crate::conf;
use crate::conf::{
    DefinedSetConfig, DefinedSetConfigView, StatementConfig, StatementConfigView,
};
use crate::grpc::proto::management as messages;
use crate::grpc::proto::policy;
use crate::grpc::proto::session::{SessionConfig, SessionConfigView};
use crate::grpc::proto_policy;
use crate::grpc::proto_policy::{proto_to_defined_set_config, proto_to_statement_config};
use crate::grpc::sessions;
use crate::grpc::sessions::{family_from_proto, peer_config_to_proto, proto_to_peer_config};
use crate::net::addr::IpAddr;
use crate::net::addr_text;
use crate::net::network::IpNetwork;
use crate::net::socket;
use crate::net::socket::SocketAddr;
use crate::peer::fsm::BgpState;
use crate::peer::session::{AdminState, PeerStatistics};
use crate::peer_config::{PeerConfig, PeerConfigView};
use crate::policy::sets::DefinedSetType;
use crate::policy::PolicyResult;
use crate::seqs;
use crate::text;
use crate::text::{cat2, cat3, render_decimal, text_eq};
use vstd::prelude::*;

verus! {

// ---------------------------------------------------------------------------
// Answers
// ---------------------------------------------------------------------------

/// Why a request fails.
#[derive(Debug, PartialEq, Eq)]
pub enum Status {
    InvalidArgument(String),
    NotFound(String),
    Internal(String),
    Unknown(String),
}

pub enum StatusView {
    InvalidArgument(Seq<char>),
    NotFound(Seq<char>),
    Internal(Seq<char>),
    Unknown(Seq<char>),
}

impl View for Status {
    type V = StatusView;

    open spec fn view(&self) -> StatusView {
        match self {
            Status::InvalidArgument(s) => StatusView::InvalidArgument(s@),
            Status::NotFound(s) => StatusView::NotFound(s@),
            Status::Internal(s) => StatusView::Internal(s@),
            Status::Unknown(s) => StatusView::Unknown(s@),
        }
    }
}

/// What a value, or the reason why there is none, holds.
pub open spec fn status_result<T: View>(r: Result<T, Status>) -> Result<T::V, StatusView> {
    match r {
        Ok(x) => Ok(x@),
        Err(e) => Err(e@),
    }
}

/// What a plain value, or the reason why there is none, holds.
pub open spec fn plain_status_result<T>(r: Result<T, Status>) -> Result<T, StatusView> {
    match r {
        Ok(x) => Ok(x),
        Err(e) => Err(e@),
    }
}

/// What became of an operation that was handed to the server.
#[derive(Debug, PartialEq, Eq)]
pub enum Reply<T> {
    /// The server did not take it.
    NotSent,
    /// The server gave no answer.
    Lost,
    /// The server answered.
    Given(T),
}

/// What the server answered, or the failure that stands for its silence.
pub open spec fn heard<T>(r: Reply<T>) -> Result<T, StatusView> {
    match r {
        Reply::NotSent => Err(StatusView::Internal("failed to send request"@)),
        Reply::Lost => Err(StatusView::Internal("request processing failed"@)),
        Reply::Given(x) => Ok(x),
    }
}

/// What the server answered, or the failure that stands for its silence.
pub fn reply_of<T>(r: Reply<T>) -> (x: Result<T, Status>)
    ensures
        plain_status_result(x) == heard(r),
{
    match r {
        Reply::NotSent => Err(Status::Internal("failed to send request".to_owned())),
        Reply::Lost => Err(Status::Internal("request processing failed".to_owned())),
        Reply::Given(x) => Ok(x),
    }
}

/// What a request undertakes to do. Names are those that the request gives.
#[derive(Debug, PartialEq, Eq)]
pub enum Undertaking {
    AddPeer(String),
    RemovePeer(String),
    AddRoute(String),
    RemoveRoute(String),
    AddBmpServer(SocketAddr),
    RemoveBmpServer(SocketAddr),
    AddRpkiCache(SocketAddr),
    RemoveRpkiCache(SocketAddr),
    AddDefinedSet,
    RemoveDefinedSet,
    AddPolicy,
    RemovePolicy,
    SetPolicyAssignment,
}

impl Undertaking {
    /// What is said when it is done.
    pub open spec fn done_text(self) -> Seq<char> {
        match self {
            Undertaking::AddPeer(s) => "Peer "@ + s@ + " added"@,
            Undertaking::RemovePeer(s) => "Peer "@ + s@ + " removed"@,
            Undertaking::AddRoute(s) => "Route "@ + s@ + " added"@,
            Undertaking::RemoveRoute(s) => "Route "@ + s@ + " removed"@,
            Undertaking::AddBmpServer(a) => "BMP server "@ + a.text() + " added"@,
            Undertaking::RemoveBmpServer(a) => "BMP server "@ + a.text() + " removed"@,
            Undertaking::AddRpkiCache(a) => "RPKI cache "@ + a.text() + " added"@,
            Undertaking::RemoveRpkiCache(a) => "RPKI cache "@ + a.text() + " removed"@,
            Undertaking::AddDefinedSet => "defined set added"@,
            Undertaking::RemoveDefinedSet => "defined set removed"@,
            Undertaking::AddPolicy => "policy added"@,
            Undertaking::RemovePolicy => "policy removed"@,
            Undertaking::SetPolicyAssignment => "policy assignment set"@,
        }
    }

    pub fn done_message(&self) -> (r: String)
        ensures
            r@ == self.done_text(),
    {
        match self {
            Undertaking::AddPeer(s) => cat3("Peer ", s.as_str(), " added"),
            Undertaking::RemovePeer(s) => cat3("Peer ", s.as_str(), " removed"),
            Undertaking::AddRoute(s) => cat3("Route ", s.as_str(), " added"),
            Undertaking::RemoveRoute(s) => cat3("Route ", s.as_str(), " removed"),
            Undertaking::AddBmpServer(a) => cat3("BMP server ", a.to_text().as_str(), " added"),
            Undertaking::RemoveBmpServer(a) => cat3(
                "BMP server ",
                a.to_text().as_str(),
                " removed",
            ),
            Undertaking::AddRpkiCache(a) => cat3("RPKI cache ", a.to_text().as_str(), " added"),
            Undertaking::RemoveRpkiCache(a) => cat3(
                "RPKI cache ",
                a.to_text().as_str(),
                " removed",
            ),
            Undertaking::AddDefinedSet => "defined set added".to_owned(),
            Undertaking::RemoveDefinedSet => "defined set removed".to_owned(),
            Undertaking::AddPolicy => "policy added".to_owned(),
            Undertaking::RemovePolicy => "policy removed".to_owned(),
            Undertaking::SetPolicyAssignment => "policy assignment set".to_owned(),
        }
    }
}

/// Whether a request had success, and what is said of it.
#[derive(Debug, PartialEq, Eq)]
pub struct Answer {
    pub success: bool,
    pub message: String,
}

pub struct AnswerView {
    pub success: bool,
    pub message: Seq<char>,
}

impl View for Answer {
    type V = AnswerView;

    open spec fn view(&self) -> AnswerView {
        AnswerView {
            success: self.success,
            message: self.message@,
        }
    }
}

/// The answer to a request: the server's own reason where it did not succeed.
pub open spec fn answer_spec(
    u: Undertaking,
    reply: Result<Result<(), String>, StatusView>,
) -> Result<AnswerView, StatusView> {
    match reply {
        Err(e) => Err(e),
        Ok(Ok(_)) => Ok(AnswerView { success: true, message: u.done_text() }),
        Ok(Err(e)) => Ok(AnswerView { success: false, message: e@ }),
    }
}

/// The answer to a request.
pub fn answer(u: &Undertaking, reply: Reply<Result<(), String>>) -> (r: Result<Answer, Status>)
    ensures
        status_result(r) == answer_spec(*u, heard(reply)),
{
    match reply_of(reply) {
        Err(e) => Err(e),
        Ok(Ok(_)) => Ok(Answer { success: true, message: u.done_message() }),
        Ok(Err(e)) => Ok(Answer { success: false, message: e }),
    }
}

/// The answer to a request on a peer that says nothing where it succeeds: the
/// server refuses it where there is no such peer.
pub open spec fn peer_outcome(reply: Reply<Result<(), String>>) -> Result<(), StatusView> {
    match heard(reply) {
        Err(e) => Err(e),
        Ok(Ok(_)) => Ok(()),
        Ok(Err(e)) => Err(StatusView::NotFound(e@)),
    }
}

/// The answer to a request on a peer that says nothing where it succeeds: the
/// server refuses it where there is no such peer.
pub fn peer_answer(reply: Reply<Result<(), String>>) -> (r: Result<(), Status>)
    ensures
        plain_status_result(r) == peer_outcome(reply),
{
    match reply_of(reply) {
        Err(e) => Err(e),
        Ok(Ok(_)) => Ok(()),
        Ok(Err(e)) => Err(Status::NotFound(e)),
    }
}

/// Whether a change of the configuration took place, and why not.
#[derive(Debug, PartialEq, Eq)]
pub struct ConfigAnswer {
    pub ok: bool,
    pub error: String,
}

pub struct ConfigAnswerView {
    pub ok: bool,
    pub error: Seq<char>,
}

impl View for ConfigAnswer {
    type V = ConfigAnswerView;

    open spec fn view(&self) -> ConfigAnswerView {
        ConfigAnswerView {
            ok: self.ok,
            error: self.error@,
        }
    }
}

/// The answer to a request that changes the configuration.
pub open spec fn config_told(reply: Reply<Result<(), String>>) -> Result<
    ConfigAnswerView,
    StatusView,
> {
    match heard(reply) {
        Err(e) => Err(e),
        Ok(Ok(_)) => Ok(ConfigAnswerView { ok: true, error: Seq::empty() }),
        Ok(Err(e)) => Ok(ConfigAnswerView { ok: false, error: e@ }),
    }
}

/// The answer to a request that changes the configuration.
pub fn config_answer(reply: Reply<Result<(), String>>) -> (r: Result<ConfigAnswer, Status>)
    ensures
        status_result(r) == config_told(reply),
{
    match reply_of(reply) {
        Err(e) => Err(e),
        Ok(Ok(_)) => Ok(ConfigAnswer { ok: true, error: String::new() }),
        Ok(Err(e)) => Ok(ConfigAnswer { ok: false, error: e }),
    }
}

/// How many routes of a stream were added, given how many were before this reply,
/// or nothing where the stream is read no further: the server takes no more.
pub open spec fn stream_count(reply: Reply<Result<(), String>>, count: u64) -> Option<u64> {
    match reply {
        Reply::NotSent => None::<u64>,
        Reply::Given(Ok(_)) => Some(count.wrapping_add(1)),
        _ => Some(count),
    }
}

/// How many routes of a stream were added, given how many were before this reply,
/// or nothing where the stream is read no further: the server takes no more.
pub fn stream_step(reply: Reply<Result<(), String>>, count: u64) -> (r: Option<u64>)
    ensures
        r == stream_count(reply, count),
{
    match reply {
        Reply::NotSent => None,
        Reply::Given(Ok(_)) => Some(count.wrapping_add(1)),
        _ => Some(count),
    }
}

/// The answer to a stream of routes, of which `count` were added.
pub fn stream_answer(count: u64) -> (r: String)
    ensures
        r@ == text::decimal(count as nat) + " routes added"@,
{
    cat2(render_decimal(count).as_str(), " routes added")
}

// ---------------------------------------------------------------------------
// Peers
// ---------------------------------------------------------------------------

/// The number of a state.
pub open spec fn state_number(state: BgpState) -> i32 {
    match state {
        BgpState::Idle => 0,
        BgpState::Connect => 1,
        BgpState::Active => 2,
        BgpState::OpenSent => 3,
        BgpState::OpenConfirm => 4,
        BgpState::Established => 5,
    }
}

pub fn to_proto_state(state: BgpState) -> (r: i32)
    ensures
        r == state_number(state),
{
    match state {
        BgpState::Idle => 0,
        BgpState::Connect => 1,
        BgpState::Active => 2,
        BgpState::OpenSent => 3,
        BgpState::OpenConfirm => 4,
        BgpState::Established => 5,
    }
}

/// The number of an administrative state.
pub open spec fn admin_state_number(state: AdminState) -> i32 {
    match state {
        AdminState::Up => 0,
        AdminState::Down => 1,
        AdminState::PrefixLimitReached => 2,
    }
}

pub fn to_proto_admin_state(state: AdminState) -> (r: i32)
    ensures
        r == admin_state_number(state),
{
    match state {
        AdminState::Up => 0,
        AdminState::Down => 1,
        AdminState::PrefixLimitReached => 2,
    }
}

/// Different states have different numbers.
pub proof fn law_state_numbers_differ(a: BgpState, b: BgpState, c: AdminState, d: AdminState)
    ensures
        state_number(a) == state_number(b) ==> a == b,
        admin_state_number(c) == admin_state_number(d) ==> c == d,
{
}

/// What the server tells of a peer.
#[derive(Debug, PartialEq, Eq)]
pub struct PeerInfo {
    pub address: String,
    pub asn: Option<u32>,
    pub state: BgpState,
    pub admin_state: AdminState,
    pub import_policies: Vec<String>,
    pub export_policies: Vec<String>,
}

pub struct PeerInfoView {
    pub address: Seq<char>,
    pub asn: Option<u32>,
    pub state: BgpState,
    pub admin_state: AdminState,
    pub import_policies: Seq<Seq<char>>,
    pub export_policies: Seq<Seq<char>>,
}

impl View for PeerInfo {
    type V = PeerInfoView;

    open spec fn view(&self) -> PeerInfoView {
        PeerInfoView {
            address: self.address@,
            asn: self.asn,
            state: self.state,
            admin_state: self.admin_state,
            import_policies: seqs::views(self.import_policies@),
            export_policies: seqs::views(self.export_policies@),
        }
    }
}

/// The message of a peer; the system of one that has not said it yet is 0.
pub open spec fn peer_message(
    p: PeerInfoView,
    session_config: Option<SessionConfigView>,
) -> messages::PeerView {
    messages::PeerView {
        address: p.address,
        asn: match p.asn {
            Some(n) => n,
            None => 0,
        },
        state: state_number(p.state),
        admin_state: admin_state_number(p.admin_state),
        import_policies: p.import_policies,
        export_policies: p.export_policies,
        session_config,
    }
}

/// The message of a peer.
pub fn peer_to_proto(peer: PeerInfo, session_config: Option<SessionConfig>) -> (r: messages::Peer)
    ensures
        r@ == peer_message(peer@, conf::opt_view(session_config)),
{
    messages::Peer {
        address: peer.address,
        asn: peer.asn.unwrap_or(0),
        state: to_proto_state(peer.state),
        admin_state: to_proto_admin_state(peer.admin_state),
        import_policies: peer.import_policies,
        export_policies: peer.export_policies,
        session_config,
    }
}

/// The message of what was exchanged with a peer.
pub fn statistics_to_proto(s: &PeerStatistics) -> (r: messages::PeerStatistics)
    ensures
        r == statistics_message(*s),
{
    messages::PeerStatistics {
        open_sent: s.open_sent,
        keepalive_sent: s.keepalive_sent,
        update_sent: s.update_sent,
        notification_sent: s.notification_sent,
        open_received: s.open_received,
        keepalive_received: s.keepalive_received,
        update_received: s.update_received,
        notification_received: s.notification_received,
    }
}

pub open spec fn statistics_message(s: PeerStatistics) -> messages::PeerStatistics {
    messages::PeerStatistics {
        open_sent: s.open_sent,
        keepalive_sent: s.keepalive_sent,
        update_sent: s.update_sent,
        notification_sent: s.notification_sent,
        open_received: s.open_received,
        keepalive_received: s.keepalive_received,
        update_received: s.update_received,
        notification_received: s.notification_received,
    }
}

/// What the server tells of one peer.
#[derive(Debug)]
pub struct PeerDetails {
    pub info: PeerInfo,
    pub config: PeerConfig,
    pub statistics: PeerStatistics,
}

/// The answer to a request for one peer: the peer with its configuration, or
/// that there is none at `addr`.
pub open spec fn peer_told(addr: Seq<char>, found: Option<PeerDetails>) -> Result<
    messages::GetPeerResponseView,
    StatusView,
> {
    match found {
        Some(d) => Ok(
            messages::GetPeerResponseView {
                peer: Some(peer_message(d.info@, Some(sessions::session_message(d.config@)))),
                statistics: Some(statistics_message(d.statistics)),
            },
        ),
        None => Err(StatusView::NotFound("Peer "@ + addr + " not found"@)),
    }
}

/// The answer to a request for one peer: the peer with its configuration, or
/// that there is none at `addr`.
pub fn get_peer_answer(addr: &str, found: Option<PeerDetails>) -> (r: Result<
    messages::GetPeerResponse,
    Status,
>)
    ensures
        status_result(r) == peer_told(addr@, found),
{
    match found {
        Some(d) => {
            let session_config = Some(peer_config_to_proto(&d.config));
            Ok(
                messages::GetPeerResponse {
                    peer: Some(peer_to_proto(d.info, session_config)),
                    statistics: Some(statistics_to_proto(&d.statistics)),
                },
            )
        },
        None => Err(Status::NotFound(cat3("Peer ", addr, " not found"))),
    }
}

/// The configuration of a peer that is to be added. The least number of hops
/// that packets of the peer may have left is between 1 and 255 where it is given.
pub open spec fn read_new_peer(m: Option<SessionConfigView>) -> Result<PeerConfigView, StatusView> {
    if ttl_refused(m) {
        Err(StatusView::InvalidArgument("ttl_min must be between 1 and 255"@))
    } else {
        match sessions::read_session(m) {
            Ok(c) => Ok(c),
            Err(e) => Err(StatusView::InvalidArgument(e)),
        }
    }
}

pub open spec fn ttl_refused(m: Option<SessionConfigView>) -> bool {
    match m {
        Some(c) => match c.ttl_min {
            Some(ttl) => ttl == 0 || ttl > 255,
            None => false,
        },
        None => false,
    }
}

/// The configuration of a peer that is to be added.
pub fn peer_to_add(config: Option<SessionConfig>) -> (r: Result<PeerConfig, Status>)
    ensures
        status_result(r) == read_new_peer(conf::opt_view(config)),
{
    if let Some(c) = &config {
        if let Some(ttl) = c.ttl_min {
            if ttl == 0 || ttl > 255 {
                return Err(Status::InvalidArgument("ttl_min must be between 1 and 255".to_owned()));
            }
        }
    }
    match proto_to_peer_config(config) {
        Ok(c) => Ok(c),
        Err(e) => Err(Status::InvalidArgument(e)),
    }
}

/// Whether a peer can be removed by this address: it has to be one.
pub open spec fn read_removal(address: Seq<char>) -> Result<(), StatusView> {
    if addr_text::read_ip(address) is Some {
        Ok(())
    } else {
        Err(StatusView::InvalidArgument("invalid IP address format"@))
    }
}

/// Whether a peer can be removed by this address: it has to be one.
pub fn peer_to_remove(address: &str) -> (r: Result<(), Status>)
    ensures
        plain_status_result(r) == read_removal(address@),
{
    match IpAddr::parse(address) {
        Some(_) => Ok(()),
        None => Err(Status::InvalidArgument("invalid IP address format".to_owned())),
    }
}

/// How a session is reset.
#[derive(Debug, Clone, Copy, PartialEq, Eq, Structural)]
pub enum ResetType {
    SoftIn,
    SoftOut,
    Soft,
    Hard,
}

/// How a session is to be reset, and in which family.
#[derive(Debug, Clone, Copy, PartialEq, Eq, Structural)]
pub struct Reset {
    pub reset_type: ResetType,
    pub afi: Option<Afi>,
    pub safi: Option<Safi>,
}

/// The reset that a request asks for. The families of messages are IPv4 and IPv6
/// unicast; other numbers say nothing.
pub open spec fn read_reset(m: messages::ResetPeerRequestView) -> Result<Reset, StatusView> {
    let afi = match m.afi {
        Some(1) => Some(Afi::Ipv4),
        Some(2) => Some(Afi::Ipv6),
        _ => None,
    };
    let safi = match m.safi {
        Some(1) => Some(Safi::Unicast),
        _ => None,
    };
    match m.reset_type {
        0 => Ok(Reset { reset_type: ResetType::SoftIn, afi, safi }),
        1 => Ok(Reset { reset_type: ResetType::SoftOut, afi, safi }),
        2 => Ok(Reset { reset_type: ResetType::Soft, afi, safi }),
        3 => Ok(Reset { reset_type: ResetType::Hard, afi, safi }),
        _ => Err(StatusView::InvalidArgument("invalid reset type"@)),
    }
}

/// The reset that a request asks for.
pub fn reset_of(req: &messages::ResetPeerRequest) -> (r: Result<Reset, Status>)
    ensures
        plain_status_result(r) == read_reset(req@),
{
    let reset_type = match req.reset_type {
        0 => ResetType::SoftIn,
        1 => ResetType::SoftOut,
        2 => ResetType::Soft,
        3 => ResetType::Hard,
        _ => {
            return Err(Status::InvalidArgument("invalid reset type".to_owned()));
        },
    };
    let afi = match req.afi {
        Some(1) => Some(Afi::Ipv4),
        Some(2) => Some(Afi::Ipv6),
        _ => None,
    };
    let safi = match req.safi {
        Some(1) => Some(Safi::Unicast),
        _ => None,
    };
    Ok(Reset { reset_type, afi, safi })
}

// ---------------------------------------------------------------------------
// Servers
// ---------------------------------------------------------------------------

/// The address of a server; `what` says what is wrong where it is none.
pub open spec fn read_server(what: Seq<char>, address: Seq<char>) -> Result<
    SocketAddr,
    StatusView,
> {
    match socket::read_socket(address) {
        Some(a) => Ok(a),
        None => Err(
            StatusView::InvalidArgument(what + "invalid socket address syntax"@),
        ),
    }
}

fn server_address(what: &str, address: &str) -> (r: Result<SocketAddr, Status>)
    ensures
        plain_status_result(r) == read_server(what@, address@),
{
    match SocketAddr::parse(address) {
        Some(a) => Ok(a),
        None => Err(Status::InvalidArgument(cat2(what, "invalid socket address syntax"))),
    }
}

/// The address of a monitoring server that is to be added or removed.
pub fn bmp_server_address(address: &str) -> (r: Result<SocketAddr, Status>)
    ensures
        plain_status_result(r) == read_server("invalid BMP server address: "@, address@),
{
    server_address("invalid BMP server address: ", address)
}

/// The address of a cache that is to be removed.
pub fn rpki_cache_address(address: &str) -> (r: Result<SocketAddr, Status>)
    ensures
        plain_status_result(r) == read_server("invalid address: "@, address@),
{
    server_address("invalid address: ", address)
}

/// How a cache is reached.
#[derive(Debug, Clone, Copy, PartialEq, Eq, Structural)]
pub enum TransportType {
    Tcp,
    Ssh,
}

/// The configuration of a cache.
#[derive(Debug, PartialEq, Eq)]
pub struct RpkiCacheConfig {
    pub address: String,
    pub preference: u8,
    pub transport: TransportType,
    pub ssh_username: Option<String>,
    pub ssh_private_key_file: Option<String>,
    pub ssh_known_hosts_file: Option<String>,
    pub retry_interval: Option<u64>,
    pub refresh_interval: Option<u64>,
    pub expire_interval: Option<u64>,
}

pub struct RpkiCacheConfigView {
    pub address: Seq<char>,
    pub preference: u8,
    pub transport: TransportType,
    pub ssh_username: Option<Seq<char>>,
    pub ssh_private_key_file: Option<Seq<char>>,
    pub ssh_known_hosts_file: Option<Seq<char>>,
    pub retry_interval: Option<u64>,
    pub refresh_interval: Option<u64>,
    pub expire_interval: Option<u64>,
}

impl View for RpkiCacheConfig {
    type V = RpkiCacheConfigView;

    open spec fn view(&self) -> RpkiCacheConfigView {
        RpkiCacheConfigView {
            address: self.address@,
            preference: self.preference,
            transport: self.transport,
            ssh_username: seqs::opt_text(self.ssh_username),
            ssh_private_key_file: seqs::opt_text(self.ssh_private_key_file),
            ssh_known_hosts_file: seqs::opt_text(self.ssh_known_hosts_file),
            retry_interval: self.retry_interval,
            refresh_interval: self.refresh_interval,
            expire_interval: self.expire_interval,
        }
    }
}

/// The transport that a request names, where the name was read as `named`.
pub open spec fn read_transport(
    named: Option<Result<TransportType, Seq<char>>>,
) -> Result<TransportType, StatusView> {
    match named {
        None => Ok(TransportType::Tcp),
        Some(Ok(t)) => Ok(t),
        Some(Err(e)) => Err(StatusView::InvalidArgument("invalid transport: "@ + e)),
    }
}

/// What was read of the name of a transport.
pub open spec fn named_view(
    named: Option<Result<TransportType, String>>,
) -> Option<Result<TransportType, Seq<char>>> {
    match named {
        Some(r) => Some(conf::plain_result(r)),
        None => None,
    }
}

/// The cache that a request asks for, at the address that it gives. A cache that
/// is reached over SSH needs the name of a user and a key.
pub open spec fn read_new_cache(
    m: messages::AddRpkiCacheRequestView,
    named: Option<Result<TransportType, Seq<char>>>,
) -> Result<RpkiCacheConfigView, StatusView> {
    match read_server("invalid address: "@, m.address) {
        Err(e) => Err(e),
        Ok(a) => match read_transport(named) {
            Err(e) => Err(e),
            Ok(transport) => if transport is Ssh && m.ssh_username is None {
                Err(StatusView::InvalidArgument("ssh_username required for SSH transport"@))
            } else if transport is Ssh && m.ssh_private_key_file is None {
                Err(
                    StatusView::InvalidArgument(
                        "ssh_private_key_file required for SSH transport"@,
                    ),
                )
            } else {
                Ok(
                    RpkiCacheConfigView {
                        address: a.text(),
                        preference: match m.preference {
                            Some(p) => p as u8,
                            None => 0,
                        },
                        transport,
                        ssh_username: m.ssh_username,
                        ssh_private_key_file: m.ssh_private_key_file,
                        ssh_known_hosts_file: m.ssh_known_hosts_file,
                        retry_interval: m.retry_interval,
                        refresh_interval: m.refresh_interval,
                        expire_interval: m.expire_interval,
                    },
                )
            },
        },
    }
}

/// The cache that a request asks for, where `named` is what was read of the name
/// of its transport.
pub fn rpki_cache_to_add(
    req: messages::AddRpkiCacheRequest,
    named: Option<Result<TransportType, String>>,
) -> (r: Result<RpkiCacheConfig, Status>)
    ensures
        status_result(r) == read_new_cache(req@, named_view(named)),
{
    let addr = match server_address("invalid address: ", req.address.as_str()) {
        Ok(a) => a,
        Err(e) => {
            return Err(e);
        },
    };
    let transport = match named {
        None => TransportType::Tcp,
        Some(Ok(t)) => t,
        Some(Err(e)) => {
            return Err(Status::InvalidArgument(cat2("invalid transport: ", e.as_str())));
        },
    };
    if let TransportType::Ssh = transport {
        if req.ssh_username.is_none() {
            return Err(
                Status::InvalidArgument("ssh_username required for SSH transport".to_owned()),
            );
        }
        if req.ssh_private_key_file.is_none() {
            return Err(
                Status::InvalidArgument(
                    "ssh_private_key_file required for SSH transport".to_owned(),
                ),
            );
        }
    }
    let preference: u8 = match req.preference {
        Some(p) => p as u8,
        None => 0,
    };
    Ok(
        RpkiCacheConfig {
            address: addr.to_text(),
            preference,
            transport,
            ssh_username: req.ssh_username,
            ssh_private_key_file: req.ssh_private_key_file,
            ssh_known_hosts_file: req.ssh_known_hosts_file,
            retry_interval: req.retry_interval,
            refresh_interval: req.refresh_interval,
            expire_interval: req.expire_interval,
        },
    )
}

/// The prefix whose origin is to be validated.
pub open spec fn read_prefix(prefix: Seq<char>) -> Result<IpNetwork, StatusView> {
    match addr_text::read_network(prefix) {
        Some(p) => Ok(p),
        None => Err(StatusView::InvalidArgument("invalid prefix: "@ + "invalid network"@)),
    }
}

/// The prefix whose origin is to be validated.
pub fn prefix_to_validate(prefix: &str) -> (r: Result<IpNetwork, Status>)
    ensures
        plain_status_result(r) == read_prefix(prefix@),
{
    match IpNetwork::parse(prefix) {
        Some(p) => Ok(p),
        None => Err(Status::InvalidArgument(cat2("invalid prefix: ", "invalid network"))),
    }
}

// ---------------------------------------------------------------------------
// Policies
// ---------------------------------------------------------------------------

/// The defined set that is to be added.
pub open spec fn read_new_set(set: Option<policy::DefinedSetConfigView>) -> Result<
    DefinedSetConfigView,
    StatusView,
> {
    match set {
        None => Err(StatusView::InvalidArgument("set config required"@)),
        Some(m) => match proto_policy::read_defined_set(m) {
            Ok(c) => Ok(c),
            Err(e) => Err(StatusView::InvalidArgument("invalid set config: "@ + e)),
        },
    }
}

/// The defined set that is to be added.
pub fn set_to_add(set: &Option<policy::DefinedSetConfig>) -> (r: Result<DefinedSetConfig, Status>)
    ensures
        status_result(r) == read_new_set(conf::opt_view(*set)),
{
    match set {
        None => Err(Status::InvalidArgument("set config required".to_owned())),
        Some(m) => match proto_to_defined_set_config(m) {
            Ok(c) => Ok(c),
            Err(e) => Err(Status::InvalidArgument(cat2("invalid set config: ", e.as_str()))),
        },
    }
}

/// `r` is the kind of sets with the name `name`, or the failure that there is
/// none.
pub open spec fn is_set_type(name: Seq<char>, r: Result<DefinedSetType, StatusView>) -> bool {
    match r {
        Ok(t) => t.text() == name,
        Err(e) => {
            &&& forall|t: DefinedSetType| #[trigger] t.text() != name
            &&& e == StatusView::InvalidArgument("invalid set type: "@ + name)
        },
    }
}

/// The kind of the set that is to be removed.
pub fn set_type_of(name: &str) -> (r: Result<DefinedSetType, Status>)
    ensures
        is_set_type(name@, plain_status_result(r)),
{
    match DefinedSetType::parse(name) {
        Ok(t) => Ok(t),
        Err(e) => Err(Status::InvalidArgument(e)),
    }
}

/// The kind of the sets that are to be listed; all kinds where none is named.
pub fn set_type_to_list(name: &Option<String>) -> (r: Result<Option<DefinedSetType>, Status>)
    ensures
        match (seqs::opt_text(*name), plain_status_result(r)) {
            (None, Ok(t)) => t is None,
            (None, Err(_)) => false,
            (Some(n), Ok(t)) => t is Some && is_set_type(n, Ok(t->0)),
            (Some(n), Err(e)) => is_set_type(n, Err(e)),
        },
{
    match name {
        None => Ok(None),
        Some(n) => match set_type_of(n.as_str()) {
            Ok(t) => Ok(Some(t)),
            Err(e) => Err(e),
        },
    }
}

pub open spec fn read_statements(s: Seq<policy::StatementConfigView>) -> Seq<StatementConfigView> {
    Seq::new(s.len(), |i: int| proto_policy::read_statement(s[i]))
}

/// The statements of a policy that is to be added.
pub fn statements_to_add(statements: Vec<policy::StatementConfig>) -> (r: Result<
    Vec<StatementConfig>,
    Status,
>)
    ensures
        match r {
            Ok(v) => seqs::views(v@) == read_statements(seqs::views(statements@)),
            Err(_) => false,
        },
{
    let ghost all = read_statements(seqs::views(statements@));
    let mut out: Vec<StatementConfig> = Vec::new();
    for s in it: statements
        invariant
            it.seq() == statements@,
            all == read_statements(seqs::views(statements@)),
            seqs::views(out@) == all.take(it.index()),
    {
        let ghost k = it.index();
        match proto_to_statement_config(s) {
            Ok(x) => {
                proof {
                    assert(seqs::views(statements@)[k] == s@);
                    seqs::lemma_views_push(out@, x);
                    seqs::lemma_take_next(all, k);
                }
                out.push(x);
            },
            Err(e) => {
                return Err(
                    Status::InvalidArgument(cat2("invalid statement config: ", e.as_str())),
                );
            },
        }
    }
    proof {
        seqs::lemma_take_all(all);
    }
    Ok(out)
}

/// Which way routes pass a policy.
#[derive(Debug, Clone, Copy, PartialEq, Eq, Structural)]
pub enum PolicyDirection {
    Import,
    Export,
}

/// To whom a policy is assigned, and what becomes of routes that it leaves open.
#[derive(Debug, Clone, Copy, PartialEq, Eq, Structural)]
pub struct Assignment {
    pub peer_addr: IpAddr,
    pub family: AfiSafi,
    pub direction: PolicyDirection,
    pub default_action: Option<PolicyResult>,
}

/// What becomes of routes that are left open: they are rejected unless they are
/// to be accepted.
pub open spec fn read_default_action(s: Option<Seq<char>>) -> Option<PolicyResult> {
    match s {
        Some(t) => if t == "accept"@ {
            Some(PolicyResult::Accept)
        } else {
            Some(PolicyResult::Reject)
        },
        None => None,
    }
}

/// The assignment that a request asks for. The address, the direction and the
/// family are looked at in this order.
pub open spec fn read_assignment(m: messages::SetPolicyAssignmentRequestView) -> Result<
    Assignment,
    StatusView,
> {
    match addr_text::read_ip(m.peer_address) {
        None => Err(StatusView::InvalidArgument("invalid peer address"@)),
        Some(peer_addr) => if m.direction != "import"@ && m.direction != "export"@ {
            Err(StatusView::InvalidArgument("direction must be 'import' or 'export'"@))
        } else {
            match sessions::read_family(Seq::empty(), m.afi, m.safi) {
                Err(e) => Err(StatusView::InvalidArgument(e)),
                Ok(family) => Ok(
                    Assignment {
                        peer_addr,
                        family,
                        direction: if m.direction == "import"@ {
                            PolicyDirection::Import
                        } else {
                            PolicyDirection::Export
                        },
                        default_action: read_default_action(m.default_action),
                    },
                ),
            }
        },
    }
}

/// The assignment that a request asks for.
pub fn assignment_of(req: &messages::SetPolicyAssignmentRequest) -> (r: Result<Assignment, Status>)
    ensures
        plain_status_result(r) == read_assignment(req@),
{
    proof {
        reveal_strlit("");
        assert(""@ =~= Seq::<char>::empty());
    }
    let peer_addr = match IpAddr::parse(req.peer_address.as_str()) {
        Some(a) => a,
        None => {
            return Err(Status::InvalidArgument("invalid peer address".to_owned()));
        },
    };
    let direction = if text_eq(req.direction.as_str(), "import") {
        PolicyDirection::Import
    } else if text_eq(req.direction.as_str(), "export") {
        PolicyDirection::Export
    } else {
        return Err(Status::InvalidArgument("direction must be 'import' or 'export'".to_owned()));
    };
    let family = match family_from_proto("", req.afi, req.safi) {
        Ok(x) => x,
        Err(e) => {
            return Err(Status::InvalidArgument(e));
        },
    };
    let default_action = match &req.default_action {
        Some(t) => if text_eq(t.as_str(), "accept") {
            Some(PolicyResult::Accept)
        } else {
            Some(PolicyResult::Reject)
        },
        None => None,
    };
    Ok(Assignment { peer_addr, family, direction, default_action })
}

} // verus!
