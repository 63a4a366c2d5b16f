//! What is told of peers, and what is asked of them.

use crate::bgp::multiprotocol::{Afi, AfiSafi, Safi};
use crate::grpc::client;
use crate::grpc::listings;
use crate::grpc::listings::{CacheState, Vrp};
use crate::grpc::proto::management as messages;
use crate::grpc::proto::session::SessionConfigView;
use crate::grpc::routes;
use crate::grpc::service;
use crate::grpc::service::{
    AnswerView, PeerDetails, PeerInfo, PeerInfoView, Reply, StatusView, TransportType,
    Undertaking,
};
use crate::grpc::sessions;
use crate::net::addr::IpAddr;
use crate::net::addr_laws;
use crate::net::addr_text;
use crate::net::socket;
use crate::peer::fsm::BgpState;
use crate::peer::session::PeerStatistics;
use crate::peer_config;
use crate::peer_config::{AddPathSend, AfiSafiConfigView, PeerConfigView};
use crate::policy::PolicyResult;
use crate::rib::Route;
use crate::rpki::RpkiValidation;
use vstd::prelude::*;

verus! {

// ---------------------------------------------------------------------------
// Peers
// ---------------------------------------------------------------------------

/// A peer is shown by its address, its AS number, or zero while that is not known,
/// its state, and the policies for each direction.
pub proof fn law_shown_peers(p: PeerInfoView, c: Option<SessionConfigView>)
    ensures
        ({
            let m = service::peer_message(p, c);
            &&& m.address == p.address
            &&& p.asn is Some ==> Some(m.asn) == p.asn
            &&& p.asn is None ==> m.asn == 0
            &&& p.state == BgpState::Idle <==> m.state == 0
            &&& p.state == BgpState::Connect <==> m.state == 1
            &&& p.state == BgpState::Active <==> m.state == 2
            &&& p.state == BgpState::OpenSent <==> m.state == 3
            &&& p.state == BgpState::OpenConfirm <==> m.state == 4
            &&& p.state == BgpState::Established <==> m.state == 5
            &&& p.admin_state is Up <==> m.admin_state == 0
            &&& p.admin_state is Down <==> m.admin_state == 1
            &&& p.admin_state is PrefixLimitReached <==> m.admin_state == 2
            &&& m.import_policies == p.import_policies
            &&& m.export_policies == p.export_policies
            &&& m.session_config == c
        }),
{
}

/// Every peer is listed, in the order of the reply, and without its configuration; no
/// reply is a failure within.
pub proof fn law_listed_peers(v: Vec<PeerInfo>)
    ensures
        match listings::peers_listed(Reply::Given(v)) {
            Ok(l) => l.len() == v@.len() && forall|i: int|
                0 <= i < l.len() ==> #[trigger] l[i] == service::peer_message(v@[i]@, None),
            Err(_) => false,
        },
        listings::peers_listed(Reply::NotSent) is Err,
        listings::peers_listed(Reply::NotSent)->Err_0 is Internal,
        listings::peers_listed(Reply::Lost) is Err,
        listings::peers_listed(Reply::Lost)->Err_0 is Internal,
{
}

/// The statistics that are shown of a peer are its own, count by count.
pub proof fn law_shown_statistics(s: PeerStatistics)
    ensures
        service::statistics_message(s).open_sent == s.open_sent,
        service::statistics_message(s).keepalive_sent == s.keepalive_sent,
        service::statistics_message(s).update_sent == s.update_sent,
        service::statistics_message(s).notification_sent == s.notification_sent,
        service::statistics_message(s).open_received == s.open_received,
        service::statistics_message(s).keepalive_received == s.keepalive_received,
        service::statistics_message(s).update_received == s.update_received,
        service::statistics_message(s).notification_received == s.notification_received,
{
}

/// One peer is shown with its own configuration and statistics; one that is not there
/// is not found.
pub proof fn law_peer_in_detail(addr: Seq<char>, d: PeerDetails)
    ensures
        match service::peer_told(addr, Some(d)) {
            Ok(m) => m.peer == Some(
                service::peer_message(d.info@, Some(sessions::session_message(d.config@))),
            ) && m.statistics == Some(service::statistics_message(d.statistics)),
            Err(_) => false,
        },
        service::peer_told(addr, None) is Err,
        service::peer_told(addr, None)->Err_0 == StatusView::NotFound(
            "Peer "@ + addr + " not found"@,
        ),
{
}

/// What is known of a peer is shown as it is known.
pub proof fn law_peers_as_they_are(p: PeerInfo)
    ensures
        p@.address == p.address@,
        p@.asn == p.asn,
        p@.state == p.state,
        p@.admin_state == p.admin_state,
        p@.import_policies.len() == p.import_policies@.len(),
        p@.export_policies.len() == p.export_policies@.len(),
        forall|i: int|
            0 <= i < p.import_policies@.len() ==> #[trigger] p@.import_policies[i]
                == p.import_policies@[i]@,
        forall|i: int|
            0 <= i < p.export_policies@.len() ==> #[trigger] p@.export_policies[i]
                == p.export_policies@[i]@,
{
}

// ---------------------------------------------------------------------------
// Other lists
// ---------------------------------------------------------------------------

/// Every route is listed, in the order of the reply; what the server cannot read of
/// the request is the caller's fault.
pub proof fn law_every_route_is_listed(v: Vec<Route>, e: String)
    ensures
        match listings::routes_listed(Reply::Given(Ok(v))) {
            Ok(l) => l.len() == v@.len() && forall|i: int|
                0 <= i < l.len() ==> #[trigger] l[i] == routes::route_message(v@[i]),
            Err(_) => false,
        },
        listings::routes_listed(Reply::Given(Err(e))) is Err,
        listings::routes_listed(Reply::Given(Err(e)))->Err_0 == StatusView::InvalidArgument(e@),
        listings::routes_listed(Reply::NotSent) is Err,
        listings::routes_listed(Reply::Lost) is Err,
{
}

/// Every cache is listed with its own address, preference, transport, session and
/// count, and the count of all beside them.
pub proof fn law_listed_caches(v: Vec<CacheState>, n: usize)
    ensures
        match listings::caches_listed(Reply::Given((v, n))) {
            Ok(m) => {
                &&& m.total_vrp_count == n
                &&& m.caches.len() == v@.len()
                &&& forall|i: int|
                    0 <= i < v@.len() ==> {
                        let c = #[trigger] m.caches[i];
                        &&& c.address == v@[i].address.text()
                        &&& c.preference == v@[i].preference
                        &&& c.transport == v@[i].transport_name@
                        &&& c.session_active == v@[i].session_active
                        &&& c.vrp_count == v@[i].vrp_count
                    }
            },
            Err(_) => false,
        },
{
}

/// The outcome of a validation is told with each authorization that covers the
/// prefix.
pub proof fn law_told_validation(s: RpkiValidation, v: Vec<Vrp>)
    ensures
        match listings::validation_told(Reply::Given((s, v))) {
            Ok(m) => {
                &&& s == RpkiValidation::NotFound <==> m.validation == 0
                &&& s == RpkiValidation::Valid <==> m.validation == 1
                &&& s == RpkiValidation::Invalid <==> m.validation == 2
                &&& m.covering_vrps.len() == v@.len()
                &&& forall|i: int|
                    0 <= i < v@.len() ==> (#[trigger] m.covering_vrps[i]).prefix
                        == v@[i].prefix.text() && m.covering_vrps[i].max_length == v@[i].max_length
                        && m.covering_vrps[i].origin_as == v@[i].origin_as
            },
            Err(_) => false,
        },
{
}

/// A server tells where it listens and how many routes it has.
pub proof fn law_told_server(addr: IpAddr, port: u16, num_routes: u64)
    ensures
        match listings::server_told(Reply::Given((addr, port, num_routes))) {
            Ok(m) => m.listen_addr == addr.text() && m.listen_port == port && m.num_routes
                == num_routes,
            Err(_) => false,
        },
{
}

// ---------------------------------------------------------------------------
// Answers
// ---------------------------------------------------------------------------

/// A request that succeeds is answered so; one that does not is answered with the
/// server's reason, in the way of its kind. A request that was not sent, or whose
/// reply was lost, fails within.
pub proof fn law_answers(u: Undertaking, e: String, count: u64)
    ensures
        service::answer_spec(u, service::heard(Reply::Given(Ok::<(), String>(())))) == Ok::<
            AnswerView,
            StatusView,
        >(AnswerView { success: true, message: u.done_text() }),
        service::answer_spec(u, service::heard(Reply::Given(Err::<(), String>(e)))) == Ok::<
            AnswerView,
            StatusView,
        >(AnswerView { success: false, message: e@ }),
        service::answer_spec(u, service::heard(Reply::NotSent)) is Err,
        service::answer_spec(u, service::heard(Reply::Lost)) is Err,
        service::peer_outcome(Reply::Given(Ok::<(), String>(()))) is Ok,
        service::peer_outcome(Reply::Given(Err::<(), String>(e))) == Err::<(), StatusView>(
            StatusView::NotFound(e@),
        ),
        service::peer_outcome(Reply::NotSent) is Err,
        service::peer_outcome(Reply::Lost) is Err,
        match service::config_told(Reply::Given(Ok::<(), String>(()))) {
            Ok(a) => a.ok && a.error.len() == 0,
            Err(_) => false,
        },
        match service::config_told(Reply::Given(Err::<(), String>(e))) {
            Ok(a) => !a.ok && a.error == e@,
            Err(_) => false,
        },
        service::config_told(Reply::NotSent) is Err,
        service::config_told(Reply::Lost) is Err,
        service::stream_count(Reply::NotSent, count) is None,
        service::stream_count(Reply::Lost, count) == Some(count),
        service::stream_count(Reply::Given(Err(e)), count) == Some(count),
        count < u64::MAX ==> service::stream_count(Reply::Given(Ok(())), count) == Some(
            (count + 1) as u64,
        ),
        service::heard::<u64>(Reply::NotSent) == Err::<u64, StatusView>(
            StatusView::Internal("failed to send request"@),
        ),
        service::heard::<u64>(Reply::Lost) == Err::<u64, StatusView>(
            StatusView::Internal("request processing failed"@),
        ),
        service::heard::<u64>(Reply::Given(count)) == Ok::<u64, StatusView>(count),
{
}

// ---------------------------------------------------------------------------
// Configuration of sessions
// ---------------------------------------------------------------------------

/// The configuration that is shown of a session is its own, setting by setting.
pub proof fn law_shown_session(c: PeerConfigView)
    ensures
        ({
            let m = sessions::session_message(c);
            &&& m.asn == c.asn
            &&& m.port is Some && m.port->0 == c.port
            &&& m.idle_hold_time_secs == c.idle_hold_time_secs
            &&& m.delay_open_time_secs == c.delay_open_time_secs
            &&& m.min_route_advertisement_interval_secs == c.min_route_advertisement_interval_secs
            &&& m.damp_peer_oscillations == Some(c.damp_peer_oscillations)
            &&& m.allow_automatic_stop == Some(c.allow_automatic_stop)
            &&& m.passive_mode == Some(c.passive_mode)
            &&& m.send_notification_without_open == Some(c.send_notification_without_open)
            &&& m.rr_client == Some(c.rr_client)
            &&& m.rs_client == Some(c.rs_client)
            &&& m.add_path_receive == Some(c.add_path_receive)
            &&& m.enforce_first_as == Some(c.enforce_first_as)
            &&& m.next_hop_self == Some(c.next_hop_self)
            &&& m.graceful_shutdown == Some(c.graceful_shutdown)
            &&& m.send_rpki_community == Some(c.send_rpki_community)
            &&& m.md5_key_file == c.md5_key_file
            &&& m.interface == c.interface
            &&& c.add_path_send is Disabled ==> m.add_path_send == Some(0i32)
            &&& c.add_path_send is All ==> m.add_path_send == Some(1i32)
            &&& c.ttl_min is Some ==> m.ttl_min is Some && m.ttl_min->0 == c.ttl_min->0
            &&& c.ttl_min is None ==> m.ttl_min is None
            &&& m.graceful_restart is Some
            &&& m.graceful_restart->0.enabled == Some(c.graceful_restart.enabled)
            &&& m.graceful_restart->0.restart_time_secs is Some
            &&& m.graceful_restart->0.restart_time_secs->0 == c.graceful_restart.restart_time
            &&& m.afi_safis.len() == c.afi_safis.len()
            &&& forall|i: int|
                0 <= i < m.afi_safis.len() ==> #[trigger] m.afi_safis[i]
                    == sessions::family_message(c.afi_safis[i])
            &&& c.max_prefix is None ==> m.max_prefix is None
            &&& c.max_prefix is Some ==> m.max_prefix is Some && m.max_prefix->0.limit
                == c.max_prefix->0.limit && (m.max_prefix->0.action == 0
                <==> c.max_prefix->0.action is Terminate) && (m.max_prefix->0.action == 1
                <==> c.max_prefix->0.action is Discard)
        }),
{
}

/// The families with long-lived stale routes are shown by their numbers, with their
/// time.
pub proof fn law_shown_long_lived(c: PeerConfigView)
    ensures
        ({
            let m = sessions::session_message(c).llgr;
            &&& m is Some <==> c.llgr is Some
            &&& c.llgr is Some ==> {
                &&& m->0.enabled == Some(c.llgr->0.enabled)
                &&& m->0.stale_time_secs == c.llgr->0.stale_time
                &&& c.llgr->0.afi_safis is None ==> m->0.afi_safis.len() == 0
                &&& c.llgr->0.afi_safis is Some ==> m->0.afi_safis.len()
                    == c.llgr->0.afi_safis->0.len() && forall|i: int|
                    0 <= i < m->0.afi_safis.len() ==> {
                        let x = #[trigger] m->0.afi_safis[i];
                        has_number(c.llgr->0.afi_safis->0[i], x.afi, x.safi)
                    }
            }
        }),
{
}

/// Two numbers are those of a family.
pub open spec fn has_number(f: AfiSafi, afi: u32, safi: u32) -> bool {
    &&& match f.afi {
        Afi::Ipv4 => afi == 1,
        Afi::Ipv6 => afi == 2,
        Afi::LinkState => afi == 16388,
    }
    &&& match f.safi {
        Safi::Unicast => safi == 1,
        Safi::Multicast => safi == 2,
        Safi::LinkState => safi == 71,
        Safi::LinkStateVpn => safi == 72,
    }
}

/// The settings of a family are shown by its numbers, and setting by setting.
pub proof fn law_shown_family(c: AfiSafiConfigView)
    ensures
        ({
            let m = sessions::family_message(c);
            &&& has_number((AfiSafi { afi: c.afi, safi: c.safi }), m.afi, m.safi)
            &&& m.import_policy == c.import_policy
            &&& m.export_policy == c.export_policy
            &&& c.add_path_send is None ==> m.add_path_send is None
            &&& c.add_path_send == Some(AddPathSend::Disabled) ==> m.add_path_send == Some(0i32)
            &&& c.add_path_send == Some(AddPathSend::All) ==> m.add_path_send == Some(1i32)
            &&& c.max_prefix is Some <==> m.max_prefix is Some
            &&& c.max_prefix is Some ==> m.max_prefix->0.limit == c.max_prefix->0.limit
        }),
{
}

/// What nothing is said about in the configuration of a session.
pub proof fn law_default_session()
    ensures
        ({
            let d = peer_config::default_peer_config();
            &&& d.port == 179 && d.asn is None && d.idle_hold_time_secs == Some(30u64)
            &&& d.damp_peer_oscillations && d.allow_automatic_stop && d.enforce_first_as
            &&& !d.passive_mode && !d.send_notification_without_open && !d.rr_client && !d.rs_client
            &&& !d.add_path_receive && !d.next_hop_self && !d.graceful_shutdown
            &&& !d.send_rpki_community && !d.admin_down
            &&& d.graceful_restart.enabled && d.graceful_restart.restart_time == 120
            &&& d.add_path_send is Disabled && d.llgr is None && d.max_prefix is None
            &&& d.ttl_min is None && d.md5_key_file is None && d.interface is None
            &&& d.delay_open_time_secs is None && d.min_route_advertisement_interval_secs is None
            &&& d.afi_safis.len() == 0 && d.address.len() == 0
        }),
{
}

/// A setting that a request names is taken from it; one that it does not name is the
/// default. The lowest time to live is refused unless it is from 1 to 255.
pub proof fn law_requested_session(m: SessionConfigView)
    ensures
        match service::read_new_peer(Some(m)) {
            Ok(c) => {
                &&& m.ttl_min is Some ==> 1 <= m.ttl_min->0 <= 255 && c.ttl_min is Some
                    && c.ttl_min->0 == m.ttl_min->0
                &&& m.ttl_min is None ==> c.ttl_min is None
                &&& c.asn == m.asn
                &&& c.port == (match m.port {
                    Some(p) => p as u16,
                    None => 179,
                })
                &&& m.idle_hold_time_secs is Some ==> c.idle_hold_time_secs == m.idle_hold_time_secs
                &&& m.idle_hold_time_secs is None ==> c.idle_hold_time_secs == Some(30u64)
                &&& c.delay_open_time_secs == m.delay_open_time_secs
                &&& c.min_route_advertisement_interval_secs
                    == m.min_route_advertisement_interval_secs
                &&& c.md5_key_file == m.md5_key_file
                &&& c.interface == m.interface
                &&& c.damp_peer_oscillations == (m.damp_peer_oscillations != Some(false))
                &&& c.allow_automatic_stop == (m.allow_automatic_stop != Some(false))
                &&& c.enforce_first_as == (m.enforce_first_as != Some(false))
                &&& c.passive_mode == (m.passive_mode == Some(true))
                &&& c.send_notification_without_open == (m.send_notification_without_open == Some(
                    true,
                ))
                &&& c.rr_client == (m.rr_client == Some(true))
                &&& c.rs_client == (m.rs_client == Some(true))
                &&& c.add_path_receive == (m.add_path_receive == Some(true))
                &&& c.next_hop_self == (m.next_hop_self == Some(true))
                &&& c.graceful_shutdown == (m.graceful_shutdown == Some(true))
                &&& c.send_rpki_community == (m.send_rpki_community == Some(true))
                &&& c.add_path_send is All <==> m.add_path_send == Some(1i32)
                &&& !c.admin_down && c.address.len() == 0
                &&& c.max_prefix is Some <==> m.max_prefix is Some
                &&& m.max_prefix is Some ==> c.max_prefix->0.limit == m.max_prefix->0.limit && (
                c.max_prefix->0.action is Discard <==> m.max_prefix->0.action == 1)
                &&& c.graceful_restart.enabled == !(m.graceful_restart is Some
                    && m.graceful_restart->0.enabled == Some(false))
                &&& c.llgr is Some <==> m.llgr is Some
                &&& m.llgr is Some ==> c.llgr->0.stale_time == m.llgr->0.stale_time_secs
                    && c.llgr->0.enabled == (m.llgr->0.enabled != Some(false))
            },
            Err(e) => e is InvalidArgument,
        },
        m.ttl_min is Some && !(1 <= m.ttl_min->0 <= 255) ==> service::read_new_peer(Some(m)) is Err,
        service::read_new_peer(None) == Ok::<PeerConfigView, StatusView>(
            peer_config::default_peer_config(),
        ),
{
}

/// A request names a family by its two numbers; others than those of a family are
/// refused.
pub proof fn law_requested_family(prefix: Seq<char>, afi: u16, safi: u8)
    ensures
        match sessions::read_family(prefix, afi as u32, safi as u32) {
            Ok(f) => has_number(f, afi as u32, safi as u32),
            Err(_) => forall|f: AfiSafi| !#[trigger] has_number(f, afi as u32, safi as u32),
        },
{
}

// ---------------------------------------------------------------------------
// Other requests
// ---------------------------------------------------------------------------

/// A reset is one of four kinds, by their numbers, for one family or for all.
pub proof fn law_requested_reset(m: messages::ResetPeerRequestView)
    ensures
        match service::read_reset(m) {
            Ok(r) => {
                &&& r.reset_type is SoftIn <==> m.reset_type == 0
                &&& r.reset_type is SoftOut <==> m.reset_type == 1
                &&& r.reset_type is Soft <==> m.reset_type == 2
                &&& r.reset_type is Hard <==> m.reset_type == 3
                &&& r.afi == Some(Afi::Ipv4) <==> m.afi == Some(1i32)
                &&& r.afi == Some(Afi::Ipv6) <==> m.afi == Some(2i32)
                &&& r.afi != Some(Afi::LinkState)
                &&& r.safi == Some(Safi::Unicast) <==> m.safi == Some(1i32)
                &&& r.safi is Some ==> r.safi == Some(Safi::Unicast)
            },
            Err(e) => !(0 <= m.reset_type <= 3) && e is InvalidArgument,
        },
{
}

/// A policy is assigned to a peer for one direction, by name, and for a family, by its
/// numbers; routes that it leaves open are accepted exactly if the request says so.
pub proof fn law_requested_assignment(m: messages::SetPolicyAssignmentRequestView)
    requires
        m.afi < 0x1_0000,
        m.safi < 0x100,
    ensures
        match service::read_assignment(m) {
            Ok(a) => {
                &&& addr_text::read_ip(m.peer_address) == Some(a.peer_addr)
                &&& m.direction == "import"@ || m.direction == "export"@
                &&& a.direction is Import <==> m.direction == "import"@
                &&& has_number(a.family, m.afi, m.safi)
                &&& m.default_action is None ==> a.default_action is None
                &&& m.default_action == Some("accept"@) ==> a.default_action == Some(
                    PolicyResult::Accept,
                )
                &&& m.default_action is Some && m.default_action != Some("accept"@)
                    ==> a.default_action == Some(PolicyResult::Reject)
            },
            Err(e) => {
                &&& e is InvalidArgument
                &&& addr_text::read_ip(m.peer_address) is None || (m.direction != "import"@
                    && m.direction != "export"@) || forall|f: AfiSafi| !#[trigger] has_number(
                    f,
                    m.afi,
                    m.safi,
                )
            },
        },
{
    law_requested_family(Seq::empty(), m.afi as u16, m.safi as u8);
}

/// A cache is added by its address and what is said of it; over SSH a user and a key
/// are required. Without a name for it the transport is TCP, without a preference it
/// is zero.
pub proof fn law_requested_cache(
    m: messages::AddRpkiCacheRequestView,
    named: Option<Result<TransportType, Seq<char>>>,
)
    ensures
        match service::read_new_cache(m, named) {
            Ok(c) => {
                &&& socket::read_socket(m.address) is Some
                &&& c.address == socket::read_socket(m.address)->0.text()
                &&& named is None ==> c.transport is Tcp
                &&& named is Some ==> named->0 == Ok::<TransportType, Seq<char>>(c.transport)
                &&& c.transport is Ssh ==> m.ssh_username is Some && m.ssh_private_key_file is Some
                &&& m.preference is None ==> c.preference == 0
                &&& m.preference is Some && m.preference->0 < 256 ==> c.preference
                    == m.preference->0
                &&& c.ssh_username == m.ssh_username
                &&& c.ssh_private_key_file == m.ssh_private_key_file
                &&& c.ssh_known_hosts_file == m.ssh_known_hosts_file
                &&& c.retry_interval == m.retry_interval
                &&& c.refresh_interval == m.refresh_interval
                &&& c.expire_interval == m.expire_interval
            },
            Err(e) => {
                let ssh = named is Some && named->0 is Ok && named->0->Ok_0 is Ssh;
                &&& e is InvalidArgument
                &&& {
                    ||| socket::read_socket(m.address) is None
                    ||| named is Some && named->0 is Err
                    ||| ssh && (m.ssh_username is None || m.ssh_private_key_file is None)
                }
            },
        },
{
}

/// A peer is added with the session that is asked for, if that can be read and packets
/// are not to have none or more than 255 hops left.
pub proof fn law_requested_peer(m: Option<SessionConfigView>)
    ensures
        ({
            let hops = match m {
                Some(c) => c.ttl_min,
                None => None,
            };
            match service::read_new_peer(m) {
                Ok(c) => {
                    &&& hops is Some ==> 1 <= hops->0 <= 255
                    &&& sessions::read_session(m) == Ok::<PeerConfigView, Seq<char>>(c)
                },
                Err(e) => {
                    &&& e is InvalidArgument
                    &&& hops == Some(0u32) || hops is Some && hops->0 > 255
                        || sessions::read_session(m) is Err
                },
            }
        }),
{
}

/// A peer is removed by an address, and a prefix is validated by its notation.
pub proof fn law_requested_addresses(s: Seq<char>)
    ensures
        service::read_removal(s) is Ok <==> addr_text::read_ip(s) is Some,
        service::read_removal(s) is Err ==> service::read_removal(s)->Err_0 is InvalidArgument,
        match service::read_prefix(s) {
            Ok(p) => addr_text::read_network(s) == Some(p),
            Err(e) => addr_text::read_network(s) is None && e is InvalidArgument,
        },
{
}

// ---------------------------------------------------------------------------
// Clients
// ---------------------------------------------------------------------------

/// A client understands an answer as the server meant it: success by its message, and a
/// failure by the server's reason; and it finds the server where it says that it is.
pub proof fn law_understood_answers(
    u: Undertaking,
    e: String,
    addr: IpAddr,
    port: u16,
    num_routes: u64,
)
    ensures
        match service::answer_spec(u, service::heard(Reply::Given(Ok::<(), String>(())))) {
            Ok(a) => client::understood(a) == Ok::<Seq<char>, StatusView>(u.done_text()),
            Err(_) => false,
        },
        match service::answer_spec(u, service::heard(Reply::Given(Err::<(), String>(e)))) {
            Ok(a) => client::understood(a) == Err::<Seq<char>, StatusView>(
                StatusView::Unknown(e@),
            ),
            Err(_) => false,
        },
        match service::config_told(Reply::Given(Ok::<(), String>(()))) {
            Ok(a) => client::config_understood(a) == Ok::<(), StatusView>(()),
            Err(_) => false,
        },
        match service::config_told(Reply::Given(Err::<(), String>(e))) {
            Ok(a) => client::config_understood(a) == Err::<(), StatusView>(
                StatusView::Unknown(e@),
            ),
            Err(_) => false,
        },
        match listings::server_told(Reply::Given((addr, port, num_routes))) {
            Ok(m) => client::server_understood(m.listen_addr, m.listen_port, m.num_routes) == Ok::<
                (IpAddr, u16, u64),
                StatusView,
            >((addr, port, num_routes)),
            Err(_) => false,
        },
{
    addr_laws::law_ip_round_trip(addr);
}

} // verus!
