//! What is told to those who ask for a list.

use crate::conf::{
    DefinedSetConfig, DefinedSetConfigView, PolicyDefinitionConfig, PolicyDefinitionView,
};
use crate::grpc::proto::management as messages;
use crate::grpc::proto::policy;
use crate::grpc::proto::route;
use crate::grpc::proto_policy;
use crate::grpc::proto_policy::{defined_set_config_to_proto, policy_info_to_proto};
use crate::grpc::routes;
use crate::grpc::routes::{route_to_proto, rpki_state_to_proto};
use crate::grpc::service;
use crate::grpc::service::{
    peer_to_proto, reply_of, PeerInfo, PeerInfoView, Reply, Status, StatusView,
};
use crate::net::addr::IpAddr;
use crate::net::addr_laws;
use crate::net::addr_text;
use crate::net::network::IpNetwork;
use crate::net::socket::SocketAddr;
use crate::rib;
use crate::rib::Route;
use crate::rpki::RpkiValidation;
use crate::seqs;
use vstd::prelude::*;

verus! {

/// What a list, or the reason why there is none, holds.
pub open spec fn list_status<T: View>(r: Result<Vec<T>, Status>) -> Result<
    Seq<T::V>,
    StatusView,
> {
    match r {
        Ok(v) => Ok(seqs::views(v@)),
        Err(e) => Err(e@),
    }
}

// ---------------------------------------------------------------------------
// Peers
// ---------------------------------------------------------------------------

/// The messages of peers, without their configuration.
pub open spec fn peer_messages(s: Seq<PeerInfoView>) -> Seq<messages::PeerView> {
    Seq::new(s.len(), |i: int| service::peer_message(s[i], None))
}

/// The answer to a request for all peers.
pub open spec fn peers_listed(reply: Reply<Vec<PeerInfo>>) -> Result<
    Seq<messages::PeerView>,
    StatusView,
> {
    match service::heard(reply) {
        Err(e) => Err(e),
        Ok(v) => Ok(peer_messages(seqs::views(v@))),
    }
}

/// The answer to a request for all peers.
pub fn list_peers_answer(reply: Reply<Vec<PeerInfo>>) -> (r: Result<Vec<messages::Peer>, Status>)
    ensures
        list_status(r) == peers_listed(reply),
{
    let peers = match reply_of(reply) {
        Err(e) => {
            return Err(e);
        },
        Ok(v) => v,
    };
    let ghost all = peer_messages(seqs::views(peers@));
    let mut out: Vec<messages::Peer> = Vec::new();
    assert(seqs::views(out@) =~= all.take(0));
    for p in it: peers
        invariant
            it.seq() == peers@,
            all == peer_messages(seqs::views(peers@)),
            seqs::views(out@) == all.take(it.index()),
    {
        let x = peer_to_proto(p, None);
        proof {
            seqs::lemma_views_push(out@, x);
            seqs::lemma_take_next(all, it.index());
        }
        out.push(x);
    }
    proof {
        seqs::lemma_take_all(all);
    }
    Ok(out)
}

// ---------------------------------------------------------------------------
// Routes
// ---------------------------------------------------------------------------

/// The messages of routes.
pub open spec fn route_messages(s: Seq<Route>) -> Seq<route::RouteView> {
    Seq::new(
        s.len(),
        |i: int|
            route::RouteView {
                paths: routes::path_messages(rib::path_views(s[i].paths@)),
                key: routes::key_message(s[i].key@),
            },
    )
}

/// The answer to a request for routes: the server may find it unreadable.
pub open spec fn routes_listed(reply: Reply<Result<Vec<Route>, String>>) -> Result<
    Seq<route::RouteView>,
    StatusView,
> {
    match service::heard(reply) {
        Err(e) => Err(e),
        Ok(Err(e)) => Err(StatusView::InvalidArgument(e@)),
        Ok(Ok(v)) => Ok(route_messages(v@)),
    }
}

/// The answer to a request for routes: the server may find it unreadable.
pub fn list_routes_answer(reply: Reply<Result<Vec<Route>, String>>) -> (r: Result<
    Vec<route::Route>,
    Status,
>)
    ensures
        list_status(r) == routes_listed(reply),
{
    let found = match reply_of(reply) {
        Err(e) => {
            return Err(e);
        },
        Ok(Err(e)) => {
            return Err(Status::InvalidArgument(e));
        },
        Ok(Ok(v)) => v,
    };
    let ghost all = route_messages(found@);
    let mut out: Vec<route::Route> = Vec::new();
    assert(seqs::views(out@) =~= all.take(0));
    for x in it: found
        invariant
            it.seq() == found@,
            all == route_messages(found@),
            seqs::views(out@) == all.take(it.index()),
    {
        let m = route_to_proto(x);
        proof {
            seqs::lemma_views_push(out@, m);
            seqs::lemma_take_next(all, it.index());
        }
        out.push(m);
    }
    proof {
        seqs::lemma_take_all(all);
    }
    Ok(out)
}

// ---------------------------------------------------------------------------
// Policies
// ---------------------------------------------------------------------------

/// The messages of defined sets.
pub open spec fn set_messages(s: Seq<DefinedSetConfigView>) -> Seq<policy::DefinedSetInfoView> {
    Seq::new(s.len(), |i: int| proto_policy::defined_set_message(s[i]))
}

/// The answer to a request for defined sets.
pub open spec fn sets_listed(reply: Reply<Vec<DefinedSetConfig>>) -> Result<
    Seq<policy::DefinedSetInfoView>,
    StatusView,
> {
    match service::heard(reply) {
        Err(e) => Err(e),
        Ok(v) => Ok(set_messages(seqs::views(v@))),
    }
}

/// The answer to a request for defined sets.
pub fn list_defined_sets_answer(reply: Reply<Vec<DefinedSetConfig>>) -> (r: Result<
    Vec<policy::DefinedSetInfo>,
    Status,
>)
    ensures
        list_status(r) == sets_listed(reply),
{
    let sets = match reply_of(reply) {
        Err(e) => {
            return Err(e);
        },
        Ok(v) => v,
    };
    let ghost all = set_messages(seqs::views(sets@));
    let mut out: Vec<policy::DefinedSetInfo> = Vec::new();
    assert(seqs::views(out@) =~= all.take(0));
    for s in it: sets
        invariant
            it.seq() == sets@,
            all == set_messages(seqs::views(sets@)),
            seqs::views(out@) == all.take(it.index()),
    {
        let x = defined_set_config_to_proto(s);
        proof {
            seqs::lemma_views_push(out@, x);
            seqs::lemma_take_next(all, it.index());
        }
        out.push(x);
    }
    proof {
        seqs::lemma_take_all(all);
    }
    Ok(out)
}

/// The messages of policies.
pub open spec fn policy_messages(s: Seq<PolicyDefinitionView>) -> Seq<policy::PolicyInfoView> {
    Seq::new(s.len(), |i: int| proto_policy::policy_message(s[i]))
}

/// The answer to a request for policies.
pub open spec fn policies_listed(reply: Reply<Vec<PolicyDefinitionConfig>>) -> Result<
    Seq<policy::PolicyInfoView>,
    StatusView,
> {
    match service::heard(reply) {
        Err(e) => Err(e),
        Ok(v) => Ok(policy_messages(seqs::views(v@))),
    }
}

/// The answer to a request for policies.
pub fn list_policies_answer(reply: Reply<Vec<PolicyDefinitionConfig>>) -> (r: Result<
    Vec<policy::PolicyInfo>,
    Status,
>)
    ensures
        list_status(r) == policies_listed(reply),
{
    let policies = match reply_of(reply) {
        Err(e) => {
            return Err(e);
        },
        Ok(v) => v,
    };
    let ghost all = policy_messages(seqs::views(policies@));
    let mut out: Vec<policy::PolicyInfo> = Vec::new();
    assert(seqs::views(out@) =~= all.take(0));
    for p in it: policies
        invariant
            it.seq() == policies@,
            all == policy_messages(seqs::views(policies@)),
            seqs::views(out@) == all.take(it.index()),
    {
        let x = policy_info_to_proto(p);
        proof {
            seqs::lemma_views_push(out@, x);
            seqs::lemma_take_next(all, it.index());
        }
        out.push(x);
    }
    proof {
        seqs::lemma_take_all(all);
    }
    Ok(out)
}

// ---------------------------------------------------------------------------
// Caches
// ---------------------------------------------------------------------------

/// What is known of a cache.
#[derive(Debug, PartialEq, Eq)]
pub struct CacheState {
    pub address: SocketAddr,
    pub preference: u8,
    pub transport_name: String,
    pub session_active: bool,
    pub vrp_count: usize,
}

/// The messages of caches.
pub open spec fn cache_messages(s: Seq<CacheState>) -> Seq<messages::RpkiCacheInfoView> {
    Seq::new(
        s.len(),
        |i: int|
            messages::RpkiCacheInfoView {
                address: s[i].address.text(),
                preference: s[i].preference as u32,
                transport: s[i].transport_name@,
                session_active: s[i].session_active,
                vrp_count: s[i].vrp_count as u64,
            },
    )
}

/// The answer to a request for caches: the caches, and how many authorizations
/// they gave in all.
pub open spec fn caches_listed(reply: Reply<(Vec<CacheState>, usize)>) -> Result<
    messages::ListRpkiCachesResponseView,
    StatusView,
> {
    match service::heard(reply) {
        Err(e) => Err(e),
        Ok((v, n)) => Ok(
            messages::ListRpkiCachesResponseView {
                caches: cache_messages(v@),
                total_vrp_count: n as u64,
            },
        ),
    }
}

/// The answer to a request for caches: the caches, and how many authorizations
/// they gave in all.
pub fn list_rpki_caches_answer(reply: Reply<(Vec<CacheState>, usize)>) -> (r: Result<
    messages::ListRpkiCachesResponse,
    Status,
>)
    ensures
        service::status_result(r) == caches_listed(reply),
{
    let (found, total) = match reply_of(reply) {
        Err(e) => {
            return Err(e);
        },
        Ok((v, n)) => (v, n),
    };
    let ghost all = cache_messages(found@);
    let mut caches: Vec<messages::RpkiCacheInfo> = Vec::new();
    assert(seqs::views(caches@) =~= all.take(0));
    for c in it: found
        invariant
            it.seq() == found@,
            all == cache_messages(found@),
            seqs::views(caches@) == all.take(it.index()),
    {
        let x = messages::RpkiCacheInfo {
            address: c.address.to_text(),
            preference: c.preference as u32,
            transport: c.transport_name,
            session_active: c.session_active,
            vrp_count: c.vrp_count as u64,
        };
        proof {
            seqs::lemma_views_push(caches@, x);
            seqs::lemma_take_next(all, it.index());
        }
        caches.push(x);
    }
    proof {
        seqs::lemma_take_all(all);
    }
    Ok(messages::ListRpkiCachesResponse { caches, total_vrp_count: total as u64 })
}

/// An authorization: an AS may originate a prefix, and its parts up to a length.
#[derive(Debug, Clone, Copy, PartialEq, Eq, Structural)]
pub struct Vrp {
    pub prefix: IpNetwork,
    pub max_length: u8,
    pub origin_as: u32,
}

/// The messages of authorizations.
pub open spec fn vrp_messages(s: Seq<Vrp>) -> Seq<messages::RpkiVrpView> {
    Seq::new(
        s.len(),
        |i: int|
            messages::RpkiVrpView {
                prefix: s[i].prefix.text(),
                max_length: s[i].max_length as u32,
                origin_as: s[i].origin_as,
            },
    )
}

/// The answer to a request to validate a prefix: the outcome, and the
/// authorizations that cover the prefix.
pub open spec fn validation_told(reply: Reply<(RpkiValidation, Vec<Vrp>)>) -> Result<
    messages::GetRpkiValidationResponseView,
    StatusView,
> {
    match service::heard(reply) {
        Err(e) => Err(e),
        Ok((s, v)) => Ok(
            messages::GetRpkiValidationResponseView {
                validation: routes::rpki_state_number(s),
                covering_vrps: vrp_messages(v@),
            },
        ),
    }
}

/// The answer to a request to validate a prefix: the outcome, and the
/// authorizations that cover the prefix.
pub fn rpki_validation_answer(reply: Reply<(RpkiValidation, Vec<Vrp>)>) -> (r: Result<
    messages::GetRpkiValidationResponse,
    Status,
>)
    ensures
        service::status_result(r) == validation_told(reply),
{
    let (validation, covering) = match reply_of(reply) {
        Err(e) => {
            return Err(e);
        },
        Ok((s, v)) => (s, v),
    };
    let ghost all = vrp_messages(covering@);
    let mut covering_vrps: Vec<messages::RpkiVrp> = Vec::new();
    assert(seqs::views(covering_vrps@) =~= all.take(0));
    for v in it: covering
        invariant
            it.seq() == covering@,
            all == vrp_messages(covering@),
            seqs::views(covering_vrps@) == all.take(it.index()),
    {
        let x = messages::RpkiVrp {
            prefix: v.prefix.to_text(),
            max_length: v.max_length as u32,
            origin_as: v.origin_as,
        };
        proof {
            seqs::lemma_views_push(covering_vrps@, x);
            seqs::lemma_take_next(all, it.index());
        }
        covering_vrps.push(x);
    }
    proof {
        seqs::lemma_take_all(all);
    }
    Ok(
        messages::GetRpkiValidationResponse {
            validation: rpki_state_to_proto(validation),
            covering_vrps,
        },
    )
}

// ---------------------------------------------------------------------------
// The server
// ---------------------------------------------------------------------------

/// The answer to the question where the server listens and how many routes it
/// has.
pub open spec fn server_told(reply: Reply<(IpAddr, u16, u64)>) -> Result<
    messages::ServerInfoView,
    StatusView,
> {
    match service::heard(reply) {
        Err(e) => Err(e),
        Ok((addr, port, num_routes)) => Ok(
            messages::ServerInfoView {
                listen_addr: addr.text(),
                listen_port: port as u32,
                num_routes,
            },
        ),
    }
}

/// The answer to the question where the server listens and how many routes it
/// has.
pub fn server_info_answer(reply: Reply<(IpAddr, u16, u64)>) -> (r: Result<
    messages::ServerInfo,
    Status,
>)
    ensures
        service::status_result(r) == server_told(reply),
{
    match reply_of(reply) {
        Err(e) => Err(e),
        Ok((addr, port, num_routes)) => Ok(
            messages::ServerInfo {
                listen_addr: addr.to_text(),
                listen_port: port as u32,
                num_routes,
            },
        ),
    }
}

/// A client reads out of the answer where the server listens, whatever address
/// and port that is.
pub proof fn law_server_info_round_trip(addr: IpAddr, port: u16)
    ensures
        addr_text::read_ip(addr.text()) == Some(addr),
        (port as u32) as u16 == port,
{
    addr_laws::law_ip_round_trip(addr);
}

} // verus!
