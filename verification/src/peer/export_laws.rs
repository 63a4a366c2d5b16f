//! What a peer is told of a route, and with which attributes.

use crate::bgp::community;
use crate::bgp::msg_update::{AsPathSegmentType, NextHopAddr, PathAttrValueView, PathAttributeView};
use crate::bgp::multiprotocol::{Afi, AfiSafi, Safi};
use crate::net::addr::{IpAddr, Ipv4Addr, Ipv6Addr};
use crate::net::network::IpNetwork;
use crate::peer::fsm::BgpState;
use crate::peer::outgoing;
use crate::peer::outgoing::{ExportView, PeerExportContext};
use crate::policy;
use crate::policy::condition;
use crate::policy::{PolicyResult, PolicyView};
use crate::rib::{PathView, RouteKeyView, RoutePathView, RouteSource};
use crate::rpki::RpkiValidation;
use vstd::prelude::*;

verus! {

/// The numbers of the communities that routes are kept back by or marked with.
pub proof fn law_well_known_communities()
    ensures
        community::NO_EXPORT == 0xFFFF_FF01,
        community::NO_ADVERTISE == 0xFFFF_FF02,
        community::NO_EXPORT_SUBCONFED == 0xFFFF_FF03,
        community::GRACEFUL_SHUTDOWN == 0xFFFF_0000,
        community::LLGR_STALE == 0xFFFF_0006,
{
}

/// What export depends on is what the session has: nothing is mixed up on the way.
pub proof fn law_export_depends_on_the_session(ctx: PeerExportContext)
    ensures
        ctx@.peer_addr == ctx.peer_addr,
        ctx@.local_asn == ctx.local_asn,
        ctx@.peer_asn == ctx.peer_asn,
        ctx@.local_next_hop == ctx.local_next_hop,
        ctx@.local_link_local == ctx.local_link_local,
        ctx@.rr_client == ctx.rr_client,
        ctx@.rs_client == ctx.rs_client,
        ctx@.cluster_id == ctx.cluster_id,
        ctx@.send_format == ctx.send_format,
        ctx@.families == ctx.negotiated_afi_safis@,
        ctx@.next_hop_self == ctx.next_hop_self,
        ctx@.graceful_shutdown == ctx.graceful_shutdown,
        ctx@.peer_keeps_stale == ctx.capabilities.llgr is Some,
        ctx@.send_rpki_community == ctx.send_rpki_community,
        ctx@.policies.len() == ctx.export_policies@.len(),
        forall|i: int|
            0 <= i < ctx@.policies.len() ==> (#[trigger] ctx@.policies[i]).0
                == ctx.export_policies@[i].0,
{
}

/// A change reaches every peer with an established session, but never the peer that it
/// came from; one of this speaker reaches all of them.
pub proof fn law_changes_reach_other_peers(peer: IpAddr, from: IpAddr, state: BgpState)
    ensures
        !outgoing::is_passed_on_to(peer, state, Some(peer)),
        peer != from ==> (outgoing::is_passed_on_to(peer, state, Some(from)) <==> state
            == BgpState::Established),
        outgoing::is_passed_on_to(peer, state, None) <==> state == BgpState::Established,
{
}

/// The families that a peer is told of: IPv4 where none was agreed on.
pub proof fn law_families_without_agreement(ctx: PeerExportContext)
    requires
        ctx.negotiated_afi_safis@ == Set::<AfiSafi>::empty(),
    ensures
        ctx.told_families().len() == 1,
        ctx.told_families()[0].afi == Afi::Ipv4,
        ctx.told_families()[0].safi == Safi::Unicast,
{
}

// ---------------------------------------------------------------------------
// Whether
// ---------------------------------------------------------------------------

/// The path of a route that came from a peer.
pub open spec fn came_from(p: PathView, peer: IpAddr) -> bool {
    match p.attrs.source {
        RouteSource::Ebgp { peer_ip, bgp_id: _ } => peer_ip == peer,
        RouteSource::Ibgp { peer_ip, bgp_id: _, rr_client: _ } => peer_ip == peer,
        RouteSource::Local => false,
    }
}

/// A path may be told to a peer exactly if the peer did not send it; it does not
/// carry the community that keeps it from all peers, nor, where the peer is in
/// another system, one that keeps it in this one; the peer knows long-lived stale
/// paths, if it is marked as one; and it does not go from one internal peer to
/// another with neither of them a client of this reflector.
pub proof fn law_paths_may_be_told(p: PathView, c: ExportView)
    ensures
        outgoing::exportable(p, c) <==> {
            &&& !came_from(p, c.peer_addr)
            &&& !p.attrs.communities.contains(0xFFFF_FF02u32)
            &&& c.local_asn != c.peer_asn ==> !p.attrs.communities.contains(0xFFFF_FF01u32)
                && !p.attrs.communities.contains(0xFFFF_FF03u32)
            &&& p.attrs.communities.contains(0xFFFF_0006u32) ==> c.peer_keeps_stale
            &&& c.local_asn == c.peer_asn ==> match p.attrs.source {
                RouteSource::Ibgp { peer_ip: _, bgp_id: _, rr_client } => rr_client || c.rr_client,
                _ => true,
            }
        },
{
}

/// A peer is told of a path exactly if it may be, the policies for the family
/// accept it, and there is a next hop to give; what it is told is the path as the
/// policies left it, under the same identifiers, fresh, and without an outcome of
/// validation.
pub proof fn law_routes_are_told(key: RouteKeyView, p: PathView, c: ExportView)
    ensures
        ({
            let (accepted, q) = outgoing::policies_accept(
                outgoing::family_policies(c.policies, key.family()),
                key,
                p,
            );
            let told = outgoing::export_path(key, p, c);
            &&& told is Some <==> outgoing::exportable(p, c) && accepted && outgoing::export_attrs(
                q,
                c,
                key,
            ) is Some
            &&& told is Some ==> {
                &&& told->0.local_path_id == q.local_path_id
                &&& told->0.remote_path_id == q.remote_path_id
                &&& !told->0.stale
                &&& told->0.rpki_state == RpkiValidation::NotFound
                &&& outgoing::export_attrs(q, c, key) == Some(told->0.attrs)
            }
        }),
{
}

/// The policies for a family are those of the first entry for it.
pub proof fn law_policies_by_family(p: Seq<(AfiSafi, Seq<PolicyView>)>, f: AfiSafi, i: int)
    requires
        0 <= i < p.len(),
        p[i].0 == f,
        forall|j: int| 0 <= j < i ==> (#[trigger] p[j]).0 != f,
    ensures
        outgoing::family_policies(p, f) == p[i].1,
    decreases p.len(),
{
    if i > 0 {
        let rest = p.skip(1);
        assert(p[0].0 != f);
        assert(rest[i - 1] == p[i]);
        assert forall|j: int| 0 <= j < i - 1 implies (#[trigger] rest[j]).0 != f by {
            assert(rest[j] == p[j + 1]);
        }
        law_policies_by_family(rest, f, i - 1);
    }
}

/// Of the policies that are asked the first that says something of a route decides:
/// the route is accepted exactly if that one accepts it, and its path is what that
/// one makes of it.
pub proof fn law_first_policy_decides(
    policies: Seq<PolicyView>,
    key: RouteKeyView,
    p: PathView,
    i: int,
)
    requires
        0 <= i < policies.len(),
        policies[i].result(key, p) != PolicyResult::Continue,
        forall|j: int|
            0 <= j < i ==> (#[trigger] policies[j]).result(key, p) == PolicyResult::Continue,
    ensures
        outgoing::policies_accept(policies, key, p) == (
            policies[i].result(key, p) == PolicyResult::Accept,
            policies[i].effect(key, p),
        ),
    decreases policies.len(),
{
    if i > 0 {
        let rest = policies.skip(1);
        assert(policies[0].result(key, p) == PolicyResult::Continue);
        policy::law_no_match_continues(policies[0].statements, key, p);
        assert(rest[i - 1] == policies[i]);
        assert forall|j: int| 0 <= j < i - 1 implies (#[trigger] rest[j]).result(key, p)
            == PolicyResult::Continue by {
            assert(rest[j] == policies[j + 1]);
        }
        law_first_policy_decides(rest, key, p, i - 1);
    }
}

/// A route of which no policy says anything is not accepted.
pub proof fn law_silent_policies_accept_nothing(
    policies: Seq<PolicyView>,
    key: RouteKeyView,
    p: PathView,
)
    requires
        forall|j: int|
            0 <= j < policies.len() ==> (#[trigger] policies[j]).result(key, p)
                == PolicyResult::Continue,
    ensures
        outgoing::policies_accept(policies, key, p) == (false, p),
    decreases policies.len(),
{
    if policies.len() > 0 {
        let rest = policies.skip(1);
        assert(policies[0].result(key, p) == PolicyResult::Continue);
        policy::law_no_match_continues(policies[0].statements, key, p);
        assert forall|j: int| 0 <= j < rest.len() implies (#[trigger] rest[j]).result(key, p)
            == PolicyResult::Continue by {
            assert(rest[j] == policies[j + 1]);
        }
        law_silent_policies_accept_nothing(rest, key, p);
    }
}

/// Of many routes a peer is told each as if it were alone, in their order.
pub proof fn law_routes_are_told_one_by_one(
    a: Seq<RoutePathView>,
    r: RoutePathView,
    c: ExportView,
)
    ensures
        outgoing::export_routes(Seq::empty(), c) == Seq::<RoutePathView>::empty(),
        outgoing::export_routes(a.push(r), c) == (match outgoing::export_path(r.key, r.path, c) {
            Some(path) => outgoing::export_routes(a, c).push(RoutePathView { key: r.key, path }),
            None => outgoing::export_routes(a, c),
        }),
{
    assert(a.push(r).drop_last() =~= a);
}

// ---------------------------------------------------------------------------
// Attributes that are passed on
// ---------------------------------------------------------------------------

/// What every peer sees as the policies left it: the origin, the large communities,
/// the aggregation and the link-state attribute.
pub proof fn law_attributes_are_passed_on(p: PathView, c: ExportView, key: RouteKeyView)
    requires
        outgoing::export_attrs(p, c, key) is Some,
    ensures
        ({
            let a = outgoing::export_attrs(p, c, key)->0;
            &&& a.origin == p.attrs.origin
            &&& a.large_communities == p.attrs.large_communities
            &&& a.atomic_aggregate == p.attrs.atomic_aggregate
            &&& a.aggregator == p.attrs.aggregator
            &&& a.source == p.attrs.source
            &&& a.ls_attr == p.attrs.ls_attr
        }),
{
}

/// The local preference is for internal peers alone.
pub proof fn law_local_preference_stays_inside(p: PathView, c: ExportView, key: RouteKeyView)
    requires
        outgoing::export_attrs(p, c, key) is Some,
    ensures
        c.local_asn == c.peer_asn ==> outgoing::export_attrs(p, c, key)->0.local_pref
            == p.attrs.local_pref,
        c.local_asn != c.peer_asn ==> outgoing::export_attrs(p, c, key)->0.local_pref is None,
{
}

/// Internal peers, and those that routes are only served to, see the discriminator
/// of a path; other external peers see it on routes that began in this system.
pub proof fn law_discriminator(p: PathView, c: ExportView, key: RouteKeyView)
    requires
        outgoing::export_attrs(p, c, key) is Some,
    ensures
        ({
            let med = outgoing::export_attrs(p, c, key)->0.med;
            let path = p.attrs.as_path;
            &&& c.rs_client || c.local_asn == c.peer_asn ==> med == p.attrs.med
            &&& p.attrs.source == RouteSource::Local ==> med == p.attrs.med
            &&& path.len() == 0 ==> med == p.attrs.med
            &&& path.len() > 0 && path[0].segment_type != AsPathSegmentType::AsSet
                && path[0].asn_list.len() > 0 && path[0].asn_list[0] == c.local_asn ==> med
                == p.attrs.med
            &&& !c.rs_client && c.local_asn != c.peer_asn && p.attrs.source != RouteSource::Local
                && path.len() > 0 ==> {
                &&& path[0].segment_type == AsPathSegmentType::AsSet ==> med is None
                &&& path[0].asn_list.len() == 0 ==> med is None
                &&& path[0].asn_list.len() > 0 && path[0].asn_list[0] != c.local_asn ==> med is None
            }
        }),
{
}

// ---------------------------------------------------------------------------
// AS path
// ---------------------------------------------------------------------------

proof fn lemma_asns_of_first(s: Seq<crate::bgp::msg_update::AsPathSegmentView>)
    requires
        s.len() > 0,
    ensures
        condition::path_asns(s) == s[0].asn_list + condition::path_asns(s.skip(1)),
    decreases s.len(),
{
    if s.len() == 1 {
        assert(s.drop_last() =~= Seq::<crate::bgp::msg_update::AsPathSegmentView>::empty());
        assert(s.skip(1) =~= Seq::<crate::bgp::msg_update::AsPathSegmentView>::empty());
        assert(condition::path_asns(s) =~= s[0].asn_list + condition::path_asns(s.skip(1)));
    } else {
        lemma_asns_of_first(s.drop_last());
        assert(s.drop_last().skip(1) =~= s.skip(1).drop_last());
        assert(s.skip(1).last() == s.last());
        assert(condition::path_asns(s) =~= s[0].asn_list + condition::path_asns(s.skip(1)));
    }
}

/// An external peer sees this system in front of the systems that a path went
/// through, and those as they were; it stands in the first segment, if that is a
/// sequence, and the other segments are as they were. Internal peers, and those
/// that routes are only served to, see the path as it is.
pub proof fn law_as_path(p: PathView, c: ExportView, key: RouteKeyView)
    requires
        outgoing::export_attrs(p, c, key) is Some,
    ensures
        ({
            let new = outgoing::export_attrs(p, c, key)->0.as_path;
            let old = p.attrs.as_path;
            let in_front = old.len() > 0 && old[0].segment_type == AsPathSegmentType::AsSequence;
            &&& c.rs_client || c.local_asn == c.peer_asn ==> new == old
            &&& !c.rs_client && c.local_asn != c.peer_asn ==> {
                &&& condition::path_asns(new) == seq![c.local_asn] + condition::path_asns(old)
                &&& new.len() > 0 && new[0].segment_type == AsPathSegmentType::AsSequence
                &&& in_front ==> new.len() == old.len() && new[0].asn_list == seq![c.local_asn]
                    + old[0].asn_list && new.skip(1) == old.skip(1)
                &&& !in_front ==> new[0].asn_list == seq![c.local_asn] && new.skip(1) == old
                &&& new[0].asn_list.len() < 256 ==> new[0].segment_len == new[0].asn_list.len()
            }
        }),
{
    let new = outgoing::export_attrs(p, c, key)->0.as_path;
    let old = p.attrs.as_path;
    if !c.rs_client && c.local_asn != c.peer_asn {
        lemma_asns_of_first(new);
        if old.len() > 0 && old[0].segment_type == AsPathSegmentType::AsSequence {
            lemma_asns_of_first(old);
            assert(new.skip(1) =~= old.skip(1));
            assert(condition::path_asns(new) =~= seq![c.local_asn] + condition::path_asns(old));
        } else {
            assert(new.skip(1) =~= old);
        }
    }
}

// ---------------------------------------------------------------------------
// Communities
// ---------------------------------------------------------------------------

/// The communities of a path stay, in their order; while the session is about to be
/// shut down, and then only, the community that says so is added where it is
/// missing.
pub proof fn law_communities(p: PathView, c: ExportView, key: RouteKeyView)
    requires
        outgoing::export_attrs(p, c, key) is Some,
    ensures
        ({
            let new = outgoing::export_attrs(p, c, key)->0.communities;
            let old = p.attrs.communities;
            &&& !c.graceful_shutdown ==> new == old
            &&& old.contains(0xFFFF_0000u32) ==> new == old
            &&& c.graceful_shutdown && !old.contains(0xFFFF_0000u32) ==> new == old.push(
                0xFFFF_0000u32,
            )
        }),
{
}

/// A peer that routes are only served to, and an internal one that is not told of
/// validation, sees the extended communities as they are. An external one sees
/// those that may leave the system: those without the bit that says otherwise. An
/// internal one that is told of validation sees them without earlier outcomes, and
/// the outcome for the path behind them.
pub proof fn law_extended_communities(p: PathView, c: ExportView, key: RouteKeyView)
    requires
        outgoing::export_attrs(p, c, key) is Some,
    ensures
        ({
            let new = outgoing::export_attrs(p, c, key)->0.extended_communities;
            let old = p.attrs.extended_communities;
            let code: u64 = match p.rpki_state {
                RpkiValidation::Valid => 0,
                RpkiValidation::NotFound => 1,
                RpkiValidation::Invalid => 2,
            };
            &&& c.rs_client ==> new == old
            &&& !c.rs_client && c.local_asn == c.peer_asn && !c.send_rpki_community ==> new == old
            &&& !c.rs_client && c.local_asn != c.peer_asn ==> new == old.filter(
                |x: u64| (x >> 56) as u8 & 0x40 == 0,
            )
            &&& !c.rs_client && c.local_asn == c.peer_asn && c.send_rpki_community ==> new
                == old.filter(|x: u64| !((x >> 56) as u8 == 0x43 && (x >> 48) as u8 == 0)).push(
                0x43u64 << 56 | code,
            )
        }),
{
    let old = p.attrs.extended_communities;
    let f = |x: u64| (x >> 56) as u8 & 0x40 == 0;
    let g = |x: u64| !((x >> 56) as u8 == 0x43 && (x >> 48) as u8 == 0);
    lemma_same_filter(old, f, |x: u64| crate::bgp::ext_community::transitive_spec(x));
    lemma_same_filter(old, g, |x: u64| !crate::bgp::ext_community::is_rpki_community(x));
}

proof fn lemma_same_filter<T>(s: Seq<T>, f: spec_fn(T) -> bool, g: spec_fn(T) -> bool)
    requires
        forall|x: T| #[trigger] f(x) == g(x),
    ensures
        s.filter(f) == s.filter(g),
    decreases s.len(),
{
    reveal(Seq::filter);
    if s.len() > 0 {
        lemma_same_filter(s.drop_last(), f, g);
    }
}

/// An attribute of a type that this speaker does not know, with the bits of its
/// flags that say that it is optional and that it is passed on.
pub open spec fn is_passed_on(a: PathAttributeView) -> bool {
    match a.value {
        PathAttrValueView::Unknown { type_code: _, flags, data: _ } => flags & 0x80 != 0 && flags
            & 0x40 != 0,
        _ => false,
    }
}

proof fn lemma_passed_on(l: Seq<PathAttributeView>)
    ensures
        outgoing::passed_on(l) == l.filter(|a: PathAttributeView| is_passed_on(a)),
    decreases l.len(),
{
    reveal(Seq::filter);
    if l.len() > 0 {
        lemma_passed_on(l.drop_last());
    }
}

/// External peers see of the attributes of unknown types those that are optional and
/// passed on; internal ones, and those that routes are only served to, see all.
pub proof fn law_unknown_attributes(p: PathView, c: ExportView, key: RouteKeyView)
    requires
        outgoing::export_attrs(p, c, key) is Some,
    ensures
        ({
            let new = outgoing::export_attrs(p, c, key)->0.unknown_attrs;
            let old = p.attrs.unknown_attrs;
            &&& c.rs_client || c.local_asn == c.peer_asn ==> new == old
            &&& !c.rs_client && c.local_asn != c.peer_asn ==> new == old.filter(
                |a: PathAttributeView| is_passed_on(a),
            )
        }),
{
    lemma_passed_on(p.attrs.unknown_attrs);
}

// ---------------------------------------------------------------------------
// Reflection
// ---------------------------------------------------------------------------

/// The marks of reflection: a path from one internal peer to another names the
/// speaker that it entered the system at, that which sent it where none is named
/// yet, and this cluster in front. Other marks go to internal peers as they are,
/// and none goes to external peers or those that routes are only served to.
pub proof fn law_reflection_marks(
    p: PathView,
    c: ExportView,
    key: RouteKeyView,
    ip: IpAddr,
    id: Ipv4Addr,
    client: bool,
)
    requires
        outgoing::export_attrs(p, c, key) is Some,
    ensures
        ({
            let a = outgoing::export_attrs(p, c, key)->0;
            let inside = c.local_asn == c.peer_asn && !c.rs_client;
            let from_inside = p.attrs.source == (RouteSource::Ibgp {
                peer_ip: ip,
                bgp_id: id,
                rr_client: client,
            });
            &&& inside && from_inside ==> {
                &&& a.cluster_list == seq![c.cluster_id] + p.attrs.cluster_list
                &&& p.attrs.originator_id is None ==> a.originator_id == Some(id)
                &&& p.attrs.originator_id is Some ==> a.originator_id == p.attrs.originator_id
            }
            &&& inside && !(p.attrs.source is Ibgp) && p.attrs.originator_id is Some ==> {
                &&& a.cluster_list == p.attrs.cluster_list
                &&& a.originator_id == p.attrs.originator_id
            }
            &&& inside && !(p.attrs.source is Ibgp) && p.attrs.originator_id is None ==> {
                &&& a.cluster_list.len() == 0
                &&& a.originator_id is None
            }
            &&& !inside ==> a.cluster_list.len() == 0 && a.originator_id is None
        }),
{
}

// ---------------------------------------------------------------------------
// Next hop
// ---------------------------------------------------------------------------

/// Peers that routes are only served to get the next hop of the path.
pub proof fn law_served_next_hop(p: PathView, c: ExportView, key: RouteKeyView)
    requires
        c.rs_client,
    ensures
        outgoing::export_attrs(p, c, key) is Some,
        outgoing::export_attrs(p, c, key)->0.next_hop == p.attrs.next_hop,
{
}

/// The next hop of link-state routes: this speaker for external peers and where it
/// is wanted, else that of the path.
pub proof fn law_link_state_next_hop(
    p: PathView,
    c: ExportView,
    key: RouteKeyView,
    v4: Ipv4Addr,
    v6: Ipv6Addr,
)
    requires
        !c.rs_client,
        key is LinkState,
    ensures
        outgoing::export_attrs(p, c, key) is Some,
        ({
            let n = outgoing::export_attrs(p, c, key)->0.next_hop;
            let own = c.local_asn != c.peer_asn || c.next_hop_self;
            &&& own && c.local_next_hop == IpAddr::V4(v4) ==> n == NextHopAddr::Ipv4(v4)
            &&& own && c.local_next_hop == IpAddr::V6(v6) ==> n == NextHopAddr::Ipv6(v6)
            &&& !own ==> n == p.attrs.next_hop
        }),
{
}

/// The next hop of a prefix for an external peer: this speaker, if the path has a
/// next hop of its family, on the link too where it has an address there; that of
/// the path, if it is of the other family and not all zeros; and none else.
pub proof fn law_external_next_hop(
    p: PathView,
    c: ExportView,
    net: IpNetwork,
    own4: Ipv4Addr,
    own6: Ipv6Addr,
)
    requires
        !c.rs_client,
        c.local_asn != c.peer_asn,
    ensures
        ({
            let a = outgoing::export_attrs(p, c, RouteKeyView::Prefix(net));
            let zero4 = Ipv4Addr { a: 0, b: 0, c: 0, d: 0 };
            let zero6 = Ipv6Addr { bits: 0 };
            match (p.attrs.next_hop, c.local_next_hop) {
                (NextHopAddr::Ipv4(_), IpAddr::V4(own)) => a is Some && a->0.next_hop
                    == NextHopAddr::Ipv4(own),
                (NextHopAddr::Ipv4(n), IpAddr::V6(_)) => if n == zero4 {
                    a is None
                } else {
                    a is Some && a->0.next_hop == NextHopAddr::Ipv4(n)
                },
                (NextHopAddr::Ipv6(n), IpAddr::V4(_)) => if n == zero6 {
                    a is None
                } else {
                    a is Some && a->0.next_hop == (match c.local_link_local {
                        Some(l) => NextHopAddr::Ipv6WithLinkLocal(n, l),
                        None => NextHopAddr::Ipv6(n),
                    })
                },
                (NextHopAddr::Ipv6WithLinkLocal(n, l), IpAddr::V4(_)) => if n == zero6 {
                    a is None
                } else {
                    a is Some && a->0.next_hop == NextHopAddr::Ipv6WithLinkLocal(n, l)
                },
                (_, IpAddr::V6(own)) => a is Some && a->0.next_hop == (match c.local_link_local {
                    Some(l) => NextHopAddr::Ipv6WithLinkLocal(own, l),
                    None => NextHopAddr::Ipv6(own),
                }),
            }
        }),
{
}

/// The next hop of a prefix for an internal peer: this speaker where that is wanted;
/// else that of a learned path; of a route of this speaker the one that was given,
/// and this speaker where none was, if it has an address of that family.
pub proof fn law_internal_next_hop(p: PathView, c: ExportView, net: IpNetwork)
    requires
        !c.rs_client,
        c.local_asn == c.peer_asn,
    ensures
        ({
            let a = outgoing::export_attrs(p, c, RouteKeyView::Prefix(net));
            let n = p.attrs.next_hop;
            let own = match c.local_next_hop {
                IpAddr::V4(x) => NextHopAddr::Ipv4(x),
                IpAddr::V6(x) => NextHopAddr::Ipv6(x),
            };
            let given = match n {
                NextHopAddr::Ipv4(x) => x != (Ipv4Addr { a: 0, b: 0, c: 0, d: 0 }),
                NextHopAddr::Ipv6(x) => x.bits != 0,
                NextHopAddr::Ipv6WithLinkLocal(x, _) => x.bits != 0,
            };
            &&& c.next_hop_self ==> a is Some && a->0.next_hop == own
            &&& !c.next_hop_self && (p.attrs.source != RouteSource::Local || given) ==> a is Some
                && a->0.next_hop == n
            &&& !c.next_hop_self && p.attrs.source == RouteSource::Local && !given ==> (if (n
                is Ipv4) == (c.local_next_hop is V4) {
                a is Some && a->0.next_hop == own
            } else {
                a is None
            })
        }),
{
}

} // verus!
