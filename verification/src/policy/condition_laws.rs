//! Which routes meet which conditions.

use crate::bgp::bgpls::{LsDescriptorsView, LsNlriBodyView, LsNlriView, NodeDescriptorView};
use crate::bgp::community::LargeCommunity;
use crate::bgp::msg_update::AsPathSegmentView;
use crate::conf::MatchOptionConfig;
use crate::net::addr::{IpAddr, Ipv4Addr, Ipv6Addr};
use crate::net::network::IpNetwork;
use crate::policy::condition;
use crate::policy::condition::{
    AfiSafiMatch, ConditionView, LsNlriTypeMatch, LsProtocolIdMatch, RouteType,
};
use crate::policy::pattern;
use crate::policy::sets::{NamedList, PrefixMatch};
use crate::rib::{PathView, RouteKeyView, RouteSource};
use crate::rpki::RpkiValidation;
use crate::text;
use vstd::prelude::*;

verus! {

// ---------------------------------------------------------------------------
// Validation, sources and families
// ---------------------------------------------------------------------------

/// A condition on the outcome of origin validation is met exactly by the paths
/// with that outcome: whatever else is said of a route, it meets the condition on
/// its own outcome and on no other.
pub proof fn law_validation_condition(key: RouteKeyView, path: PathView, s: RpkiValidation)
    ensures
        ConditionView::RpkiValidation(s).holds(key, path) <==> path.rpki_state == s,
        ConditionView::RpkiValidation(path.rpki_state).holds(key, path),
        s != path.rpki_state ==> !ConditionView::RpkiValidation(s).holds(key, path),
{
}

/// Every route is of exactly one type, and the type is where its path came from.
pub proof fn law_route_type_condition(key: RouteKeyView, path: PathView)
    ensures
        ConditionView::RouteType(RouteType::Ebgp).holds(key, path) <==> exists|
            ip: IpAddr,
            id: Ipv4Addr,
        |
            path.attrs.source == (RouteSource::Ebgp { peer_ip: ip, bgp_id: id }),
        ConditionView::RouteType(RouteType::Ibgp).holds(key, path) <==> exists|
            ip: IpAddr,
            id: Ipv4Addr,
            client: bool,
        |
            path.attrs.source == (RouteSource::Ibgp { peer_ip: ip, bgp_id: id, rr_client: client }),
        ConditionView::RouteType(RouteType::Local).holds(key, path) <==> path.attrs.source
            == RouteSource::Local,
{
    match path.attrs.source {
        RouteSource::Ebgp { peer_ip, bgp_id } => {
            assert(path.attrs.source == (RouteSource::Ebgp { peer_ip, bgp_id }));
        },
        RouteSource::Ibgp { peer_ip, bgp_id, rr_client } => {
            assert(path.attrs.source == (RouteSource::Ibgp { peer_ip, bgp_id, rr_client }));
        },
        RouteSource::Local => {},
    }
}

/// A condition on a neighbor is met by the paths that the neighbor sent, over an
/// external or an internal session, and by no route of this speaker.
pub proof fn law_neighbor_condition(
    key: RouteKeyView,
    path: PathView,
    x: IpAddr,
    id: Ipv4Addr,
    client: bool,
)
    ensures
        path.attrs.source == (RouteSource::Ebgp { peer_ip: x, bgp_id: id })
            ==> ConditionView::Neighbor(x).holds(key, path),
        path.attrs.source == (RouteSource::Ibgp { peer_ip: x, bgp_id: id, rr_client: client })
            ==> ConditionView::Neighbor(x).holds(key, path),
        path.attrs.source == RouteSource::Local ==> !ConditionView::Neighbor(x).holds(key, path),
        forall|y: IpAddr| y != x && #[trigger] ConditionView::Neighbor(y).holds(key, path)
            ==> !ConditionView::Neighbor(x).holds(key, path),
{
}

/// A set of neighbors is met by the paths that one of them sent; all of them, by
/// the paths of a neighbor that is the only one in the set; inverted, by the paths
/// of the others. No route of this speaker meets it, whatever the option.
pub proof fn law_neighbor_set_condition(
    key: RouteKeyView,
    path: PathView,
    set: NamedList<IpAddr>,
)
    ensures
        ConditionView::NeighborSet(set, MatchOptionConfig::Any).holds(key, path) <==> exists|i: int|
            0 <= i < set.items.len() && #[trigger] ConditionView::Neighbor(set.items[i]).holds(
                key,
                path,
            ),
        path.attrs.source != RouteSource::Local ==> (ConditionView::NeighborSet(
            set,
            MatchOptionConfig::All,
        ).holds(key, path) <==> forall|i: int|
            0 <= i < set.items.len() ==> #[trigger] ConditionView::Neighbor(set.items[i]).holds(
                key,
                path,
            )),
        path.attrs.source != RouteSource::Local ==> (ConditionView::NeighborSet(
            set,
            MatchOptionConfig::Invert,
        ).holds(key, path) <==> forall|i: int|
            0 <= i < set.items.len() ==> !#[trigger] ConditionView::Neighbor(set.items[i]).holds(
                key,
                path,
            )),
        path.attrs.source == RouteSource::Local ==> forall|o: MatchOptionConfig|
            !#[trigger] ConditionView::NeighborSet(set, o).holds(key, path),
{
    match path.attrs.source.peer_ip_spec() {
        Some(ip) => {
            if set.items.contains(ip) {
                let i = choose|i: int| 0 <= i < set.items.len() && set.items[i] == ip;
                assert(ConditionView::Neighbor(set.items[i]).holds(key, path));
            }
            if forall|i: int|
                0 <= i < set.items.len() ==> #[trigger] ConditionView::Neighbor(
                    set.items[i],
                ).holds(key, path) {
                assert forall|i: int| 0 <= i < set.items.len() implies #[trigger] set.items[i]
                    == ip by {
                    assert(ConditionView::Neighbor(set.items[i]).holds(key, path));
                }
            }
            if condition::every_is(set.items, ip) {
                assert forall|i: int|
                    0 <= i < set.items.len() implies #[trigger] ConditionView::Neighbor(
                    set.items[i],
                ).holds(key, path) by {
                    assert(set.items[i] == ip);
                }
            }
        },
        None => {},
    }
}

/// The families: prefixes of either kind and link-state routes, each its own.
pub proof fn law_family_condition(key: RouteKeyView, path: PathView)
    ensures
        ConditionView::AfiSafi(AfiSafiMatch::Ipv4Unicast).holds(key, path) <==> (key matches
            RouteKeyView::Prefix(p) && p is V4),
        ConditionView::AfiSafi(AfiSafiMatch::Ipv6Unicast).holds(key, path) <==> (key matches
            RouteKeyView::Prefix(p) && p is V6),
        ConditionView::AfiSafi(AfiSafiMatch::BgpLs).holds(key, path) <==> key is LinkState,
{
}

// ---------------------------------------------------------------------------
// Prefixes
// ---------------------------------------------------------------------------

/// A condition on a prefix is met by the route to just that prefix.
pub proof fn law_prefix_condition(key: RouteKeyView, path: PathView, p: IpNetwork)
    ensures
        ConditionView::Prefix(p).holds(RouteKeyView::Prefix(p), path),
        ConditionView::Prefix(p).holds(key, path) ==> key == RouteKeyView::Prefix(p),
{
}

/// A set of prefixes is met where one of its members admits the prefix; all of
/// them, where every one does; inverted, where none does. Link-state routes do
/// not meet it, whatever the option.
pub proof fn law_prefix_set_condition(
    path: PathView,
    set: NamedList<PrefixMatch>,
    p: IpNetwork,
    n: LsNlriView,
)
    ensures
        ({
            let key = RouteKeyView::Prefix(p);
            &&& ConditionView::PrefixSet(set, MatchOptionConfig::Any).holds(key, path)
                <==> exists|i: int| 0 <= i < set.items.len() && (#[trigger] set.items[i]).admits(p)
            &&& ConditionView::PrefixSet(set, MatchOptionConfig::All).holds(key, path)
                <==> forall|i: int|
                0 <= i < set.items.len() ==> (#[trigger] set.items[i]).admits(p)
            &&& ConditionView::PrefixSet(set, MatchOptionConfig::Invert).holds(key, path)
                <==> forall|i: int|
                0 <= i < set.items.len() ==> !(#[trigger] set.items[i]).admits(p)
        }),
        forall|o: MatchOptionConfig|
            !#[trigger] ConditionView::PrefixSet(set, o).holds(RouteKeyView::LinkState(n), path),
{
}

/// The number that an IPv4 address is.
pub open spec fn number_of(x: Ipv4Addr) -> nat {
    (x.a * 0x100_0000 + x.b * 0x1_0000 + x.c * 0x100 + x.d) as nat
}

/// A member of a set of prefixes admits exactly the prefixes of its family that are as
/// long as its range says, at least as long as its network, and begin with the bits of
/// its network; and none of the other family.
pub proof fn law_prefix_match(m: PrefixMatch, p: IpNetwork)
    requires
        match m.network {
            IpNetwork::V4(n) => n.prefix_length <= 32,
            IpNetwork::V6(n) => n.prefix_length <= 128,
        },
    ensures
        match (m.network, p) {
            (IpNetwork::V4(n), IpNetwork::V4(o)) => {
                let rest = vstd::arithmetic::power2::pow2((32 - n.prefix_length) as nat);
                m.admits(p) <==> {
                    &&& m.min_len <= o.prefix_length <= m.max_len
                    &&& n.prefix_length <= o.prefix_length
                    &&& number_of(o.address) / rest == number_of(n.address) / rest
                }
            },
            (IpNetwork::V6(n), IpNetwork::V6(o)) => {
                let rest = vstd::arithmetic::power2::pow2((128 - n.prefix_length) as nat);
                m.admits(p) <==> {
                    &&& m.min_len <= o.prefix_length <= m.max_len
                    &&& n.prefix_length <= o.prefix_length
                    &&& o.address.bits as nat / rest == n.address.bits as nat / rest
                }
            },
            _ => !m.admits(p),
        },
{
    match (m.network, p) {
        (IpNetwork::V4(n), IpNetwork::V4(o)) => {
            lemma_number_of(n.address);
            lemma_number_of(o.address);
            lemma_upper_bits(n.address.bits(), (32 - n.prefix_length) as nat);
            lemma_upper_bits(o.address.bits(), (32 - n.prefix_length) as nat);
        },
        (IpNetwork::V6(n), IpNetwork::V6(o)) => {
            lemma_upper_bits_v6(n.address.bits, (128 - n.prefix_length) as nat);
            lemma_upper_bits_v6(o.address.bits, (128 - n.prefix_length) as nat);
        },
        _ => {},
    }
}

proof fn lemma_number_of(x: Ipv4Addr)
    ensures
        x.bits() as nat == number_of(x),
{
    let (a, b, c, d) = (x.a, x.b, x.c, x.d);
    assert(((a as u32) << 24 | (b as u32) << 16 | (c as u32) << 8 | (d as u32)) == a * 0x100_0000
        + b * 0x1_0000 + c * 0x100 + d) by (bit_vector);
}

proof fn lemma_upper_bits(x: u32, n: nat)
    requires
        n <= 32,
    ensures
        (x >> (n as u32)) as nat == x as nat / vstd::arithmetic::power2::pow2(n),
{
    if n < 32 {
        vstd::bits::lemma_u32_shr_is_div(x, n as u32);
    } else {
        assert(x >> 32u32 == 0) by (bit_vector);
        vstd::arithmetic::power2::lemma2_to64();
        assert(x as nat / 0x1_0000_0000 == 0);
    }
}

proof fn lemma_upper_bits_v6(x: u128, n: nat)
    requires
        n <= 128,
    ensures
        (x >> (n as u128)) as nat == x as nat / vstd::arithmetic::power2::pow2(n),
{
    if n < 128 {
        vstd::bits::lemma_u128_shr_is_div(x, n as u128);
    } else {
        assert(x >> 128u128 == 0) by (bit_vector);
        vstd::arithmetic::power2::lemma2_to64();
        vstd::arithmetic::power2::lemma_pow2_adds(64, 64);
        let p: nat = 0x1_0000_0000_0000_0000;
        assert(vstd::arithmetic::power2::pow2(128) == p * p);
        assert(p * p == u128::MAX + 1) by (nonlinear_arith)
            requires
                p == 0x1_0000_0000_0000_0000,
        ;
        vstd::arithmetic::div_mod::lemma_basic_div(x as int, (p * p) as int);
    }
}

// ---------------------------------------------------------------------------
// AS paths
// ---------------------------------------------------------------------------

proof fn lemma_path_asns_hold(s: Seq<AsPathSegmentView>, asn: u32)
    ensures
        condition::path_asns(s).contains(asn) <==> exists|i: int|
            0 <= i < s.len() && (#[trigger] s[i]).asn_list.contains(asn),
    decreases s.len(),
{
    if s.len() > 0 {
        let rest = s.drop_last();
        lemma_path_asns_hold(rest, asn);
        let (a, b) = (condition::path_asns(rest), s.last().asn_list);
        if a.contains(asn) {
            let i = choose|i: int|
                0 <= i < rest.len() && (#[trigger] rest[i]).asn_list.contains(asn);
            assert(s[i].asn_list.contains(asn));
            let j = choose|j: int| 0 <= j < a.len() && a[j] == asn;
            assert((a + b)[j] == asn);
        }
        if b.contains(asn) {
            assert(s[s.len() - 1].asn_list.contains(asn));
            let j = choose|j: int| 0 <= j < b.len() && b[j] == asn;
            assert((a + b)[a.len() + j] == asn);
        }
        if (a + b).contains(asn) {
            let j = choose|j: int| 0 <= j < (a + b).len() && (a + b)[j] == asn;
            if j < a.len() {
                assert(a[j] == asn);
            } else {
                assert(b[j - a.len()] == asn);
            }
        }
        if exists|i: int| 0 <= i < s.len() && (#[trigger] s[i]).asn_list.contains(asn) {
            let i = choose|i: int| 0 <= i < s.len() && (#[trigger] s[i]).asn_list.contains(asn);
            if i < rest.len() {
                assert(rest[i].asn_list.contains(asn));
            }
        }
    }
}

/// A condition on an AS number is met by the paths that name it in any segment.
pub proof fn law_as_path_condition(key: RouteKeyView, path: PathView, asn: u32)
    ensures
        ConditionView::AsPath(asn).holds(key, path) <==> exists|i: int|
            0 <= i < path.attrs.as_path.len() && (
            #[trigger] path.attrs.as_path[i]).asn_list.contains(asn),
{
    lemma_path_asns_hold(path.attrs.as_path, asn);
}

/// A set of patterns is met where one of them matches the text of the AS path; all
/// of them, where every one does; inverted, where none does.
pub proof fn law_as_path_set_condition(
    key: RouteKeyView,
    path: PathView,
    set: NamedList<Seq<char>>,
)
    ensures
        ({
            let t = condition::as_path_text(path.attrs.as_path);
            &&& ConditionView::AsPathSet(set, MatchOptionConfig::Any).holds(key, path)
                <==> exists|i: int|
                0 <= i < set.items.len() && pattern::pattern_finds(#[trigger] set.items[i], t)
            &&& ConditionView::AsPathSet(set, MatchOptionConfig::All).holds(key, path)
                <==> forall|i: int|
                0 <= i < set.items.len() ==> pattern::pattern_finds(#[trigger] set.items[i], t)
            &&& ConditionView::AsPathSet(set, MatchOptionConfig::Invert).holds(key, path)
                <==> forall|i: int|
                0 <= i < set.items.len() ==> !pattern::pattern_finds(#[trigger] set.items[i], t)
        }),
{
}

/// The text of an AS path is made segment by segment and number by number: that of
/// one number is its decimal notation, and between two stands an underscore.
pub proof fn law_as_path_text(
    front: Seq<AsPathSegmentView>,
    last: AsPathSegmentView,
    asn: u32,
    more: Seq<u32>,
)
    ensures
        condition::as_path_text(Seq::empty()) == Seq::<char>::empty(),
        last.asn_list == seq![asn] ==> condition::as_path_text(seq![last]) == text::decimal(
            asn as nat,
        ),
        last.asn_list == more.push(asn) && condition::path_asns(front).len() + more.len() > 0
            ==> condition::as_path_text(front.push(last)) == condition::as_path_text(
            front.push(AsPathSegmentView { asn_list: more, ..last }),
        ) + seq!['_'] + text::decimal(asn as nat),
        last.asn_list.len() == 0 ==> condition::as_path_text(front.push(last))
            == condition::as_path_text(front),
{
    reveal_strlit("_");
    assert("_"@ =~= seq!['_']);
    let one = seq![last];
    assert(one.drop_last() =~= Seq::<AsPathSegmentView>::empty());
    assert(condition::path_asns(one.drop_last()) == Seq::<u32>::empty());
    assert(one.last() == last);
    assert(Seq::<u32>::empty() + last.asn_list =~= last.asn_list);
    let shorter = AsPathSegmentView { asn_list: more, ..last };
    assert(front.push(last).drop_last() =~= front);
    assert(front.push(shorter).drop_last() =~= front);
    let before = condition::path_asns(front);
    if last.asn_list == more.push(asn) {
        let all = before + last.asn_list;
        assert(condition::path_asns(front.push(last)) == all);
        assert(condition::path_asns(front.push(shorter)) == before + more);
        assert(all.drop_last() =~= before + more);
        assert(all.last() == asn);
    }
    if last.asn_list.len() == 0 {
        assert(before + last.asn_list =~= before);
    }
}

// ---------------------------------------------------------------------------
// Communities
// ---------------------------------------------------------------------------

/// A condition on a community is met by the paths that carry it.
pub proof fn law_community_condition(key: RouteKeyView, path: PathView, c: u32)
    ensures
        ConditionView::Community(c).holds(key, path) <==> path.attrs.communities.contains(c),
{
}

/// A set of communities is met by the paths that carry one of them; all of them
/// means that the path carries no other; inverted, it carries none of them. The
/// three kinds of communities are looked at each on its own.
pub proof fn law_community_set_condition(
    key: RouteKeyView,
    path: PathView,
    set: NamedList<u32>,
    ext: NamedList<u64>,
    large: NamedList<LargeCommunity>,
)
    ensures
        ({
            let l = path.attrs.communities;
            &&& ConditionView::CommunitySet(set, MatchOptionConfig::Any).holds(key, path)
                <==> exists|i: int| 0 <= i < l.len() && set.items.contains(#[trigger] l[i])
            &&& ConditionView::CommunitySet(set, MatchOptionConfig::All).holds(key, path)
                <==> forall|i: int| 0 <= i < l.len() ==> set.items.contains(#[trigger] l[i])
            &&& ConditionView::CommunitySet(set, MatchOptionConfig::Invert).holds(key, path)
                <==> forall|i: int| 0 <= i < l.len() ==> !set.items.contains(#[trigger] l[i])
        }),
        ({
            let l = path.attrs.extended_communities;
            &&& ConditionView::ExtCommunitySet(ext, MatchOptionConfig::Any).holds(key, path)
                <==> exists|i: int| 0 <= i < l.len() && ext.items.contains(#[trigger] l[i])
            &&& ConditionView::ExtCommunitySet(ext, MatchOptionConfig::All).holds(key, path)
                <==> forall|i: int| 0 <= i < l.len() ==> ext.items.contains(#[trigger] l[i])
            &&& ConditionView::ExtCommunitySet(ext, MatchOptionConfig::Invert).holds(key, path)
                <==> forall|i: int| 0 <= i < l.len() ==> !ext.items.contains(#[trigger] l[i])
        }),
        ({
            let l = path.attrs.large_communities;
            &&& ConditionView::LargeCommunitySet(large, MatchOptionConfig::Any).holds(key, path)
                <==> exists|i: int| 0 <= i < l.len() && large.items.contains(#[trigger] l[i])
            &&& ConditionView::LargeCommunitySet(large, MatchOptionConfig::All).holds(key, path)
                <==> forall|i: int| 0 <= i < l.len() ==> large.items.contains(#[trigger] l[i])
            &&& ConditionView::LargeCommunitySet(large, MatchOptionConfig::Invert).holds(key, path)
                <==> forall|i: int| 0 <= i < l.len() ==> !large.items.contains(#[trigger] l[i])
        }),
{
}

// ---------------------------------------------------------------------------
// Link-state routes
// ---------------------------------------------------------------------------

/// No condition on link-state routes is met by a prefix.
pub proof fn law_prefixes_are_not_link_state(p: IpNetwork, path: PathView)
    ensures
        ({
            let key = RouteKeyView::Prefix(p);
            &&& forall|t: LsNlriTypeMatch| !#[trigger] ConditionView::LsNlriType(t).holds(key, path)
            &&& forall|t: LsProtocolIdMatch|
                !#[trigger] ConditionView::LsProtocolId(t).holds(key, path)
            &&& forall|x: u64| !#[trigger] ConditionView::LsInstanceId(x).holds(key, path)
            &&& forall|x: u32| !#[trigger] ConditionView::LsNodeAs(x).holds(key, path)
            &&& forall|x: IpAddr| !#[trigger] ConditionView::LsNodeRouterId(x).holds(key, path)
        }),
{
}

/// The kinds of link-state routes by their numbers on the wire.
pub proof fn law_link_state_kind_condition(n: LsNlriView, path: PathView)
    ensures
        ({
            let key = RouteKeyView::LinkState(n);
            &&& ConditionView::LsNlriType(LsNlriTypeMatch::Node).holds(key, path) <==> n.nlri_type
                == 1
            &&& ConditionView::LsNlriType(LsNlriTypeMatch::Link).holds(key, path) <==> n.nlri_type
                == 2
            &&& ConditionView::LsNlriType(LsNlriTypeMatch::PrefixV4).holds(key, path)
                <==> n.nlri_type == 3
            &&& ConditionView::LsNlriType(LsNlriTypeMatch::PrefixV6).holds(key, path)
                <==> n.nlri_type == 4
        }),
{
}

/// Conditions on what a link-state route describes: the protocol by its number on
/// the wire, the instance, and the system and the identifier of the node that it
/// is about.
pub proof fn law_link_state_body_condition(
    n: LsNlriView,
    b: LsNlriBodyView,
    node: NodeDescriptorView,
    path: PathView,
    id: u64,
    asn: u32,
    v4: Ipv4Addr,
    v6: Ipv6Addr,
)
    requires
        n.body == Some(b),
        match b.descriptors {
            LsDescriptorsView::Node { local_node } => local_node == node,
            LsDescriptorsView::Link { local_node, remote_node: _, link_descriptors: _ } => {
                local_node == node
            },
            LsDescriptorsView::PrefixV4 { local_node, prefix_descriptors: _ } => local_node == node,
            LsDescriptorsView::PrefixV6 { local_node, prefix_descriptors: _ } => local_node == node,
        },
    ensures
        ({
            let key = RouteKeyView::LinkState(n);
            &&& ConditionView::LsProtocolId(LsProtocolIdMatch::IsIsL1).holds(key, path)
                <==> b.protocol_id == 1
            &&& ConditionView::LsProtocolId(LsProtocolIdMatch::IsIsL2).holds(key, path)
                <==> b.protocol_id == 2
            &&& ConditionView::LsProtocolId(LsProtocolIdMatch::OspfV2).holds(key, path)
                <==> b.protocol_id == 3
            &&& ConditionView::LsProtocolId(LsProtocolIdMatch::Direct).holds(key, path)
                <==> b.protocol_id == 4
            &&& ConditionView::LsProtocolId(LsProtocolIdMatch::Static).holds(key, path)
                <==> b.protocol_id == 5
            &&& ConditionView::LsProtocolId(LsProtocolIdMatch::OspfV3).holds(key, path)
                <==> b.protocol_id == 6
            &&& ConditionView::LsInstanceId(id).holds(key, path) <==> b.identifier == id
            &&& ConditionView::LsNodeAs(asn).holds(key, path) <==> node.as_number == Some(asn)
            &&& ConditionView::LsNodeRouterId(IpAddr::V4(v4)).holds(key, path)
                <==> node.igp_router_id == Some(seq![v4.a, v4.b, v4.c, v4.d])
            &&& ConditionView::LsNodeRouterId(IpAddr::V6(v6)).holds(key, path)
                <==> node.igp_router_id == Some(
                Seq::new(16, |i: int| (v6.bits >> (120 - 8 * i) as u128) as u8),
            )
        }),
{
    assert(v6.octet_seq() =~= Seq::new(16, |i: int| (v6.bits >> (120 - 8 * i) as u128) as u8));
}

/// A link-state route of which nothing is parsed meets no condition on what it
/// describes.
pub proof fn law_opaque_routes_meet_no_description(n: LsNlriView, path: PathView)
    requires
        n.body is None,
    ensures
        ({
            let key = RouteKeyView::LinkState(n);
            &&& forall|t: LsProtocolIdMatch|
                !#[trigger] ConditionView::LsProtocolId(t).holds(key, path)
            &&& forall|x: u64| !#[trigger] ConditionView::LsInstanceId(x).holds(key, path)
            &&& forall|x: u32| !#[trigger] ConditionView::LsNodeAs(x).holds(key, path)
            &&& forall|x: IpAddr| !#[trigger] ConditionView::LsNodeRouterId(x).holds(key, path)
        }),
{
}

/// What a condition is about is all that it looks at: two paths with the same
/// source, AS path, communities and outcome of validation meet the same conditions.
pub proof fn law_conditions_look_at_no_more(
    c: ConditionView,
    key: RouteKeyView,
    a: PathView,
    b: PathView,
)
    requires
        a.rpki_state == b.rpki_state,
        a.attrs.source == b.attrs.source,
        a.attrs.as_path == b.attrs.as_path,
        a.attrs.communities == b.attrs.communities,
        a.attrs.extended_communities == b.attrs.extended_communities,
        a.attrs.large_communities == b.attrs.large_communities,
    ensures
        c.holds(key, a) == c.holds(key, b),
{
}

} // verus!
