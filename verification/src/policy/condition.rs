//! Which routes a statement is about.

use crate::bgp::bgpls::{LsNlriBody, LsNlriBodyView, LsProtocolId, NodeDescriptor};
use crate::bgp::community::LargeCommunity;
use crate::bgp::msg_update::{AsPathSegment, AsPathSegmentView};
use crate::bgp::multiprotocol;
use crate::bgp::multiprotocol::{Afi, AfiSafi, Safi};
use crate::conf::MatchOptionConfig;
use crate::net::addr::IpAddr;
use crate::net::network::IpNetwork;
use crate::policy::pattern;
use crate::policy::sets::{
    AsPathSet, CommunitySet, ExtCommunitySet, LargeCommunitySet, NamedList, NeighborSet,
    PrefixMatch, PrefixSet,
};
use crate::rib::{share, Path, PathView, RouteKey, RouteKeyView};
use crate::rpki::RpkiValidation;
use crate::seqs;
use crate::seqs::{contains_item, copy_items, items_eq, Same};
use crate::text;
use crate::text::join_decimals;
use std::sync::Arc;
use vstd::prelude::*;

verus! {

/// How a route was learned.
#[derive(Debug, Clone, Copy, PartialEq, Eq, Structural)]
pub enum RouteType {
    Ebgp,
    Ibgp,
    Local,
}

/// Groups of address families.
#[derive(Debug, Clone, Copy, PartialEq, Eq, Structural)]
pub enum AfiSafiMatch {
    Ipv4Unicast,
    Ipv6Unicast,
    BgpLs,
}

/// The kinds of link-state routes.
#[derive(Debug, Clone, Copy, PartialEq, Eq, Structural)]
pub enum LsNlriTypeMatch {
    Node,
    Link,
    PrefixV4,
    PrefixV6,
}

/// The protocols that link-state information comes from.
#[derive(Debug, Clone, Copy, PartialEq, Eq, Structural)]
pub enum LsProtocolIdMatch {
    IsIsL1,
    IsIsL2,
    OspfV2,
    Direct,
    Static,
    OspfV3,
}

/// What a route has to meet.
#[derive(Debug, PartialEq)]
pub enum Condition {
    Prefix(IpNetwork),
    PrefixSet(Arc<PrefixSet>, MatchOptionConfig),
    Neighbor(IpAddr),
    NeighborSet(Arc<NeighborSet>, MatchOptionConfig),
    AsPath(u32),
    AsPathSet(Arc<AsPathSet>, MatchOptionConfig),
    Community(u32),
    CommunitySet(Arc<CommunitySet>, MatchOptionConfig),
    ExtCommunitySet(Arc<ExtCommunitySet>, MatchOptionConfig),
    LargeCommunitySet(Arc<LargeCommunitySet>, MatchOptionConfig),
    RouteType(RouteType),
    RpkiValidation(RpkiValidation),
    AfiSafi(AfiSafiMatch),
    LsNlriType(LsNlriTypeMatch),
    LsProtocolId(LsProtocolIdMatch),
    LsInstanceId(u64),
    LsNodeAs(u32),
    LsNodeRouterId(IpAddr),
}

pub enum ConditionView {
    Prefix(IpNetwork),
    PrefixSet(NamedList<PrefixMatch>, MatchOptionConfig),
    Neighbor(IpAddr),
    NeighborSet(NamedList<IpAddr>, MatchOptionConfig),
    AsPath(u32),
    AsPathSet(NamedList<Seq<char>>, MatchOptionConfig),
    Community(u32),
    CommunitySet(NamedList<u32>, MatchOptionConfig),
    ExtCommunitySet(NamedList<u64>, MatchOptionConfig),
    LargeCommunitySet(NamedList<LargeCommunity>, MatchOptionConfig),
    RouteType(RouteType),
    RpkiValidation(RpkiValidation),
    AfiSafi(AfiSafiMatch),
    LsNlriType(LsNlriTypeMatch),
    LsProtocolId(LsProtocolIdMatch),
    LsInstanceId(u64),
    LsNodeAs(u32),
    LsNodeRouterId(IpAddr),
}

impl View for Condition {
    type V = ConditionView;

    open spec fn view(&self) -> ConditionView {
        match self {
            Condition::Prefix(p) => ConditionView::Prefix(*p),
            Condition::PrefixSet(s, o) => ConditionView::PrefixSet(s@, *o),
            Condition::Neighbor(x) => ConditionView::Neighbor(*x),
            Condition::NeighborSet(s, o) => ConditionView::NeighborSet(s@, *o),
            Condition::AsPath(x) => ConditionView::AsPath(*x),
            Condition::AsPathSet(s, o) => ConditionView::AsPathSet(s@, *o),
            Condition::Community(x) => ConditionView::Community(*x),
            Condition::CommunitySet(s, o) => ConditionView::CommunitySet(s@, *o),
            Condition::ExtCommunitySet(s, o) => ConditionView::ExtCommunitySet(s@, *o),
            Condition::LargeCommunitySet(s, o) => ConditionView::LargeCommunitySet(s@, *o),
            Condition::RouteType(x) => ConditionView::RouteType(*x),
            Condition::RpkiValidation(x) => ConditionView::RpkiValidation(*x),
            Condition::AfiSafi(x) => ConditionView::AfiSafi(*x),
            Condition::LsNlriType(x) => ConditionView::LsNlriType(*x),
            Condition::LsProtocolId(x) => ConditionView::LsProtocolId(*x),
            Condition::LsInstanceId(x) => ConditionView::LsInstanceId(*x),
            Condition::LsNodeAs(x) => ConditionView::LsNodeAs(*x),
            Condition::LsNodeRouterId(x) => ConditionView::LsNodeRouterId(*x),
        }
    }
}

impl Clone for Condition {
    fn clone(&self) -> (r: Self)
        ensures
            r@ == self@,
    {
        match self {
            Condition::Prefix(x) => Condition::Prefix(*x),
            Condition::Neighbor(x) => Condition::Neighbor(*x),
            Condition::AsPath(x) => Condition::AsPath(*x),
            Condition::Community(x) => Condition::Community(*x),
            Condition::RouteType(x) => Condition::RouteType(*x),
            Condition::RpkiValidation(x) => Condition::RpkiValidation(*x),
            Condition::AfiSafi(x) => Condition::AfiSafi(*x),
            Condition::LsNlriType(x) => Condition::LsNlriType(*x),
            Condition::LsProtocolId(x) => Condition::LsProtocolId(*x),
            Condition::LsInstanceId(x) => Condition::LsInstanceId(*x),
            Condition::LsNodeAs(x) => Condition::LsNodeAs(*x),
            Condition::LsNodeRouterId(x) => Condition::LsNodeRouterId(*x),
            Condition::PrefixSet(s, o) => Condition::PrefixSet(share(s), *o),
            Condition::NeighborSet(s, o) => Condition::NeighborSet(share(s), *o),
            Condition::AsPathSet(s, o) => Condition::AsPathSet(share(s), *o),
            Condition::CommunitySet(s, o) => Condition::CommunitySet(share(s), *o),
            Condition::ExtCommunitySet(s, o) => Condition::ExtCommunitySet(share(s), *o),
            Condition::LargeCommunitySet(s, o) => Condition::LargeCommunitySet(share(s), *o),
        }
    }
}

// ---------------------------------------------------------------------------
// Meaning
// ---------------------------------------------------------------------------

/// Whether a set matches, from whether any and whether every comparison does.
pub open spec fn by_option(o: MatchOptionConfig, any: bool, every: bool) -> bool {
    match o {
        MatchOptionConfig::Any => any,
        MatchOptionConfig::All => every,
        MatchOptionConfig::Invert => !any,
    }
}

/// Some prefix match admits the prefix.
pub open spec fn any_admits(l: Seq<PrefixMatch>, p: IpNetwork) -> bool {
    exists|i: int| 0 <= i < l.len() && (#[trigger] l[i]).admits(p)
}

/// Every prefix match admits the prefix.
pub open spec fn every_admits(l: Seq<PrefixMatch>, p: IpNetwork) -> bool {
    forall|i: int| 0 <= i < l.len() ==> (#[trigger] l[i]).admits(p)
}

/// Some pattern matches somewhere in the text.
pub open spec fn any_finds(l: Seq<Seq<char>>, s: Seq<char>) -> bool {
    exists|i: int| 0 <= i < l.len() && pattern::pattern_finds(#[trigger] l[i], s)
}

/// Every pattern matches somewhere in the text.
pub open spec fn every_finds(l: Seq<Seq<char>>, s: Seq<char>) -> bool {
    forall|i: int| 0 <= i < l.len() ==> pattern::pattern_finds(#[trigger] l[i], s)
}

/// Some member of `l` is in `set`.
pub open spec fn any_listed<T>(l: Seq<T>, set: Seq<T>) -> bool {
    exists|i: int| 0 <= i < l.len() && set.contains(#[trigger] l[i])
}

/// Every member of `l` is in `set`.
pub open spec fn every_listed<T>(l: Seq<T>, set: Seq<T>) -> bool {
    forall|i: int| 0 <= i < l.len() ==> set.contains(#[trigger] l[i])
}

/// Every member of `l` is `x`.
pub open spec fn every_is<T>(l: Seq<T>, x: T) -> bool {
    forall|i: int| 0 <= i < l.len() ==> #[trigger] l[i] == x
}

/// The AS numbers of a path, segment by segment.
pub open spec fn path_asns(s: Seq<AsPathSegmentView>) -> Seq<u32>
    decreases s.len(),
{
    if s.len() == 0 {
        Seq::empty()
    } else {
        path_asns(s.drop_last()) + s.last().asn_list
    }
}

/// The text that patterns over AS paths are matched against: the AS numbers
/// with underscores between them.
pub open spec fn as_path_text(s: Seq<AsPathSegmentView>) -> Seq<char> {
    text::joined_decimals(path_asns(s), "_"@)
}

/// The octets of an address.
pub open spec fn ip_octets(ip: IpAddr) -> Seq<u8> {
    match ip {
        IpAddr::V4(x) => x.octet_seq(),
        IpAddr::V6(x) => x.octet_seq(),
    }
}

impl LsNlriTypeMatch {
    /// The number of the kind on the wire.
    pub open spec fn code_spec(self) -> u16 {
        match self {
            LsNlriTypeMatch::Node => 1,
            LsNlriTypeMatch::Link => 2,
            LsNlriTypeMatch::PrefixV4 => 3,
            LsNlriTypeMatch::PrefixV6 => 4,
        }
    }

    fn code(&self) -> (r: u16)
        ensures
            r == self.code_spec(),
    {
        match self {
            LsNlriTypeMatch::Node => 1,
            LsNlriTypeMatch::Link => 2,
            LsNlriTypeMatch::PrefixV4 => 3,
            LsNlriTypeMatch::PrefixV6 => 4,
        }
    }
}

impl LsProtocolIdMatch {
    /// The protocol that is meant.
    pub open spec fn protocol(self) -> LsProtocolId {
        match self {
            LsProtocolIdMatch::IsIsL1 => LsProtocolId::IsIsL1,
            LsProtocolIdMatch::IsIsL2 => LsProtocolId::IsIsL2,
            LsProtocolIdMatch::OspfV2 => LsProtocolId::OspfV2,
            LsProtocolIdMatch::Direct => LsProtocolId::Direct,
            LsProtocolIdMatch::Static => LsProtocolId::Static,
            LsProtocolIdMatch::OspfV3 => LsProtocolId::OspfV3,
        }
    }

    fn to_protocol(&self) -> (r: LsProtocolId)
        ensures
            r == self.protocol(),
    {
        match self {
            LsProtocolIdMatch::IsIsL1 => LsProtocolId::IsIsL1,
            LsProtocolIdMatch::IsIsL2 => LsProtocolId::IsIsL2,
            LsProtocolIdMatch::OspfV2 => LsProtocolId::OspfV2,
            LsProtocolIdMatch::Direct => LsProtocolId::Direct,
            LsProtocolIdMatch::Static => LsProtocolId::Static,
            LsProtocolIdMatch::OspfV3 => LsProtocolId::OspfV3,
        }
    }
}

impl ConditionView {
    /// The route with the given key and path meets the condition. Conditions on
    /// prefixes are met by prefixes alone, those on link-state routes by such
    /// routes alone, and those on neighbors by learned routes alone.
    pub open spec fn holds(self, key: RouteKeyView, path: PathView) -> bool {
        match self {
            ConditionView::Prefix(p) => key == RouteKeyView::Prefix(p),
            ConditionView::PrefixSet(set, o) => match key {
                RouteKeyView::Prefix(p) => by_option(
                    o,
                    any_admits(set.items, p),
                    every_admits(set.items, p),
                ),
                RouteKeyView::LinkState(_) => false,
            },
            ConditionView::Neighbor(x) => path.attrs.source.peer_ip_spec() == Some(x),
            ConditionView::NeighborSet(set, o) => match path.attrs.source.peer_ip_spec() {
                Some(ip) => by_option(o, set.items.contains(ip), every_is(set.items, ip)),
                None => false,
            },
            ConditionView::AsPath(asn) => path_asns(path.attrs.as_path).contains(asn),
            ConditionView::AsPathSet(set, o) => by_option(
                o,
                any_finds(set.items, as_path_text(path.attrs.as_path)),
                every_finds(set.items, as_path_text(path.attrs.as_path)),
            ),
            ConditionView::Community(c) => path.attrs.communities.contains(c),
            ConditionView::CommunitySet(set, o) => by_option(
                o,
                any_listed(path.attrs.communities, set.items),
                every_listed(path.attrs.communities, set.items),
            ),
            ConditionView::ExtCommunitySet(set, o) => by_option(
                o,
                any_listed(path.attrs.extended_communities, set.items),
                every_listed(path.attrs.extended_communities, set.items),
            ),
            ConditionView::LargeCommunitySet(set, o) => by_option(
                o,
                any_listed(path.attrs.large_communities, set.items),
                every_listed(path.attrs.large_communities, set.items),
            ),
            ConditionView::RouteType(t) => match t {
                RouteType::Ebgp => path.attrs.source is Ebgp,
                RouteType::Ibgp => path.attrs.source is Ibgp,
                RouteType::Local => path.attrs.source is Local,
            },
            ConditionView::RpkiValidation(s) => path.rpki_state == s,
            ConditionView::AfiSafi(m) => match m {
                AfiSafiMatch::Ipv4Unicast => key.family() == multiprotocol::ipv4_unicast(),
                AfiSafiMatch::Ipv6Unicast => key.family() == multiprotocol::ipv6_unicast(),
                AfiSafiMatch::BgpLs => key.family() == multiprotocol::link_state() || key.family()
                    == multiprotocol::link_state_vpn(),
            },
            ConditionView::LsNlriType(t) => key matches RouteKeyView::LinkState(n) && n.nlri_type
                == t.code_spec(),
            ConditionView::LsProtocolId(m) => body_of(key) matches Some(b) && b.protocol_id
                == m.protocol().code_spec(),
            ConditionView::LsInstanceId(id) => body_of(key) matches Some(b) && b.identifier == id,
            ConditionView::LsNodeAs(asn) => body_of(key) matches Some(b)
                && b.descriptors.local_node_spec().as_number == Some(asn),
            ConditionView::LsNodeRouterId(ip) => body_of(key) matches Some(b)
                && b.descriptors.local_node_spec().igp_router_id == Some(ip_octets(ip)),
        }
    }
}

/// A set condition with the opposite option is met exactly when the plain one
/// is not, wherever the route is of the kind that the set is about.
pub proof fn law_invert_negates(key: RouteKeyView, path: PathView)
    ensures
        forall|s: NamedList<PrefixMatch>|
            key is Prefix ==> #[trigger] ConditionView::PrefixSet(
                s,
                MatchOptionConfig::Invert,
            ).holds(key, path) == !ConditionView::PrefixSet(s, MatchOptionConfig::Any).holds(
                key,
                path,
            ),
        forall|s: NamedList<IpAddr>|
            path.attrs.source !is Local ==> #[trigger] ConditionView::NeighborSet(
                s,
                MatchOptionConfig::Invert,
            ).holds(key, path) == !ConditionView::NeighborSet(s, MatchOptionConfig::Any).holds(
                key,
                path,
            ),
        forall|s: NamedList<Seq<char>>|
            #[trigger] ConditionView::AsPathSet(s, MatchOptionConfig::Invert).holds(key, path)
                == !ConditionView::AsPathSet(s, MatchOptionConfig::Any).holds(key, path),
        forall|s: NamedList<u32>|
            #[trigger] ConditionView::CommunitySet(s, MatchOptionConfig::Invert).holds(key, path)
                == !ConditionView::CommunitySet(s, MatchOptionConfig::Any).holds(key, path),
        forall|s: NamedList<u64>|
            #[trigger] ConditionView::ExtCommunitySet(s, MatchOptionConfig::Invert).holds(key, path)
                == !ConditionView::ExtCommunitySet(s, MatchOptionConfig::Any).holds(key, path),
        forall|s: NamedList<LargeCommunity>|
            #[trigger] ConditionView::LargeCommunitySet(s, MatchOptionConfig::Invert).holds(
                key,
                path,
            ) == !ConditionView::LargeCommunitySet(s, MatchOptionConfig::Any).holds(key, path),
{
}

// ---------------------------------------------------------------------------
// Checks
// ---------------------------------------------------------------------------

fn check_any_admits(l: &Vec<PrefixMatch>, p: &IpNetwork) -> (r: bool)
    ensures
        r == any_admits(l@, *p),
{
    let mut i: usize = 0;
    while i < l.len()
        invariant
            i <= l@.len(),
            forall|j: int| 0 <= j < i ==> !(#[trigger] l@[j]).admits(*p),
        decreases l.len() - i,
    {
        if l[i].contains(p) {
            assert(l@[i as int].admits(*p));
            return true;
        }
        i = i + 1;
    }
    false
}

fn check_every_admits(l: &Vec<PrefixMatch>, p: &IpNetwork) -> (r: bool)
    ensures
        r == every_admits(l@, *p),
{
    let mut i: usize = 0;
    while i < l.len()
        invariant
            i <= l@.len(),
            forall|j: int| 0 <= j < i ==> (#[trigger] l@[j]).admits(*p),
        decreases l.len() - i,
    {
        if !l[i].contains(p) {
            assert(!l@[i as int].admits(*p));
            return false;
        }
        i = i + 1;
    }
    true
}

/// Comparisons with all patterns of a set say whether any and whether every one
/// matches.
proof fn lemma_found(l: Seq<Seq<char>>, s: Seq<char>, found: Seq<bool>)
    requires
        found.len() == l.len(),
        forall|i: int| 0 <= i < l.len() ==> #[trigger] found[i] == pattern::pattern_finds(l[i], s),
    ensures
        any_found(found) == any_finds(l, s),
        every_found(found) == every_finds(l, s),
{
    if any_finds(l, s) {
        let i = choose|i: int| 0 <= i < l.len() && pattern::pattern_finds(#[trigger] l[i], s);
        assert(found[i]);
    }
    if any_found(found) {
        let i = choose|i: int| 0 <= i < found.len() && #[trigger] found[i];
        assert(pattern::pattern_finds(l[i], s));
    }
    if every_found(found) {
        assert forall|i: int| 0 <= i < l.len() implies pattern::pattern_finds(
            #[trigger] l[i],
            s,
        ) by {
            assert(found[i]);
        }
    }
}

/// Which patterns of a set match somewhere in the text.
fn find_patterns(set: &AsPathSet, s: &str) -> (r: Vec<bool>)
    ensures
        r@.len() == set@.items.len(),
        forall|i: int|
            0 <= i < r@.len() ==> #[trigger] r@[i] == pattern::pattern_finds(set@.items[i], s@),
{
    let mut r: Vec<bool> = Vec::new();
    let mut i: usize = 0;
    while i < set.patterns.len()
        invariant
            i <= set.patterns@.len(),
            r@.len() == i,
            forall|j: int|
                0 <= j < i ==> #[trigger] r@[j] == pattern::pattern_finds(set@.items[j], s@),
        decreases set.patterns.len() - i,
    {
        let found = set.patterns[i].is_match(s);
        assert(found == pattern::pattern_finds(set@.items[i as int], s@));
        r.push(found);
        i = i + 1;
    }
    r
}

/// Some comparison matches.
pub open spec fn any_found(l: Seq<bool>) -> bool {
    exists|i: int| 0 <= i < l.len() && #[trigger] l[i]
}

/// Every comparison matches.
pub open spec fn every_found(l: Seq<bool>) -> bool {
    forall|i: int| 0 <= i < l.len() ==> #[trigger] l[i]
}

/// Whether a set matches, from which of its comparisons do.
pub fn matched_by(option: MatchOptionConfig, found: &Vec<bool>) -> (r: bool)
    ensures
        r == by_option(option, any_found(found@), every_found(found@)),
{
    let mut any = false;
    let mut every = true;
    let mut i: usize = 0;
    while i < found.len()
        invariant
            i <= found@.len(),
            any == exists|j: int| 0 <= j < i && #[trigger] found@[j],
            every == forall|j: int| 0 <= j < i ==> #[trigger] found@[j],
        decreases found.len() - i,
    {
        if found[i] {
            any = true;
        } else {
            every = false;
        }
        i = i + 1;
    }
    match option {
        MatchOptionConfig::Any => any,
        MatchOptionConfig::All => every,
        MatchOptionConfig::Invert => !any,
    }
}

fn check_any_listed<T: Same>(l: &Vec<T>, set: &Vec<T>) -> (r: bool)
    ensures
        r == any_listed(l@, set@),
{
    let mut i: usize = 0;
    while i < l.len()
        invariant
            i <= l@.len(),
            forall|j: int| 0 <= j < i ==> !set@.contains(#[trigger] l@[j]),
        decreases l.len() - i,
    {
        if contains_item(set, &l[i]) {
            assert(set@.contains(l@[i as int]));
            return true;
        }
        i = i + 1;
    }
    false
}

fn check_every_listed<T: Same>(l: &Vec<T>, set: &Vec<T>) -> (r: bool)
    ensures
        r == every_listed(l@, set@),
{
    let mut i: usize = 0;
    while i < l.len()
        invariant
            i <= l@.len(),
            forall|j: int| 0 <= j < i ==> set@.contains(#[trigger] l@[j]),
        decreases l.len() - i,
    {
        if !contains_item(set, &l[i]) {
            assert(!set@.contains(l@[i as int]));
            return false;
        }
        i = i + 1;
    }
    true
}

fn check_every_is<T: Same>(l: &Vec<T>, x: &T) -> (r: bool)
    ensures
        r == every_is(l@, *x),
{
    let mut i: usize = 0;
    while i < l.len()
        invariant
            i <= l@.len(),
            forall|j: int| 0 <= j < i ==> #[trigger] l@[j] == *x,
        decreases l.len() - i,
    {
        if !l[i].same_as(x) {
            assert(l@[i as int] != *x);
            return false;
        }
        i = i + 1;
    }
    true
}

fn check_members<T: Same>(o: MatchOptionConfig, l: &Vec<T>, set: &Vec<T>) -> (r: bool)
    ensures
        r == by_option(o, any_listed(l@, set@), every_listed(l@, set@)),
{
    match o {
        MatchOptionConfig::Any => check_any_listed(l, set),
        MatchOptionConfig::All => check_every_listed(l, set),
        MatchOptionConfig::Invert => !check_any_listed(l, set),
    }
}

/// The AS numbers of a path, segment by segment.
pub fn flat_asns(path: &Vec<AsPathSegment>) -> (r: Vec<u32>)
    ensures
        r@ == path_asns(seqs::views(path@)),
{
    let ghost all = seqs::views(path@);
    let mut r: Vec<u32> = Vec::new();
    let mut i: usize = 0;
    while i < path.len()
        invariant
            i <= path@.len(),
            all == seqs::views(path@),
            r@ == path_asns(all.take(i as int)),
        decreases path.len() - i,
    {
        let mut part = copy_items(&path[i].asn_list);
        r.append(&mut part);
        proof {
            assert(all.take(i + 1).drop_last() =~= all.take(i as int));
            assert(all.take(i + 1).last() == path@[i as int]@);
        }
        i = i + 1;
    }
    assert(all.take(path@.len() as int) =~= all);
    r
}

impl Condition {
    /// Whether the route with the given key and path meets the condition.
    pub fn matches(&self, route_key: &RouteKey, path: &Path) -> (r: bool)
        ensures
            r == self@.holds(route_key@, path@),
    {
        match self {
            Condition::Prefix(p) => match route_key {
                RouteKey::Prefix(prefix) => *prefix == *p,
                RouteKey::LinkState(_) => false,
            },
            Condition::PrefixSet(set, o) => match route_key {
                RouteKey::Prefix(prefix) => match o {
                    MatchOptionConfig::Any => check_any_admits(&set.prefixes, prefix),
                    MatchOptionConfig::All => check_every_admits(&set.prefixes, prefix),
                    MatchOptionConfig::Invert => !check_any_admits(&set.prefixes, prefix),
                },
                RouteKey::LinkState(_) => false,
            },
            Condition::Neighbor(neighbor) => match path.source().peer_ip() {
                Some(ip) => ip == *neighbor,
                None => false,
            },
            Condition::NeighborSet(set, o) => match path.source().peer_ip() {
                Some(ip) => match o {
                    MatchOptionConfig::Any => contains_item(&set.neighbors, &ip),
                    MatchOptionConfig::All => check_every_is(&set.neighbors, &ip),
                    MatchOptionConfig::Invert => !contains_item(&set.neighbors, &ip),
                },
                None => false,
            },
            Condition::AsPath(asn) => contains_item(&flat_asns(path.as_path()), asn),
            Condition::AsPathSet(set, o) => {
                let joined = join_decimals(&flat_asns(path.as_path()), "_");
                let found = find_patterns(set, joined.as_str());
                proof {
                    lemma_found(set@.items, joined@, found@);
                }
                matched_by(*o, &found)
            },
            Condition::Community(c) => contains_item(path.communities(), c),
            Condition::CommunitySet(set, o) => check_members(
                *o,
                path.communities(),
                &set.communities,
            ),
            Condition::ExtCommunitySet(set, o) => check_members(
                *o,
                path.extended_communities(),
                &set.ext_communities,
            ),
            Condition::LargeCommunitySet(set, o) => check_members(
                *o,
                path.large_communities(),
                &set.large_communities,
            ),
            Condition::RouteType(t) => match t {
                RouteType::Ebgp => path.source().is_ebgp(),
                RouteType::Ibgp => path.source().is_ibgp(),
                RouteType::Local => path.source().is_local(),
            },
            Condition::RpkiValidation(state) => path.rpki_state == *state,
            Condition::AfiSafi(m) => {
                let family = route_key.afi_safi();
                match m {
                    AfiSafiMatch::Ipv4Unicast => family == AfiSafi::new(Afi::Ipv4, Safi::Unicast),
                    AfiSafiMatch::Ipv6Unicast => family == AfiSafi::new(Afi::Ipv6, Safi::Unicast),
                    AfiSafiMatch::BgpLs => family == AfiSafi::new(Afi::LinkState, Safi::LinkState)
                        || family == AfiSafi::new(Afi::LinkState, Safi::LinkStateVpn),
                }
            },
            Condition::LsNlriType(t) => match route_key {
                RouteKey::LinkState(ls) => ls.nlri_type == t.code(),
                RouteKey::Prefix(_) => false,
            },
            Condition::LsProtocolId(m) => match link_state_body(route_key) {
                Some(body) => body.protocol_id == m.to_protocol().code(),
                None => false,
            },
            Condition::LsInstanceId(id) => match link_state_body(route_key) {
                Some(body) => body.identifier == *id,
                None => false,
            },
            Condition::LsNodeAs(asn) => match link_state_body(route_key) {
                Some(body) => body.descriptors.local_node().as_number == Some(*asn),
                None => false,
            },
            Condition::LsNodeRouterId(ip) => match link_state_body(route_key) {
                Some(body) => has_router_id(body.descriptors.local_node(), ip),
                None => false,
            },
        }
    }
}

/// The parsed part of a link-state route.
pub open spec fn body_of(key: RouteKeyView) -> Option<LsNlriBodyView> {
    match key {
        RouteKeyView::LinkState(n) => n.body,
        RouteKeyView::Prefix(_) => None,
    }
}

fn link_state_body(key: &RouteKey) -> (r: Option<&LsNlriBody>)
    ensures
        match r {
            Some(b) => body_of(key@) == Some(b@),
            None => body_of(key@) is None,
        },
{
    match key {
        RouteKey::LinkState(ls) => ls.body.as_ref(),
        RouteKey::Prefix(_) => None,
    }
}

fn has_router_id(node: &NodeDescriptor, ip: &IpAddr) -> (r: bool)
    ensures
        r == (node@.igp_router_id == Some(ip_octets(*ip))),
{
    match &node.igp_router_id {
        Some(rid) => {
            let octets = octets_of(ip);
            items_eq(rid, &octets)
        },
        None => false,
    }
}

/// The octets of an address.
fn octets_of(ip: &IpAddr) -> (r: Vec<u8>)
    ensures
        r@ == ip_octets(*ip),
{
    match ip {
        IpAddr::V4(x) => {
            let r: Vec<u8> = vec![x.a, x.b, x.c, x.d];
            assert(r@ =~= x.octet_seq());
            r
        },
        IpAddr::V6(x) => x.octets(),
    }
}

} // verus!
