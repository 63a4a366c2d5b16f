//! Routes of messages and those of the routing table.

use crate::bgp::bgpls;
use crate::bgp::bgpls::{LsAttr, LsAttrTlvView, LsNlri, LsNlriView};
use crate::bgp::community;
use crate::bgp::msg_update;
use crate::bgp::msg_update::{
    Aggregator, AsPathSegment, AsPathSegmentType, AsPathSegmentView, NextHopAddr, Origin,
    PathAttrValue, PathAttrValueView, PathAttribute, PathAttributeView,
};
use crate::conf;
use crate::grpc::ls_attr;
use crate::grpc::ls_attr::{ls_attr_to_proto, proto_to_ls_attr};
use crate::grpc::proto::extended_community::{CommunityView, ExtendedCommunity, LargeCommunity};
use crate::grpc::proto::route as messages;
use crate::grpc::proto_community;
use crate::grpc::proto_community::{
    internal_to_proto_large_community, proto_extcomm_to_u64, proto_large_community_to_internal,
    u64_to_proto_extcomm,
};
use crate::grpc::proto_ls;
use crate::grpc::proto_ls::{ls_nlri_to_proto, proto_to_ls_nlri};
use crate::net::addr::{IpAddr, Ipv4Addr, Ipv6Addr};
use crate::net::addr_text;
use crate::net::network::{IpNetwork, Ipv4Net, Ipv6Net};
use crate::rib;
use crate::rib::{
    Path, PathAttrs, PathAttrsView, PathView, Route, RouteKey, RouteKeyView, RouteSource,
};
use crate::rpki::RpkiValidation;
use crate::seqs;
use crate::seqs::copy_items;
use crate::text;
use crate::text::{cat2, parse_decimal, render_decimal, split_once};
use vstd::prelude::*;

verus! {

// ---------------------------------------------------------------------------
// Into messages
// ---------------------------------------------------------------------------

/// The address that routes of this speaker are shown with.
pub const LOCAL_ROUTE_SOURCE_STR: &'static str = "127.0.0.1";

/// The number of an origin.
pub open spec fn origin_number(o: Origin) -> i32 {
    match o {
        Origin::IGP => 0,
        Origin::EGP => 1,
        Origin::INCOMPLETE => 2,
    }
}

/// The message of a segment; segments of confederations are not shown.
pub open spec fn segment_message(s: AsPathSegmentView) -> Option<messages::AsPathSegmentView> {
    match s.segment_type {
        AsPathSegmentType::AsSet => Some(
            messages::AsPathSegmentView { segment_type: 0, asns: s.asn_list },
        ),
        AsPathSegmentType::AsSequence => Some(
            messages::AsPathSegmentView { segment_type: 1, asns: s.asn_list },
        ),
        _ => None,
    }
}

/// What is there of an optional item behind a list.
pub open spec fn with<T>(s: Seq<T>, x: Option<T>) -> Seq<T> {
    match x {
        Some(v) => s.push(v),
        None => s,
    }
}

pub open spec fn as_path_message(
    s: Seq<AsPathSegmentView>,
) -> Seq<messages::AsPathSegmentView>
    decreases s.len(),
{
    if s.len() == 0 {
        Seq::empty()
    } else {
        with(as_path_message(s.drop_last()), segment_message(s.last()))
    }
}

fn segment_to_proto(s: &AsPathSegment) -> (r: Option<messages::AsPathSegment>)
    ensures
        conf::opt_view(r) == segment_message(s@),
{
    match s.segment_type {
        AsPathSegmentType::AsSet => Some(
            messages::AsPathSegment { segment_type: 0, asns: copy_items(&s.asn_list) },
        ),
        AsPathSegmentType::AsSequence => Some(
            messages::AsPathSegment { segment_type: 1, asns: copy_items(&s.asn_list) },
        ),
        _ => None,
    }
}

fn as_path_to_proto(v: &Vec<AsPathSegment>) -> (r: Vec<messages::AsPathSegment>)
    ensures
        seqs::views(r@) == as_path_message(seqs::views(v@)),
{
    let ghost all = seqs::views(v@);
    let mut r: Vec<messages::AsPathSegment> = Vec::new();
    assert(all.take(0) =~= Seq::empty());
    assert(seqs::views(r@) =~= Seq::empty());
    let mut i: usize = 0;
    while i < v.len()
        invariant
            i <= v@.len(),
            all == seqs::views(v@),
            seqs::views(r@) == as_path_message(all.take(i as int)),
        decreases v.len() - i,
    {
        proof {
            assert(all.take(i + 1).drop_last() =~= all.take(i as int));
            assert(all.take(i + 1).last() == v@[i as int]@);
        }
        match segment_to_proto(&v[i]) {
            Some(x) => {
                proof {
                    seqs::lemma_views_push(r@, x);
                }
                r.push(x);
            },
            None => {},
        }
        i = i + 1;
    }
    proof {
        seqs::lemma_take_all(all);
    }
    r
}

/// The message of an attribute of unknown type; others are not shown.
pub open spec fn unknown_message(a: PathAttributeView) -> Option<messages::UnknownAttributeView> {
    match a.value {
        PathAttrValueView::Unknown { type_code, flags, data } => Some(
            messages::UnknownAttributeView {
                attr_type: type_code as u32,
                flags: flags as u32,
                value: data,
            },
        ),
        _ => None,
    }
}

pub open spec fn unknowns_message(
    s: Seq<PathAttributeView>,
) -> Seq<messages::UnknownAttributeView>
    decreases s.len(),
{
    if s.len() == 0 {
        Seq::empty()
    } else {
        with(unknowns_message(s.drop_last()), unknown_message(s.last()))
    }
}

fn unknown_to_proto(a: &PathAttribute) -> (r: Option<messages::UnknownAttribute>)
    ensures
        conf::opt_view(r) == unknown_message(a@),
{
    match &a.value {
        PathAttrValue::Unknown { type_code, flags, data } => Some(
            messages::UnknownAttribute {
                attr_type: *type_code as u32,
                flags: *flags as u32,
                value: copy_items(data),
            },
        ),
        _ => None,
    }
}

fn unknowns_to_proto(v: &Vec<PathAttribute>) -> (r: Vec<messages::UnknownAttribute>)
    ensures
        seqs::views(r@) == unknowns_message(seqs::views(v@)),
{
    let ghost all = seqs::views(v@);
    let mut r: Vec<messages::UnknownAttribute> = Vec::new();
    assert(all.take(0) =~= Seq::empty());
    assert(seqs::views(r@) =~= Seq::empty());
    let mut i: usize = 0;
    while i < v.len()
        invariant
            i <= v@.len(),
            all == seqs::views(v@),
            seqs::views(r@) == unknowns_message(all.take(i as int)),
        decreases v.len() - i,
    {
        proof {
            assert(all.take(i + 1).drop_last() =~= all.take(i as int));
            assert(all.take(i + 1).last() == v@[i as int]@);
        }
        match unknown_to_proto(&v[i]) {
            Some(x) => {
                proof {
                    seqs::lemma_views_push(r@, x);
                }
                r.push(x);
            },
            None => {},
        }
        i = i + 1;
    }
    proof {
        seqs::lemma_take_all(all);
    }
    r
}

pub open spec fn extcomm_messages(s: Seq<u64>) -> Seq<Option<CommunityView>> {
    Seq::new(s.len(), |i: int| Some(proto_community::extcomm_message(s[i])))
}

/// The same large community in a message.
pub open spec fn large_message(c: community::LargeCommunity) -> LargeCommunity {
    LargeCommunity {
        global_admin: c.global_admin,
        local_data_1: c.local_data_1,
        local_data_2: c.local_data_2,
    }
}

pub open spec fn large_messages(s: Seq<community::LargeCommunity>) -> Seq<LargeCommunity> {
    Seq::new(s.len(), |i: int| large_message(s[i]))
}

pub open spec fn address_texts(s: Seq<Ipv4Addr>) -> Seq<Seq<char>> {
    Seq::new(s.len(), |i: int| s[i].text())
}

fn extcomms_to_proto(v: &Vec<u64>) -> (r: Vec<ExtendedCommunity>)
    ensures
        seqs::views(r@) == extcomm_messages(v@),
{
    let ghost all = extcomm_messages(v@);
    let mut r: Vec<ExtendedCommunity> = Vec::new();
    let mut i: usize = 0;
    while i < v.len()
        invariant
            i <= v@.len(),
            all == extcomm_messages(v@),
            seqs::views(r@) == all.take(i as int),
        decreases v.len() - i,
    {
        let x = u64_to_proto_extcomm(v[i]);
        proof {
            seqs::lemma_views_push(r@, x);
            seqs::lemma_take_next(all, i as int);
        }
        r.push(x);
        i = i + 1;
    }
    proof {
        seqs::lemma_take_all(all);
    }
    r
}

fn large_to_proto(v: &Vec<community::LargeCommunity>) -> (r: Vec<LargeCommunity>)
    ensures
        r@ == large_messages(v@),
{
    let ghost all = large_messages(v@);
    let mut r: Vec<LargeCommunity> = Vec::new();
    let mut i: usize = 0;
    while i < v.len()
        invariant
            i <= v@.len(),
            all == large_messages(v@),
            r@ == all.take(i as int),
        decreases v.len() - i,
    {
        let x = internal_to_proto_large_community(&v[i]);
        proof {
            seqs::lemma_take_next(all, i as int);
        }
        r.push(x);
        i = i + 1;
    }
    proof {
        seqs::lemma_take_all(all);
    }
    r
}

fn addresses_to_proto(v: &Vec<Ipv4Addr>) -> (r: Vec<String>)
    ensures
        seqs::views(r@) == address_texts(v@),
{
    let ghost all = address_texts(v@);
    let mut r: Vec<String> = Vec::new();
    let mut i: usize = 0;
    while i < v.len()
        invariant
            i <= v@.len(),
            all == address_texts(v@),
            seqs::views(r@) == all.take(i as int),
        decreases v.len() - i,
    {
        let x = v[i].to_text();
        proof {
            seqs::lemma_views_push(r@, x);
            seqs::lemma_take_next(all, i as int);
        }
        r.push(x);
        i = i + 1;
    }
    proof {
        seqs::lemma_take_all(all);
    }
    r
}

/// The notation of an optional IPv4 address.
pub open spec fn opt_v4_text(x: Option<Ipv4Addr>) -> Option<Seq<char>> {
    match x {
        Some(a) => Some(a.text()),
        None => None,
    }
}

/// The message of an aggregator.
pub open spec fn aggregator_message(a: Option<Aggregator>) -> Option<messages::AggregatorView> {
    match a {
        Some(x) => Some(messages::AggregatorView { asn: x.asn, ip_address: x.ip_addr.text() }),
        None => None,
    }
}

/// The number of a validation state.
pub open spec fn rpki_state_number(s: RpkiValidation) -> i32 {
    match s {
        RpkiValidation::NotFound => 0,
        RpkiValidation::Valid => 1,
        RpkiValidation::Invalid => 2,
    }
}

pub fn rpki_state_to_proto(s: RpkiValidation) -> (r: i32)
    ensures
        r == rpki_state_number(s),
{
    match s {
        RpkiValidation::NotFound => 0,
        RpkiValidation::Valid => 1,
        RpkiValidation::Invalid => 2,
    }
}

/// The message of a path.
pub open spec fn path_message(p: PathView) -> messages::PathView {
    let a = p.attrs;
    messages::PathView {
        origin: origin_number(a.origin),
        as_path: as_path_message(a.as_path),
        next_hop: a.next_hop.global_spec().text(),
        link_local_next_hop: proto_ls::v6_text(a.next_hop.link_local_spec()),
        peer_address: match a.source.peer_ip_spec() {
            Some(ip) => ip.text(),
            None => LOCAL_ROUTE_SOURCE_STR@,
        },
        local_pref: a.local_pref,
        med: a.med,
        atomic_aggregate: a.atomic_aggregate,
        unknown_attributes: unknowns_message(a.unknown_attrs),
        communities: a.communities,
        extended_communities: extcomm_messages(a.extended_communities),
        large_communities: large_messages(a.large_communities),
        originator_id: opt_v4_text(a.originator_id),
        cluster_list: address_texts(a.cluster_list),
        local_path_id: p.local_path_id,
        remote_path_id: p.remote_path_id,
        aggregator: aggregator_message(a.aggregator),
        rpki_validation: rpki_state_number(p.rpki_state),
        ls_attribute: match a.ls_attr {
            Some(x) => Some(ls_attr::attr_message(x)),
            None => None,
        },
    }
}

fn opt_v6_to_proto(x: Option<Ipv6Addr>) -> (r: Option<String>)
    ensures
        seqs::opt_text(r) == proto_ls::v6_text(x),
{
    match x {
        Some(a) => Some(a.to_text()),
        None => None,
    }
}

fn opt_v4_to_proto(x: Option<Ipv4Addr>) -> (r: Option<String>)
    ensures
        seqs::opt_text(r) == opt_v4_text(x),
{
    match x {
        Some(a) => Some(a.to_text()),
        None => None,
    }
}

fn aggregator_to_proto(a: Option<Aggregator>) -> (r: Option<messages::Aggregator>)
    ensures
        conf::opt_view(r) == aggregator_message(a),
{
    match a {
        Some(x) => Some(messages::Aggregator { asn: x.asn, ip_address: x.ip_addr.to_text() }),
        None => None,
    }
}

fn path_to_proto(p: &Path) -> (r: messages::Path)
    ensures
        r@ == path_message(p@),
{
    let a = &*p.attrs;
    let origin: i32 = match a.origin {
        Origin::IGP => 0,
        Origin::EGP => 1,
        Origin::INCOMPLETE => 2,
    };
    let peer_address = match a.source.peer_ip() {
        Some(ip) => ip.to_text(),
        None => LOCAL_ROUTE_SOURCE_STR.to_owned(),
    };
    let ls_attribute = match &a.ls_attr {
        Some(x) => Some(ls_attr_to_proto(x)),
        None => None,
    };
    messages::Path {
        origin,
        as_path: as_path_to_proto(&a.as_path),
        next_hop: a.next_hop.global_addr().to_text(),
        link_local_next_hop: opt_v6_to_proto(a.next_hop.link_local()),
        peer_address,
        local_pref: a.local_pref,
        med: a.med,
        atomic_aggregate: a.atomic_aggregate,
        unknown_attributes: unknowns_to_proto(&a.unknown_attrs),
        communities: copy_items(&a.communities),
        extended_communities: extcomms_to_proto(&a.extended_communities),
        large_communities: large_to_proto(&a.large_communities),
        originator_id: opt_v4_to_proto(a.originator_id),
        cluster_list: addresses_to_proto(&a.cluster_list),
        local_path_id: p.local_path_id,
        remote_path_id: p.remote_path_id,
        aggregator: aggregator_to_proto(a.aggregator),
        rpki_validation: rpki_state_to_proto(p.rpki_state),
        ls_attribute,
    }
}

pub open spec fn path_messages(s: Seq<PathView>) -> Seq<messages::PathView> {
    Seq::new(s.len(), |i: int| path_message(s[i]))
}

/// The message of a key; there is none of a link-state route of which nothing is
/// parsed.
pub open spec fn key_message(k: RouteKeyView) -> Option<messages::KeyView> {
    match k {
        RouteKeyView::Prefix(p) => Some(messages::KeyView::Prefix(p.text())),
        RouteKeyView::LinkState(n) => match proto_ls::nlri_message(n) {
            Some(m) => Some(messages::KeyView::LsNlri(m)),
            None => None,
        },
    }
}

/// The message of a route.
pub open spec fn route_message(route: Route) -> messages::RouteView {
    messages::RouteView {
        paths: path_messages(rib::path_views(route.paths@)),
        key: key_message(route.key@),
    }
}

/// The message of a route.
pub fn route_to_proto(route: Route) -> (r: messages::Route)
    ensures
        r@ == route_message(route),
{
    let key = match &route.key {
        RouteKey::Prefix(p) => Some(messages::Key::Prefix(p.to_text())),
        RouteKey::LinkState(n) => match ls_nlri_to_proto(n) {
            Some(m) => Some(messages::Key::LsNlri(Box::new(m))),
            None => None,
        },
    };
    let v = &route.paths;
    let ghost all = path_messages(rib::path_views(v@));
    let mut paths: Vec<messages::Path> = Vec::new();
    let mut i: usize = 0;
    while i < v.len()
        invariant
            i <= v@.len(),
            all == path_messages(rib::path_views(v@)),
            seqs::views(paths@) == all.take(i as int),
        decreases v.len() - i,
    {
        let x = path_to_proto(&v[i]);
        proof {
            seqs::lemma_views_push(paths@, x);
            seqs::lemma_take_next(all, i as int);
        }
        paths.push(x);
        i = i + 1;
    }
    proof {
        seqs::lemma_take_all(all);
    }
    messages::Route { paths, key }
}

/// The segments that messages show: sets and sequences. Those that a
/// confederation puts into a path are neither.
pub open spec fn shown_segments() -> spec_fn(AsPathSegmentView) -> bool {
    |x: AsPathSegmentView|
        x.segment_type == AsPathSegmentType::AsSet || x.segment_type
            == AsPathSegmentType::AsSequence
}

/// A message shows the sets and sequences of a path, each as it is and in their
/// order, and no segment of a confederation.
pub proof fn law_confederations_are_not_shown(s: Seq<AsPathSegmentView>)
    ensures
        as_path_message(s).len() == s.filter(shown_segments()).len(),
        forall|i: int|
            0 <= i < as_path_message(s).len() ==> segment_message(
                s.filter(shown_segments())[i],
            ) == Some(#[trigger] as_path_message(s)[i]),
    decreases s.len(),
{
    reveal(Seq::filter);
    if s.len() > 0 {
        law_confederations_are_not_shown(s.drop_last());
    }
}

// ---------------------------------------------------------------------------
// From messages
// ---------------------------------------------------------------------------

/// The prefix and the next hop that two texts denote.
pub open spec fn read_prefix_and_nexthop(prefix: Seq<char>, next_hop: Seq<char>) -> Result<
    (IpNetwork, NextHopAddr),
    Seq<char>,
> {
    match addr_text::read_network(prefix) {
        None => Err("Invalid prefix: "@ + prefix),
        Some(p) => match addr_text::read_ip(next_hop) {
            None => Err("Invalid next hop: "@ + next_hop),
            Some(n) => Ok((p, msg_update::next_hop_of(n))),
        },
    }
}

pub fn parse_prefix_and_nexthop(prefix: &str, next_hop: &str) -> (r: Result<
    (IpNetwork, NextHopAddr),
    String,
>)
    ensures
        conf::plain_result(r) == read_prefix_and_nexthop(prefix@, next_hop@),
{
    match IpNetwork::parse(prefix) {
        None => Err(cat2("Invalid prefix: ", prefix)),
        Some(p) => match IpAddr::parse(next_hop) {
            None => Err(cat2("Invalid next hop: ", next_hop)),
            Some(n) => Ok((p, NextHopAddr::from_ip(n))),
        },
    }
}

/// The origin that a number stands for.
pub open spec fn read_origin(n: i32) -> Result<Origin, Seq<char>> {
    match n {
        0 => Ok(Origin::IGP),
        1 => Ok(Origin::EGP),
        2 => Ok(Origin::INCOMPLETE),
        _ => Err("Invalid origin value"@),
    }
}

/// The segment that a message describes: a set for number 0 and a sequence for
/// any other.
pub open spec fn read_segment(m: messages::AsPathSegmentView) -> AsPathSegmentView {
    AsPathSegmentView {
        segment_type: if m.segment_type == 0 {
            AsPathSegmentType::AsSet
        } else {
            AsPathSegmentType::AsSequence
        },
        segment_len: m.asns.len() as u8,
        asn_list: m.asns,
    }
}

pub open spec fn read_as_path(s: Seq<messages::AsPathSegmentView>) -> Seq<AsPathSegmentView> {
    Seq::new(s.len(), |i: int| read_segment(s[i]))
}

fn segment_from_proto(m: &messages::AsPathSegment) -> (r: AsPathSegment)
    ensures
        r@ == read_segment(m@),
{
    AsPathSegment {
        segment_type: if m.segment_type == 0 {
            AsPathSegmentType::AsSet
        } else {
            AsPathSegmentType::AsSequence
        },
        segment_len: m.asns.len() as u8,
        asn_list: copy_items(&m.asns),
    }
}

fn as_path_from_proto(v: &Vec<messages::AsPathSegment>) -> (r: Vec<AsPathSegment>)
    ensures
        seqs::views(r@) == read_as_path(seqs::views(v@)),
{
    let ghost all = read_as_path(seqs::views(v@));
    let mut r: Vec<AsPathSegment> = Vec::new();
    let mut i: usize = 0;
    while i < v.len()
        invariant
            i <= v@.len(),
            all == read_as_path(seqs::views(v@)),
            seqs::views(r@) == all.take(i as int),
        decreases v.len() - i,
    {
        let x = segment_from_proto(&v[i]);
        proof {
            seqs::lemma_views_push(r@, x);
            seqs::lemma_take_next(all, i as int);
        }
        r.push(x);
        i = i + 1;
    }
    proof {
        seqs::lemma_take_all(all);
    }
    r
}

/// What a request for a route to a prefix says of where it leads and how.
pub struct IpRouteView {
    pub prefix: IpNetwork,
    pub next_hop: NextHopAddr,
    pub origin: Origin,
    pub as_path: Seq<AsPathSegmentView>,
}

/// The prefix and the next hop are looked at before the origin.
pub open spec fn read_ip_route(m: messages::AddIpRouteRequestView) -> Result<
    IpRouteView,
    Seq<char>,
> {
    match read_prefix_and_nexthop(m.prefix, m.next_hop) {
        Err(e) => Err(e),
        Ok((prefix, next_hop)) => match read_origin(m.origin) {
            Err(e) => Err(e),
            Ok(origin) => Ok(
                IpRouteView { prefix, next_hop, origin, as_path: read_as_path(m.as_path) },
            ),
        },
    }
}

/// What the parts of a request, or the reason why it is refused, hold.
pub open spec fn ip_route_result(
    r: Result<(IpNetwork, NextHopAddr, Origin, Vec<AsPathSegment>), String>,
) -> Result<IpRouteView, Seq<char>> {
    match r {
        Ok((prefix, next_hop, origin, as_path)) => Ok(
            IpRouteView { prefix, next_hop, origin, as_path: seqs::views(as_path@) },
        ),
        Err(e) => Err(e@),
    }
}

/// Where a route of a request leads and how.
pub fn parse_add_ip_route(req: &messages::AddIpRouteRequest) -> (r: Result<
    (IpNetwork, NextHopAddr, Origin, Vec<AsPathSegment>),
    String,
>)
    ensures
        ip_route_result(r) == read_ip_route(req@),
{
    let (prefix, next_hop) = match parse_prefix_and_nexthop(
        req.prefix.as_str(),
        req.next_hop.as_str(),
    ) {
        Ok(x) => x,
        Err(e) => {
            return Err(e);
        },
    };
    let origin = match req.origin {
        0 => Origin::IGP,
        1 => Origin::EGP,
        2 => Origin::INCOMPLETE,
        _ => {
            return Err("Invalid origin value".to_owned());
        },
    };
    Ok((prefix, next_hop, origin, as_path_from_proto(&req.as_path)))
}

/// The community of a message.
pub open spec fn extcomm_reader() -> spec_fn(Option<CommunityView>) -> Result<u64, Seq<char>> {
    |c: Option<CommunityView>| proto_community::read_extcomm(c)
}

fn extcomms_from_proto(v: &Vec<ExtendedCommunity>) -> (r: Result<Vec<u64>, String>)
    ensures
        numbers_result(r) == conf::read_all(seqs::views(v@), extcomm_reader()),
{
    let ghost all = seqs::views(v@);
    let ghost f = extcomm_reader();
    let mut out: Vec<u64> = Vec::new();
    let mut i: usize = 0;
    while i < v.len()
        invariant
            i <= v@.len(),
            all == seqs::views(v@),
            f == extcomm_reader(),
            conf::read_all(all.take(i as int), f) == Ok::<Seq<u64>, Seq<char>>(out@),
        decreases v.len() - i,
    {
        proof {
            conf::lemma_read_all_next(all, f, i as int);
        }
        match proto_extcomm_to_u64(&v[i]) {
            Ok(x) => {
                out.push(x);
            },
            Err(e) => {
                proof {
                    conf::lemma_read_all_error(all, f, i + 1);
                }
                return Err(e);
            },
        }
        i = i + 1;
    }
    proof {
        seqs::lemma_take_all(all);
    }
    Ok(out)
}

/// What a list of numbers, or the reason why there is none, holds.
pub open spec fn numbers_result(r: Result<Vec<u64>, String>) -> Result<Seq<u64>, Seq<char>> {
    match r {
        Ok(v) => Ok(v@),
        Err(e) => Err(e@),
    }
}

/// The same large community of a message.
pub open spec fn read_large(c: LargeCommunity) -> community::LargeCommunity {
    community::LargeCommunity {
        global_admin: c.global_admin,
        local_data_1: c.local_data_1,
        local_data_2: c.local_data_2,
    }
}

pub open spec fn read_larges(s: Seq<LargeCommunity>) -> Seq<community::LargeCommunity> {
    Seq::new(s.len(), |i: int| read_large(s[i]))
}

fn larges_from_proto(v: &Vec<LargeCommunity>) -> (r: Vec<community::LargeCommunity>)
    ensures
        r@ == read_larges(v@),
{
    let ghost all = read_larges(v@);
    let mut r: Vec<community::LargeCommunity> = Vec::new();
    let mut i: usize = 0;
    while i < v.len()
        invariant
            i <= v@.len(),
            all == read_larges(v@),
            r@ == all.take(i as int),
        decreases v.len() - i,
    {
        let x = proto_large_community_to_internal(&v[i]);
        proof {
            seqs::lemma_take_next(all, i as int);
        }
        r.push(x);
        i = i + 1;
    }
    proof {
        seqs::lemma_take_all(all);
    }
    r
}

/// The addresses that texts denote, if each denotes one.
pub open spec fn read_addresses(s: Seq<Seq<char>>) -> Option<Seq<Ipv4Addr>>
    decreases s.len(),
{
    if s.len() == 0 {
        Some(Seq::empty())
    } else {
        match (read_addresses(s.drop_last()), addr_text::read_ipv4(s.last())) {
            (Some(l), Some(x)) => Some(l.push(x)),
            _ => None,
        }
    }
}

proof fn lemma_unreadable(s: Seq<Seq<char>>, i: int)
    requires
        0 <= i <= s.len(),
        read_addresses(s.take(i)) is None,
    ensures
        read_addresses(s) is None,
    decreases s.len(),
{
    if i == s.len() {
        assert(s.take(i) =~= s);
    } else {
        assert(s.drop_last().take(i) =~= s.take(i));
        lemma_unreadable(s.drop_last(), i);
    }
}

/// What an optional list of addresses holds.
pub open spec fn opt_addresses(v: Option<Vec<Ipv4Addr>>) -> Option<Seq<Ipv4Addr>> {
    match v {
        Some(l) => Some(l@),
        None => None,
    }
}

fn addresses_from_proto(v: &Vec<String>) -> (r: Option<Vec<Ipv4Addr>>)
    ensures
        opt_addresses(r) == read_addresses(seqs::views(v@)),
{
    let ghost all = seqs::views(v@);
    let mut out: Vec<Ipv4Addr> = Vec::new();
    assert(all.take(0) =~= Seq::empty());
    let mut i: usize = 0;
    while i < v.len()
        invariant
            i <= v@.len(),
            all == seqs::views(v@),
            read_addresses(all.take(i as int)) == Some(out@),
        decreases v.len() - i,
    {
        proof {
            assert(all.take(i + 1).drop_last() =~= all.take(i as int));
            assert(all.take(i + 1).last() == v@[i as int]@);
        }
        match Ipv4Addr::parse(v[i].as_str()) {
            Some(x) => {
                out.push(x);
            },
            None => {
                proof {
                    lemma_unreadable(all, i + 1);
                }
                return None;
            },
        }
        i = i + 1;
    }
    proof {
        seqs::lemma_take_all(all);
    }
    Some(out)
}

/// Why a request is answered without being carried out.
#[derive(Debug, PartialEq, Eq)]
pub enum Refusal {
    /// The request breaks the rules of the interface.
    InvalidArgument(String),
    /// The answer says that there was no success, and why.
    Answer(String),
}

pub enum RefusalView {
    InvalidArgument(Seq<char>),
    Answer(Seq<char>),
}

impl View for Refusal {
    type V = RefusalView;

    open spec fn view(&self) -> RefusalView {
        match self {
            Refusal::InvalidArgument(s) => RefusalView::InvalidArgument(s@),
            Refusal::Answer(s) => RefusalView::Answer(s@),
        }
    }
}

/// A route that is to be added, and what it is called in the answer.
#[derive(Debug)]
pub struct RouteToAdd {
    pub key: RouteKey,
    pub attrs: PathAttrs,
    pub description: String,
}

pub struct RouteToAddView {
    pub key: RouteKeyView,
    pub attrs: PathAttrsView,
    pub description: Seq<char>,
}

impl View for RouteToAdd {
    type V = RouteToAddView;

    open spec fn view(&self) -> RouteToAddView {
        RouteToAddView { key: self.key@, attrs: self.attrs@, description: self.description@ }
    }
}

/// What a route to add, or a refusal, holds.
pub open spec fn add_result(r: Result<RouteToAdd, Refusal>) -> Result<
    RouteToAddView,
    RefusalView,
> {
    match r {
        Ok(x) => Ok(x@),
        Err(e) => Err(e@),
    }
}

/// The next hop of a link-state route: none is all zeros.
pub open spec fn read_ls_next_hop(s: Option<Seq<char>>) -> Option<NextHopAddr> {
    match s {
        Some(t) => match addr_text::read_ip(t) {
            Some(x) => Some(msg_update::next_hop_of(x)),
            None => None,
        },
        None => Some(NextHopAddr::Ipv4(Ipv4Addr { a: 0, b: 0, c: 0, d: 0 })),
    }
}

/// What a link-state route is called.
pub open spec fn ls_description(n: LsNlriView) -> Seq<char> {
    "LS "@ + text::decimal(n.nlri_type as nat)
}

/// The link-state route that a request asks for, of which `raw` is the image on
/// the wire. The route is looked at before its next hop.
pub open spec fn read_ls_route(m: messages::AddLsRouteRequestView, raw: Seq<u8>) -> Result<
    RouteToAddView,
    RefusalView,
> {
    match m.nlri {
        None => Err(RefusalView::InvalidArgument("ls route requires nlri"@)),
        Some(x) => match proto_ls::read_nlri(x, raw) {
            Err(e) => Err(RefusalView::InvalidArgument("invalid ls_nlri: "@ + e)),
            Ok(n) => match read_ls_next_hop(m.next_hop) {
                None => Err(RefusalView::InvalidArgument("invalid next_hop"@)),
                Some(next_hop) => Ok(
                    RouteToAddView {
                        key: RouteKeyView::LinkState(n),
                        attrs: ls_route_attrs(
                            next_hop,
                            match m.attribute {
                                Some(a) => Some(ls_attr::attr_items(a)),
                                None => None,
                            },
                        ),
                        description: ls_description(n),
                    },
                ),
            },
        },
    }
}

/// The attributes of a link-state route of this speaker.
pub open spec fn ls_route_attrs(
    next_hop: NextHopAddr,
    ls_attr: Option<Seq<LsAttrTlvView>>,
) -> PathAttrsView {
    PathAttrsView {
        origin: Origin::IGP,
        as_path: Seq::empty(),
        next_hop,
        source: RouteSource::Local,
        local_pref: None,
        med: None,
        atomic_aggregate: false,
        aggregator: None,
        communities: Seq::empty(),
        extended_communities: Seq::empty(),
        large_communities: Seq::empty(),
        unknown_attrs: Seq::empty(),
        originator_id: None,
        cluster_list: Seq::empty(),
        ls_attr,
    }
}

fn ls_route_attrs_of(next_hop: NextHopAddr, ls_attr: Option<LsAttr>) -> (r: PathAttrs)
    ensures
        r@ == ls_route_attrs(next_hop, bgpls::opt_ls_attr(ls_attr)),
{
    let r = PathAttrs {
        origin: Origin::IGP,
        as_path: Vec::new(),
        next_hop,
        source: RouteSource::Local,
        local_pref: None,
        med: None,
        atomic_aggregate: false,
        aggregator: None,
        communities: Vec::new(),
        extended_communities: Vec::new(),
        large_communities: Vec::new(),
        unknown_attrs: Vec::new(),
        originator_id: None,
        cluster_list: Vec::new(),
        ls_attr,
    };
    assert(r@.as_path =~= Seq::empty());
    assert(r@.unknown_attrs =~= Seq::empty());
    r
}

fn ls_route_to_add(ls: &messages::AddLsRouteRequest, raw: Vec<u8>) -> (r: Result<
    RouteToAdd,
    Refusal,
>)
    ensures
        add_result(r) == read_ls_route(ls@, raw@),
{
    let nlri = match &ls.nlri {
        None => {
            return Err(Refusal::InvalidArgument("ls route requires nlri".to_owned()));
        },
        Some(x) => match proto_to_ls_nlri(x, raw) {
            Err(e) => {
                return Err(Refusal::InvalidArgument(cat2("invalid ls_nlri: ", e.as_str())));
            },
            Ok(n) => n,
        },
    };
    let ls_attr = match &ls.attribute {
        Some(a) => Some(proto_to_ls_attr(a)),
        None => None,
    };
    let next_hop = match &ls.next_hop {
        Some(t) => match IpAddr::parse(t.as_str()) {
            Some(x) => NextHopAddr::from_ip(x),
            None => {
                return Err(Refusal::InvalidArgument("invalid next_hop".to_owned()));
            },
        },
        None => NextHopAddr::Ipv4(Ipv4Addr::unspecified()),
    };
    let description = cat2("LS ", render_decimal(nlri.nlri_type as u64).as_str());
    Ok(
        RouteToAdd {
            attrs: ls_route_attrs_of(next_hop, ls_attr),
            key: RouteKey::LinkState(Box::new(nlri)),
            description,
        },
    )
}

/// The route to a prefix that a request asks for. Its extended communities, its
/// originator and its clusters are looked at in this order.
pub open spec fn read_new_ip_route(m: messages::AddIpRouteRequestView) -> Result<
    RouteToAddView,
    RefusalView,
> {
    match read_ip_route(m) {
        Err(e) => Err(RefusalView::InvalidArgument(e)),
        Ok(r) => match conf::read_all(m.extended_communities, extcomm_reader()) {
            Err(e) => Err(RefusalView::InvalidArgument("Invalid extended community: "@ + e)),
            Ok(extended_communities) => if m.originator_id is Some && ls_attr::read_v4(
                m.originator_id,
            ) is None {
                Err(RefusalView::InvalidArgument("Invalid originator_id"@))
            } else {
                match read_addresses(m.cluster_list) {
                    None => Err(RefusalView::InvalidArgument("Invalid cluster_list"@)),
                    Some(cluster_list) => Ok(
                        RouteToAddView {
                            key: RouteKeyView::Prefix(r.prefix),
                            attrs: PathAttrsView {
                                origin: r.origin,
                                as_path: r.as_path,
                                next_hop: r.next_hop,
                                source: RouteSource::Local,
                                local_pref: m.local_pref,
                                med: m.med,
                                atomic_aggregate: m.atomic_aggregate,
                                aggregator: None,
                                communities: m.communities,
                                extended_communities,
                                large_communities: read_larges(m.large_communities),
                                unknown_attrs: Seq::empty(),
                                originator_id: ls_attr::read_v4(m.originator_id),
                                cluster_list,
                                ls_attr: None,
                            },
                            description: m.prefix,
                        },
                    ),
                }
            },
        },
    }
}

fn ip_route_to_add(ip: &messages::AddIpRouteRequest) -> (r: Result<RouteToAdd, Refusal>)
    ensures
        add_result(r) == read_new_ip_route(ip@),
{
    let (prefix, next_hop, origin, as_path) = match parse_add_ip_route(ip) {
        Ok(x) => x,
        Err(e) => {
            return Err(Refusal::InvalidArgument(e));
        },
    };
    let extended_communities = match extcomms_from_proto(&ip.extended_communities) {
        Ok(x) => x,
        Err(e) => {
            return Err(
                Refusal::InvalidArgument(cat2("Invalid extended community: ", e.as_str())),
            );
        },
    };
    let originator_id = match &ip.originator_id {
        Some(t) => match Ipv4Addr::parse(t.as_str()) {
            Some(x) => Some(x),
            None => {
                return Err(Refusal::InvalidArgument("Invalid originator_id".to_owned()));
            },
        },
        None => None,
    };
    let cluster_list = match addresses_from_proto(&ip.cluster_list) {
        Some(x) => x,
        None => {
            return Err(Refusal::InvalidArgument("Invalid cluster_list".to_owned()));
        },
    };
    let attrs = PathAttrs {
        origin,
        as_path,
        next_hop,
        source: RouteSource::Local,
        local_pref: ip.local_pref,
        med: ip.med,
        atomic_aggregate: ip.atomic_aggregate,
        aggregator: None,
        communities: copy_items(&ip.communities),
        extended_communities,
        large_communities: larges_from_proto(&ip.large_communities),
        unknown_attrs: Vec::new(),
        originator_id,
        cluster_list,
        ls_attr: None,
    };
    assert(attrs@.unknown_attrs =~= Seq::empty());
    Ok(RouteToAdd { key: RouteKey::Prefix(prefix), attrs, description: ip.prefix.clone() })
}

/// The route that a request asks for; `raw` is the image on the wire of one that
/// is a link-state route.
pub open spec fn read_add_route(m: messages::AddRouteRequestView, raw: Seq<u8>) -> Result<
    RouteToAddView,
    RefusalView,
> {
    match m.route {
        Some(messages::NewRouteView::Ls(x)) => read_ls_route(x, raw),
        Some(messages::NewRouteView::Ip(x)) => read_new_ip_route(x),
        None => Err(RefusalView::Answer("request must contain either ip or ls route"@)),
    }
}

/// The route that a request asks for; `raw` is the image on the wire of one that
/// is a link-state route.
pub fn route_to_add(req: &messages::AddRouteRequest, raw: Vec<u8>) -> (r: Result<
    RouteToAdd,
    Refusal,
>)
    ensures
        add_result(r) == read_add_route(req@, raw@),
{
    match &req.route {
        Some(messages::NewRoute::Ls(x)) => ls_route_to_add(x, raw),
        Some(messages::NewRoute::Ip(x)) => ip_route_to_add(x),
        None => Err(Refusal::Answer("request must contain either ip or ls route".to_owned())),
    }
}

/// What an optional route to add holds.
pub open spec fn opt_add(r: Option<RouteToAdd>) -> Option<RouteToAddView> {
    match r {
        Some(x) => Some(x@),
        None => None,
    }
}

/// The route that a request of a stream asks for; requests that are refused, and
/// those for link-state routes, are passed over.
pub open spec fn read_streamed(m: messages::AddRouteRequestView) -> Option<RouteToAddView> {
    match m.route {
        Some(messages::NewRouteView::Ip(x)) => match read_new_ip_route(x) {
            Ok(y) => Some(y),
            Err(_) => None,
        },
        _ => None,
    }
}

/// The route that a request of a stream asks for; requests that are refused, and
/// those for link-state routes, are passed over.
pub fn streamed_route(req: &messages::AddRouteRequest) -> (r: Option<RouteToAdd>)
    ensures
        opt_add(r) == read_streamed(req@),
{
    match &req.route {
        Some(messages::NewRoute::Ip(x)) => match ip_route_to_add(x) {
            Ok(y) => Some(y),
            Err(_) => None,
        },
        _ => None,
    }
}

/// The network that a text denotes, of which the length may be any number below
/// 256.
pub open spec fn read_loose_network(s: Seq<char>) -> Result<IpNetwork, RefusalView> {
    match text::split_once_at(s, '/') {
        None => Err(RefusalView::Answer("Invalid prefix format, expected CIDR"@)),
        Some((address, length)) => if length.contains('/') {
            Err(RefusalView::Answer("Invalid prefix format, expected CIDR"@))
        } else {
            match addr_text::read_ip(address) {
                None => Err(RefusalView::InvalidArgument("Invalid IP address"@)),
                Some(x) => match text::read_decimal(length, 255) {
                    None => Err(RefusalView::InvalidArgument("Invalid prefix length"@)),
                    Some(n) => Ok(
                        match x {
                            IpAddr::V4(address) => IpNetwork::V4(
                                Ipv4Net { address, prefix_length: n as u8 },
                            ),
                            IpAddr::V6(address) => IpNetwork::V6(
                                Ipv6Net { address, prefix_length: n as u8 },
                            ),
                        },
                    ),
                },
            }
        },
    }
}

/// What a network, or a refusal, holds.
pub open spec fn network_result(r: Result<IpNetwork, Refusal>) -> Result<IpNetwork, RefusalView> {
    match r {
        Ok(x) => Ok(x),
        Err(e) => Err(e@),
    }
}

fn parse_loose_network(s: &str) -> (r: Result<IpNetwork, Refusal>)
    ensures
        network_result(r) == read_loose_network(s@),
{
    let (address, length) = match split_once(s, '/') {
        Some(x) => x,
        None => {
            return Err(Refusal::Answer("Invalid prefix format, expected CIDR".to_owned()));
        },
    };
    proof {
        length@.index_of_first_ensures('/');
    }
    if split_once(length, '/').is_some() {
        return Err(Refusal::Answer("Invalid prefix format, expected CIDR".to_owned()));
    }
    let x = match IpAddr::parse(address) {
        Some(x) => x,
        None => {
            return Err(Refusal::InvalidArgument("Invalid IP address".to_owned()));
        },
    };
    let n: u64 = match parse_decimal(length, 255) {
        Some(n) => n,
        None => {
            return Err(Refusal::InvalidArgument("Invalid prefix length".to_owned()));
        },
    };
    Ok(
        match x {
            IpAddr::V4(address) => IpNetwork::V4(Ipv4Net { address, prefix_length: n as u8 }),
            IpAddr::V6(address) => IpNetwork::V6(Ipv6Net { address, prefix_length: n as u8 }),
        },
    )
}

/// The route that a request asks to remove, and what it is called; `raw` is the
/// image on the wire of one that is a link-state route.
pub open spec fn read_remove_route(m: messages::RemoveRouteRequestView, raw: Seq<u8>) -> Result<
    (RouteKeyView, Seq<char>),
    RefusalView,
> {
    match m.key {
        Some(messages::KeyView::LsNlri(x)) => match proto_ls::read_nlri(x, raw) {
            Err(e) => Err(RefusalView::InvalidArgument("invalid ls_nlri: "@ + e)),
            Ok(n) => Ok((RouteKeyView::LinkState(n), ls_description(n))),
        },
        Some(messages::KeyView::Prefix(s)) => match read_loose_network(s) {
            Err(e) => Err(e),
            Ok(p) => Ok((RouteKeyView::Prefix(p), s)),
        },
        None => Err(RefusalView::Answer("request must contain either prefix or ls_nlri"@)),
    }
}

/// What a route to remove, or a refusal, holds.
pub open spec fn remove_result(r: Result<(RouteKey, String), Refusal>) -> Result<
    (RouteKeyView, Seq<char>),
    RefusalView,
> {
    match r {
        Ok((k, s)) => Ok((k@, s@)),
        Err(e) => Err(e@),
    }
}

/// The route that a request asks to remove; `raw` is the image on the wire of one
/// that is a link-state route.
pub fn route_to_remove(req: &messages::RemoveRouteRequest, raw: Vec<u8>) -> (r: Result<
    (RouteKey, String),
    Refusal,
>)
    ensures
        remove_result(r) == read_remove_route(req@, raw@),
{
    match &req.key {
        Some(messages::Key::LsNlri(x)) => match proto_to_ls_nlri(x, raw) {
            Err(e) => Err(Refusal::InvalidArgument(cat2("invalid ls_nlri: ", e.as_str()))),
            Ok(n) => {
                let description = cat2("LS ", render_decimal(n.nlri_type as u64).as_str());
                Ok((RouteKey::LinkState(Box::new(n)), description))
            },
        },
        Some(messages::Key::Prefix(s)) => match parse_loose_network(s.as_str()) {
            Err(e) => Err(e),
            Ok(p) => Ok((RouteKey::Prefix(p), s.clone())),
        },
        None => Err(Refusal::Answer("request must contain either prefix or ls_nlri".to_owned())),
    }
}

} // verus!
