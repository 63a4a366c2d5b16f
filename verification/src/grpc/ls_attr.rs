//! Link-state attributes of messages and those of paths.

use crate::bgp::bgpls::{
    LinkAttrTlv, LinkAttrTlvView, LsAttr, LsAttrTlv, LsAttrTlvView, NodeAttrTlv, NodeAttrTlvView,
    PrefixAttrTlv, PrefixAttrTlvView,
};
use crate::conf;
use crate::grpc::proto::ls as messages;
use crate::grpc::proto_ls;
use crate::grpc::proto_ls::{tlv_from_proto, tlv_to_proto, v6_from_proto};
use crate::net::addr::{IpAddr, Ipv4Addr, Ipv6Addr};
use crate::net::addr_text;
use crate::seqs;
use crate::seqs::copy_items;
use vstd::prelude::*;

verus! {

// ---------------------------------------------------------------------------
// From messages
// ---------------------------------------------------------------------------

/// What `f` makes of an optional value: one item, or none.
pub open spec fn made<A, B>(x: Option<A>, f: spec_fn(A) -> B) -> Seq<B> {
    match x {
        Some(v) => seq![f(v)],
        None => Seq::empty(),
    }
}

/// The IPv4 address that a text denotes, if it denotes one.
pub open spec fn read_v4(s: Option<Seq<char>>) -> Option<Ipv4Addr> {
    match s {
        Some(t) => addr_text::read_ipv4(t),
        None => None,
    }
}

/// The address of either family that a text denotes, if it denotes one.
pub open spec fn read_any(s: Option<Seq<char>>) -> Option<IpAddr> {
    match s {
        Some(t) => addr_text::read_ip(t),
        None => None,
    }
}

/// Eight numbers; a list of another length says nothing.
pub open spec fn all_eight(s: Seq<u32>) -> Option<Seq<u32>> {
    if s.len() == 8 {
        Some(s)
    } else {
        None
    }
}

fn v4_from_proto(s: &Option<String>) -> (r: Option<Ipv4Addr>)
    ensures
        r == read_v4(seqs::opt_text(*s)),
{
    match s {
        Some(t) => Ipv4Addr::parse(t.as_str()),
        None => None,
    }
}

fn ip_from_proto(s: &Option<String>) -> (r: Option<IpAddr>)
    ensures
        r == read_any(seqs::opt_text(*s)),
{
    match s {
        Some(t) => IpAddr::parse(t.as_str()),
        None => None,
    }
}

/// What eight numbers hold, where there are eight.
pub open spec fn opt_eight(v: Option<[u32; 8]>) -> Option<Seq<u32>> {
    match v {
        Some(a) => Some(a@),
        None => None,
    }
}

fn eight_from_proto(v: &Vec<u32>) -> (r: Option<[u32; 8]>)
    ensures
        opt_eight(r) == all_eight(v@),
{
    if v.len() == 8 {
        let a: [u32; 8] = [v[0], v[1], v[2], v[3], v[4], v[5], v[6], v[7]];
        assert(a@ =~= v@);
        Some(a)
    } else {
        None
    }
}

fn eight_to_vec(a: &[u32; 8]) -> (r: Vec<u32>)
    ensures
        r@ == a@,
{
    let r: Vec<u32> = vec![a[0], a[1], a[2], a[3], a[4], a[5], a[6], a[7]];
    assert(r@ =~= a@);
    r
}

/// Appends an item, if there is one.
fn push_opt<T: View>(items: &mut Vec<T>, x: Option<T>)
    ensures
        match x {
            Some(v) => seqs::views(final(items)@) == seqs::views(old(items)@) + seq![v@],
            None => seqs::views(final(items)@) == seqs::views(old(items)@),
        },
{
    match x {
        Some(v) => {
            let ghost before = items@;
            items.push(v);
            proof {
                seqs::lemma_views_push(before, v);
                assert(seqs::views(before).push(v@) =~= seqs::views(before) + seq![v@]);
            }
        },
        None => {},
    }
}

/// The items of the attributes of a node, in a fixed order.
pub open spec fn node_items(m: messages::LsNodeAttributeView) -> Seq<NodeAttrTlvView> {
    made(m.flag_bits, |v: u32| NodeAttrTlvView::FlagBits(v as u8))
        + made(m.opaque, |v: Seq<u8>| NodeAttrTlvView::Opaque(v))
        + made(m.name, |v: Seq<char>| NodeAttrTlvView::Name(v))
        + made(proto_ls::said(m.isis_area_id), |v: Seq<u8>| NodeAttrTlvView::IsisAreaId(v))
        + made(read_v4(m.ipv4_router_id), |v: Ipv4Addr| NodeAttrTlvView::Ipv4RouterId(v))
        + made(proto_ls::read_v6(m.ipv6_router_id), |v: Ipv6Addr| NodeAttrTlvView::Ipv6RouterId(v))
}

fn node_from_proto(m: &messages::LsNodeAttribute) -> (r: Vec<NodeAttrTlv>)
    ensures
        seqs::views(r@) == node_items(m@),
{
    let mut items: Vec<NodeAttrTlv> = Vec::new();
    let ghost mut s: Seq<NodeAttrTlvView> = Seq::empty();
    assert(seqs::views(items@) =~= s);
    push_opt(
        &mut items,
        match m.flag_bits {
            Some(v) => Some(NodeAttrTlv::FlagBits(v as u8)),
            None => None,
        },
    );
    proof {
        let p = made(m@.flag_bits, |v: u32| NodeAttrTlvView::FlagBits(v as u8));
        assert(seqs::views(items@) =~= s + p);
        s = s + p;
    }
    push_opt(
        &mut items,
        match &m.opaque {
            Some(v) => Some(NodeAttrTlv::Opaque(copy_items(v))),
            None => None,
        },
    );
    proof {
        let p = made(m@.opaque, |v: Seq<u8>| NodeAttrTlvView::Opaque(v));
        assert(seqs::views(items@) =~= s + p);
        s = s + p;
    }
    push_opt(
        &mut items,
        match &m.name {
            Some(v) => Some(NodeAttrTlv::Name(v.clone())),
            None => None,
        },
    );
    proof {
        let p = made(m@.name, |v: Seq<char>| NodeAttrTlvView::Name(v));
        assert(seqs::views(items@) =~= s + p);
        s = s + p;
    }
    push_opt(
        &mut items,
        if m.isis_area_id.len() == 0 {
            None
        } else {
            Some(NodeAttrTlv::IsisAreaId(copy_items(&m.isis_area_id)))
        },
    );
    proof {
        let p = made(proto_ls::said(m@.isis_area_id), |v: Seq<u8>| NodeAttrTlvView::IsisAreaId(v));
        assert(seqs::views(items@) =~= s + p);
        s = s + p;
    }
    push_opt(
        &mut items,
        match v4_from_proto(&m.ipv4_router_id) {
            Some(v) => Some(NodeAttrTlv::Ipv4RouterId(v)),
            None => None,
        },
    );
    proof {
        let p = made(read_v4(m@.ipv4_router_id), |v: Ipv4Addr| NodeAttrTlvView::Ipv4RouterId(v));
        assert(seqs::views(items@) =~= s + p);
        s = s + p;
    }
    push_opt(
        &mut items,
        match v6_from_proto(&m.ipv6_router_id) {
            Some(v) => Some(NodeAttrTlv::Ipv6RouterId(v)),
            None => None,
        },
    );
    proof {
        let p = made(
            proto_ls::read_v6(m@.ipv6_router_id),
            |v: Ipv6Addr| NodeAttrTlvView::Ipv6RouterId(v),
        );
        assert(seqs::views(items@) =~= s + p);
        s = s + p;
    }
    assert(s =~= node_items(m@));
    items
}

/// The items that tell the routers at the ends of a link.
pub open spec fn link_end_items(m: messages::LsLinkAttributeView) -> Seq<LinkAttrTlvView> {
    made(read_v4(m.ipv4_router_id_local), |v: Ipv4Addr| LinkAttrTlvView::Ipv4RouterIdLocal(v))
        + made(
            proto_ls::read_v6(m.ipv6_router_id_local),
            |v: Ipv6Addr| LinkAttrTlvView::Ipv6RouterIdLocal(v),
        )
        + made(
            read_v4(m.ipv4_router_id_remote),
            |v: Ipv4Addr| LinkAttrTlvView::Ipv4RouterIdRemote(v),
        )
        + made(
            proto_ls::read_v6(m.ipv6_router_id_remote),
            |v: Ipv6Addr| LinkAttrTlvView::Ipv6RouterIdRemote(v),
        )
}

fn link_end_from_proto(m: &messages::LsLinkAttribute) -> (r: Vec<LinkAttrTlv>)
    ensures
        seqs::views(r@) == link_end_items(m@),
{
    let mut items: Vec<LinkAttrTlv> = Vec::new();
    let ghost mut s: Seq<LinkAttrTlvView> = Seq::empty();
    assert(seqs::views(items@) =~= s);
    push_opt(
        &mut items,
        match v4_from_proto(&m.ipv4_router_id_local) {
            Some(v) => Some(LinkAttrTlv::Ipv4RouterIdLocal(v)),
            None => None,
        },
    );
    proof {
        let p = made(
            read_v4(m@.ipv4_router_id_local),
            |v: Ipv4Addr| LinkAttrTlvView::Ipv4RouterIdLocal(v),
        );
        assert(seqs::views(items@) =~= s + p);
        s = s + p;
    }
    push_opt(
        &mut items,
        match v6_from_proto(&m.ipv6_router_id_local) {
            Some(v) => Some(LinkAttrTlv::Ipv6RouterIdLocal(v)),
            None => None,
        },
    );
    proof {
        let p = made(
            proto_ls::read_v6(m@.ipv6_router_id_local),
            |v: Ipv6Addr| LinkAttrTlvView::Ipv6RouterIdLocal(v),
        );
        assert(seqs::views(items@) =~= s + p);
        s = s + p;
    }
    push_opt(
        &mut items,
        match v4_from_proto(&m.ipv4_router_id_remote) {
            Some(v) => Some(LinkAttrTlv::Ipv4RouterIdRemote(v)),
            None => None,
        },
    );
    proof {
        let p = made(
            read_v4(m@.ipv4_router_id_remote),
            |v: Ipv4Addr| LinkAttrTlvView::Ipv4RouterIdRemote(v),
        );
        assert(seqs::views(items@) =~= s + p);
        s = s + p;
    }
    push_opt(
        &mut items,
        match v6_from_proto(&m.ipv6_router_id_remote) {
            Some(v) => Some(LinkAttrTlv::Ipv6RouterIdRemote(v)),
            None => None,
        },
    );
    proof {
        let p = made(
            proto_ls::read_v6(m@.ipv6_router_id_remote),
            |v: Ipv6Addr| LinkAttrTlvView::Ipv6RouterIdRemote(v),
        );
        assert(seqs::views(items@) =~= s + p);
        s = s + p;
    }
    assert(s =~= link_end_items(m@));
    items
}

/// The items on the use of a link: its group and its bandwidths.
pub open spec fn link_bandwidth_items(m: messages::LsLinkAttributeView) -> Seq<LinkAttrTlvView> {
    made(m.admin_group, |v: u32| LinkAttrTlvView::AdminGroup(v))
        + made(m.max_link_bandwidth_bits, |v: u32| LinkAttrTlvView::MaxLinkBw(v))
        + made(m.max_reservable_bandwidth_bits, |v: u32| LinkAttrTlvView::MaxRsvblLinkBw(v))
        + made(
            all_eight(m.unreserved_bandwidth_bits),
            |v: Seq<u32>| LinkAttrTlvView::UnreservedBw(v),
        )
}

fn link_bandwidth_from_proto(m: &messages::LsLinkAttribute) -> (r: Vec<LinkAttrTlv>)
    ensures
        seqs::views(r@) == link_bandwidth_items(m@),
{
    let mut items: Vec<LinkAttrTlv> = Vec::new();
    let ghost mut s: Seq<LinkAttrTlvView> = Seq::empty();
    assert(seqs::views(items@) =~= s);
    push_opt(
        &mut items,
        match m.admin_group {
            Some(v) => Some(LinkAttrTlv::AdminGroup(v)),
            None => None,
        },
    );
    proof {
        let p = made(m@.admin_group, |v: u32| LinkAttrTlvView::AdminGroup(v));
        assert(seqs::views(items@) =~= s + p);
        s = s + p;
    }
    push_opt(
        &mut items,
        match m.max_link_bandwidth_bits {
            Some(v) => Some(LinkAttrTlv::MaxLinkBw(v)),
            None => None,
        },
    );
    proof {
        let p = made(m@.max_link_bandwidth_bits, |v: u32| LinkAttrTlvView::MaxLinkBw(v));
        assert(seqs::views(items@) =~= s + p);
        s = s + p;
    }
    push_opt(
        &mut items,
        match m.max_reservable_bandwidth_bits {
            Some(v) => Some(LinkAttrTlv::MaxRsvblLinkBw(v)),
            None => None,
        },
    );
    proof {
        let p = made(m@.max_reservable_bandwidth_bits, |v: u32| LinkAttrTlvView::MaxRsvblLinkBw(v));
        assert(seqs::views(items@) =~= s + p);
        s = s + p;
    }
    push_opt(
        &mut items,
        match eight_from_proto(&m.unreserved_bandwidth_bits) {
            Some(v) => Some(LinkAttrTlv::UnreservedBw(v)),
            None => None,
        },
    );
    proof {
        let p = made(
            all_eight(m@.unreserved_bandwidth_bits),
            |v: Seq<u32>| LinkAttrTlvView::UnreservedBw(v),
        );
        assert(seqs::views(items@) =~= s + p);
        s = s + p;
    }
    assert(s =~= link_bandwidth_items(m@));
    items
}

/// The items on the metrics and the protection of a link.
pub open spec fn link_cost_items(m: messages::LsLinkAttributeView) -> Seq<LinkAttrTlvView> {
    made(m.te_default_metric, |v: u32| LinkAttrTlvView::TeDefaultMetric(v))
        + made(m.link_protection, |v: u32| LinkAttrTlvView::LinkProtection(v as u16))
        + made(m.mpls_protocol_mask, |v: u32| LinkAttrTlvView::MplsProtocolMask(v as u8))
        + made(m.igp_metric, |v: u32| LinkAttrTlvView::IgpMetric(v))
}

fn link_cost_from_proto(m: &messages::LsLinkAttribute) -> (r: Vec<LinkAttrTlv>)
    ensures
        seqs::views(r@) == link_cost_items(m@),
{
    let mut items: Vec<LinkAttrTlv> = Vec::new();
    let ghost mut s: Seq<LinkAttrTlvView> = Seq::empty();
    assert(seqs::views(items@) =~= s);
    push_opt(
        &mut items,
        match m.te_default_metric {
            Some(v) => Some(LinkAttrTlv::TeDefaultMetric(v)),
            None => None,
        },
    );
    proof {
        let p = made(m@.te_default_metric, |v: u32| LinkAttrTlvView::TeDefaultMetric(v));
        assert(seqs::views(items@) =~= s + p);
        s = s + p;
    }
    push_opt(
        &mut items,
        match m.link_protection {
            Some(v) => Some(LinkAttrTlv::LinkProtection(v as u16)),
            None => None,
        },
    );
    proof {
        let p = made(m@.link_protection, |v: u32| LinkAttrTlvView::LinkProtection(v as u16));
        assert(seqs::views(items@) =~= s + p);
        s = s + p;
    }
    push_opt(
        &mut items,
        match m.mpls_protocol_mask {
            Some(v) => Some(LinkAttrTlv::MplsProtocolMask(v as u8)),
            None => None,
        },
    );
    proof {
        let p = made(m@.mpls_protocol_mask, |v: u32| LinkAttrTlvView::MplsProtocolMask(v as u8));
        assert(seqs::views(items@) =~= s + p);
        s = s + p;
    }
    push_opt(
        &mut items,
        match m.igp_metric {
            Some(v) => Some(LinkAttrTlv::IgpMetric(v)),
            None => None,
        },
    );
    proof {
        let p = made(m@.igp_metric, |v: u32| LinkAttrTlvView::IgpMetric(v));
        assert(seqs::views(items@) =~= s + p);
        s = s + p;
    }
    assert(s =~= link_cost_items(m@));
    items
}

/// The items on what else is known of a link.
pub open spec fn link_other_items(m: messages::LsLinkAttributeView) -> Seq<LinkAttrTlvView> {
    made(proto_ls::said(m.srlg), |v: Seq<u32>| LinkAttrTlvView::Srlg(v))
        + made(m.opaque, |v: Seq<u8>| LinkAttrTlvView::Opaque(v))
        + made(m.name, |v: Seq<char>| LinkAttrTlvView::Name(v))
}

fn link_other_from_proto(m: &messages::LsLinkAttribute) -> (r: Vec<LinkAttrTlv>)
    ensures
        seqs::views(r@) == link_other_items(m@),
{
    let mut items: Vec<LinkAttrTlv> = Vec::new();
    let ghost mut s: Seq<LinkAttrTlvView> = Seq::empty();
    assert(seqs::views(items@) =~= s);
    push_opt(
        &mut items,
        if m.srlg.len() == 0 {
            None
        } else {
            Some(LinkAttrTlv::Srlg(copy_items(&m.srlg)))
        },
    );
    proof {
        let p = made(proto_ls::said(m@.srlg), |v: Seq<u32>| LinkAttrTlvView::Srlg(v));
        assert(seqs::views(items@) =~= s + p);
        s = s + p;
    }
    push_opt(
        &mut items,
        match &m.opaque {
            Some(v) => Some(LinkAttrTlv::Opaque(copy_items(v))),
            None => None,
        },
    );
    proof {
        let p = made(m@.opaque, |v: Seq<u8>| LinkAttrTlvView::Opaque(v));
        assert(seqs::views(items@) =~= s + p);
        s = s + p;
    }
    push_opt(
        &mut items,
        match &m.name {
            Some(v) => Some(LinkAttrTlv::Name(v.clone())),
            None => None,
        },
    );
    proof {
        let p = made(m@.name, |v: Seq<char>| LinkAttrTlvView::Name(v));
        assert(seqs::views(items@) =~= s + p);
        s = s + p;
    }
    assert(s =~= link_other_items(m@));
    items
}

/// The items of the attributes of a link, in a fixed order.
pub open spec fn link_items(m: messages::LsLinkAttributeView) -> Seq<LinkAttrTlvView> {
    link_end_items(m) + link_bandwidth_items(m) + link_cost_items(m) + link_other_items(m)
}

fn link_from_proto(m: &messages::LsLinkAttribute) -> (r: Vec<LinkAttrTlv>)
    ensures
        seqs::views(r@) == link_items(m@),
{
    let mut items = link_end_from_proto(m);
    let mut bandwidths = link_bandwidth_from_proto(m);
    let mut costs = link_cost_from_proto(m);
    let mut others = link_other_from_proto(m);
    items.append(&mut bandwidths);
    items.append(&mut costs);
    items.append(&mut others);
    assert(seqs::views(items@) =~= link_items(m@));
    items
}

/// The items of the attributes of a prefix, in a fixed order.
pub open spec fn prefix_items(m: messages::LsPrefixAttributeView) -> Seq<PrefixAttrTlvView> {
    made(m.igp_flags, |v: u32| PrefixAttrTlvView::IgpFlags(v as u8))
        + made(proto_ls::said(m.igp_route_tag), |v: Seq<u32>| PrefixAttrTlvView::IgpRouteTag(v))
        + made(
            proto_ls::said(m.igp_extended_route_tag),
            |v: Seq<u64>| PrefixAttrTlvView::IgpExtendedRouteTag(v),
        )
        + made(m.metric, |v: u32| PrefixAttrTlvView::Metric(v))
        + made(read_any(m.ospf_forwarding_addr), |v: IpAddr| PrefixAttrTlvView::OspfFwdAddr(v))
        + made(m.opaque, |v: Seq<u8>| PrefixAttrTlvView::Opaque(v))
}

fn prefix_from_proto(m: &messages::LsPrefixAttribute) -> (r: Vec<PrefixAttrTlv>)
    ensures
        seqs::views(r@) == prefix_items(m@),
{
    let mut items: Vec<PrefixAttrTlv> = Vec::new();
    let ghost mut s: Seq<PrefixAttrTlvView> = Seq::empty();
    assert(seqs::views(items@) =~= s);
    push_opt(
        &mut items,
        match m.igp_flags {
            Some(v) => Some(PrefixAttrTlv::IgpFlags(v as u8)),
            None => None,
        },
    );
    proof {
        let p = made(m@.igp_flags, |v: u32| PrefixAttrTlvView::IgpFlags(v as u8));
        assert(seqs::views(items@) =~= s + p);
        s = s + p;
    }
    push_opt(
        &mut items,
        if m.igp_route_tag.len() == 0 {
            None
        } else {
            Some(PrefixAttrTlv::IgpRouteTag(copy_items(&m.igp_route_tag)))
        },
    );
    proof {
        let p = made(
            proto_ls::said(m@.igp_route_tag),
            |v: Seq<u32>| PrefixAttrTlvView::IgpRouteTag(v),
        );
        assert(seqs::views(items@) =~= s + p);
        s = s + p;
    }
    push_opt(
        &mut items,
        if m.igp_extended_route_tag.len() == 0 {
            None
        } else {
            Some(PrefixAttrTlv::IgpExtendedRouteTag(copy_items(&m.igp_extended_route_tag)))
        },
    );
    proof {
        let p = made(
            proto_ls::said(m@.igp_extended_route_tag),
            |v: Seq<u64>| PrefixAttrTlvView::IgpExtendedRouteTag(v),
        );
        assert(seqs::views(items@) =~= s + p);
        s = s + p;
    }
    push_opt(
        &mut items,
        match m.metric {
            Some(v) => Some(PrefixAttrTlv::Metric(v)),
            None => None,
        },
    );
    proof {
        let p = made(m@.metric, |v: u32| PrefixAttrTlvView::Metric(v));
        assert(seqs::views(items@) =~= s + p);
        s = s + p;
    }
    push_opt(
        &mut items,
        match ip_from_proto(&m.ospf_forwarding_addr) {
            Some(v) => Some(PrefixAttrTlv::OspfFwdAddr(v)),
            None => None,
        },
    );
    proof {
        let p = made(
            read_any(m@.ospf_forwarding_addr),
            |v: IpAddr| PrefixAttrTlvView::OspfFwdAddr(v),
        );
        assert(seqs::views(items@) =~= s + p);
        s = s + p;
    }
    push_opt(
        &mut items,
        match &m.opaque {
            Some(v) => Some(PrefixAttrTlv::Opaque(copy_items(v))),
            None => None,
        },
    );
    proof {
        let p = made(m@.opaque, |v: Seq<u8>| PrefixAttrTlvView::Opaque(v));
        assert(seqs::views(items@) =~= s + p);
        s = s + p;
    }
    assert(s =~= prefix_items(m@));
    items
}

/// The items of an attribute: those of a node, of a link and of a prefix, and
/// those of other types behind them.
pub open spec fn attr_items(m: messages::LsAttributeView) -> Seq<LsAttrTlvView> {
    as_node_items(
        match m.node {
            Some(x) => node_items(x),
            None => Seq::empty(),
        },
    ) + as_link_items(
        match m.link {
            Some(x) => link_items(x),
            None => Seq::empty(),
        },
    ) + as_prefix_items(
        match m.prefix {
            Some(x) => prefix_items(x),
            None => Seq::empty(),
        },
    ) + as_other_items(m.tlvs)
}

pub open spec fn as_node_items(s: Seq<NodeAttrTlvView>) -> Seq<LsAttrTlvView> {
    Seq::new(s.len(), |i: int| LsAttrTlvView::Node(s[i]))
}

pub open spec fn as_link_items(s: Seq<LinkAttrTlvView>) -> Seq<LsAttrTlvView> {
    Seq::new(s.len(), |i: int| LsAttrTlvView::Link(s[i]))
}

pub open spec fn as_prefix_items(s: Seq<PrefixAttrTlvView>) -> Seq<LsAttrTlvView> {
    Seq::new(s.len(), |i: int| LsAttrTlvView::Prefix(s[i]))
}

pub open spec fn as_other_items(s: Seq<messages::LsTlvView>) -> Seq<LsAttrTlvView> {
    Seq::new(s.len(), |i: int| LsAttrTlvView::Unknown(proto_ls::read_tlv(s[i])))
}

fn append_node(tlvs: &mut Vec<LsAttrTlv>, m: &Option<messages::LsNodeAttribute>)
    ensures
        seqs::views(final(tlvs)@) == seqs::views(old(tlvs)@) + as_node_items(
            match conf::opt_view(*m) {
                Some(x) => node_items(x),
                None => Seq::empty(),
            },
        ),
{
    let ghost start = seqs::views(tlvs@);
    let items: Vec<NodeAttrTlv> = match m {
        Some(x) => node_from_proto(x),
        None => Vec::new(),
    };
    let ghost read = match conf::opt_view(*m) {
        Some(x) => node_items(x),
        None => Seq::empty(),
    };
    let ghost all = as_node_items(read);
    assert(seqs::views(items@) =~= read);
    assert(all.take(0) =~= Seq::empty());
    assert(start + all.take(0) =~= start);
    for x in it: items
        invariant
            it.seq() == items@,
            seqs::views(items@) == read,
            all == as_node_items(read),
            seqs::views(tlvs@) == start + all.take(it.index()),
    {
        let ghost k = it.index();
        let t = LsAttrTlv::Node(x);
        proof {
            assert(read[k] == x@);
            assert(all[k] == t@);
            seqs::lemma_views_push(tlvs@, t);
            seqs::lemma_take_next(all, k);
            assert((start + all.take(k)).push(t@) =~= start + all.take(k).push(t@));
        }
        tlvs.push(t);
    }
    proof {
        seqs::lemma_take_all(all);
    }
}

fn append_link(tlvs: &mut Vec<LsAttrTlv>, m: &Option<messages::LsLinkAttribute>)
    ensures
        seqs::views(final(tlvs)@) == seqs::views(old(tlvs)@) + as_link_items(
            match conf::opt_view(*m) {
                Some(x) => link_items(x),
                None => Seq::empty(),
            },
        ),
{
    let ghost start = seqs::views(tlvs@);
    let items: Vec<LinkAttrTlv> = match m {
        Some(x) => link_from_proto(x),
        None => Vec::new(),
    };
    let ghost read = match conf::opt_view(*m) {
        Some(x) => link_items(x),
        None => Seq::empty(),
    };
    let ghost all = as_link_items(read);
    assert(seqs::views(items@) =~= read);
    assert(all.take(0) =~= Seq::empty());
    assert(start + all.take(0) =~= start);
    for x in it: items
        invariant
            it.seq() == items@,
            seqs::views(items@) == read,
            all == as_link_items(read),
            seqs::views(tlvs@) == start + all.take(it.index()),
    {
        let ghost k = it.index();
        let t = LsAttrTlv::Link(x);
        proof {
            assert(read[k] == x@);
            assert(all[k] == t@);
            seqs::lemma_views_push(tlvs@, t);
            seqs::lemma_take_next(all, k);
            assert((start + all.take(k)).push(t@) =~= start + all.take(k).push(t@));
        }
        tlvs.push(t);
    }
    proof {
        seqs::lemma_take_all(all);
    }
}

fn append_prefix(tlvs: &mut Vec<LsAttrTlv>, m: &Option<messages::LsPrefixAttribute>)
    ensures
        seqs::views(final(tlvs)@) == seqs::views(old(tlvs)@) + as_prefix_items(
            match conf::opt_view(*m) {
                Some(x) => prefix_items(x),
                None => Seq::empty(),
            },
        ),
{
    let ghost start = seqs::views(tlvs@);
    let items: Vec<PrefixAttrTlv> = match m {
        Some(x) => prefix_from_proto(x),
        None => Vec::new(),
    };
    let ghost read = match conf::opt_view(*m) {
        Some(x) => prefix_items(x),
        None => Seq::empty(),
    };
    let ghost all = as_prefix_items(read);
    assert(seqs::views(items@) =~= read);
    assert(all.take(0) =~= Seq::empty());
    assert(start + all.take(0) =~= start);
    for x in it: items
        invariant
            it.seq() == items@,
            seqs::views(items@) == read,
            all == as_prefix_items(read),
            seqs::views(tlvs@) == start + all.take(it.index()),
    {
        let ghost k = it.index();
        let t = LsAttrTlv::Prefix(x);
        proof {
            assert(read[k] == x@);
            assert(all[k] == t@);
            seqs::lemma_views_push(tlvs@, t);
            seqs::lemma_take_next(all, k);
            assert((start + all.take(k)).push(t@) =~= start + all.take(k).push(t@));
        }
        tlvs.push(t);
    }
    proof {
        seqs::lemma_take_all(all);
    }
}

/// The link-state attribute that a message denotes.
pub fn proto_to_ls_attr(proto_attr: &messages::LsAttribute) -> (r: LsAttr)
    ensures
        r@ == attr_items(proto_attr@),
{
    let mut tlvs: Vec<LsAttrTlv> = Vec::new();
    append_node(&mut tlvs, &proto_attr.node);
    append_link(&mut tlvs, &proto_attr.link);
    append_prefix(&mut tlvs, &proto_attr.prefix);
    let ghost start = seqs::views(tlvs@);
    let raw = &proto_attr.tlvs;
    let ghost all = as_other_items(seqs::views(raw@));
    assert(start + all.take(0) =~= start);
    let mut i: usize = 0;
    while i < raw.len()
        invariant
            i <= raw@.len(),
            all == as_other_items(seqs::views(raw@)),
            seqs::views(tlvs@) == start + all.take(i as int),
        decreases raw.len() - i,
    {
        let t = LsAttrTlv::Unknown(tlv_from_proto(&raw[i]));
        proof {
            let k = i as int;
            assert(all[k] == t@);
            seqs::lemma_views_push(tlvs@, t);
            seqs::lemma_take_next(all, k);
            assert((start + all.take(k)).push(t@) =~= start + all.take(k).push(t@));
        }
        tlvs.push(t);
        i = i + 1;
    }
    proof {
        seqs::lemma_take_all(all);
        assert(seqs::views(tlvs@) =~= attr_items(proto_attr@));
    }
    LsAttr { tlvs }
}

// ---------------------------------------------------------------------------
// Into messages
// ---------------------------------------------------------------------------

/// The attributes of a node with what an item says; a later item of a type takes the
/// place of an earlier one.
pub open spec fn node_with(
    m: messages::LsNodeAttributeView,
    t: NodeAttrTlvView,
) -> messages::LsNodeAttributeView {
    match t {
        NodeAttrTlvView::FlagBits(v) => messages::LsNodeAttributeView {
            flag_bits: Some(v as u32),
            ..m
        },
        NodeAttrTlvView::Opaque(v) => messages::LsNodeAttributeView { opaque: Some(v), ..m },
        NodeAttrTlvView::Name(v) => messages::LsNodeAttributeView { name: Some(v), ..m },
        NodeAttrTlvView::IsisAreaId(v) => messages::LsNodeAttributeView { isis_area_id: v, ..m },
        NodeAttrTlvView::Ipv4RouterId(v) => messages::LsNodeAttributeView {
            ipv4_router_id: Some(v.text()),
            ..m
        },
        NodeAttrTlvView::Ipv6RouterId(v) => messages::LsNodeAttributeView {
            ipv6_router_id: Some(v.text()),
            ..m
        },
    }
}

fn node_add(m: messages::LsNodeAttribute, t: &NodeAttrTlv) -> (r: messages::LsNodeAttribute)
    ensures
        r@ == node_with(m@, t@),
{
    let mut m = m;
    match t {
        NodeAttrTlv::FlagBits(v) => {
            m.flag_bits = Some(*v as u32);
        },
        NodeAttrTlv::Opaque(v) => {
            m.opaque = Some(copy_items(v));
        },
        NodeAttrTlv::Name(v) => {
            m.name = Some(v.clone());
        },
        NodeAttrTlv::IsisAreaId(v) => {
            m.isis_area_id = copy_items(v);
        },
        NodeAttrTlv::Ipv4RouterId(v) => {
            m.ipv4_router_id = Some(v.to_text());
        },
        NodeAttrTlv::Ipv6RouterId(v) => {
            m.ipv6_router_id = Some(v.to_text());
        },
    }
    m
}

/// The attributes of a link with what an item says; a later item of a type takes the
/// place of an earlier one.
pub open spec fn link_with(
    m: messages::LsLinkAttributeView,
    t: LinkAttrTlvView,
) -> messages::LsLinkAttributeView {
    match t {
        LinkAttrTlvView::Ipv4RouterIdLocal(v) => messages::LsLinkAttributeView {
            ipv4_router_id_local: Some(v.text()),
            ..m
        },
        LinkAttrTlvView::Ipv6RouterIdLocal(v) => messages::LsLinkAttributeView {
            ipv6_router_id_local: Some(v.text()),
            ..m
        },
        LinkAttrTlvView::Ipv4RouterIdRemote(v) => messages::LsLinkAttributeView {
            ipv4_router_id_remote: Some(v.text()),
            ..m
        },
        LinkAttrTlvView::Ipv6RouterIdRemote(v) => messages::LsLinkAttributeView {
            ipv6_router_id_remote: Some(v.text()),
            ..m
        },
        LinkAttrTlvView::AdminGroup(v) => messages::LsLinkAttributeView {
            admin_group: Some(v),
            ..m
        },
        LinkAttrTlvView::MaxLinkBw(v) => messages::LsLinkAttributeView {
            max_link_bandwidth_bits: Some(v),
            ..m
        },
        LinkAttrTlvView::MaxRsvblLinkBw(v) => messages::LsLinkAttributeView {
            max_reservable_bandwidth_bits: Some(v),
            ..m
        },
        LinkAttrTlvView::UnreservedBw(v) => messages::LsLinkAttributeView {
            unreserved_bandwidth_bits: v,
            ..m
        },
        LinkAttrTlvView::TeDefaultMetric(v) => messages::LsLinkAttributeView {
            te_default_metric: Some(v),
            ..m
        },
        LinkAttrTlvView::LinkProtection(v) => messages::LsLinkAttributeView {
            link_protection: Some(v as u32),
            ..m
        },
        LinkAttrTlvView::MplsProtocolMask(v) => messages::LsLinkAttributeView {
            mpls_protocol_mask: Some(v as u32),
            ..m
        },
        LinkAttrTlvView::IgpMetric(v) => messages::LsLinkAttributeView { igp_metric: Some(v), ..m },
        LinkAttrTlvView::Srlg(v) => messages::LsLinkAttributeView { srlg: v, ..m },
        LinkAttrTlvView::Opaque(v) => messages::LsLinkAttributeView { opaque: Some(v), ..m },
        LinkAttrTlvView::Name(v) => messages::LsLinkAttributeView { name: Some(v), ..m },
    }
}

fn link_add(m: messages::LsLinkAttribute, t: &LinkAttrTlv) -> (r: messages::LsLinkAttribute)
    ensures
        r@ == link_with(m@, t@),
{
    let mut m = m;
    match t {
        LinkAttrTlv::Ipv4RouterIdLocal(v) => {
            m.ipv4_router_id_local = Some(v.to_text());
        },
        LinkAttrTlv::Ipv6RouterIdLocal(v) => {
            m.ipv6_router_id_local = Some(v.to_text());
        },
        LinkAttrTlv::Ipv4RouterIdRemote(v) => {
            m.ipv4_router_id_remote = Some(v.to_text());
        },
        LinkAttrTlv::Ipv6RouterIdRemote(v) => {
            m.ipv6_router_id_remote = Some(v.to_text());
        },
        LinkAttrTlv::AdminGroup(v) => {
            m.admin_group = Some(*v);
        },
        LinkAttrTlv::MaxLinkBw(v) => {
            m.max_link_bandwidth_bits = Some(*v);
        },
        LinkAttrTlv::MaxRsvblLinkBw(v) => {
            m.max_reservable_bandwidth_bits = Some(*v);
        },
        LinkAttrTlv::UnreservedBw(v) => {
            m.unreserved_bandwidth_bits = eight_to_vec(v);
        },
        LinkAttrTlv::TeDefaultMetric(v) => {
            m.te_default_metric = Some(*v);
        },
        LinkAttrTlv::LinkProtection(v) => {
            m.link_protection = Some(*v as u32);
        },
        LinkAttrTlv::MplsProtocolMask(v) => {
            m.mpls_protocol_mask = Some(*v as u32);
        },
        LinkAttrTlv::IgpMetric(v) => {
            m.igp_metric = Some(*v);
        },
        LinkAttrTlv::Srlg(v) => {
            m.srlg = copy_items(v);
        },
        LinkAttrTlv::Opaque(v) => {
            m.opaque = Some(copy_items(v));
        },
        LinkAttrTlv::Name(v) => {
            m.name = Some(v.clone());
        },
    }
    m
}

/// The attributes of a prefix with what an item says; a later item of a type takes the
/// place of an earlier one.
pub open spec fn prefix_with(
    m: messages::LsPrefixAttributeView,
    t: PrefixAttrTlvView,
) -> messages::LsPrefixAttributeView {
    match t {
        PrefixAttrTlvView::IgpFlags(v) => messages::LsPrefixAttributeView {
            igp_flags: Some(v as u32),
            ..m
        },
        PrefixAttrTlvView::IgpRouteTag(v) => messages::LsPrefixAttributeView {
            igp_route_tag: v,
            ..m
        },
        PrefixAttrTlvView::IgpExtendedRouteTag(v) => messages::LsPrefixAttributeView {
            igp_extended_route_tag: v,
            ..m
        },
        PrefixAttrTlvView::Metric(v) => messages::LsPrefixAttributeView { metric: Some(v), ..m },
        PrefixAttrTlvView::OspfFwdAddr(v) => messages::LsPrefixAttributeView {
            ospf_forwarding_addr: Some(v.text()),
            ..m
        },
        PrefixAttrTlvView::Opaque(v) => messages::LsPrefixAttributeView { opaque: Some(v), ..m },
    }
}

fn prefix_add(m: messages::LsPrefixAttribute, t: &PrefixAttrTlv) -> (r: messages::LsPrefixAttribute)
    ensures
        r@ == prefix_with(m@, t@),
{
    let mut m = m;
    match t {
        PrefixAttrTlv::IgpFlags(v) => {
            m.igp_flags = Some(*v as u32);
        },
        PrefixAttrTlv::IgpRouteTag(v) => {
            m.igp_route_tag = copy_items(v);
        },
        PrefixAttrTlv::IgpExtendedRouteTag(v) => {
            m.igp_extended_route_tag = copy_items(v);
        },
        PrefixAttrTlv::Metric(v) => {
            m.metric = Some(*v);
        },
        PrefixAttrTlv::OspfFwdAddr(v) => {
            m.ospf_forwarding_addr = Some(v.to_text());
        },
        PrefixAttrTlv::Opaque(v) => {
            m.opaque = Some(copy_items(v));
        },
    }
    m
}

/// A message that says nothing.
pub open spec fn no_attribute() -> messages::LsAttributeView {
    messages::LsAttributeView { tlvs: Seq::empty(), node: None, link: None, prefix: None }
}

/// A message with what one more item says.
pub open spec fn attr_with(
    m: messages::LsAttributeView,
    t: LsAttrTlvView,
) -> messages::LsAttributeView {
    match t {
        LsAttrTlvView::Node(x) => messages::LsAttributeView {
            node: Some(node_with(node_or_none(m.node), x)),
            ..m
        },
        LsAttrTlvView::Link(x) => messages::LsAttributeView {
            link: Some(link_with(link_or_none(m.link), x)),
            ..m
        },
        LsAttrTlvView::Prefix(x) => messages::LsAttributeView {
            prefix: Some(prefix_with(prefix_or_none(m.prefix), x)),
            ..m
        },
        LsAttrTlvView::Unknown(x) => messages::LsAttributeView {
            tlvs: m.tlvs.push(proto_ls::tlv_message(x)),
            ..m
        },
    }
}

pub open spec fn node_or_none(
    m: Option<messages::LsNodeAttributeView>,
) -> messages::LsNodeAttributeView {
    match m {
        Some(x) => x,
        None => messages::no_node_attribute(),
    }
}

pub open spec fn link_or_none(
    m: Option<messages::LsLinkAttributeView>,
) -> messages::LsLinkAttributeView {
    match m {
        Some(x) => x,
        None => messages::no_link_attribute(),
    }
}

pub open spec fn prefix_or_none(
    m: Option<messages::LsPrefixAttributeView>,
) -> messages::LsPrefixAttributeView {
    match m {
        Some(x) => x,
        None => messages::no_prefix_attribute(),
    }
}

/// The message of an attribute.
pub open spec fn attr_message(tlvs: Seq<LsAttrTlvView>) -> messages::LsAttributeView
    decreases tlvs.len(),
{
    if tlvs.len() == 0 {
        no_attribute()
    } else {
        attr_with(attr_message(tlvs.drop_last()), tlvs.last())
    }
}

fn attr_add(m: messages::LsAttribute, t: &LsAttrTlv) -> (r: messages::LsAttribute)
    ensures
        r@ == attr_with(m@, t@),
{
    let mut m = m;
    match t {
        LsAttrTlv::Node(x) => {
            let before = match m.node {
                Some(n) => n,
                None => messages::LsNodeAttribute::default(),
            };
            m.node = Some(node_add(before, x));
        },
        LsAttrTlv::Link(x) => {
            let before = match m.link {
                Some(n) => n,
                None => messages::LsLinkAttribute::default(),
            };
            m.link = Some(link_add(before, x));
        },
        LsAttrTlv::Prefix(x) => {
            let before = match m.prefix {
                Some(n) => n,
                None => messages::LsPrefixAttribute::default(),
            };
            m.prefix = Some(prefix_add(before, x));
        },
        LsAttrTlv::Unknown(x) => {
            let y = tlv_to_proto(x);
            proof {
                seqs::lemma_views_push(m.tlvs@, y);
            }
            m.tlvs.push(y);
        },
    }
    m
}

/// The message of a link-state attribute.
pub fn ls_attr_to_proto(attr: &LsAttr) -> (r: messages::LsAttribute)
    ensures
        r@ == attr_message(attr@),
{
    let tlvs = &attr.tlvs;
    let ghost all = attr@;
    let mut m = messages::LsAttribute { tlvs: Vec::new(), node: None, link: None, prefix: None };
    assert(m@.tlvs =~= Seq::empty());
    assert(all.take(0) =~= Seq::empty());
    let mut i: usize = 0;
    while i < tlvs.len()
        invariant
            i <= tlvs@.len(),
            all == seqs::views(tlvs@),
            m@ == attr_message(all.take(i as int)),
        decreases tlvs.len() - i,
    {
        m = attr_add(m, &tlvs[i]);
        assert(all.take(i + 1).drop_last() =~= all.take(i as int));
        assert(all.take(i + 1).last() == tlvs@[i as int]@);
        i = i + 1;
    }
    proof {
        seqs::lemma_take_all(all);
    }
    m
}

// ---------------------------------------------------------------------------
// There and back
// ---------------------------------------------------------------------------

/// What comes of `start` when `f` takes in the items one after the other.
pub open spec fn folded<M, T>(start: M, items: Seq<T>, f: spec_fn(M, T) -> M) -> M
    decreases items.len(),
{
    if items.len() == 0 {
        start
    } else {
        f(folded(start, items.drop_last(), f), items.last())
    }
}

proof fn lemma_folded_made<M, T, A>(
    start: M,
    items: Seq<T>,
    f: spec_fn(M, T) -> M,
    x: Option<A>,
    g: spec_fn(A) -> T,
)
    ensures
        folded(start, items + made(x, g), f) == (match x {
            Some(v) => f(folded(start, items, f), g(v)),
            None => folded(start, items, f),
        }),
{
    match x {
        Some(v) => {
            let s = items + made(x, g);
            assert(s.drop_last() =~= items);
            assert(s.last() == g(v));
        },
        None => {
            assert(items + made(x, g) =~= items);
        },
    }
}

proof fn lemma_folded_concat<M, T>(start: M, a: Seq<T>, b: Seq<T>, f: spec_fn(M, T) -> M)
    ensures
        folded(start, a + b, f) == folded(folded(start, a, f), b, f),
    decreases b.len(),
{
    if b.len() == 0 {
        assert(a + b =~= a);
    } else {
        assert((a + b).drop_last() =~= a + b.drop_last());
        lemma_folded_concat(start, a, b.drop_last(), f);
    }
}

/// An optional number of at most `max`.
pub open spec fn at_most(v: Option<u32>, max: u32) -> bool {
    match v {
        Some(x) => x <= max,
        None => true,
    }
}

/// A text that is missing or is the notation of the address that it denotes.
pub open spec fn plain_any(s: Option<Seq<char>>) -> bool {
    match s {
        Some(t) => match addr_text::read_ip(t) {
            Some(x) => x.text() == t,
            None => false,
        },
        None => true,
    }
}

/// Taking in an item of a node.
pub open spec fn node_adder() -> spec_fn(
    messages::LsNodeAttributeView,
    NodeAttrTlvView,
) -> messages::LsNodeAttributeView {
    |x: messages::LsNodeAttributeView, t: NodeAttrTlvView| node_with(x, t)
}

/// The attributes of a node say something, and nothing that is lost on the way.
pub open spec fn plain_node(m: messages::LsNodeAttributeView) -> bool {
    &&& node_items(m).len() > 0
    &&& at_most(m.flag_bits, 255)
    &&& proto_ls::plain_v4(m.ipv4_router_id)
    &&& proto_ls::plain_v6(m.ipv6_router_id)
}

proof fn lemma_node_back(m: messages::LsNodeAttributeView)
    requires
        plain_node(m),
    ensures
        folded(messages::no_node_attribute(), node_items(m), node_adder()) == m,
{
    let start = messages::no_node_attribute();
    let f = node_adder();
    let mut s: Seq<NodeAttrTlvView> = Seq::empty();
    lemma_folded_made(start, s, f, m.flag_bits, |v: u32| NodeAttrTlvView::FlagBits(v as u8));
    s = s + made(m.flag_bits, |v: u32| NodeAttrTlvView::FlagBits(v as u8));
    assert(folded(start, s, f) == messages::LsNodeAttributeView {
        flag_bits: m.flag_bits,
        ..start
    });
    lemma_folded_made(start, s, f, m.opaque, |v: Seq<u8>| NodeAttrTlvView::Opaque(v));
    s = s + made(m.opaque, |v: Seq<u8>| NodeAttrTlvView::Opaque(v));
    assert(folded(start, s, f) == messages::LsNodeAttributeView {
        flag_bits: m.flag_bits,
        opaque: m.opaque,
        ..start
    });
    lemma_folded_made(start, s, f, m.name, |v: Seq<char>| NodeAttrTlvView::Name(v));
    s = s + made(m.name, |v: Seq<char>| NodeAttrTlvView::Name(v));
    assert(folded(start, s, f) == messages::LsNodeAttributeView {
        flag_bits: m.flag_bits,
        opaque: m.opaque,
        name: m.name,
        ..start
    });
    assert(m.isis_area_id.len() == 0 ==> m.isis_area_id =~= Seq::empty());
    lemma_folded_made(
        start,
        s,
        f,
        proto_ls::said(m.isis_area_id),
        |v: Seq<u8>| NodeAttrTlvView::IsisAreaId(v),
    );
    s = s + made(proto_ls::said(m.isis_area_id), |v: Seq<u8>| NodeAttrTlvView::IsisAreaId(v));
    assert(folded(start, s, f) == messages::LsNodeAttributeView {
        flag_bits: m.flag_bits,
        opaque: m.opaque,
        name: m.name,
        isis_area_id: m.isis_area_id,
        ..start
    });
    lemma_folded_made(
        start,
        s,
        f,
        read_v4(m.ipv4_router_id),
        |v: Ipv4Addr| NodeAttrTlvView::Ipv4RouterId(v),
    );
    s = s + made(read_v4(m.ipv4_router_id), |v: Ipv4Addr| NodeAttrTlvView::Ipv4RouterId(v));
    assert(folded(start, s, f) == messages::LsNodeAttributeView {
        flag_bits: m.flag_bits,
        opaque: m.opaque,
        name: m.name,
        isis_area_id: m.isis_area_id,
        ipv4_router_id: m.ipv4_router_id,
        ..start
    });
    lemma_folded_made(
        start,
        s,
        f,
        proto_ls::read_v6(m.ipv6_router_id),
        |v: Ipv6Addr| NodeAttrTlvView::Ipv6RouterId(v),
    );
    s = s + made(
        proto_ls::read_v6(m.ipv6_router_id),
        |v: Ipv6Addr| NodeAttrTlvView::Ipv6RouterId(v),
    );
    assert(folded(start, s, f) == messages::LsNodeAttributeView {
        flag_bits: m.flag_bits,
        opaque: m.opaque,
        name: m.name,
        isis_area_id: m.isis_area_id,
        ipv4_router_id: m.ipv4_router_id,
        ipv6_router_id: m.ipv6_router_id,
        ..start
    });
    assert(s =~= node_items(m));
}

/// Taking in an item of a link.
pub open spec fn link_adder() -> spec_fn(
    messages::LsLinkAttributeView,
    LinkAttrTlvView,
) -> messages::LsLinkAttributeView {
    |x: messages::LsLinkAttributeView, t: LinkAttrTlvView| link_with(x, t)
}

/// The attributes of a link say something, and nothing that is lost on the way.
pub open spec fn plain_link(m: messages::LsLinkAttributeView) -> bool {
    &&& link_items(m).len() > 0
    &&& proto_ls::plain_v4(m.ipv4_router_id_local)
    &&& proto_ls::plain_v6(m.ipv6_router_id_local)
    &&& proto_ls::plain_v4(m.ipv4_router_id_remote)
    &&& proto_ls::plain_v6(m.ipv6_router_id_remote)
    &&& (m.unreserved_bandwidth_bits.len() == 0 || m.unreserved_bandwidth_bits.len() == 8)
    &&& at_most(m.link_protection, 65535)
    &&& at_most(m.mpls_protocol_mask, 255)
}

proof fn lemma_link_end_back(m: messages::LsLinkAttributeView)
    requires
        plain_link(m),
    ensures
        folded(
            messages::no_link_attribute(),
            link_end_items(m),
            link_adder(),
        ) == (messages::LsLinkAttributeView {
            ipv4_router_id_local: m.ipv4_router_id_local,
            ipv6_router_id_local: m.ipv6_router_id_local,
            ipv4_router_id_remote: m.ipv4_router_id_remote,
            ipv6_router_id_remote: m.ipv6_router_id_remote,
            ..messages::no_link_attribute()
        }),
{
    let start = messages::no_link_attribute();
    let f = link_adder();
    let mut s: Seq<LinkAttrTlvView> = Seq::empty();
    lemma_folded_made(
        start,
        s,
        f,
        read_v4(m.ipv4_router_id_local),
        |v: Ipv4Addr| LinkAttrTlvView::Ipv4RouterIdLocal(v),
    );
    s = s + made(
        read_v4(m.ipv4_router_id_local),
        |v: Ipv4Addr| LinkAttrTlvView::Ipv4RouterIdLocal(v),
    );
    assert(folded(start, s, f) == messages::LsLinkAttributeView {
        ipv4_router_id_local: m.ipv4_router_id_local,
        ..messages::no_link_attribute()
    });
    lemma_folded_made(
        start,
        s,
        f,
        proto_ls::read_v6(m.ipv6_router_id_local),
        |v: Ipv6Addr| LinkAttrTlvView::Ipv6RouterIdLocal(v),
    );
    s = s + made(
        proto_ls::read_v6(m.ipv6_router_id_local),
        |v: Ipv6Addr| LinkAttrTlvView::Ipv6RouterIdLocal(v),
    );
    assert(folded(start, s, f) == messages::LsLinkAttributeView {
        ipv4_router_id_local: m.ipv4_router_id_local,
        ipv6_router_id_local: m.ipv6_router_id_local,
        ..messages::no_link_attribute()
    });
    lemma_folded_made(
        start,
        s,
        f,
        read_v4(m.ipv4_router_id_remote),
        |v: Ipv4Addr| LinkAttrTlvView::Ipv4RouterIdRemote(v),
    );
    s = s + made(
        read_v4(m.ipv4_router_id_remote),
        |v: Ipv4Addr| LinkAttrTlvView::Ipv4RouterIdRemote(v),
    );
    assert(folded(start, s, f) == messages::LsLinkAttributeView {
        ipv4_router_id_local: m.ipv4_router_id_local,
        ipv6_router_id_local: m.ipv6_router_id_local,
        ipv4_router_id_remote: m.ipv4_router_id_remote,
        ..messages::no_link_attribute()
    });
    lemma_folded_made(
        start,
        s,
        f,
        proto_ls::read_v6(m.ipv6_router_id_remote),
        |v: Ipv6Addr| LinkAttrTlvView::Ipv6RouterIdRemote(v),
    );
    s = s + made(
        proto_ls::read_v6(m.ipv6_router_id_remote),
        |v: Ipv6Addr| LinkAttrTlvView::Ipv6RouterIdRemote(v),
    );
    assert(folded(start, s, f) == messages::LsLinkAttributeView {
        ipv4_router_id_local: m.ipv4_router_id_local,
        ipv6_router_id_local: m.ipv6_router_id_local,
        ipv4_router_id_remote: m.ipv4_router_id_remote,
        ipv6_router_id_remote: m.ipv6_router_id_remote,
        ..messages::no_link_attribute()
    });
    assert(s =~= link_end_items(m));
}

proof fn lemma_link_bandwidth_back(m: messages::LsLinkAttributeView)
    requires
        plain_link(m),
    ensures
        folded(
            messages::LsLinkAttributeView {
                ipv4_router_id_local: m.ipv4_router_id_local,
                ipv6_router_id_local: m.ipv6_router_id_local,
                ipv4_router_id_remote: m.ipv4_router_id_remote,
                ipv6_router_id_remote: m.ipv6_router_id_remote,
                ..messages::no_link_attribute()
            },
            link_bandwidth_items(m),
            link_adder(),
        ) == (messages::LsLinkAttributeView {
            ipv4_router_id_local: m.ipv4_router_id_local,
            ipv6_router_id_local: m.ipv6_router_id_local,
            ipv4_router_id_remote: m.ipv4_router_id_remote,
            ipv6_router_id_remote: m.ipv6_router_id_remote,
            admin_group: m.admin_group,
            max_link_bandwidth_bits: m.max_link_bandwidth_bits,
            max_reservable_bandwidth_bits: m.max_reservable_bandwidth_bits,
            unreserved_bandwidth_bits: m.unreserved_bandwidth_bits,
            ..messages::no_link_attribute()
        }),
{
    let start = messages::LsLinkAttributeView {
        ipv4_router_id_local: m.ipv4_router_id_local,
        ipv6_router_id_local: m.ipv6_router_id_local,
        ipv4_router_id_remote: m.ipv4_router_id_remote,
        ipv6_router_id_remote: m.ipv6_router_id_remote,
        ..messages::no_link_attribute()
    };
    let f = link_adder();
    let mut s: Seq<LinkAttrTlvView> = Seq::empty();
    lemma_folded_made(start, s, f, m.admin_group, |v: u32| LinkAttrTlvView::AdminGroup(v));
    s = s + made(m.admin_group, |v: u32| LinkAttrTlvView::AdminGroup(v));
    assert(folded(start, s, f) == messages::LsLinkAttributeView {
        ipv4_router_id_local: m.ipv4_router_id_local,
        ipv6_router_id_local: m.ipv6_router_id_local,
        ipv4_router_id_remote: m.ipv4_router_id_remote,
        ipv6_router_id_remote: m.ipv6_router_id_remote,
        admin_group: m.admin_group,
        ..messages::no_link_attribute()
    });
    lemma_folded_made(
        start,
        s,
        f,
        m.max_link_bandwidth_bits,
        |v: u32| LinkAttrTlvView::MaxLinkBw(v),
    );
    s = s + made(m.max_link_bandwidth_bits, |v: u32| LinkAttrTlvView::MaxLinkBw(v));
    assert(folded(start, s, f) == messages::LsLinkAttributeView {
        ipv4_router_id_local: m.ipv4_router_id_local,
        ipv6_router_id_local: m.ipv6_router_id_local,
        ipv4_router_id_remote: m.ipv4_router_id_remote,
        ipv6_router_id_remote: m.ipv6_router_id_remote,
        admin_group: m.admin_group,
        max_link_bandwidth_bits: m.max_link_bandwidth_bits,
        ..messages::no_link_attribute()
    });
    lemma_folded_made(
        start,
        s,
        f,
        m.max_reservable_bandwidth_bits,
        |v: u32| LinkAttrTlvView::MaxRsvblLinkBw(v),
    );
    s = s + made(m.max_reservable_bandwidth_bits, |v: u32| LinkAttrTlvView::MaxRsvblLinkBw(v));
    assert(folded(start, s, f) == messages::LsLinkAttributeView {
        ipv4_router_id_local: m.ipv4_router_id_local,
        ipv6_router_id_local: m.ipv6_router_id_local,
        ipv4_router_id_remote: m.ipv4_router_id_remote,
        ipv6_router_id_remote: m.ipv6_router_id_remote,
        admin_group: m.admin_group,
        max_link_bandwidth_bits: m.max_link_bandwidth_bits,
        max_reservable_bandwidth_bits: m.max_reservable_bandwidth_bits,
        ..messages::no_link_attribute()
    });
    assert(m.unreserved_bandwidth_bits.len() == 0 ==> m.unreserved_bandwidth_bits =~= Seq::empty());
    lemma_folded_made(
        start,
        s,
        f,
        all_eight(m.unreserved_bandwidth_bits),
        |v: Seq<u32>| LinkAttrTlvView::UnreservedBw(v),
    );
    s = s + made(
        all_eight(m.unreserved_bandwidth_bits),
        |v: Seq<u32>| LinkAttrTlvView::UnreservedBw(v),
    );
    assert(folded(start, s, f) == messages::LsLinkAttributeView {
        ipv4_router_id_local: m.ipv4_router_id_local,
        ipv6_router_id_local: m.ipv6_router_id_local,
        ipv4_router_id_remote: m.ipv4_router_id_remote,
        ipv6_router_id_remote: m.ipv6_router_id_remote,
        admin_group: m.admin_group,
        max_link_bandwidth_bits: m.max_link_bandwidth_bits,
        max_reservable_bandwidth_bits: m.max_reservable_bandwidth_bits,
        unreserved_bandwidth_bits: m.unreserved_bandwidth_bits,
        ..messages::no_link_attribute()
    });
    assert(s =~= link_bandwidth_items(m));
}

proof fn lemma_link_cost_back(m: messages::LsLinkAttributeView)
    requires
        plain_link(m),
    ensures
        folded(
            messages::LsLinkAttributeView {
                ipv4_router_id_local: m.ipv4_router_id_local,
                ipv6_router_id_local: m.ipv6_router_id_local,
                ipv4_router_id_remote: m.ipv4_router_id_remote,
                ipv6_router_id_remote: m.ipv6_router_id_remote,
                admin_group: m.admin_group,
                max_link_bandwidth_bits: m.max_link_bandwidth_bits,
                max_reservable_bandwidth_bits: m.max_reservable_bandwidth_bits,
                unreserved_bandwidth_bits: m.unreserved_bandwidth_bits,
                ..messages::no_link_attribute()
            },
            link_cost_items(m),
            link_adder(),
        ) == (messages::LsLinkAttributeView {
            ipv4_router_id_local: m.ipv4_router_id_local,
            ipv6_router_id_local: m.ipv6_router_id_local,
            ipv4_router_id_remote: m.ipv4_router_id_remote,
            ipv6_router_id_remote: m.ipv6_router_id_remote,
            admin_group: m.admin_group,
            max_link_bandwidth_bits: m.max_link_bandwidth_bits,
            max_reservable_bandwidth_bits: m.max_reservable_bandwidth_bits,
            unreserved_bandwidth_bits: m.unreserved_bandwidth_bits,
            te_default_metric: m.te_default_metric,
            link_protection: m.link_protection,
            mpls_protocol_mask: m.mpls_protocol_mask,
            igp_metric: m.igp_metric,
            ..messages::no_link_attribute()
        }),
{
    let start = messages::LsLinkAttributeView {
        ipv4_router_id_local: m.ipv4_router_id_local,
        ipv6_router_id_local: m.ipv6_router_id_local,
        ipv4_router_id_remote: m.ipv4_router_id_remote,
        ipv6_router_id_remote: m.ipv6_router_id_remote,
        admin_group: m.admin_group,
        max_link_bandwidth_bits: m.max_link_bandwidth_bits,
        max_reservable_bandwidth_bits: m.max_reservable_bandwidth_bits,
        unreserved_bandwidth_bits: m.unreserved_bandwidth_bits,
        ..messages::no_link_attribute()
    };
    let f = link_adder();
    let mut s: Seq<LinkAttrTlvView> = Seq::empty();
    lemma_folded_made(
        start,
        s,
        f,
        m.te_default_metric,
        |v: u32| LinkAttrTlvView::TeDefaultMetric(v),
    );
    s = s + made(m.te_default_metric, |v: u32| LinkAttrTlvView::TeDefaultMetric(v));
    assert(folded(start, s, f) == messages::LsLinkAttributeView {
        ipv4_router_id_local: m.ipv4_router_id_local,
        ipv6_router_id_local: m.ipv6_router_id_local,
        ipv4_router_id_remote: m.ipv4_router_id_remote,
        ipv6_router_id_remote: m.ipv6_router_id_remote,
        admin_group: m.admin_group,
        max_link_bandwidth_bits: m.max_link_bandwidth_bits,
        max_reservable_bandwidth_bits: m.max_reservable_bandwidth_bits,
        unreserved_bandwidth_bits: m.unreserved_bandwidth_bits,
        te_default_metric: m.te_default_metric,
        ..messages::no_link_attribute()
    });
    lemma_folded_made(
        start,
        s,
        f,
        m.link_protection,
        |v: u32| LinkAttrTlvView::LinkProtection(v as u16),
    );
    s = s + made(m.link_protection, |v: u32| LinkAttrTlvView::LinkProtection(v as u16));
    assert(folded(start, s, f) == messages::LsLinkAttributeView {
        ipv4_router_id_local: m.ipv4_router_id_local,
        ipv6_router_id_local: m.ipv6_router_id_local,
        ipv4_router_id_remote: m.ipv4_router_id_remote,
        ipv6_router_id_remote: m.ipv6_router_id_remote,
        admin_group: m.admin_group,
        max_link_bandwidth_bits: m.max_link_bandwidth_bits,
        max_reservable_bandwidth_bits: m.max_reservable_bandwidth_bits,
        unreserved_bandwidth_bits: m.unreserved_bandwidth_bits,
        te_default_metric: m.te_default_metric,
        link_protection: m.link_protection,
        ..messages::no_link_attribute()
    });
    lemma_folded_made(
        start,
        s,
        f,
        m.mpls_protocol_mask,
        |v: u32| LinkAttrTlvView::MplsProtocolMask(v as u8),
    );
    s = s + made(m.mpls_protocol_mask, |v: u32| LinkAttrTlvView::MplsProtocolMask(v as u8));
    assert(folded(start, s, f) == messages::LsLinkAttributeView {
        ipv4_router_id_local: m.ipv4_router_id_local,
        ipv6_router_id_local: m.ipv6_router_id_local,
        ipv4_router_id_remote: m.ipv4_router_id_remote,
        ipv6_router_id_remote: m.ipv6_router_id_remote,
        admin_group: m.admin_group,
        max_link_bandwidth_bits: m.max_link_bandwidth_bits,
        max_reservable_bandwidth_bits: m.max_reservable_bandwidth_bits,
        unreserved_bandwidth_bits: m.unreserved_bandwidth_bits,
        te_default_metric: m.te_default_metric,
        link_protection: m.link_protection,
        mpls_protocol_mask: m.mpls_protocol_mask,
        ..messages::no_link_attribute()
    });
    lemma_folded_made(start, s, f, m.igp_metric, |v: u32| LinkAttrTlvView::IgpMetric(v));
    s = s + made(m.igp_metric, |v: u32| LinkAttrTlvView::IgpMetric(v));
    assert(folded(start, s, f) == messages::LsLinkAttributeView {
        ipv4_router_id_local: m.ipv4_router_id_local,
        ipv6_router_id_local: m.ipv6_router_id_local,
        ipv4_router_id_remote: m.ipv4_router_id_remote,
        ipv6_router_id_remote: m.ipv6_router_id_remote,
        admin_group: m.admin_group,
        max_link_bandwidth_bits: m.max_link_bandwidth_bits,
        max_reservable_bandwidth_bits: m.max_reservable_bandwidth_bits,
        unreserved_bandwidth_bits: m.unreserved_bandwidth_bits,
        te_default_metric: m.te_default_metric,
        link_protection: m.link_protection,
        mpls_protocol_mask: m.mpls_protocol_mask,
        igp_metric: m.igp_metric,
        ..messages::no_link_attribute()
    });
    assert(s =~= link_cost_items(m));
}

proof fn lemma_link_other_back(m: messages::LsLinkAttributeView)
    requires
        plain_link(m),
    ensures
        folded(
            messages::LsLinkAttributeView {
                ipv4_router_id_local: m.ipv4_router_id_local,
                ipv6_router_id_local: m.ipv6_router_id_local,
                ipv4_router_id_remote: m.ipv4_router_id_remote,
                ipv6_router_id_remote: m.ipv6_router_id_remote,
                admin_group: m.admin_group,
                max_link_bandwidth_bits: m.max_link_bandwidth_bits,
                max_reservable_bandwidth_bits: m.max_reservable_bandwidth_bits,
                unreserved_bandwidth_bits: m.unreserved_bandwidth_bits,
                te_default_metric: m.te_default_metric,
                link_protection: m.link_protection,
                mpls_protocol_mask: m.mpls_protocol_mask,
                igp_metric: m.igp_metric,
                ..messages::no_link_attribute()
            },
            link_other_items(m),
            link_adder(),
        ) == (m),
{
    let start = messages::LsLinkAttributeView {
        ipv4_router_id_local: m.ipv4_router_id_local,
        ipv6_router_id_local: m.ipv6_router_id_local,
        ipv4_router_id_remote: m.ipv4_router_id_remote,
        ipv6_router_id_remote: m.ipv6_router_id_remote,
        admin_group: m.admin_group,
        max_link_bandwidth_bits: m.max_link_bandwidth_bits,
        max_reservable_bandwidth_bits: m.max_reservable_bandwidth_bits,
        unreserved_bandwidth_bits: m.unreserved_bandwidth_bits,
        te_default_metric: m.te_default_metric,
        link_protection: m.link_protection,
        mpls_protocol_mask: m.mpls_protocol_mask,
        igp_metric: m.igp_metric,
        ..messages::no_link_attribute()
    };
    let f = link_adder();
    let mut s: Seq<LinkAttrTlvView> = Seq::empty();
    assert(m.srlg.len() == 0 ==> m.srlg =~= Seq::empty());
    lemma_folded_made(start, s, f, proto_ls::said(m.srlg), |v: Seq<u32>| LinkAttrTlvView::Srlg(v));
    s = s + made(proto_ls::said(m.srlg), |v: Seq<u32>| LinkAttrTlvView::Srlg(v));
    assert(folded(start, s, f) == messages::LsLinkAttributeView {
        ipv4_router_id_local: m.ipv4_router_id_local,
        ipv6_router_id_local: m.ipv6_router_id_local,
        ipv4_router_id_remote: m.ipv4_router_id_remote,
        ipv6_router_id_remote: m.ipv6_router_id_remote,
        admin_group: m.admin_group,
        max_link_bandwidth_bits: m.max_link_bandwidth_bits,
        max_reservable_bandwidth_bits: m.max_reservable_bandwidth_bits,
        unreserved_bandwidth_bits: m.unreserved_bandwidth_bits,
        te_default_metric: m.te_default_metric,
        link_protection: m.link_protection,
        mpls_protocol_mask: m.mpls_protocol_mask,
        igp_metric: m.igp_metric,
        srlg: m.srlg,
        ..messages::no_link_attribute()
    });
    lemma_folded_made(start, s, f, m.opaque, |v: Seq<u8>| LinkAttrTlvView::Opaque(v));
    s = s + made(m.opaque, |v: Seq<u8>| LinkAttrTlvView::Opaque(v));
    assert(folded(start, s, f) == messages::LsLinkAttributeView {
        ipv4_router_id_local: m.ipv4_router_id_local,
        ipv6_router_id_local: m.ipv6_router_id_local,
        ipv4_router_id_remote: m.ipv4_router_id_remote,
        ipv6_router_id_remote: m.ipv6_router_id_remote,
        admin_group: m.admin_group,
        max_link_bandwidth_bits: m.max_link_bandwidth_bits,
        max_reservable_bandwidth_bits: m.max_reservable_bandwidth_bits,
        unreserved_bandwidth_bits: m.unreserved_bandwidth_bits,
        te_default_metric: m.te_default_metric,
        link_protection: m.link_protection,
        mpls_protocol_mask: m.mpls_protocol_mask,
        igp_metric: m.igp_metric,
        srlg: m.srlg,
        opaque: m.opaque,
        ..messages::no_link_attribute()
    });
    lemma_folded_made(start, s, f, m.name, |v: Seq<char>| LinkAttrTlvView::Name(v));
    s = s + made(m.name, |v: Seq<char>| LinkAttrTlvView::Name(v));
    assert(folded(start, s, f) == messages::LsLinkAttributeView {
        ipv4_router_id_local: m.ipv4_router_id_local,
        ipv6_router_id_local: m.ipv6_router_id_local,
        ipv4_router_id_remote: m.ipv4_router_id_remote,
        ipv6_router_id_remote: m.ipv6_router_id_remote,
        admin_group: m.admin_group,
        max_link_bandwidth_bits: m.max_link_bandwidth_bits,
        max_reservable_bandwidth_bits: m.max_reservable_bandwidth_bits,
        unreserved_bandwidth_bits: m.unreserved_bandwidth_bits,
        te_default_metric: m.te_default_metric,
        link_protection: m.link_protection,
        mpls_protocol_mask: m.mpls_protocol_mask,
        igp_metric: m.igp_metric,
        srlg: m.srlg,
        opaque: m.opaque,
        name: m.name,
        ..messages::no_link_attribute()
    });
    assert(s =~= link_other_items(m));
}

proof fn lemma_link_back(m: messages::LsLinkAttributeView)
    requires
        plain_link(m),
    ensures
        folded(messages::no_link_attribute(), link_items(m), link_adder()) == m,
{
    let start = messages::no_link_attribute();
    let f = link_adder();
    let (a, b) = (link_end_items(m), link_bandwidth_items(m));
    let (c, d) = (link_cost_items(m), link_other_items(m));
    lemma_folded_concat(start, a, b, f);
    lemma_folded_concat(start, a + b, c, f);
    lemma_folded_concat(start, a + b + c, d, f);
    lemma_link_end_back(m);
    lemma_link_bandwidth_back(m);
    lemma_link_cost_back(m);
    lemma_link_other_back(m);
}

/// Taking in an item of a prefix.
pub open spec fn prefix_adder() -> spec_fn(
    messages::LsPrefixAttributeView,
    PrefixAttrTlvView,
) -> messages::LsPrefixAttributeView {
    |x: messages::LsPrefixAttributeView, t: PrefixAttrTlvView| prefix_with(x, t)
}

/// The attributes of a prefix say something, and nothing that is lost on the way.
pub open spec fn plain_prefix(m: messages::LsPrefixAttributeView) -> bool {
    &&& prefix_items(m).len() > 0
    &&& at_most(m.igp_flags, 255)
    &&& plain_any(m.ospf_forwarding_addr)
}

proof fn lemma_prefix_back(m: messages::LsPrefixAttributeView)
    requires
        plain_prefix(m),
    ensures
        folded(messages::no_prefix_attribute(), prefix_items(m), prefix_adder()) == m,
{
    let start = messages::no_prefix_attribute();
    let f = prefix_adder();
    let mut s: Seq<PrefixAttrTlvView> = Seq::empty();
    lemma_folded_made(start, s, f, m.igp_flags, |v: u32| PrefixAttrTlvView::IgpFlags(v as u8));
    s = s + made(m.igp_flags, |v: u32| PrefixAttrTlvView::IgpFlags(v as u8));
    assert(folded(start, s, f) == messages::LsPrefixAttributeView {
        igp_flags: m.igp_flags,
        ..start
    });
    assert(m.igp_route_tag.len() == 0 ==> m.igp_route_tag =~= Seq::empty());
    lemma_folded_made(
        start,
        s,
        f,
        proto_ls::said(m.igp_route_tag),
        |v: Seq<u32>| PrefixAttrTlvView::IgpRouteTag(v),
    );
    s = s + made(proto_ls::said(m.igp_route_tag), |v: Seq<u32>| PrefixAttrTlvView::IgpRouteTag(v));
    assert(folded(start, s, f) == messages::LsPrefixAttributeView {
        igp_flags: m.igp_flags,
        igp_route_tag: m.igp_route_tag,
        ..start
    });
    assert(m.igp_extended_route_tag.len() == 0 ==> m.igp_extended_route_tag =~= Seq::empty());
    lemma_folded_made(
        start,
        s,
        f,
        proto_ls::said(m.igp_extended_route_tag),
        |v: Seq<u64>| PrefixAttrTlvView::IgpExtendedRouteTag(v),
    );
    s = s + made(
        proto_ls::said(m.igp_extended_route_tag),
        |v: Seq<u64>| PrefixAttrTlvView::IgpExtendedRouteTag(v),
    );
    assert(folded(start, s, f) == messages::LsPrefixAttributeView {
        igp_flags: m.igp_flags,
        igp_route_tag: m.igp_route_tag,
        igp_extended_route_tag: m.igp_extended_route_tag,
        ..start
    });
    lemma_folded_made(start, s, f, m.metric, |v: u32| PrefixAttrTlvView::Metric(v));
    s = s + made(m.metric, |v: u32| PrefixAttrTlvView::Metric(v));
    assert(folded(start, s, f) == messages::LsPrefixAttributeView {
        igp_flags: m.igp_flags,
        igp_route_tag: m.igp_route_tag,
        igp_extended_route_tag: m.igp_extended_route_tag,
        metric: m.metric,
        ..start
    });
    lemma_folded_made(
        start,
        s,
        f,
        read_any(m.ospf_forwarding_addr),
        |v: IpAddr| PrefixAttrTlvView::OspfFwdAddr(v),
    );
    s = s + made(read_any(m.ospf_forwarding_addr), |v: IpAddr| PrefixAttrTlvView::OspfFwdAddr(v));
    assert(folded(start, s, f) == messages::LsPrefixAttributeView {
        igp_flags: m.igp_flags,
        igp_route_tag: m.igp_route_tag,
        igp_extended_route_tag: m.igp_extended_route_tag,
        metric: m.metric,
        ospf_forwarding_addr: m.ospf_forwarding_addr,
        ..start
    });
    lemma_folded_made(start, s, f, m.opaque, |v: Seq<u8>| PrefixAttrTlvView::Opaque(v));
    s = s + made(m.opaque, |v: Seq<u8>| PrefixAttrTlvView::Opaque(v));
    assert(folded(start, s, f) == messages::LsPrefixAttributeView {
        igp_flags: m.igp_flags,
        igp_route_tag: m.igp_route_tag,
        igp_extended_route_tag: m.igp_extended_route_tag,
        metric: m.metric,
        ospf_forwarding_addr: m.ospf_forwarding_addr,
        opaque: m.opaque,
        ..start
    });
    assert(s =~= prefix_items(m));
}

/// The message says nothing that is lost on the way.
pub open spec fn plain_attr(m: messages::LsAttributeView) -> bool {
    &&& match m.node {
        Some(x) => plain_node(x),
        None => true,
    }
    &&& match m.link {
        Some(x) => plain_link(x),
        None => true,
    }
    &&& match m.prefix {
        Some(x) => plain_prefix(x),
        None => true,
    }
    &&& proto_ls::all_typed(m.tlvs)
}

/// Items of a node change the attributes of a node alone.
proof fn lemma_node_items_taken_in(before: Seq<LsAttrTlvView>, items: Seq<NodeAttrTlvView>)
    requires
        attr_message(before).node is None,
    ensures
        attr_message(before + as_node_items(items)) == (messages::LsAttributeView {
            node: if items.len() == 0 {
                None
            } else {
                Some(folded(messages::no_node_attribute(), items, node_adder()))
            },
            ..attr_message(before)
        }),
    decreases items.len(),
{
    reveal_with_fuel(folded, 2);
    let s = before + as_node_items(items);
    if items.len() == 0 {
        assert(s =~= before);
    } else {
        lemma_node_items_taken_in(before, items.drop_last());
        assert(s.drop_last() =~= before + as_node_items(items.drop_last()));
        assert(s.last() == LsAttrTlvView::Node(items.last()));
    }
}

/// Items of a link change the attributes of a link alone.
proof fn lemma_link_items_taken_in(before: Seq<LsAttrTlvView>, items: Seq<LinkAttrTlvView>)
    requires
        attr_message(before).link is None,
    ensures
        attr_message(before + as_link_items(items)) == (messages::LsAttributeView {
            link: if items.len() == 0 {
                None
            } else {
                Some(folded(messages::no_link_attribute(), items, link_adder()))
            },
            ..attr_message(before)
        }),
    decreases items.len(),
{
    reveal_with_fuel(folded, 2);
    let s = before + as_link_items(items);
    if items.len() == 0 {
        assert(s =~= before);
    } else {
        lemma_link_items_taken_in(before, items.drop_last());
        assert(s.drop_last() =~= before + as_link_items(items.drop_last()));
        assert(s.last() == LsAttrTlvView::Link(items.last()));
    }
}

/// Items of a prefix change the attributes of a prefix alone.
proof fn lemma_prefix_items_taken_in(before: Seq<LsAttrTlvView>, items: Seq<PrefixAttrTlvView>)
    requires
        attr_message(before).prefix is None,
    ensures
        attr_message(before + as_prefix_items(items)) == (messages::LsAttributeView {
            prefix: if items.len() == 0 {
                None
            } else {
                Some(folded(messages::no_prefix_attribute(), items, prefix_adder()))
            },
            ..attr_message(before)
        }),
    decreases items.len(),
{
    reveal_with_fuel(folded, 2);
    let s = before + as_prefix_items(items);
    if items.len() == 0 {
        assert(s =~= before);
    } else {
        lemma_prefix_items_taken_in(before, items.drop_last());
        assert(s.drop_last() =~= before + as_prefix_items(items.drop_last()));
        assert(s.last() == LsAttrTlvView::Prefix(items.last()));
    }
}

/// Items of other types are listed in the order in which they come.
proof fn lemma_other_items_taken_in(before: Seq<LsAttrTlvView>, items: Seq<messages::LsTlvView>)
    requires
        proto_ls::all_typed(items),
    ensures
        attr_message(before + as_other_items(items)) == (messages::LsAttributeView {
            tlvs: attr_message(before).tlvs + items,
            ..attr_message(before)
        }),
    decreases items.len(),
{
    let s = before + as_other_items(items);
    if items.len() == 0 {
        assert(s =~= before);
        assert(attr_message(before).tlvs + items =~= attr_message(before).tlvs);
    } else {
        let rest = items.drop_last();
        assert forall|i: int| 0 <= i < rest.len() implies (#[trigger] rest[i]).tlv_type
            <= 65535 by {
            assert(items[i].tlv_type <= 65535);
        }
        lemma_other_items_taken_in(before, rest);
        assert(s.drop_last() =~= before + as_other_items(rest));
        assert(items[items.len() - 1].tlv_type <= 65535);
        assert(proto_ls::tlv_message(proto_ls::read_tlv(items.last())) == items.last());
        assert((attr_message(before).tlvs + rest).push(items.last()) =~= attr_message(before).tlvs
            + items);
    }
}

/// A message that says nothing that is lost on the way is read as an attribute
/// whose message is that message.
pub proof fn law_ls_attr_round_trip(m: messages::LsAttributeView)
    requires
        plain_attr(m),
    ensures
        attr_message(attr_items(m)) == m,
{
    let n = match m.node {
        Some(x) => node_items(x),
        None => Seq::empty(),
    };
    let l = match m.link {
        Some(x) => link_items(x),
        None => Seq::empty(),
    };
    let p = match m.prefix {
        Some(x) => prefix_items(x),
        None => Seq::empty(),
    };
    let none = Seq::<LsAttrTlvView>::empty();
    let s1 = as_node_items(n);
    let s2 = s1 + as_link_items(l);
    let s3 = s2 + as_prefix_items(p);
    lemma_node_items_taken_in(none, n);
    assert(none + s1 =~= s1);
    lemma_link_items_taken_in(s1, l);
    lemma_prefix_items_taken_in(s2, p);
    lemma_other_items_taken_in(s3, m.tlvs);
    if m.node is Some {
        lemma_node_back(m.node->0);
    }
    if m.link is Some {
        lemma_link_back(m.link->0);
    }
    if m.prefix is Some {
        lemma_prefix_back(m.prefix->0);
    }
    assert(Seq::<messages::LsTlvView>::empty() + m.tlvs =~= m.tlvs);
}

} // verus!
