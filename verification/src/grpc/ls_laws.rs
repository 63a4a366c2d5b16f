//! What messages say of link-state objects.

use crate::bgp::bgpls::{
    LinkAttrTlvView, LinkDescriptorView, LsAttrTlvView, LsDescriptorsView, LsNlriView, LsTlvView,
    NodeAttrTlvView, NodeDescriptorView, PrefixAttrTlvView, PrefixDescriptorView,
};
use crate::grpc::ls_attr;
use crate::grpc::proto::ls as messages;
use crate::grpc::proto_ls;
use crate::net::addr::Ipv4Addr;
use crate::net::addr_text;
use vstd::prelude::*;

verus! {

// ---------------------------------------------------------------------------
// Objects
// ---------------------------------------------------------------------------

/// An object is shown by its kind, its protocol and its identifier, each counted from
/// zero but the last, and by what describes it: its own node in any case, the other
/// node and the link of a link, and the prefix of a prefix. One of which nothing is
/// parsed is not shown.
pub proof fn law_shown_objects(n: LsNlriView)
    ensures
        n.body is None ==> proto_ls::nlri_message(n) is None,
        n.body is Some ==> {
            let b = n.body->0;
            let m = proto_ls::nlri_message(n)->0;
            &&& proto_ls::nlri_message(n) is Some
            &&& 1 <= n.nlri_type <= 4 ==> m.nlri_type == n.nlri_type - 1
            &&& !(1 <= n.nlri_type <= 4) ==> m.nlri_type == -1
            &&& 1 <= b.protocol_id <= 6 ==> m.protocol_id == b.protocol_id - 1
            &&& !(1 <= b.protocol_id <= 6) ==> m.protocol_id == 0
            &&& m.identifier == b.identifier
            &&& match b.descriptors {
                LsDescriptorsView::Node { local_node } => m.local_node == Some(
                    proto_ls::node_message(local_node),
                ) && m.remote_node is None && m.link_descriptors is None
                    && m.prefix_descriptors is None,
                LsDescriptorsView::Link { local_node, remote_node, link_descriptors } => {
                    &&& m.local_node == Some(proto_ls::node_message(local_node))
                    &&& m.remote_node == Some(proto_ls::node_message(remote_node))
                    &&& m.link_descriptors == Some(proto_ls::link_message(link_descriptors))
                    &&& m.prefix_descriptors is None
                },
                LsDescriptorsView::PrefixV4 { local_node, prefix_descriptors } => {
                    &&& m.local_node == Some(proto_ls::node_message(local_node))
                    &&& m.prefix_descriptors == Some(proto_ls::prefix_message(prefix_descriptors))
                    &&& m.remote_node is None && m.link_descriptors is None
                },
                LsDescriptorsView::PrefixV6 { local_node, prefix_descriptors } => {
                    &&& m.local_node == Some(proto_ls::node_message(local_node))
                    &&& m.prefix_descriptors == Some(proto_ls::prefix_message(prefix_descriptors))
                    &&& m.remote_node is None && m.link_descriptors is None
                },
            }
        },
{
}

/// A node is shown by its AS number, its identifiers and its area.
pub proof fn law_shown_nodes(n: NodeDescriptorView)
    ensures
        proto_ls::node_message(n).as_number == n.as_number,
        proto_ls::node_message(n).bgp_ls_id == n.bgp_ls_id,
        proto_ls::node_message(n).ospf_area_id == n.ospf_area_id,
        n.igp_router_id is Some ==> proto_ls::node_message(n).igp_router_id == n.igp_router_id->0,
        n.igp_router_id is None ==> proto_ls::node_message(n).igp_router_id.len() == 0,
{
}

/// What a message shows of four octets of an address.
pub open spec fn shows_quad(m: Option<Seq<char>>, q: Option<Seq<u8>>) -> bool {
    match q {
        None => m is None,
        Some(o) => m == Some((Ipv4Addr { a: o[0], b: o[1], c: o[2], d: o[3] }).text()),
    }
}

/// What a message shows of topologies.
pub open spec fn shows_topologies(m: Seq<u32>, s: Option<Seq<u16>>) -> bool {
    match s {
        None => m.len() == 0,
        Some(l) => m.len() == l.len() && forall|i: int|
            0 <= i < l.len() ==> #[trigger] m[i] == l[i],
    }
}

/// What a message shows of items that are not known.
pub open spec fn shows_unknown(m: Seq<messages::LsTlvView>, s: Seq<LsTlvView>) -> bool {
    m.len() == s.len() && forall|i: int|
        0 <= i < s.len() ==> (#[trigger] m[i]).tlv_type == s[i].tlv_type && m[i].value == s[i].value
}

/// A link is shown by the identifiers and the addresses of both its ends, each at its
/// end.
pub proof fn law_shown_links(l: LinkDescriptorView)
    ensures
        ({
            let m = proto_ls::link_message(l);
            &&& m.link_local_id == l.link_local_id
            &&& m.link_remote_id == l.link_remote_id
            &&& shows_quad(m.ipv4_interface_addr, l.ipv4_interface_addr)
            &&& shows_quad(m.ipv4_neighbor_addr, l.ipv4_neighbor_addr)
            &&& l.ipv6_interface_addr is Some ==> m.ipv6_interface_addr == Some(
                l.ipv6_interface_addr->0.text(),
            )
            &&& l.ipv6_neighbor_addr is Some ==> m.ipv6_neighbor_addr == Some(
                l.ipv6_neighbor_addr->0.text(),
            )
            &&& l.ipv6_interface_addr is None ==> m.ipv6_interface_addr is None
            &&& l.ipv6_neighbor_addr is None ==> m.ipv6_neighbor_addr is None
            &&& shows_topologies(m.multi_topology_id, l.multi_topology_id)
            &&& shows_unknown(m.unknown, l.unknown)
        }),
{
}

/// A prefix is shown by its topologies, the kind of its route and what is reached.
pub proof fn law_shown_prefixes(p: PrefixDescriptorView)
    ensures
        ({
            let m = proto_ls::prefix_message(p);
            &&& shows_topologies(m.multi_topology_id, p.multi_topology_id)
            &&& p.ospf_route_type is Some ==> m.ospf_route_type is Some && m.ospf_route_type->0
                == p.ospf_route_type->0
            &&& p.ospf_route_type is None ==> m.ospf_route_type is None
            &&& p.ip_reachability is Some ==> m.ip_reachability == p.ip_reachability->0
            &&& p.ip_reachability is None ==> m.ip_reachability.len() == 0
            &&& shows_unknown(m.unknown, p.unknown)
        }),
{
}

/// An object is made of a message with known numbers: of the kind and the protocol that
/// they stand for, without a distinguisher, and with the octets that it is encoded in.
pub proof fn law_read_objects(m: messages::LsNlriView, raw: Seq<u8>)
    ensures
        proto_ls::read_nlri(m, raw) is Ok <==> 0 <= m.nlri_type <= 3 && 0 <= m.protocol_id <= 5,
        match proto_ls::read_nlri(m, raw) {
            Err(_) => true,
            Ok(n) => {
                &&& n.raw == raw
                &&& n.nlri_type == m.nlri_type + 1
                &&& n.route_distinguisher is None
                &&& n.body is Some
                &&& n.body->0.protocol_id == m.protocol_id + 1
                &&& n.body->0.identifier == m.identifier
                &&& match n.body->0.descriptors {
                    LsDescriptorsView::Node { local_node } => m.nlri_type == 0 && (
                    m.local_node is Some ==> local_node == proto_ls::read_node(m.local_node->0)),
                    LsDescriptorsView::Link { local_node, remote_node, link_descriptors } => {
                        &&& m.nlri_type == 1
                        &&& m.local_node is Some ==> local_node == proto_ls::read_node(
                            m.local_node->0,
                        )
                        &&& m.remote_node is Some ==> remote_node == proto_ls::read_node(
                            m.remote_node->0,
                        )
                        &&& m.link_descriptors is Some ==> link_descriptors == proto_ls::read_link(
                            m.link_descriptors->0,
                        )
                    },
                    LsDescriptorsView::PrefixV4 { local_node, prefix_descriptors } => {
                        &&& m.nlri_type == 2
                        &&& m.local_node is Some ==> local_node == proto_ls::read_node(
                            m.local_node->0,
                        )
                        &&& m.prefix_descriptors is Some ==> prefix_descriptors
                            == proto_ls::read_prefix(m.prefix_descriptors->0)
                    },
                    LsDescriptorsView::PrefixV6 { local_node, prefix_descriptors } => {
                        &&& m.nlri_type == 3
                        &&& m.local_node is Some ==> local_node == proto_ls::read_node(
                            m.local_node->0,
                        )
                        &&& m.prefix_descriptors is Some ==> prefix_descriptors
                            == proto_ls::read_prefix(m.prefix_descriptors->0)
                    },
                }
            },
        },
{
}

/// Nodes, links and prefixes are read field by field; a list without members, and an
/// address that cannot be read, says nothing.
pub proof fn law_read_descriptors(
    n: messages::LsNodeDescriptorView,
    l: messages::LsLinkDescriptorView,
    p: messages::LsPrefixDescriptorView,
)
    ensures
        ({
            let x = proto_ls::read_node(n);
            &&& x.as_number == n.as_number
            &&& x.bgp_ls_id == n.bgp_ls_id
            &&& x.ospf_area_id == n.ospf_area_id
            &&& n.igp_router_id.len() > 0 ==> x.igp_router_id == Some(n.igp_router_id)
            &&& n.igp_router_id.len() == 0 ==> x.igp_router_id is None
            &&& x.unknown.len() == 0
        }),
        ({
            let x = proto_ls::read_link(l);
            &&& x.link_local_id == l.link_local_id
            &&& x.link_remote_id == l.link_remote_id
            &&& l.ipv6_interface_addr is Some ==> x.ipv6_interface_addr == addr_text::read_ipv6(
                l.ipv6_interface_addr->0,
            )
            &&& l.ipv6_neighbor_addr is Some ==> x.ipv6_neighbor_addr == addr_text::read_ipv6(
                l.ipv6_neighbor_addr->0,
            )
            &&& l.ipv6_interface_addr is None ==> x.ipv6_interface_addr is None
            &&& l.ipv6_neighbor_addr is None ==> x.ipv6_neighbor_addr is None
            &&& reads_quad(l.ipv4_interface_addr, x.ipv4_interface_addr)
            &&& reads_quad(l.ipv4_neighbor_addr, x.ipv4_neighbor_addr)
            &&& l.multi_topology_id.len() == 0 <==> x.multi_topology_id is None
            &&& x.unknown.len() == l.unknown.len()
        }),
        ({
            let x = proto_ls::read_prefix(p);
            &&& p.ip_reachability.len() > 0 ==> x.ip_reachability == Some(p.ip_reachability)
            &&& p.ip_reachability.len() == 0 ==> x.ip_reachability is None
            &&& p.ospf_route_type is Some <==> x.ospf_route_type is Some
            &&& p.ospf_route_type is Some && p.ospf_route_type->0 < 256 ==> x.ospf_route_type->0
                == p.ospf_route_type->0
            &&& p.multi_topology_id.len() == 0 <==> x.multi_topology_id is None
            &&& x.unknown.len() == p.unknown.len()
        }),
{
}

/// Four octets are those of an address in a message.
pub open spec fn reads_quad(m: Option<Seq<char>>, q: Option<Seq<u8>>) -> bool {
    match m {
        None => q is None,
        Some(s) => match addr_text::read_ipv4(s) {
            None => q is None,
            Some(x) => q == Some(seq![x.a, x.b, x.c, x.d]),
        },
    }
}

// ---------------------------------------------------------------------------
// Attributes
// ---------------------------------------------------------------------------

/// Each item of an attribute is shown with what it belongs to, behind those before it;
/// of two items of one kind the later is shown.
pub proof fn law_shown_items(s: Seq<LsAttrTlvView>, x: LsAttrTlvView)
    ensures
        ls_attr::attr_message(Seq::empty()).node is None,
        ls_attr::attr_message(Seq::empty()).link is None,
        ls_attr::attr_message(Seq::empty()).prefix is None,
        ls_attr::attr_message(Seq::empty()).tlvs.len() == 0,
        ({
            let a = ls_attr::attr_message(s);
            let b = ls_attr::attr_message(s.push(x));
            match x {
                LsAttrTlvView::Node(_) => b.node is Some && b.link == a.link && b.prefix == a.prefix
                    && b.tlvs == a.tlvs,
                LsAttrTlvView::Link(_) => b.link is Some && b.node == a.node && b.prefix == a.prefix
                    && b.tlvs == a.tlvs,
                LsAttrTlvView::Prefix(_) => b.prefix is Some && b.node == a.node && b.link == a.link
                    && b.tlvs == a.tlvs,
                LsAttrTlvView::Unknown(t) => {
                    &&& b.node == a.node && b.link == a.link && b.prefix == a.prefix
                    &&& b.tlvs.len() == a.tlvs.len() + 1
                    &&& b.tlvs.last().tlv_type == t.tlv_type && b.tlvs.last().value == t.value
                    &&& b.tlvs.drop_last() == a.tlvs
                },
            }
        }),
{
    assert(s.push(x).drop_last() =~= s);
    let a = ls_attr::attr_message(s);
    let b = ls_attr::attr_message(s.push(x));
    if let LsAttrTlvView::Unknown(_) = x {
        assert(b.tlvs.drop_last() =~= a.tlvs);
    }
}

/// An item of a node is shown under its own heading, and leaves the others as they are.
pub proof fn law_shown_node_items(s: Seq<LsAttrTlvView>, x: NodeAttrTlvView)
    ensures
        ({
            let a = match ls_attr::attr_message(s).node {
                Some(n) => n,
                None => messages::no_node_attribute(),
            };
            let b = ls_attr::attr_message(s.push(LsAttrTlvView::Node(x))).node->0;
            &&& match x {
                NodeAttrTlvView::FlagBits(v) => b.flag_bits is Some && b.flag_bits->0 == v,
                NodeAttrTlvView::Opaque(v) => b.opaque == Some(v),
                NodeAttrTlvView::Name(v) => b.name == Some(v),
                NodeAttrTlvView::IsisAreaId(v) => b.isis_area_id == v,
                NodeAttrTlvView::Ipv4RouterId(v) => b.ipv4_router_id == Some(v.text()),
                NodeAttrTlvView::Ipv6RouterId(v) => b.ipv6_router_id == Some(v.text()),
            }
            &&& !(x is FlagBits) ==> b.flag_bits == a.flag_bits
            &&& !(x is Opaque) ==> b.opaque == a.opaque
            &&& !(x is Name) ==> b.name == a.name
            &&& !(x is IsisAreaId) ==> b.isis_area_id == a.isis_area_id
            &&& !(x is Ipv4RouterId) ==> b.ipv4_router_id == a.ipv4_router_id
            &&& !(x is Ipv6RouterId) ==> b.ipv6_router_id == a.ipv6_router_id
        }),
{
    assert(s.push(LsAttrTlvView::Node(x)).drop_last() =~= s);
}

/// An item of a link is shown under its own heading, and leaves the others as they are.
pub proof fn law_shown_link_items(s: Seq<LsAttrTlvView>, x: LinkAttrTlvView)
    ensures
        ({
            let a = match ls_attr::attr_message(s).link {
                Some(n) => n,
                None => messages::no_link_attribute(),
            };
            let b = ls_attr::attr_message(s.push(LsAttrTlvView::Link(x))).link->0;
            &&& match x {
                LinkAttrTlvView::Ipv4RouterIdLocal(v) => b.ipv4_router_id_local == Some(v.text()),
                LinkAttrTlvView::Ipv6RouterIdLocal(v) => b.ipv6_router_id_local == Some(v.text()),
                LinkAttrTlvView::Ipv4RouterIdRemote(v) => b.ipv4_router_id_remote == Some(v.text()),
                LinkAttrTlvView::Ipv6RouterIdRemote(v) => b.ipv6_router_id_remote == Some(v.text()),
                LinkAttrTlvView::AdminGroup(v) => b.admin_group == Some(v),
                LinkAttrTlvView::MaxLinkBw(v) => b.max_link_bandwidth_bits == Some(v),
                LinkAttrTlvView::MaxRsvblLinkBw(v) => b.max_reservable_bandwidth_bits == Some(v),
                LinkAttrTlvView::UnreservedBw(v) => b.unreserved_bandwidth_bits == v,
                LinkAttrTlvView::TeDefaultMetric(v) => b.te_default_metric == Some(v),
                LinkAttrTlvView::LinkProtection(v) => b.link_protection is Some
                    && b.link_protection->0 == v,
                LinkAttrTlvView::MplsProtocolMask(v) => b.mpls_protocol_mask is Some
                    && b.mpls_protocol_mask->0 == v,
                LinkAttrTlvView::IgpMetric(v) => b.igp_metric == Some(v),
                LinkAttrTlvView::Srlg(v) => b.srlg == v,
                LinkAttrTlvView::Opaque(v) => b.opaque == Some(v),
                LinkAttrTlvView::Name(v) => b.name == Some(v),
            }
            &&& !(x is Ipv4RouterIdLocal) ==> b.ipv4_router_id_local == a.ipv4_router_id_local
            &&& !(x is Ipv6RouterIdLocal) ==> b.ipv6_router_id_local == a.ipv6_router_id_local
            &&& !(x is Ipv4RouterIdRemote) ==> b.ipv4_router_id_remote == a.ipv4_router_id_remote
            &&& !(x is Ipv6RouterIdRemote) ==> b.ipv6_router_id_remote == a.ipv6_router_id_remote
            &&& !(x is AdminGroup) ==> b.admin_group == a.admin_group
            &&& !(x is MaxLinkBw) ==> b.max_link_bandwidth_bits == a.max_link_bandwidth_bits
            &&& !(x is MaxRsvblLinkBw) ==> b.max_reservable_bandwidth_bits
                == a.max_reservable_bandwidth_bits
            &&& !(x is UnreservedBw) ==> b.unreserved_bandwidth_bits == a.unreserved_bandwidth_bits
            &&& !(x is TeDefaultMetric) ==> b.te_default_metric == a.te_default_metric
            &&& !(x is LinkProtection) ==> b.link_protection == a.link_protection
            &&& !(x is MplsProtocolMask) ==> b.mpls_protocol_mask == a.mpls_protocol_mask
            &&& !(x is IgpMetric) ==> b.igp_metric == a.igp_metric
            &&& !(x is Srlg) ==> b.srlg == a.srlg
            &&& !(x is Opaque) ==> b.opaque == a.opaque
            &&& !(x is Name) ==> b.name == a.name
        }),
{
    assert(s.push(LsAttrTlvView::Link(x)).drop_last() =~= s);
}

/// An item of a prefix is shown under its own heading, and leaves the others as they
/// are.
pub proof fn law_shown_prefix_items(s: Seq<LsAttrTlvView>, x: PrefixAttrTlvView)
    ensures
        ({
            let a = match ls_attr::attr_message(s).prefix {
                Some(n) => n,
                None => messages::no_prefix_attribute(),
            };
            let b = ls_attr::attr_message(s.push(LsAttrTlvView::Prefix(x))).prefix->0;
            &&& match x {
                PrefixAttrTlvView::IgpFlags(v) => b.igp_flags is Some && b.igp_flags->0 == v,
                PrefixAttrTlvView::IgpRouteTag(v) => b.igp_route_tag == v,
                PrefixAttrTlvView::IgpExtendedRouteTag(v) => b.igp_extended_route_tag == v,
                PrefixAttrTlvView::Metric(v) => b.metric == Some(v),
                PrefixAttrTlvView::OspfFwdAddr(v) => b.ospf_forwarding_addr == Some(v.text()),
                PrefixAttrTlvView::Opaque(v) => b.opaque == Some(v),
            }
            &&& !(x is IgpFlags) ==> b.igp_flags == a.igp_flags
            &&& !(x is IgpRouteTag) ==> b.igp_route_tag == a.igp_route_tag
            &&& !(x is IgpExtendedRouteTag) ==> b.igp_extended_route_tag == a.igp_extended_route_tag
            &&& !(x is Metric) ==> b.metric == a.metric
            &&& !(x is OspfFwdAddr) ==> b.ospf_forwarding_addr == a.ospf_forwarding_addr
            &&& !(x is Opaque) ==> b.opaque == a.opaque
        }),
{
    assert(s.push(LsAttrTlvView::Prefix(x)).drop_last() =~= s);
}

/// What nothing is said of in an attribute.
pub proof fn law_nothing_shown()
    ensures
        ({
            let n = messages::no_node_attribute();
            &&& n.flag_bits is None && n.opaque is None && n.name is None
            &&& n.isis_area_id.len() == 0 && n.ipv4_router_id is None && n.ipv6_router_id is None
        }),
        ({
            let l = messages::no_link_attribute();
            &&& l.ipv4_router_id_local is None && l.ipv6_router_id_local is None
            &&& l.ipv4_router_id_remote is None && l.ipv6_router_id_remote is None
            &&& l.admin_group is None && l.max_link_bandwidth_bits is None
            &&& l.max_reservable_bandwidth_bits is None && l.unreserved_bandwidth_bits.len() == 0
            &&& l.te_default_metric is None && l.link_protection is None
            &&& l.mpls_protocol_mask is None && l.igp_metric is None && l.srlg.len() == 0
            &&& l.opaque is None && l.name is None
        }),
        ({
            let p = messages::no_prefix_attribute();
            &&& p.igp_flags is None && p.igp_route_tag.len() == 0
            &&& p.igp_extended_route_tag.len() == 0 && p.metric is None
            &&& p.ospf_forwarding_addr is None && p.opaque is None
        }),
{
}

} // verus!
