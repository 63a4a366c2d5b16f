//! Link-state routes of messages and those of the routing table.

pub use crate::grpc::ls_attr::{ls_attr_to_proto, proto_to_ls_attr};

use crate::bgp::bgpls;
use crate::bgp::bgpls::{
    LinkDescriptor, LinkDescriptorView, LsDescriptors, LsDescriptorsView, LsNlri,
    LsNlriBody, LsNlriBodyView, LsNlriType, LsNlriView, LsProtocolId, LsTlv, LsTlvView,
    NodeDescriptor, NodeDescriptorView, PrefixDescriptor, PrefixDescriptorView,
};
use crate::conf;
use crate::grpc::proto::ls as messages;
use crate::net::addr::{Ipv4Addr, Ipv6Addr};
use crate::net::addr_laws;
use crate::net::addr_text;
use crate::seqs;
use crate::seqs::copy_items;
use crate::text;
use crate::text::{cat2, render_signed};
use vstd::prelude::*;

verus! {

// ---------------------------------------------------------------------------
// Kinds and protocols
// ---------------------------------------------------------------------------

/// The kind of route that a number in a message stands for.
pub open spec fn read_nlri_type(val: i32) -> Result<LsNlriType, Seq<char>> {
    match val {
        0 => Ok(LsNlriType::Node),
        1 => Ok(LsNlriType::Link),
        2 => Ok(LsNlriType::PrefixV4),
        3 => Ok(LsNlriType::PrefixV6),
        _ => Err("invalid LS NLRI type: "@ + text::signed_decimal(val as int)),
    }
}

pub fn proto_nlri_type(val: i32) -> (r: Result<LsNlriType, String>)
    ensures
        conf::plain_result(r) == read_nlri_type(val),
{
    match val {
        0 => Ok(LsNlriType::Node),
        1 => Ok(LsNlriType::Link),
        2 => Ok(LsNlriType::PrefixV4),
        3 => Ok(LsNlriType::PrefixV6),
        _ => Err(cat2("invalid LS NLRI type: ", render_signed(val).as_str())),
    }
}

/// The number in messages of a kind that has the number `wire` on the wire, and
/// -1 where there is none.
pub open spec fn nlri_type_number(wire: u16) -> int {
    if 1 <= wire <= 4 {
        wire - 1
    } else {
        -1
    }
}

pub fn nlri_type_to_proto(wire: u16) -> (r: i32)
    ensures
        r == nlri_type_number(wire),
{
    match wire {
        1 => 0,
        2 => 1,
        3 => 2,
        4 => 3,
        _ => -1,
    }
}

/// The protocol that a number in a message stands for.
pub open spec fn read_protocol_id(val: i32) -> Result<LsProtocolId, Seq<char>> {
    match val {
        0 => Ok(LsProtocolId::IsIsL1),
        1 => Ok(LsProtocolId::IsIsL2),
        2 => Ok(LsProtocolId::OspfV2),
        3 => Ok(LsProtocolId::Direct),
        4 => Ok(LsProtocolId::Static),
        5 => Ok(LsProtocolId::OspfV3),
        _ => Err("invalid LS protocol ID: "@ + text::signed_decimal(val as int)),
    }
}

pub fn proto_protocol_id(val: i32) -> (r: Result<LsProtocolId, String>)
    ensures
        conf::plain_result(r) == read_protocol_id(val),
{
    match val {
        0 => Ok(LsProtocolId::IsIsL1),
        1 => Ok(LsProtocolId::IsIsL2),
        2 => Ok(LsProtocolId::OspfV2),
        3 => Ok(LsProtocolId::Direct),
        4 => Ok(LsProtocolId::Static),
        5 => Ok(LsProtocolId::OspfV3),
        _ => Err(cat2("invalid LS protocol ID: ", render_signed(val).as_str())),
    }
}

/// The number in messages of a protocol that has the number `wire` on the wire,
/// and 0 where there is none.
pub open spec fn protocol_id_number(wire: u8) -> int {
    if 1 <= wire <= 6 {
        wire - 1
    } else {
        0
    }
}

pub fn protocol_id_to_proto(wire: u8) -> (r: i32)
    ensures
        r == protocol_id_number(wire),
{
    match wire {
        1 => 0,
        2 => 1,
        3 => 2,
        4 => 3,
        5 => 4,
        6 => 5,
        _ => 0,
    }
}

/// The number of each kind and of each protocol in messages is read as that kind
/// and that protocol.
pub proof fn law_numbers_round_trip(kind: LsNlriType, protocol: LsProtocolId)
    ensures
        read_nlri_type(nlri_type_number(kind.code_spec()) as i32) == Ok::<LsNlriType, Seq<char>>(
            kind,
        ),
        read_protocol_id(protocol_id_number(protocol.code_spec()) as i32) == Ok::<
            LsProtocolId,
            Seq<char>,
        >(protocol),
{
}

// ---------------------------------------------------------------------------
// Lists
// ---------------------------------------------------------------------------

/// A list in a message, of which an empty one says nothing.
pub open spec fn said<T>(s: Seq<T>) -> Option<Seq<T>> {
    if s.len() == 0 {
        None
    } else {
        Some(s)
    }
}

/// What is said, or an empty list.
pub open spec fn or_nothing<T>(s: Option<Seq<T>>) -> Seq<T> {
    match s {
        Some(x) => x,
        None => Seq::empty(),
    }
}

/// The low sixteen bits of each number.
pub open spec fn narrowed(s: Seq<u32>) -> Seq<u16> {
    Seq::new(s.len(), |i: int| s[i] as u16)
}

/// The same numbers in more bits.
pub open spec fn widened(s: Seq<u16>) -> Seq<u32> {
    Seq::new(s.len(), |i: int| s[i] as u32)
}

fn narrow(v: &Vec<u32>) -> (r: Vec<u16>)
    ensures
        r@ == narrowed(v@),
{
    let mut r: Vec<u16> = Vec::new();
    let mut i: usize = 0;
    while i < v.len()
        invariant
            i <= v@.len(),
            r@ == narrowed(v@).take(i as int),
        decreases v.len() - i,
    {
        r.push(v[i] as u16);
        proof {
            seqs::lemma_take_next(narrowed(v@), i as int);
        }
        i = i + 1;
    }
    proof {
        seqs::lemma_take_all(narrowed(v@));
    }
    r
}

fn widen(v: &Vec<u16>) -> (r: Vec<u32>)
    ensures
        r@ == widened(v@),
{
    let mut r: Vec<u32> = Vec::new();
    let mut i: usize = 0;
    while i < v.len()
        invariant
            i <= v@.len(),
            r@ == widened(v@).take(i as int),
        decreases v.len() - i,
    {
        r.push(v[i] as u32);
        proof {
            seqs::lemma_take_next(widened(v@), i as int);
        }
        i = i + 1;
    }
    proof {
        seqs::lemma_take_all(widened(v@));
    }
    r
}

/// An item of a message, its type in sixteen bits.
pub open spec fn read_tlv(t: messages::LsTlvView) -> LsTlvView {
    LsTlvView { tlv_type: t.tlv_type as u16, value: t.value }
}

/// An item in a message.
pub open spec fn tlv_message(t: LsTlvView) -> messages::LsTlvView {
    messages::LsTlvView { tlv_type: t.tlv_type as u32, value: t.value }
}

pub open spec fn read_tlvs(s: Seq<messages::LsTlvView>) -> Seq<LsTlvView> {
    Seq::new(s.len(), |i: int| read_tlv(s[i]))
}

pub open spec fn tlv_messages(s: Seq<LsTlvView>) -> Seq<messages::LsTlvView> {
    Seq::new(s.len(), |i: int| tlv_message(s[i]))
}

pub(crate) fn tlv_from_proto(t: &messages::LsTlv) -> (r: LsTlv)
    ensures
        r@ == read_tlv(t@),
{
    LsTlv { tlv_type: t.tlv_type as u16, value: copy_items(&t.value) }
}

pub(crate) fn tlv_to_proto(t: &LsTlv) -> (r: messages::LsTlv)
    ensures
        r@ == tlv_message(t@),
{
    messages::LsTlv { tlv_type: t.tlv_type as u32, value: copy_items(&t.value) }
}

fn tlvs_from_proto(v: &Vec<messages::LsTlv>) -> (r: Vec<LsTlv>)
    ensures
        seqs::views(r@) == read_tlvs(seqs::views(v@)),
{
    let mut r: Vec<LsTlv> = Vec::new();
    let ghost all = read_tlvs(seqs::views(v@));
    let mut i: usize = 0;
    while i < v.len()
        invariant
            i <= v@.len(),
            all == read_tlvs(seqs::views(v@)),
            seqs::views(r@) == all.take(i as int),
        decreases v.len() - i,
    {
        let x = tlv_from_proto(&v[i]);
        proof {
            seqs::lemma_views_push(r@, x);
            seqs::lemma_take_next(all, i as int);
        }
        r.push(x);
        i = i + 1;
    }
    proof {
        seqs::lemma_take_all(all);
    }
    r
}

fn tlvs_to_proto(v: &Vec<LsTlv>) -> (r: Vec<messages::LsTlv>)
    ensures
        seqs::views(r@) == tlv_messages(seqs::views(v@)),
{
    let mut r: Vec<messages::LsTlv> = Vec::new();
    let ghost all = tlv_messages(seqs::views(v@));
    let mut i: usize = 0;
    while i < v.len()
        invariant
            i <= v@.len(),
            all == tlv_messages(seqs::views(v@)),
            seqs::views(r@) == all.take(i as int),
        decreases v.len() - i,
    {
        let x = tlv_to_proto(&v[i]);
        proof {
            seqs::lemma_views_push(r@, x);
            seqs::lemma_take_next(all, i as int);
        }
        r.push(x);
        i = i + 1;
    }
    proof {
        seqs::lemma_take_all(all);
    }
    r
}

fn opt_bytes_from_proto(v: &Vec<u8>) -> (r: Option<Vec<u8>>)
    ensures
        bgpls::opt_bytes(r) == said(v@),
{
    if v.len() == 0 {
        None
    } else {
        Some(copy_items(v))
    }
}

fn opt_bytes_to_proto(v: &Option<Vec<u8>>) -> (r: Vec<u8>)
    ensures
        r@ == or_nothing(bgpls::opt_bytes(*v)),
{
    match v {
        Some(b) => copy_items(b),
        None => Vec::new(),
    }
}

/// The topologies that a message names.
pub open spec fn read_topologies(s: Seq<u32>) -> Option<Seq<u16>> {
    said(narrowed(s))
}

/// Topologies in a message.
pub open spec fn topologies_message(s: Option<Seq<u16>>) -> Seq<u32> {
    widened(or_nothing(s))
}

fn topologies_from_proto(v: &Vec<u32>) -> (r: Option<Vec<u16>>)
    ensures
        bgpls::opt_u16s(r) == read_topologies(v@),
{
    if v.len() == 0 {
        None
    } else {
        Some(narrow(v))
    }
}

fn topologies_to_proto(v: &Option<Vec<u16>>) -> (r: Vec<u32>)
    ensures
        r@ == topologies_message(bgpls::opt_u16s(*v)),
{
    match v {
        Some(b) => widen(b),
        None => {
            let r: Vec<u32> = Vec::new();
            assert(r@ =~= widened(Seq::empty()));
            r
        },
    }
}

// ---------------------------------------------------------------------------
// Descriptors
// ---------------------------------------------------------------------------

/// The node that a message describes.
pub open spec fn read_node(m: messages::LsNodeDescriptorView) -> NodeDescriptorView {
    NodeDescriptorView {
        as_number: m.as_number,
        bgp_ls_id: m.bgp_ls_id,
        ospf_area_id: m.ospf_area_id,
        igp_router_id: said(m.igp_router_id),
        unknown: Seq::empty(),
    }
}

/// The description of a node in a message; items of unknown types are left out.
pub open spec fn node_message(n: NodeDescriptorView) -> messages::LsNodeDescriptorView {
    messages::LsNodeDescriptorView {
        as_number: n.as_number,
        bgp_ls_id: n.bgp_ls_id,
        ospf_area_id: n.ospf_area_id,
        igp_router_id: or_nothing(n.igp_router_id),
    }
}

pub fn proto_to_node_descriptor(proto: &messages::LsNodeDescriptor) -> (r: NodeDescriptor)
    ensures
        r@ == read_node(proto@),
{
    let r = NodeDescriptor {
        as_number: proto.as_number,
        bgp_ls_id: proto.bgp_ls_id,
        ospf_area_id: proto.ospf_area_id,
        igp_router_id: opt_bytes_from_proto(&proto.igp_router_id),
        unknown: Vec::new(),
    };
    assert(r@.unknown =~= Seq::<LsTlvView>::empty());
    r
}

pub fn node_descriptor_to_proto(nd: &NodeDescriptor) -> (r: messages::LsNodeDescriptor)
    ensures
        r@ == node_message(nd@),
{
    messages::LsNodeDescriptor {
        as_number: nd.as_number,
        bgp_ls_id: nd.bgp_ls_id,
        ospf_area_id: nd.ospf_area_id,
        igp_router_id: opt_bytes_to_proto(&nd.igp_router_id),
    }
}

/// The octets of the IPv4 address that a text denotes, if it denotes one.
pub open spec fn read_quad(s: Option<Seq<char>>) -> Option<Seq<u8>> {
    match s {
        Some(t) => match addr_text::read_ipv4(t) {
            Some(x) => Some(x.octet_seq()),
            None => None,
        },
        None => None,
    }
}

/// The IPv6 address that a text denotes, if it denotes one.
pub open spec fn read_v6(s: Option<Seq<char>>) -> Option<Ipv6Addr> {
    match s {
        Some(t) => addr_text::read_ipv6(t),
        None => None,
    }
}

/// The notation of the address with the octets `q`.
pub open spec fn quad_text(q: Option<Seq<u8>>) -> Option<Seq<char>> {
    match q {
        Some(o) => Some((Ipv4Addr { a: o[0], b: o[1], c: o[2], d: o[3] }).text()),
        None => None,
    }
}

/// The notation of an IPv6 address.
pub open spec fn v6_text(x: Option<Ipv6Addr>) -> Option<Seq<char>> {
    match x {
        Some(a) => Some(a.text()),
        None => None,
    }
}

fn quad_from_proto(s: &Option<String>) -> (r: Option<[u8; 4]>)
    ensures
        bgpls::opt_quad(r) == read_quad(seqs::opt_text(*s)),
{
    match s {
        Some(t) => match Ipv4Addr::parse(t.as_str()) {
            Some(x) => Some(x.octets()),
            None => None,
        },
        None => None,
    }
}

pub(crate) fn v6_from_proto(s: &Option<String>) -> (r: Option<Ipv6Addr>)
    ensures
        r == read_v6(seqs::opt_text(*s)),
{
    match s {
        Some(t) => Ipv6Addr::parse(t.as_str()),
        None => None,
    }
}

fn quad_to_proto(q: &Option<[u8; 4]>) -> (r: Option<String>)
    ensures
        seqs::opt_text(r) == quad_text(bgpls::opt_quad(*q)),
{
    match q {
        Some(o) => Some(Ipv4Addr::new(o[0], o[1], o[2], o[3]).to_text()),
        None => None,
    }
}

fn v6_to_proto(x: &Option<Ipv6Addr>) -> (r: Option<String>)
    ensures
        seqs::opt_text(r) == v6_text(*x),
{
    match x {
        Some(a) => Some(a.to_text()),
        None => None,
    }
}

/// The link that a message describes. Addresses that cannot be read are left out.
pub open spec fn read_link(m: messages::LsLinkDescriptorView) -> LinkDescriptorView {
    LinkDescriptorView {
        link_local_id: m.link_local_id,
        link_remote_id: m.link_remote_id,
        ipv4_interface_addr: read_quad(m.ipv4_interface_addr),
        ipv4_neighbor_addr: read_quad(m.ipv4_neighbor_addr),
        ipv6_interface_addr: read_v6(m.ipv6_interface_addr),
        ipv6_neighbor_addr: read_v6(m.ipv6_neighbor_addr),
        multi_topology_id: read_topologies(m.multi_topology_id),
        unknown: read_tlvs(m.unknown),
    }
}

/// The description of a link in a message.
pub open spec fn link_message(l: LinkDescriptorView) -> messages::LsLinkDescriptorView {
    messages::LsLinkDescriptorView {
        link_local_id: l.link_local_id,
        link_remote_id: l.link_remote_id,
        ipv4_interface_addr: quad_text(l.ipv4_interface_addr),
        ipv4_neighbor_addr: quad_text(l.ipv4_neighbor_addr),
        ipv6_interface_addr: v6_text(l.ipv6_interface_addr),
        ipv6_neighbor_addr: v6_text(l.ipv6_neighbor_addr),
        multi_topology_id: topologies_message(l.multi_topology_id),
        unknown: tlv_messages(l.unknown),
    }
}

pub fn proto_to_link_descriptor(proto: &messages::LsLinkDescriptor) -> (r: LinkDescriptor)
    ensures
        r@ == read_link(proto@),
{
    LinkDescriptor {
        link_local_id: proto.link_local_id,
        link_remote_id: proto.link_remote_id,
        ipv4_interface_addr: quad_from_proto(&proto.ipv4_interface_addr),
        ipv4_neighbor_addr: quad_from_proto(&proto.ipv4_neighbor_addr),
        ipv6_interface_addr: v6_from_proto(&proto.ipv6_interface_addr),
        ipv6_neighbor_addr: v6_from_proto(&proto.ipv6_neighbor_addr),
        multi_topology_id: topologies_from_proto(&proto.multi_topology_id),
        unknown: tlvs_from_proto(&proto.unknown),
    }
}

pub fn link_descriptor_to_proto(ld: &LinkDescriptor) -> (r: messages::LsLinkDescriptor)
    ensures
        r@ == link_message(ld@),
{
    messages::LsLinkDescriptor {
        link_local_id: ld.link_local_id,
        link_remote_id: ld.link_remote_id,
        ipv4_interface_addr: quad_to_proto(&ld.ipv4_interface_addr),
        ipv4_neighbor_addr: quad_to_proto(&ld.ipv4_neighbor_addr),
        ipv6_interface_addr: v6_to_proto(&ld.ipv6_interface_addr),
        ipv6_neighbor_addr: v6_to_proto(&ld.ipv6_neighbor_addr),
        multi_topology_id: topologies_to_proto(&ld.multi_topology_id),
        unknown: tlvs_to_proto(&ld.unknown),
    }
}

/// The low eight bits of an optional number.
pub open spec fn opt_low_octet(v: Option<u32>) -> Option<u8> {
    match v {
        Some(x) => Some(x as u8),
        None => None,
    }
}

/// The same optional number in more bits.
pub open spec fn opt_widened(v: Option<u8>) -> Option<u32> {
    match v {
        Some(x) => Some(x as u32),
        None => None,
    }
}

/// The prefix that a message describes.
pub open spec fn read_prefix(m: messages::LsPrefixDescriptorView) -> PrefixDescriptorView {
    PrefixDescriptorView {
        multi_topology_id: read_topologies(m.multi_topology_id),
        ospf_route_type: opt_low_octet(m.ospf_route_type),
        ip_reachability: said(m.ip_reachability),
        unknown: read_tlvs(m.unknown),
    }
}

/// The description of a prefix in a message.
pub open spec fn prefix_message(p: PrefixDescriptorView) -> messages::LsPrefixDescriptorView {
    messages::LsPrefixDescriptorView {
        multi_topology_id: topologies_message(p.multi_topology_id),
        ospf_route_type: opt_widened(p.ospf_route_type),
        ip_reachability: or_nothing(p.ip_reachability),
        unknown: tlv_messages(p.unknown),
    }
}

pub fn proto_to_prefix_descriptor(proto: &messages::LsPrefixDescriptor) -> (r: PrefixDescriptor)
    ensures
        r@ == read_prefix(proto@),
{
    let ospf_route_type: Option<u8> = match proto.ospf_route_type {
        Some(v) => Some(v as u8),
        None => None,
    };
    PrefixDescriptor {
        multi_topology_id: topologies_from_proto(&proto.multi_topology_id),
        ospf_route_type,
        ip_reachability: opt_bytes_from_proto(&proto.ip_reachability),
        unknown: tlvs_from_proto(&proto.unknown),
    }
}

pub fn prefix_descriptor_to_proto(pd: &PrefixDescriptor) -> (r: messages::LsPrefixDescriptor)
    ensures
        r@ == prefix_message(pd@),
{
    let ospf_route_type: Option<u32> = match pd.ospf_route_type {
        Some(v) => Some(v as u32),
        None => None,
    };
    messages::LsPrefixDescriptor {
        multi_topology_id: topologies_to_proto(&pd.multi_topology_id),
        ospf_route_type,
        ip_reachability: opt_bytes_to_proto(&pd.ip_reachability),
        unknown: tlvs_to_proto(&pd.unknown),
    }
}

// ---------------------------------------------------------------------------
// Routes
// ---------------------------------------------------------------------------

/// The node that a message describes, or one of which nothing is known.
pub open spec fn read_node_or_empty(
    m: Option<messages::LsNodeDescriptorView>,
) -> NodeDescriptorView {
    match m {
        Some(x) => read_node(x),
        None => bgpls::empty_node(),
    }
}

pub open spec fn read_link_or_empty(
    m: Option<messages::LsLinkDescriptorView>,
) -> LinkDescriptorView {
    match m {
        Some(x) => read_link(x),
        None => bgpls::empty_link(),
    }
}

pub open spec fn read_prefix_or_empty(
    m: Option<messages::LsPrefixDescriptorView>,
) -> PrefixDescriptorView {
    match m {
        Some(x) => read_prefix(x),
        None => bgpls::empty_prefix(),
    }
}

/// What a message describes, as a route of the kind that it names.
pub open spec fn read_descriptors(kind: LsNlriType, m: messages::LsNlriView) -> LsDescriptorsView {
    let local_node = read_node_or_empty(m.local_node);
    match kind {
        LsNlriType::Node => LsDescriptorsView::Node { local_node },
        LsNlriType::Link => LsDescriptorsView::Link {
            local_node,
            remote_node: read_node_or_empty(m.remote_node),
            link_descriptors: read_link_or_empty(m.link_descriptors),
        },
        LsNlriType::PrefixV4 => LsDescriptorsView::PrefixV4 {
            local_node,
            prefix_descriptors: read_prefix_or_empty(m.prefix_descriptors),
        },
        LsNlriType::PrefixV6 => LsDescriptorsView::PrefixV6 {
            local_node,
            prefix_descriptors: read_prefix_or_empty(m.prefix_descriptors),
        },
    }
}

/// The kind and the parsed part of the route that a message denotes. The kind is
/// looked at before the protocol.
pub open spec fn read_body(m: messages::LsNlriView) -> Result<
    (LsNlriType, LsNlriBodyView),
    Seq<char>,
> {
    match read_nlri_type(m.nlri_type) {
        Err(e) => Err(e),
        Ok(kind) => match read_protocol_id(m.protocol_id) {
            Err(e) => Err(e),
            Ok(protocol) => Ok(
                (
                    kind,
                    LsNlriBodyView {
                        protocol_id: protocol.code_spec(),
                        identifier: m.identifier,
                        descriptors: read_descriptors(kind, m),
                    },
                ),
            ),
        },
    }
}

/// The route that a message denotes, of which `raw` is the image on the wire.
pub open spec fn read_nlri(m: messages::LsNlriView, raw: Seq<u8>) -> Result<
    LsNlriView,
    Seq<char>,
> {
    match read_body(m) {
        Err(e) => Err(e),
        Ok((kind, body)) => Ok(
            LsNlriView {
                nlri_type: kind.code_spec(),
                raw,
                body: Some(body),
                route_distinguisher: None,
            },
        ),
    }
}

fn node_from_proto(m: &Option<messages::LsNodeDescriptor>) -> (r: NodeDescriptor)
    ensures
        r@ == read_node_or_empty(conf::opt_view(*m)),
{
    match m {
        Some(x) => proto_to_node_descriptor(x),
        None => NodeDescriptor::default(),
    }
}

fn link_from_proto(m: &Option<messages::LsLinkDescriptor>) -> (r: LinkDescriptor)
    ensures
        r@ == read_link_or_empty(conf::opt_view(*m)),
{
    match m {
        Some(x) => proto_to_link_descriptor(x),
        None => LinkDescriptor::default(),
    }
}

fn prefix_from_proto(m: &Option<messages::LsPrefixDescriptor>) -> (r: PrefixDescriptor)
    ensures
        r@ == read_prefix_or_empty(conf::opt_view(*m)),
{
    match m {
        Some(x) => proto_to_prefix_descriptor(x),
        None => PrefixDescriptor::default(),
    }
}

fn descriptors_from_proto(kind: LsNlriType, proto_nlri: &messages::LsNlri) -> (r: LsDescriptors)
    ensures
        r@ == read_descriptors(kind, proto_nlri@),
{
    let local_node = node_from_proto(&proto_nlri.local_node);
    match kind {
        LsNlriType::Node => LsDescriptors::Node { local_node },
        LsNlriType::Link => LsDescriptors::Link {
            local_node,
            remote_node: node_from_proto(&proto_nlri.remote_node),
            link_descriptors: link_from_proto(&proto_nlri.link_descriptors),
        },
        LsNlriType::PrefixV4 => LsDescriptors::PrefixV4 {
            local_node,
            prefix_descriptors: prefix_from_proto(&proto_nlri.prefix_descriptors),
        },
        LsNlriType::PrefixV6 => LsDescriptors::PrefixV6 {
            local_node,
            prefix_descriptors: prefix_from_proto(&proto_nlri.prefix_descriptors),
        },
    }
}

/// The kind and the parsed part of the route that a message denotes: what the
/// image of the route on the wire is made of.
pub fn proto_to_ls_body(proto_nlri: &messages::LsNlri) -> (r: Result<
    (LsNlriType, LsNlriBody),
    String,
>)
    ensures
        (match r {
            Ok((kind, body)) => Ok((kind, body@)),
            Err(e) => Err(e@),
        }) == read_body(proto_nlri@),
{
    let kind = match proto_nlri_type(proto_nlri.nlri_type) {
        Ok(k) => k,
        Err(e) => {
            return Err(e);
        },
    };
    let protocol = match proto_protocol_id(proto_nlri.protocol_id) {
        Ok(p) => p,
        Err(e) => {
            return Err(e);
        },
    };
    let body = LsNlriBody {
        protocol_id: protocol.code(),
        identifier: proto_nlri.identifier,
        descriptors: descriptors_from_proto(kind, proto_nlri),
    };
    Ok((kind, body))
}

/// The route that a message denotes, with `raw`, its image on the wire.
pub fn proto_to_ls_nlri(proto_nlri: &messages::LsNlri, raw: Vec<u8>) -> (r: Result<LsNlri, String>)
    ensures
        conf::result_view(r) == read_nlri(proto_nlri@, raw@),
{
    match proto_to_ls_body(proto_nlri) {
        Ok((kind, body)) => Ok(
            LsNlri { nlri_type: kind.code(), raw, body: Some(body), route_distinguisher: None },
        ),
        Err(e) => Err(e),
    }
}

/// The message of a route; there is none of a route of which nothing is parsed.
pub open spec fn nlri_message(n: LsNlriView) -> Option<messages::LsNlriView> {
    match n.body {
        None => None,
        Some(b) => Some(
            messages::LsNlriView {
                nlri_type: nlri_type_number(n.nlri_type) as i32,
                protocol_id: protocol_id_number(b.protocol_id) as i32,
                identifier: b.identifier,
                local_node: Some(node_message(b.descriptors.local_node_spec())),
                remote_node: match b.descriptors {
                    LsDescriptorsView::Link {
                        local_node: _,
                        remote_node,
                        link_descriptors: _,
                    } => Some(node_message(remote_node)),
                    _ => None,
                },
                link_descriptors: match b.descriptors {
                    LsDescriptorsView::Link {
                        local_node: _,
                        remote_node: _,
                        link_descriptors,
                    } => Some(link_message(link_descriptors)),
                    _ => None,
                },
                prefix_descriptors: match b.descriptors {
                    LsDescriptorsView::PrefixV4 { local_node: _, prefix_descriptors } => Some(
                        prefix_message(prefix_descriptors),
                    ),
                    LsDescriptorsView::PrefixV6 { local_node: _, prefix_descriptors } => Some(
                        prefix_message(prefix_descriptors),
                    ),
                    _ => None,
                },
            },
        ),
    }
}

/// The message of a route; there is none of a route of which nothing is parsed.
pub fn ls_nlri_to_proto(nlri: &LsNlri) -> (r: Option<messages::LsNlri>)
    ensures
        conf::opt_view(r) == nlri_message(nlri@),
        r is None <==> nlri@.body is None,
{
    let body = match &nlri.body {
        Some(b) => b,
        None => {
            return None;
        },
    };
    let local_node = Some(node_descriptor_to_proto(body.descriptors.local_node()));
    let (remote_node, link_descriptors, prefix_descriptors) = match &body.descriptors {
        LsDescriptors::Node { local_node: _ } => (None, None, None),
        LsDescriptors::Link { local_node: _, remote_node, link_descriptors } => (
            Some(node_descriptor_to_proto(remote_node)),
            Some(link_descriptor_to_proto(link_descriptors)),
            None,
        ),
        LsDescriptors::PrefixV4 { local_node: _, prefix_descriptors } => (
            None,
            None,
            Some(prefix_descriptor_to_proto(prefix_descriptors)),
        ),
        LsDescriptors::PrefixV6 { local_node: _, prefix_descriptors } => (
            None,
            None,
            Some(prefix_descriptor_to_proto(prefix_descriptors)),
        ),
    };
    Some(
        messages::LsNlri {
            nlri_type: nlri_type_to_proto(nlri.nlri_type),
            protocol_id: protocol_id_to_proto(body.protocol_id),
            identifier: body.identifier,
            local_node,
            remote_node,
            link_descriptors,
            prefix_descriptors,
        },
    )
}

// ---------------------------------------------------------------------------
// There and back
// ---------------------------------------------------------------------------

/// Every number fits in sixteen bits.
pub open spec fn all_narrow(s: Seq<u32>) -> bool {
    forall|i: int| 0 <= i < s.len() ==> #[trigger] s[i] <= 65535
}

/// Every item has a type that fits in sixteen bits.
pub open spec fn all_typed(s: Seq<messages::LsTlvView>) -> bool {
    forall|i: int| 0 <= i < s.len() ==> (#[trigger] s[i]).tlv_type <= 65535
}

/// A text that is missing or denotes an IPv4 address.
pub open spec fn plain_v4(s: Option<Seq<char>>) -> bool {
    match s {
        Some(t) => addr_text::read_ipv4(t) is Some,
        None => true,
    }
}

/// A text that is missing or is the notation of the IPv6 address that it denotes.
pub open spec fn plain_v6(s: Option<Seq<char>>) -> bool {
    match s {
        Some(t) => match addr_text::read_ipv6(t) {
            Some(x) => x.text() == t,
            None => false,
        },
        None => true,
    }
}

/// The description of a link says nothing that is lost on the way.
pub open spec fn plain_link(m: messages::LsLinkDescriptorView) -> bool {
    &&& plain_v4(m.ipv4_interface_addr)
    &&& plain_v4(m.ipv4_neighbor_addr)
    &&& plain_v6(m.ipv6_interface_addr)
    &&& plain_v6(m.ipv6_neighbor_addr)
    &&& all_narrow(m.multi_topology_id)
    &&& all_typed(m.unknown)
}

/// The description of a prefix says nothing that is lost on the way.
pub open spec fn plain_prefix(m: messages::LsPrefixDescriptorView) -> bool {
    &&& all_narrow(m.multi_topology_id)
    &&& match m.ospf_route_type {
        Some(v) => v <= 255,
        None => true,
    }
    &&& all_typed(m.unknown)
}

/// The message names a kind and a protocol that there are, and it holds just the
/// descriptions that a route of its kind has, none of which says anything that is
/// lost on the way.
pub open spec fn plain_nlri(m: messages::LsNlriView) -> bool {
    &&& read_protocol_id(m.protocol_id) is Ok
    &&& m.local_node is Some
    &&& match read_nlri_type(m.nlri_type) {
        Err(_) => false,
        Ok(LsNlriType::Node) => {
            &&& m.remote_node is None
            &&& m.link_descriptors is None
            &&& m.prefix_descriptors is None
        },
        Ok(LsNlriType::Link) => {
            &&& m.remote_node is Some
            &&& match m.link_descriptors {
                Some(l) => plain_link(l),
                None => false,
            }
            &&& m.prefix_descriptors is None
        },
        Ok(_) => {
            &&& m.remote_node is None
            &&& m.link_descriptors is None
            &&& match m.prefix_descriptors {
                Some(p) => plain_prefix(p),
                None => false,
            }
        },
    }
}

proof fn lemma_topologies_back(s: Seq<u32>)
    requires
        all_narrow(s),
    ensures
        topologies_message(read_topologies(s)) == s,
{
    assert(topologies_message(read_topologies(s)) =~= s);
}

pub(crate) proof fn lemma_tlvs_back(s: Seq<messages::LsTlvView>)
    requires
        all_typed(s),
    ensures
        tlv_messages(read_tlvs(s)) == s,
{
    let t = tlv_messages(read_tlvs(s));
    assert forall|i: int| 0 <= i < s.len() implies #[trigger] t[i] == s[i] by {
        assert(s[i].tlv_type <= 65535);
    }
    assert(t =~= s);
}

proof fn lemma_node_back(m: messages::LsNodeDescriptorView)
    ensures
        node_message(read_node(m)) == m,
{
    assert(or_nothing(said(m.igp_router_id)) =~= m.igp_router_id);
}

pub(crate) proof fn lemma_v4_back(s: Option<Seq<char>>)
    requires
        plain_v4(s),
    ensures
        quad_text(read_quad(s)) == s,
{
}

proof fn lemma_link_back(m: messages::LsLinkDescriptorView)
    requires
        plain_link(m),
    ensures
        link_message(read_link(m)) == m,
{
    lemma_v4_back(m.ipv4_interface_addr);
    lemma_v4_back(m.ipv4_neighbor_addr);
    lemma_topologies_back(m.multi_topology_id);
    lemma_tlvs_back(m.unknown);
}

proof fn lemma_prefix_back(m: messages::LsPrefixDescriptorView)
    requires
        plain_prefix(m),
    ensures
        prefix_message(read_prefix(m)) == m,
{
    lemma_topologies_back(m.multi_topology_id);
    lemma_tlvs_back(m.unknown);
    assert(or_nothing(said(m.ip_reachability)) =~= m.ip_reachability);
}

/// A message that says nothing that is lost on the way is read as a route whose
/// message is that message, whatever its image on the wire.
pub proof fn law_ls_nlri_round_trip(m: messages::LsNlriView, raw: Seq<u8>)
    requires
        plain_nlri(m),
    ensures
        match read_nlri(m, raw) {
            Ok(n) => n.raw == raw && nlri_message(n) == Some(m),
            Err(_) => false,
        },
{
    lemma_node_back(m.local_node->0);
    if m.remote_node is Some {
        lemma_node_back(m.remote_node->0);
    }
    if m.link_descriptors is Some {
        lemma_link_back(m.link_descriptors->0);
    }
    if m.prefix_descriptors is Some {
        lemma_prefix_back(m.prefix_descriptors->0);
    }
}

/// A list that is missing or has members: messages cannot tell an empty list from
/// none.
pub open spec fn some_or_none<T>(s: Option<Seq<T>>) -> bool {
    match s {
        Some(x) => x.len() > 0,
        None => true,
    }
}

/// The octets of an address are missing or four.
pub open spec fn whole_quad(q: Option<Seq<u8>>) -> bool {
    match q {
        Some(o) => o.len() == 4,
        None => true,
    }
}

/// Messages have room for all that is known of the node.
pub open spec fn tellable_node(n: NodeDescriptorView) -> bool {
    n.unknown.len() == 0 && some_or_none(n.igp_router_id)
}

/// Messages have room for all that is known of the link.
pub open spec fn tellable_link(l: LinkDescriptorView) -> bool {
    &&& whole_quad(l.ipv4_interface_addr)
    &&& whole_quad(l.ipv4_neighbor_addr)
    &&& some_or_none(l.multi_topology_id)
}

/// Messages have room for all that is known of the prefix.
pub open spec fn tellable_prefix(p: PrefixDescriptorView) -> bool {
    some_or_none(p.multi_topology_id) && some_or_none(p.ip_reachability)
}

/// The route has a kind and a protocol that there are, and no distinguisher, and
/// messages have room for all that it describes.
pub open spec fn tellable_nlri(n: LsNlriView) -> bool {
    &&& n.route_distinguisher is None
    &&& match n.body {
        None => false,
        Some(b) => {
            &&& 1 <= b.protocol_id <= 6
            &&& match b.descriptors {
                LsDescriptorsView::Node { local_node } => {
                    &&& n.nlri_type == 1
                    &&& tellable_node(local_node)
                },
                LsDescriptorsView::Link { local_node, remote_node, link_descriptors } => {
                    &&& n.nlri_type == 2
                    &&& tellable_node(local_node)
                    &&& tellable_node(remote_node)
                    &&& tellable_link(link_descriptors)
                },
                LsDescriptorsView::PrefixV4 { local_node, prefix_descriptors } => {
                    &&& n.nlri_type == 3
                    &&& tellable_node(local_node)
                    &&& tellable_prefix(prefix_descriptors)
                },
                LsDescriptorsView::PrefixV6 { local_node, prefix_descriptors } => {
                    &&& n.nlri_type == 4
                    &&& tellable_node(local_node)
                    &&& tellable_prefix(prefix_descriptors)
                },
            }
        },
    }
}

proof fn lemma_node_told(n: NodeDescriptorView)
    requires
        tellable_node(n),
    ensures
        read_node(node_message(n)) == n,
{
    assert(n.unknown =~= Seq::empty());
}

proof fn lemma_topologies_told(s: Option<Seq<u16>>)
    requires
        some_or_none(s),
    ensures
        read_topologies(topologies_message(s)) == s,
{
    match s {
        Some(x) => {
            assert(narrowed(widened(x)) =~= x);
        },
        None => {},
    }
}

proof fn lemma_tlvs_told(s: Seq<LsTlvView>)
    ensures
        read_tlvs(tlv_messages(s)) == s,
{
    assert(read_tlvs(tlv_messages(s)) =~= s);
}

proof fn lemma_quad_told(q: Option<Seq<u8>>)
    requires
        whole_quad(q),
    ensures
        read_quad(quad_text(q)) == q,
{
    if let Some(o) = q {
        let x = Ipv4Addr { a: o[0], b: o[1], c: o[2], d: o[3] };
        addr_text::law_ipv4_round_trip(x);
        assert(x.octet_seq() =~= o);
    }
}

proof fn lemma_v6_told(x: Option<Ipv6Addr>)
    ensures
        read_v6(v6_text(x)) == x,
{
    if let Some(a) = x {
        addr_laws::law_ipv6_round_trip(a);
    }
}

proof fn lemma_link_told(l: LinkDescriptorView)
    requires
        tellable_link(l),
    ensures
        read_link(link_message(l)) == l,
{
    lemma_quad_told(l.ipv4_interface_addr);
    lemma_quad_told(l.ipv4_neighbor_addr);
    lemma_v6_told(l.ipv6_interface_addr);
    lemma_v6_told(l.ipv6_neighbor_addr);
    lemma_topologies_told(l.multi_topology_id);
    lemma_tlvs_told(l.unknown);
}

proof fn lemma_prefix_told(p: PrefixDescriptorView)
    requires
        tellable_prefix(p),
    ensures
        read_prefix(prefix_message(p)) == p,
{
    lemma_topologies_told(p.multi_topology_id);
    lemma_tlvs_told(p.unknown);
}

/// A route that messages have room for is read from its message and its image on
/// the wire as it was.
pub proof fn law_ls_nlri_told(n: LsNlriView)
    requires
        tellable_nlri(n),
    ensures
        match nlri_message(n) {
            Some(m) => read_nlri(m, n.raw) == Ok::<LsNlriView, Seq<char>>(n),
            None => false,
        },
{
    let d = n.body->0.descriptors;
    lemma_node_told(d.local_node_spec());
    match d {
        LsDescriptorsView::Node { local_node: _ } => {},
        LsDescriptorsView::Link { local_node: _, remote_node, link_descriptors } => {
            lemma_node_told(remote_node);
            lemma_link_told(link_descriptors);
        },
        LsDescriptorsView::PrefixV4 { local_node: _, prefix_descriptors } => {
            lemma_prefix_told(prefix_descriptors);
        },
        LsDescriptorsView::PrefixV6 { local_node: _, prefix_descriptors } => {
            lemma_prefix_told(prefix_descriptors);
        },
    }
}

} // verus!
