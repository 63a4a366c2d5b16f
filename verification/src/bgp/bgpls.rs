//! Link-state routes: what they describe and the attributes that come with them.

use crate::net::addr::{IpAddr, Ipv4Addr, Ipv6Addr};
use crate::seqs;
use crate::seqs::{copy_items, items_eq};
use vstd::prelude::*;

verus! {

// ---------------------------------------------------------------------------
// Route descriptions
// ---------------------------------------------------------------------------

/// A type-length-value item that is carried as it came.
#[derive(Debug, PartialEq, Eq)]
pub struct LsTlv {
    pub tlv_type: u16,
    pub value: Vec<u8>,
}

pub struct LsTlvView {
    pub tlv_type: u16,
    pub value: Seq<u8>,
}

impl View for LsTlv {
    type V = LsTlvView;

    open spec fn view(&self) -> LsTlvView {
        LsTlvView { tlv_type: self.tlv_type, value: self.value@ }
    }
}

/// What an optional list of octets holds.
pub open spec fn opt_bytes(v: Option<Vec<u8>>) -> Option<Seq<u8>> {
    match v {
        Some(b) => Some(b@),
        None => None,
    }
}

/// What an optional list of 16-bit numbers holds.
pub open spec fn opt_u16s(v: Option<Vec<u16>>) -> Option<Seq<u16>> {
    match v {
        Some(b) => Some(b@),
        None => None,
    }
}

/// What an optional array of four octets holds.
pub open spec fn opt_quad(v: Option<[u8; 4]>) -> Option<Seq<u8>> {
    match v {
        Some(b) => Some(b@),
        None => None,
    }
}

/// The kinds of link-state routes.
#[derive(Debug, Clone, Copy, PartialEq, Eq, Structural)]
pub enum LsNlriType {
    Node,
    Link,
    PrefixV4,
    PrefixV6,
}

impl LsNlriType {
    /// The number on the wire.
    pub open spec fn code_spec(self) -> u16 {
        match self {
            LsNlriType::Node => 1,
            LsNlriType::Link => 2,
            LsNlriType::PrefixV4 => 3,
            LsNlriType::PrefixV6 => 4,
        }
    }

    pub fn code(&self) -> (r: u16)
        ensures
            r == self.code_spec(),
    {
        match self {
            LsNlriType::Node => 1,
            LsNlriType::Link => 2,
            LsNlriType::PrefixV4 => 3,
            LsNlriType::PrefixV6 => 4,
        }
    }
}

/// The protocols that link-state information comes from.
#[derive(Debug, Clone, Copy, PartialEq, Eq, Structural)]
pub enum LsProtocolId {
    IsIsL1,
    IsIsL2,
    OspfV2,
    Direct,
    Static,
    OspfV3,
}

impl LsProtocolId {
    /// The number on the wire.
    pub open spec fn code_spec(self) -> u8 {
        match self {
            LsProtocolId::IsIsL1 => 1,
            LsProtocolId::IsIsL2 => 2,
            LsProtocolId::OspfV2 => 3,
            LsProtocolId::Direct => 4,
            LsProtocolId::Static => 5,
            LsProtocolId::OspfV3 => 6,
        }
    }

    pub fn code(&self) -> (r: u8)
        ensures
            r == self.code_spec(),
    {
        match self {
            LsProtocolId::IsIsL1 => 1,
            LsProtocolId::IsIsL2 => 2,
            LsProtocolId::OspfV2 => 3,
            LsProtocolId::Direct => 4,
            LsProtocolId::Static => 5,
            LsProtocolId::OspfV3 => 6,
        }
    }
}

/// What a node is known by.
#[derive(Debug, PartialEq, Eq)]
pub struct NodeDescriptor {
    pub as_number: Option<u32>,
    pub bgp_ls_id: Option<u32>,
    pub ospf_area_id: Option<u32>,
    pub igp_router_id: Option<Vec<u8>>,
    pub unknown: Vec<LsTlv>,
}

pub struct NodeDescriptorView {
    pub as_number: Option<u32>,
    pub bgp_ls_id: Option<u32>,
    pub ospf_area_id: Option<u32>,
    pub igp_router_id: Option<Seq<u8>>,
    pub unknown: Seq<LsTlvView>,
}

impl View for NodeDescriptor {
    type V = NodeDescriptorView;

    open spec fn view(&self) -> NodeDescriptorView {
        NodeDescriptorView {
            as_number: self.as_number,
            bgp_ls_id: self.bgp_ls_id,
            ospf_area_id: self.ospf_area_id,
            igp_router_id: opt_bytes(self.igp_router_id),
            unknown: seqs::views(self.unknown@),
        }
    }
}

/// The description of a node of which nothing is known.
pub open spec fn empty_node() -> NodeDescriptorView {
    NodeDescriptorView {
        as_number: None,
        bgp_ls_id: None,
        ospf_area_id: None,
        igp_router_id: None,
        unknown: Seq::empty(),
    }
}

/// What a link is known by.
#[derive(Debug, PartialEq, Eq)]
pub struct LinkDescriptor {
    pub link_local_id: Option<u32>,
    pub link_remote_id: Option<u32>,
    pub ipv4_interface_addr: Option<[u8; 4]>,
    pub ipv4_neighbor_addr: Option<[u8; 4]>,
    pub ipv6_interface_addr: Option<Ipv6Addr>,
    pub ipv6_neighbor_addr: Option<Ipv6Addr>,
    pub multi_topology_id: Option<Vec<u16>>,
    pub unknown: Vec<LsTlv>,
}

pub struct LinkDescriptorView {
    pub link_local_id: Option<u32>,
    pub link_remote_id: Option<u32>,
    pub ipv4_interface_addr: Option<Seq<u8>>,
    pub ipv4_neighbor_addr: Option<Seq<u8>>,
    pub ipv6_interface_addr: Option<Ipv6Addr>,
    pub ipv6_neighbor_addr: Option<Ipv6Addr>,
    pub multi_topology_id: Option<Seq<u16>>,
    pub unknown: Seq<LsTlvView>,
}

impl View for LinkDescriptor {
    type V = LinkDescriptorView;

    open spec fn view(&self) -> LinkDescriptorView {
        LinkDescriptorView {
            link_local_id: self.link_local_id,
            link_remote_id: self.link_remote_id,
            ipv4_interface_addr: opt_quad(self.ipv4_interface_addr),
            ipv4_neighbor_addr: opt_quad(self.ipv4_neighbor_addr),
            ipv6_interface_addr: self.ipv6_interface_addr,
            ipv6_neighbor_addr: self.ipv6_neighbor_addr,
            multi_topology_id: opt_u16s(self.multi_topology_id),
            unknown: seqs::views(self.unknown@),
        }
    }
}

/// The description of a link of which nothing is known.
pub open spec fn empty_link() -> LinkDescriptorView {
    LinkDescriptorView {
        link_local_id: None,
        link_remote_id: None,
        ipv4_interface_addr: None,
        ipv4_neighbor_addr: None,
        ipv6_interface_addr: None,
        ipv6_neighbor_addr: None,
        multi_topology_id: None,
        unknown: Seq::empty(),
    }
}

/// What a prefix is known by.
#[derive(Debug, PartialEq, Eq)]
pub struct PrefixDescriptor {
    pub multi_topology_id: Option<Vec<u16>>,
    pub ospf_route_type: Option<u8>,
    pub ip_reachability: Option<Vec<u8>>,
    pub unknown: Vec<LsTlv>,
}

pub struct PrefixDescriptorView {
    pub multi_topology_id: Option<Seq<u16>>,
    pub ospf_route_type: Option<u8>,
    pub ip_reachability: Option<Seq<u8>>,
    pub unknown: Seq<LsTlvView>,
}

impl View for PrefixDescriptor {
    type V = PrefixDescriptorView;

    open spec fn view(&self) -> PrefixDescriptorView {
        PrefixDescriptorView {
            multi_topology_id: opt_u16s(self.multi_topology_id),
            ospf_route_type: self.ospf_route_type,
            ip_reachability: opt_bytes(self.ip_reachability),
            unknown: seqs::views(self.unknown@),
        }
    }
}

/// The description of a prefix of which nothing is known.
pub open spec fn empty_prefix() -> PrefixDescriptorView {
    PrefixDescriptorView {
        multi_topology_id: None,
        ospf_route_type: None,
        ip_reachability: None,
        unknown: Seq::empty(),
    }
}

/// What a link-state route describes.
#[derive(Debug, PartialEq, Eq)]
pub enum LsDescriptors {
    Node { local_node: NodeDescriptor },
    Link {
        local_node: NodeDescriptor,
        remote_node: NodeDescriptor,
        link_descriptors: LinkDescriptor,
    },
    PrefixV4 { local_node: NodeDescriptor, prefix_descriptors: PrefixDescriptor },
    PrefixV6 { local_node: NodeDescriptor, prefix_descriptors: PrefixDescriptor },
}

pub enum LsDescriptorsView {
    Node { local_node: NodeDescriptorView },
    Link {
        local_node: NodeDescriptorView,
        remote_node: NodeDescriptorView,
        link_descriptors: LinkDescriptorView,
    },
    PrefixV4 { local_node: NodeDescriptorView, prefix_descriptors: PrefixDescriptorView },
    PrefixV6 { local_node: NodeDescriptorView, prefix_descriptors: PrefixDescriptorView },
}

impl View for LsDescriptors {
    type V = LsDescriptorsView;

    open spec fn view(&self) -> LsDescriptorsView {
        match self {
            LsDescriptors::Node { local_node } => LsDescriptorsView::Node {
                local_node: local_node@,
            },
            LsDescriptors::Link {
                local_node,
                remote_node,
                link_descriptors,
            } => LsDescriptorsView::Link {
                local_node: local_node@,
                remote_node: remote_node@,
                link_descriptors: link_descriptors@,
            },
            LsDescriptors::PrefixV4 {
                local_node,
                prefix_descriptors,
            } => LsDescriptorsView::PrefixV4 {
                local_node: local_node@,
                prefix_descriptors: prefix_descriptors@,
            },
            LsDescriptors::PrefixV6 {
                local_node,
                prefix_descriptors,
            } => LsDescriptorsView::PrefixV6 {
                local_node: local_node@,
                prefix_descriptors: prefix_descriptors@,
            },
        }
    }
}

impl LsDescriptorsView {
    /// The node that the route comes from.
    pub open spec fn local_node_spec(self) -> NodeDescriptorView {
        match self {
            LsDescriptorsView::Node { local_node } => local_node,
            LsDescriptorsView::Link { local_node, remote_node: _, link_descriptors: _ } => {
                local_node
            },
            LsDescriptorsView::PrefixV4 { local_node, prefix_descriptors: _ } => local_node,
            LsDescriptorsView::PrefixV6 { local_node, prefix_descriptors: _ } => local_node,
        }
    }
}

impl LsDescriptors {
    pub fn local_node(&self) -> (r: &NodeDescriptor)
        ensures
            r@ == self@.local_node_spec(),
    {
        match self {
            LsDescriptors::Node { local_node } => local_node,
            LsDescriptors::Link { local_node, remote_node: _, link_descriptors: _ } => local_node,
            LsDescriptors::PrefixV4 { local_node, prefix_descriptors: _ } => local_node,
            LsDescriptors::PrefixV6 { local_node, prefix_descriptors: _ } => local_node,
        }
    }
}

/// The parsed part of a link-state route.
#[derive(Debug, PartialEq, Eq)]
pub struct LsNlriBody {
    pub protocol_id: u8,
    pub identifier: u64,
    pub descriptors: LsDescriptors,
}

pub struct LsNlriBodyView {
    pub protocol_id: u8,
    pub identifier: u64,
    pub descriptors: LsDescriptorsView,
}

impl View for LsNlriBody {
    type V = LsNlriBodyView;

    open spec fn view(&self) -> LsNlriBodyView {
        LsNlriBodyView {
            protocol_id: self.protocol_id,
            identifier: self.identifier,
            descriptors: self.descriptors@,
        }
    }
}

/// A link-state route. `raw` is its image on the wire, where there is one yet;
/// `body` is missing where the kind is not known.
#[derive(Debug, PartialEq, Eq)]
pub struct LsNlri {
    pub nlri_type: u16,
    pub raw: Vec<u8>,
    pub body: Option<LsNlriBody>,
    pub route_distinguisher: Option<u64>,
}

pub struct LsNlriView {
    pub nlri_type: u16,
    pub raw: Seq<u8>,
    pub body: Option<LsNlriBodyView>,
    pub route_distinguisher: Option<u64>,
}

impl View for LsNlri {
    type V = LsNlriView;

    open spec fn view(&self) -> LsNlriView {
        LsNlriView {
            nlri_type: self.nlri_type,
            raw: self.raw@,
            body: match self.body {
                Some(b) => Some(b@),
                None => None,
            },
            route_distinguisher: self.route_distinguisher,
        }
    }
}

// ---------------------------------------------------------------------------
// Attributes
// ---------------------------------------------------------------------------

#[derive(Debug, PartialEq, Eq)]
pub enum NodeAttrTlv {
    FlagBits(u8),
    Opaque(Vec<u8>),
    Name(String),
    IsisAreaId(Vec<u8>),
    Ipv4RouterId(Ipv4Addr),
    Ipv6RouterId(Ipv6Addr),
}

pub enum NodeAttrTlvView {
    FlagBits(u8),
    Opaque(Seq<u8>),
    Name(Seq<char>),
    IsisAreaId(Seq<u8>),
    Ipv4RouterId(Ipv4Addr),
    Ipv6RouterId(Ipv6Addr),
}

impl View for NodeAttrTlv {
    type V = NodeAttrTlvView;

    open spec fn view(&self) -> NodeAttrTlvView {
        match self {
            NodeAttrTlv::FlagBits(v) => NodeAttrTlvView::FlagBits(*v),
            NodeAttrTlv::Opaque(v) => NodeAttrTlvView::Opaque(v@),
            NodeAttrTlv::Name(v) => NodeAttrTlvView::Name(v@),
            NodeAttrTlv::IsisAreaId(v) => NodeAttrTlvView::IsisAreaId(v@),
            NodeAttrTlv::Ipv4RouterId(v) => NodeAttrTlvView::Ipv4RouterId(*v),
            NodeAttrTlv::Ipv6RouterId(v) => NodeAttrTlvView::Ipv6RouterId(*v),
        }
    }
}

/// Bandwidths are kept as the bits of their IEEE 754 representation.
#[derive(Debug, PartialEq, Eq)]
pub enum LinkAttrTlv {
    Ipv4RouterIdLocal(Ipv4Addr),
    Ipv6RouterIdLocal(Ipv6Addr),
    Ipv4RouterIdRemote(Ipv4Addr),
    Ipv6RouterIdRemote(Ipv6Addr),
    AdminGroup(u32),
    MaxLinkBw(u32),
    MaxRsvblLinkBw(u32),
    UnreservedBw([u32; 8]),
    TeDefaultMetric(u32),
    LinkProtection(u16),
    MplsProtocolMask(u8),
    IgpMetric(u32),
    Srlg(Vec<u32>),
    Opaque(Vec<u8>),
    Name(String),
}

pub enum LinkAttrTlvView {
    Ipv4RouterIdLocal(Ipv4Addr),
    Ipv6RouterIdLocal(Ipv6Addr),
    Ipv4RouterIdRemote(Ipv4Addr),
    Ipv6RouterIdRemote(Ipv6Addr),
    AdminGroup(u32),
    MaxLinkBw(u32),
    MaxRsvblLinkBw(u32),
    UnreservedBw(Seq<u32>),
    TeDefaultMetric(u32),
    LinkProtection(u16),
    MplsProtocolMask(u8),
    IgpMetric(u32),
    Srlg(Seq<u32>),
    Opaque(Seq<u8>),
    Name(Seq<char>),
}

impl View for LinkAttrTlv {
    type V = LinkAttrTlvView;

    open spec fn view(&self) -> LinkAttrTlvView {
        match self {
            LinkAttrTlv::Ipv4RouterIdLocal(v) => LinkAttrTlvView::Ipv4RouterIdLocal(*v),
            LinkAttrTlv::Ipv6RouterIdLocal(v) => LinkAttrTlvView::Ipv6RouterIdLocal(*v),
            LinkAttrTlv::Ipv4RouterIdRemote(v) => LinkAttrTlvView::Ipv4RouterIdRemote(*v),
            LinkAttrTlv::Ipv6RouterIdRemote(v) => LinkAttrTlvView::Ipv6RouterIdRemote(*v),
            LinkAttrTlv::AdminGroup(v) => LinkAttrTlvView::AdminGroup(*v),
            LinkAttrTlv::MaxLinkBw(v) => LinkAttrTlvView::MaxLinkBw(*v),
            LinkAttrTlv::MaxRsvblLinkBw(v) => LinkAttrTlvView::MaxRsvblLinkBw(*v),
            LinkAttrTlv::UnreservedBw(v) => LinkAttrTlvView::UnreservedBw(v@),
            LinkAttrTlv::TeDefaultMetric(v) => LinkAttrTlvView::TeDefaultMetric(*v),
            LinkAttrTlv::LinkProtection(v) => LinkAttrTlvView::LinkProtection(*v),
            LinkAttrTlv::MplsProtocolMask(v) => LinkAttrTlvView::MplsProtocolMask(*v),
            LinkAttrTlv::IgpMetric(v) => LinkAttrTlvView::IgpMetric(*v),
            LinkAttrTlv::Srlg(v) => LinkAttrTlvView::Srlg(v@),
            LinkAttrTlv::Opaque(v) => LinkAttrTlvView::Opaque(v@),
            LinkAttrTlv::Name(v) => LinkAttrTlvView::Name(v@),
        }
    }
}

#[derive(Debug, PartialEq, Eq)]
pub enum PrefixAttrTlv {
    IgpFlags(u8),
    IgpRouteTag(Vec<u32>),
    IgpExtendedRouteTag(Vec<u64>),
    Metric(u32),
    OspfFwdAddr(IpAddr),
    Opaque(Vec<u8>),
}

pub enum PrefixAttrTlvView {
    IgpFlags(u8),
    IgpRouteTag(Seq<u32>),
    IgpExtendedRouteTag(Seq<u64>),
    Metric(u32),
    OspfFwdAddr(IpAddr),
    Opaque(Seq<u8>),
}

impl View for PrefixAttrTlv {
    type V = PrefixAttrTlvView;

    open spec fn view(&self) -> PrefixAttrTlvView {
        match self {
            PrefixAttrTlv::IgpFlags(v) => PrefixAttrTlvView::IgpFlags(*v),
            PrefixAttrTlv::IgpRouteTag(v) => PrefixAttrTlvView::IgpRouteTag(v@),
            PrefixAttrTlv::IgpExtendedRouteTag(v) => PrefixAttrTlvView::IgpExtendedRouteTag(v@),
            PrefixAttrTlv::Metric(v) => PrefixAttrTlvView::Metric(*v),
            PrefixAttrTlv::OspfFwdAddr(v) => PrefixAttrTlvView::OspfFwdAddr(*v),
            PrefixAttrTlv::Opaque(v) => PrefixAttrTlvView::Opaque(v@),
        }
    }
}

#[derive(Debug, PartialEq, Eq)]
pub enum LsAttrTlv {
    Node(NodeAttrTlv),
    Link(LinkAttrTlv),
    Prefix(PrefixAttrTlv),
    Unknown(LsTlv),
}

pub enum LsAttrTlvView {
    Node(NodeAttrTlvView),
    Link(LinkAttrTlvView),
    Prefix(PrefixAttrTlvView),
    Unknown(LsTlvView),
}

impl View for LsAttrTlv {
    type V = LsAttrTlvView;

    open spec fn view(&self) -> LsAttrTlvView {
        match self {
            LsAttrTlv::Node(v) => LsAttrTlvView::Node(v@),
            LsAttrTlv::Link(v) => LsAttrTlvView::Link(v@),
            LsAttrTlv::Prefix(v) => LsAttrTlvView::Prefix(v@),
            LsAttrTlv::Unknown(v) => LsAttrTlvView::Unknown(v@),
        }
    }
}

/// The link-state attribute of a path.
#[derive(Debug, PartialEq, Eq)]
pub struct LsAttr {
    pub tlvs: Vec<LsAttrTlv>,
}

impl View for LsAttr {
    type V = Seq<LsAttrTlvView>;

    open spec fn view(&self) -> Seq<LsAttrTlvView> {
        seqs::views(self.tlvs@)
    }
}

/// What an optional link-state attribute holds.
pub open spec fn opt_ls_attr(v: Option<LsAttr>) -> Option<Seq<LsAttrTlvView>> {
    match v {
        Some(a) => Some(a@),
        None => None,
    }
}

// ---------------------------------------------------------------------------
// Copies
// ---------------------------------------------------------------------------

/// A copy of an optional list of octets.
pub fn clone_opt_bytes(v: &Option<Vec<u8>>) -> (r: Option<Vec<u8>>)
    ensures
        opt_bytes(r) == opt_bytes(*v),
{
    match v {
        Some(b) => Some(copy_items(b)),
        None => None,
    }
}

/// A copy of an optional list of 16-bit numbers.
pub fn clone_opt_u16s(v: &Option<Vec<u16>>) -> (r: Option<Vec<u16>>)
    ensures
        opt_u16s(r) == opt_u16s(*v),
{
    match v {
        Some(b) => Some(copy_items(b)),
        None => None,
    }
}

impl Clone for LsTlv {
    fn clone(&self) -> (r: Self)
        ensures
            r@ == self@,
    {
        LsTlv { tlv_type: self.tlv_type, value: copy_items(&self.value) }
    }
}

/// A copy of a list of items.
pub fn clone_tlvs(v: &Vec<LsTlv>) -> (r: Vec<LsTlv>)
    ensures
        seqs::views(r@) == seqs::views(v@),
{
    let mut r: Vec<LsTlv> = Vec::new();
    let mut i: usize = 0;
    while i < v.len()
        invariant
            i <= v@.len(),
            seqs::views(r@) == seqs::views(v@).take(i as int),
        decreases v.len() - i,
    {
        let x = v[i].clone();
        let ghost before = r@;
        let ghost all = seqs::views(v@);
        r.push(x);
        proof {
            assert(seqs::views(r@) =~= seqs::views(before).push(x@));
            assert(all.take(i + 1) =~= all.take(i as int).push(all[i as int]));
        }
        i = i + 1;
    }
    assert(seqs::views(v@).take(v@.len() as int) =~= seqs::views(v@));
    r
}

impl Clone for NodeDescriptor {
    fn clone(&self) -> (r: Self)
        ensures
            r@ == self@,
    {
        NodeDescriptor {
            as_number: self.as_number,
            bgp_ls_id: self.bgp_ls_id,
            ospf_area_id: self.ospf_area_id,
            igp_router_id: clone_opt_bytes(&self.igp_router_id),
            unknown: clone_tlvs(&self.unknown),
        }
    }
}

impl Default for NodeDescriptor {
    fn default() -> (r: Self)
        ensures
            r@ == empty_node(),
    {
        let r = NodeDescriptor {
            as_number: None,
            bgp_ls_id: None,
            ospf_area_id: None,
            igp_router_id: None,
            unknown: Vec::new(),
        };
        assert(r@.unknown =~= Seq::<LsTlvView>::empty());
        r
    }
}

/// A copy of an optional array of four octets.
pub fn clone_opt_quad(v: &Option<[u8; 4]>) -> (r: Option<[u8; 4]>)
    ensures
        opt_quad(r) == opt_quad(*v),
{
    match v {
        Some(q) => {
            let r = [q[0], q[1], q[2], q[3]];
            assert(r@ =~= q@);
            Some(r)
        },
        None => None,
    }
}

impl Clone for LinkDescriptor {
    fn clone(&self) -> (r: Self)
        ensures
            r@ == self@,
    {
        LinkDescriptor {
            link_local_id: self.link_local_id,
            link_remote_id: self.link_remote_id,
            ipv4_interface_addr: clone_opt_quad(&self.ipv4_interface_addr),
            ipv4_neighbor_addr: clone_opt_quad(&self.ipv4_neighbor_addr),
            ipv6_interface_addr: self.ipv6_interface_addr,
            ipv6_neighbor_addr: self.ipv6_neighbor_addr,
            multi_topology_id: clone_opt_u16s(&self.multi_topology_id),
            unknown: clone_tlvs(&self.unknown),
        }
    }
}

impl Default for LinkDescriptor {
    fn default() -> (r: Self)
        ensures
            r@ == empty_link(),
    {
        let r = LinkDescriptor {
            link_local_id: None,
            link_remote_id: None,
            ipv4_interface_addr: None,
            ipv4_neighbor_addr: None,
            ipv6_interface_addr: None,
            ipv6_neighbor_addr: None,
            multi_topology_id: None,
            unknown: Vec::new(),
        };
        assert(r@.unknown =~= Seq::<LsTlvView>::empty());
        r
    }
}

impl Clone for PrefixDescriptor {
    fn clone(&self) -> (r: Self)
        ensures
            r@ == self@,
    {
        PrefixDescriptor {
            multi_topology_id: clone_opt_u16s(&self.multi_topology_id),
            ospf_route_type: self.ospf_route_type,
            ip_reachability: clone_opt_bytes(&self.ip_reachability),
            unknown: clone_tlvs(&self.unknown),
        }
    }
}

impl Default for PrefixDescriptor {
    fn default() -> (r: Self)
        ensures
            r@ == empty_prefix(),
    {
        let r = PrefixDescriptor {
            multi_topology_id: None,
            ospf_route_type: None,
            ip_reachability: None,
            unknown: Vec::new(),
        };
        assert(r@.unknown =~= Seq::<LsTlvView>::empty());
        r
    }
}

impl Clone for LsDescriptors {
    fn clone(&self) -> (r: Self)
        ensures
            r@ == self@,
    {
        match self {
            LsDescriptors::Node { local_node } => LsDescriptors::Node {
                local_node: local_node.clone(),
            },
            LsDescriptors::Link {
                local_node,
                remote_node,
                link_descriptors,
            } => LsDescriptors::Link {
                local_node: local_node.clone(),
                remote_node: remote_node.clone(),
                link_descriptors: link_descriptors.clone(),
            },
            LsDescriptors::PrefixV4 { local_node, prefix_descriptors } => LsDescriptors::PrefixV4 {
                local_node: local_node.clone(),
                prefix_descriptors: prefix_descriptors.clone(),
            },
            LsDescriptors::PrefixV6 { local_node, prefix_descriptors } => LsDescriptors::PrefixV6 {
                local_node: local_node.clone(),
                prefix_descriptors: prefix_descriptors.clone(),
            },
        }
    }
}

impl Clone for LsNlriBody {
    fn clone(&self) -> (r: Self)
        ensures
            r@ == self@,
    {
        LsNlriBody {
            protocol_id: self.protocol_id,
            identifier: self.identifier,
            descriptors: self.descriptors.clone(),
        }
    }
}

impl Clone for LsNlri {
    fn clone(&self) -> (r: Self)
        ensures
            r@ == self@,
    {
        let body = match &self.body {
            Some(b) => Some(b.clone()),
            None => None,
        };
        LsNlri {
            nlri_type: self.nlri_type,
            raw: copy_items(&self.raw),
            body,
            route_distinguisher: self.route_distinguisher,
        }
    }
}

impl Clone for NodeAttrTlv {
    fn clone(&self) -> (r: Self)
        ensures
            r@ == self@,
    {
        match self {
            NodeAttrTlv::FlagBits(v) => NodeAttrTlv::FlagBits(*v),
            NodeAttrTlv::Opaque(v) => NodeAttrTlv::Opaque(copy_items(v)),
            NodeAttrTlv::Name(v) => NodeAttrTlv::Name(v.clone()),
            NodeAttrTlv::IsisAreaId(v) => NodeAttrTlv::IsisAreaId(copy_items(v)),
            NodeAttrTlv::Ipv4RouterId(v) => NodeAttrTlv::Ipv4RouterId(*v),
            NodeAttrTlv::Ipv6RouterId(v) => NodeAttrTlv::Ipv6RouterId(*v),
        }
    }
}

/// A copy of eight numbers.
fn clone_eight(q: &[u32; 8]) -> (r: [u32; 8])
    ensures
        r@ == q@,
{
    let r = [q[0], q[1], q[2], q[3], q[4], q[5], q[6], q[7]];
    assert(r@ =~= q@);
    r
}

impl Clone for LinkAttrTlv {
    fn clone(&self) -> (r: Self)
        ensures
            r@ == self@,
    {
        match self {
            LinkAttrTlv::Ipv4RouterIdLocal(v) => LinkAttrTlv::Ipv4RouterIdLocal(*v),
            LinkAttrTlv::Ipv6RouterIdLocal(v) => LinkAttrTlv::Ipv6RouterIdLocal(*v),
            LinkAttrTlv::Ipv4RouterIdRemote(v) => LinkAttrTlv::Ipv4RouterIdRemote(*v),
            LinkAttrTlv::Ipv6RouterIdRemote(v) => LinkAttrTlv::Ipv6RouterIdRemote(*v),
            LinkAttrTlv::AdminGroup(v) => LinkAttrTlv::AdminGroup(*v),
            LinkAttrTlv::MaxLinkBw(v) => LinkAttrTlv::MaxLinkBw(*v),
            LinkAttrTlv::MaxRsvblLinkBw(v) => LinkAttrTlv::MaxRsvblLinkBw(*v),
            LinkAttrTlv::UnreservedBw(v) => LinkAttrTlv::UnreservedBw(clone_eight(v)),
            LinkAttrTlv::TeDefaultMetric(v) => LinkAttrTlv::TeDefaultMetric(*v),
            LinkAttrTlv::LinkProtection(v) => LinkAttrTlv::LinkProtection(*v),
            LinkAttrTlv::MplsProtocolMask(v) => LinkAttrTlv::MplsProtocolMask(*v),
            LinkAttrTlv::IgpMetric(v) => LinkAttrTlv::IgpMetric(*v),
            LinkAttrTlv::Srlg(v) => LinkAttrTlv::Srlg(copy_items(v)),
            LinkAttrTlv::Opaque(v) => LinkAttrTlv::Opaque(copy_items(v)),
            LinkAttrTlv::Name(v) => LinkAttrTlv::Name(v.clone()),
        }
    }
}

impl Clone for PrefixAttrTlv {
    fn clone(&self) -> (r: Self)
        ensures
            r@ == self@,
    {
        match self {
            PrefixAttrTlv::IgpFlags(v) => PrefixAttrTlv::IgpFlags(*v),
            PrefixAttrTlv::IgpRouteTag(v) => PrefixAttrTlv::IgpRouteTag(copy_items(v)),
            PrefixAttrTlv::IgpExtendedRouteTag(v) => PrefixAttrTlv::IgpExtendedRouteTag(
                copy_items(v),
            ),
            PrefixAttrTlv::Metric(v) => PrefixAttrTlv::Metric(*v),
            PrefixAttrTlv::OspfFwdAddr(v) => PrefixAttrTlv::OspfFwdAddr(*v),
            PrefixAttrTlv::Opaque(v) => PrefixAttrTlv::Opaque(copy_items(v)),
        }
    }
}

impl Clone for LsAttrTlv {
    fn clone(&self) -> (r: Self)
        ensures
            r@ == self@,
    {
        match self {
            LsAttrTlv::Node(v) => LsAttrTlv::Node(v.clone()),
            LsAttrTlv::Link(v) => LsAttrTlv::Link(v.clone()),
            LsAttrTlv::Prefix(v) => LsAttrTlv::Prefix(v.clone()),
            LsAttrTlv::Unknown(v) => LsAttrTlv::Unknown(v.clone()),
        }
    }
}

impl Clone for LsAttr {
    fn clone(&self) -> (r: Self)
        ensures
            r@ == self@,
    {
        let v = &self.tlvs;
        let mut r: Vec<LsAttrTlv> = Vec::new();
        let mut i: usize = 0;
        while i < v.len()
            invariant
                i <= v@.len(),
                seqs::views(r@) == seqs::views(v@).take(i as int),
            decreases v.len() - i,
        {
            let x = v[i].clone();
            let ghost before = r@;
            let ghost all = seqs::views(v@);
            r.push(x);
            proof {
                assert(seqs::views(r@) =~= seqs::views(before).push(x@));
                assert(all.take(i + 1) =~= all.take(i as int).push(all[i as int]));
            }
            i = i + 1;
        }
        assert(seqs::views(v@).take(v@.len() as int) =~= seqs::views(v@));
        LsAttr { tlvs: r }
    }
}

// ---------------------------------------------------------------------------
// Comparisons
// ---------------------------------------------------------------------------

fn opt_bytes_eq(a: &Option<Vec<u8>>, b: &Option<Vec<u8>>) -> (r: bool)
    ensures
        r == (opt_bytes(*a) == opt_bytes(*b)),
{
    match (a, b) {
        (Some(x), Some(y)) => items_eq(x, y),
        (None, None) => true,
        _ => false,
    }
}

fn opt_u16s_eq(a: &Option<Vec<u16>>, b: &Option<Vec<u16>>) -> (r: bool)
    ensures
        r == (opt_u16s(*a) == opt_u16s(*b)),
{
    match (a, b) {
        (Some(x), Some(y)) => items_eq(x, y),
        (None, None) => true,
        _ => false,
    }
}

fn opt_quad_eq(a: &Option<[u8; 4]>, b: &Option<[u8; 4]>) -> (r: bool)
    ensures
        r == (opt_quad(*a) == opt_quad(*b)),
{
    match (a, b) {
        (Some(x), Some(y)) => {
            let r = x[0] == y[0] && x[1] == y[1] && x[2] == y[2] && x[3] == y[3];
            proof {
                if r {
                    assert(x@ =~= y@);
                }
            }
            r
        },
        (None, None) => true,
        _ => false,
    }
}

fn opt_v6_eq(a: &Option<Ipv6Addr>, b: &Option<Ipv6Addr>) -> (r: bool)
    ensures
        r == (*a == *b),
{
    match (a, b) {
        (Some(x), Some(y)) => *x == *y,
        (None, None) => true,
        _ => false,
    }
}

impl LsTlv {
    pub fn same(&self, other: &LsTlv) -> (r: bool)
        ensures
            r == (self@ == other@),
    {
        self.tlv_type == other.tlv_type && items_eq(&self.value, &other.value)
    }
}

fn tlvs_eq(a: &Vec<LsTlv>, b: &Vec<LsTlv>) -> (r: bool)
    ensures
        r == (seqs::views(a@) == seqs::views(b@)),
{
    if a.len() != b.len() {
        assert(seqs::views(a@).len() != seqs::views(b@).len());
        return false;
    }
    let mut i: usize = 0;
    while i < a.len()
        invariant
            i <= a@.len(),
            a@.len() == b@.len(),
            forall|j: int| 0 <= j < i ==> seqs::views(a@)[j] == seqs::views(b@)[j],
        decreases a.len() - i,
    {
        if !a[i].same(&b[i]) {
            assert(seqs::views(a@)[i as int] != seqs::views(b@)[i as int]);
            return false;
        }
        i = i + 1;
    }
    assert(seqs::views(a@) =~= seqs::views(b@));
    true
}

impl NodeDescriptor {
    pub fn same(&self, other: &NodeDescriptor) -> (r: bool)
        ensures
            r == (self@ == other@),
    {
        self.as_number == other.as_number && self.bgp_ls_id == other.bgp_ls_id && self.ospf_area_id
            == other.ospf_area_id && opt_bytes_eq(&self.igp_router_id, &other.igp_router_id)
            && tlvs_eq(&self.unknown, &other.unknown)
    }
}

impl LinkDescriptor {
    pub fn same(&self, other: &LinkDescriptor) -> (r: bool)
        ensures
            r == (self@ == other@),
    {
        self.link_local_id == other.link_local_id && self.link_remote_id == other.link_remote_id
            && opt_quad_eq(&self.ipv4_interface_addr, &other.ipv4_interface_addr) && opt_quad_eq(
            &self.ipv4_neighbor_addr,
            &other.ipv4_neighbor_addr,
        ) && opt_v6_eq(&self.ipv6_interface_addr, &other.ipv6_interface_addr) && opt_v6_eq(
            &self.ipv6_neighbor_addr,
            &other.ipv6_neighbor_addr,
        ) && opt_u16s_eq(&self.multi_topology_id, &other.multi_topology_id) && tlvs_eq(
            &self.unknown,
            &other.unknown,
        )
    }
}

impl PrefixDescriptor {
    pub fn same(&self, other: &PrefixDescriptor) -> (r: bool)
        ensures
            r == (self@ == other@),
    {
        opt_u16s_eq(&self.multi_topology_id, &other.multi_topology_id) && self.ospf_route_type
            == other.ospf_route_type && opt_bytes_eq(
            &self.ip_reachability,
            &other.ip_reachability,
        ) && tlvs_eq(&self.unknown, &other.unknown)
    }
}

impl LsDescriptors {
    pub fn same(&self, other: &LsDescriptors) -> (r: bool)
        ensures
            r == (self@ == other@),
    {
        match (self, other) {
            (LsDescriptors::Node { local_node: a }, LsDescriptors::Node { local_node: b }) => {
                a.same(b)
            },
            (
                LsDescriptors::Link { local_node: a, remote_node: c, link_descriptors: e },
                LsDescriptors::Link { local_node: b, remote_node: d, link_descriptors: f },
            ) => a.same(b) && c.same(d) && e.same(f),
            (
                LsDescriptors::PrefixV4 { local_node: a, prefix_descriptors: c },
                LsDescriptors::PrefixV4 { local_node: b, prefix_descriptors: d },
            ) => a.same(b) && c.same(d),
            (
                LsDescriptors::PrefixV6 { local_node: a, prefix_descriptors: c },
                LsDescriptors::PrefixV6 { local_node: b, prefix_descriptors: d },
            ) => a.same(b) && c.same(d),
            _ => false,
        }
    }
}

impl LsNlri {
    pub fn same(&self, other: &LsNlri) -> (r: bool)
        ensures
            r == (self@ == other@),
    {
        let bodies = match (&self.body, &other.body) {
            (Some(a), Some(b)) => a.protocol_id == b.protocol_id && a.identifier == b.identifier
                && a.descriptors.same(&b.descriptors),
            (None, None) => true,
            _ => false,
        };
        self.nlri_type == other.nlri_type && items_eq(&self.raw, &other.raw) && bodies
            && self.route_distinguisher == other.route_distinguisher
    }
}

impl NodeAttrTlv {
    pub fn same(&self, other: &NodeAttrTlv) -> (r: bool)
        ensures
            r == (self@ == other@),
    {
        match (self, other) {
            (NodeAttrTlv::FlagBits(a), NodeAttrTlv::FlagBits(b)) => *a == *b,
            (NodeAttrTlv::Opaque(a), NodeAttrTlv::Opaque(b)) => items_eq(a, b),
            (NodeAttrTlv::Name(a), NodeAttrTlv::Name(b)) => *a == *b,
            (NodeAttrTlv::IsisAreaId(a), NodeAttrTlv::IsisAreaId(b)) => items_eq(a, b),
            (NodeAttrTlv::Ipv4RouterId(a), NodeAttrTlv::Ipv4RouterId(b)) => *a == *b,
            (NodeAttrTlv::Ipv6RouterId(a), NodeAttrTlv::Ipv6RouterId(b)) => *a == *b,
            _ => false,
        }
    }
}

fn eight_eq(x: &[u32; 8], y: &[u32; 8]) -> (r: bool)
    ensures
        r == (x@ == y@),
{
    let r = x[0] == y[0] && x[1] == y[1] && x[2] == y[2] && x[3] == y[3] && x[4] == y[4] && x[5]
        == y[5] && x[6] == y[6] && x[7] == y[7];
    proof {
        if r {
            assert(x@ =~= y@);
        }
    }
    r
}

impl LinkAttrTlv {
    pub fn same(&self, other: &LinkAttrTlv) -> (r: bool)
        ensures
            r == (self@ == other@),
    {
        match (self, other) {
            (LinkAttrTlv::Ipv4RouterIdLocal(a), LinkAttrTlv::Ipv4RouterIdLocal(b)) => *a == *b,
            (LinkAttrTlv::Ipv6RouterIdLocal(a), LinkAttrTlv::Ipv6RouterIdLocal(b)) => *a == *b,
            (LinkAttrTlv::Ipv4RouterIdRemote(a), LinkAttrTlv::Ipv4RouterIdRemote(b)) => *a == *b,
            (LinkAttrTlv::Ipv6RouterIdRemote(a), LinkAttrTlv::Ipv6RouterIdRemote(b)) => *a == *b,
            (LinkAttrTlv::AdminGroup(a), LinkAttrTlv::AdminGroup(b)) => *a == *b,
            (LinkAttrTlv::MaxLinkBw(a), LinkAttrTlv::MaxLinkBw(b)) => *a == *b,
            (LinkAttrTlv::MaxRsvblLinkBw(a), LinkAttrTlv::MaxRsvblLinkBw(b)) => *a == *b,
            (LinkAttrTlv::UnreservedBw(a), LinkAttrTlv::UnreservedBw(b)) => eight_eq(a, b),
            (LinkAttrTlv::TeDefaultMetric(a), LinkAttrTlv::TeDefaultMetric(b)) => *a == *b,
            (LinkAttrTlv::LinkProtection(a), LinkAttrTlv::LinkProtection(b)) => *a == *b,
            (LinkAttrTlv::MplsProtocolMask(a), LinkAttrTlv::MplsProtocolMask(b)) => *a == *b,
            (LinkAttrTlv::IgpMetric(a), LinkAttrTlv::IgpMetric(b)) => *a == *b,
            (LinkAttrTlv::Srlg(a), LinkAttrTlv::Srlg(b)) => items_eq(a, b),
            (LinkAttrTlv::Opaque(a), LinkAttrTlv::Opaque(b)) => items_eq(a, b),
            (LinkAttrTlv::Name(a), LinkAttrTlv::Name(b)) => *a == *b,
            _ => false,
        }
    }
}

impl PrefixAttrTlv {
    pub fn same(&self, other: &PrefixAttrTlv) -> (r: bool)
        ensures
            r == (self@ == other@),
    {
        match (self, other) {
            (PrefixAttrTlv::IgpFlags(a), PrefixAttrTlv::IgpFlags(b)) => *a == *b,
            (PrefixAttrTlv::IgpRouteTag(a), PrefixAttrTlv::IgpRouteTag(b)) => items_eq(a, b),
            (
                PrefixAttrTlv::IgpExtendedRouteTag(a),
                PrefixAttrTlv::IgpExtendedRouteTag(b),
            ) => items_eq(a, b),
            (PrefixAttrTlv::Metric(a), PrefixAttrTlv::Metric(b)) => *a == *b,
            (PrefixAttrTlv::OspfFwdAddr(a), PrefixAttrTlv::OspfFwdAddr(b)) => *a == *b,
            (PrefixAttrTlv::Opaque(a), PrefixAttrTlv::Opaque(b)) => items_eq(a, b),
            _ => false,
        }
    }
}

impl LsAttrTlv {
    pub fn same(&self, other: &LsAttrTlv) -> (r: bool)
        ensures
            r == (self@ == other@),
    {
        match (self, other) {
            (LsAttrTlv::Node(a), LsAttrTlv::Node(b)) => a.same(b),
            (LsAttrTlv::Link(a), LsAttrTlv::Link(b)) => a.same(b),
            (LsAttrTlv::Prefix(a), LsAttrTlv::Prefix(b)) => a.same(b),
            (LsAttrTlv::Unknown(a), LsAttrTlv::Unknown(b)) => a.same(b),
            _ => false,
        }
    }
}

impl LsAttr {
    pub fn same(&self, other: &LsAttr) -> (r: bool)
        ensures
            r == (self@ == other@),
    {
        let a = &self.tlvs;
        let b = &other.tlvs;
        if a.len() != b.len() {
            assert(self@.len() != other@.len());
            return false;
        }
        let mut i: usize = 0;
        while i < a.len()
            invariant
                i <= a@.len(),
                a@ == self.tlvs@,
                b@ == other.tlvs@,
                a@.len() == b@.len(),
                forall|j: int| 0 <= j < i ==> seqs::views(a@)[j] == seqs::views(b@)[j],
            decreases a.len() - i,
        {
            if !a[i].same(&b[i]) {
                assert(seqs::views(a@)[i as int] != seqs::views(b@)[i as int]);
                return false;
            }
            i = i + 1;
        }
        assert(seqs::views(a@) =~= seqs::views(b@));
        true
    }
}

} // verus!
