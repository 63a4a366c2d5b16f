//! Link-state routes and attributes in messages.

use crate::bgp::bgpls;
use crate::conf;
use crate::seqs;
use vstd::prelude::*;

verus! {

/// The kinds of link-state routes, in the order of their numbers from zero on.
#[derive(Debug, Clone, Copy, PartialEq, Eq, Structural)]
pub enum LsNlriType {
    LsNode,
    LsLink,
    LsPrefixV4,
    LsPrefixV6,
}

/// The protocols that link-state information comes from, in the order of their
/// numbers from zero on.
#[derive(Debug, Clone, Copy, PartialEq, Eq, Structural)]
pub enum LsProtocolId {
    LsIsisL1,
    LsIsisL2,
    LsOspfv2,
    LsDirect,
    LsStatic,
    LsOspfv3,
}

/// A type-length-value item that is carried as it came.
#[derive(Debug, PartialEq, Eq)]
pub struct LsTlv {
    pub tlv_type: u32,
    pub value: Vec<u8>,
}

pub struct LsTlvView {
    pub tlv_type: u32,
    pub value: Seq<u8>,
}

impl View for LsTlv {
    type V = LsTlvView;

    open spec fn view(&self) -> LsTlvView {
        LsTlvView {
            tlv_type: self.tlv_type,
            value: self.value@,
        }
    }
}

/// What a node is known by.
#[derive(Debug, PartialEq, Eq)]
pub struct LsNodeDescriptor {
    pub as_number: Option<u32>,
    pub bgp_ls_id: Option<u32>,
    pub ospf_area_id: Option<u32>,
    pub igp_router_id: Vec<u8>,
}

pub struct LsNodeDescriptorView {
    pub as_number: Option<u32>,
    pub bgp_ls_id: Option<u32>,
    pub ospf_area_id: Option<u32>,
    pub igp_router_id: Seq<u8>,
}

impl View for LsNodeDescriptor {
    type V = LsNodeDescriptorView;

    open spec fn view(&self) -> LsNodeDescriptorView {
        LsNodeDescriptorView {
            as_number: self.as_number,
            bgp_ls_id: self.bgp_ls_id,
            ospf_area_id: self.ospf_area_id,
            igp_router_id: self.igp_router_id@,
        }
    }
}

/// What a link is known by.
#[derive(Debug, PartialEq, Eq)]
pub struct LsLinkDescriptor {
    pub link_local_id: Option<u32>,
    pub link_remote_id: Option<u32>,
    pub ipv4_interface_addr: Option<String>,
    pub ipv4_neighbor_addr: Option<String>,
    pub ipv6_interface_addr: Option<String>,
    pub ipv6_neighbor_addr: Option<String>,
    pub multi_topology_id: Vec<u32>,
    pub unknown: Vec<LsTlv>,
}

pub struct LsLinkDescriptorView {
    pub link_local_id: Option<u32>,
    pub link_remote_id: Option<u32>,
    pub ipv4_interface_addr: Option<Seq<char>>,
    pub ipv4_neighbor_addr: Option<Seq<char>>,
    pub ipv6_interface_addr: Option<Seq<char>>,
    pub ipv6_neighbor_addr: Option<Seq<char>>,
    pub multi_topology_id: Seq<u32>,
    pub unknown: Seq<LsTlvView>,
}

impl View for LsLinkDescriptor {
    type V = LsLinkDescriptorView;

    open spec fn view(&self) -> LsLinkDescriptorView {
        LsLinkDescriptorView {
            link_local_id: self.link_local_id,
            link_remote_id: self.link_remote_id,
            ipv4_interface_addr: seqs::opt_text(self.ipv4_interface_addr),
            ipv4_neighbor_addr: seqs::opt_text(self.ipv4_neighbor_addr),
            ipv6_interface_addr: seqs::opt_text(self.ipv6_interface_addr),
            ipv6_neighbor_addr: seqs::opt_text(self.ipv6_neighbor_addr),
            multi_topology_id: self.multi_topology_id@,
            unknown: seqs::views(self.unknown@),
        }
    }
}

/// What a prefix is known by.
#[derive(Debug, PartialEq, Eq)]
pub struct LsPrefixDescriptor {
    pub multi_topology_id: Vec<u32>,
    pub ospf_route_type: Option<u32>,
    pub ip_reachability: Vec<u8>,
    pub unknown: Vec<LsTlv>,
}

pub struct LsPrefixDescriptorView {
    pub multi_topology_id: Seq<u32>,
    pub ospf_route_type: Option<u32>,
    pub ip_reachability: Seq<u8>,
    pub unknown: Seq<LsTlvView>,
}

impl View for LsPrefixDescriptor {
    type V = LsPrefixDescriptorView;

    open spec fn view(&self) -> LsPrefixDescriptorView {
        LsPrefixDescriptorView {
            multi_topology_id: self.multi_topology_id@,
            ospf_route_type: self.ospf_route_type,
            ip_reachability: self.ip_reachability@,
            unknown: seqs::views(self.unknown@),
        }
    }
}

/// A link-state route.
#[derive(Debug, PartialEq, Eq)]
pub struct LsNlri {
    pub nlri_type: i32,
    pub protocol_id: i32,
    pub identifier: u64,
    pub local_node: Option<LsNodeDescriptor>,
    pub remote_node: Option<LsNodeDescriptor>,
    pub link_descriptors: Option<LsLinkDescriptor>,
    pub prefix_descriptors: Option<LsPrefixDescriptor>,
}

pub struct LsNlriView {
    pub nlri_type: i32,
    pub protocol_id: i32,
    pub identifier: u64,
    pub local_node: Option<LsNodeDescriptorView>,
    pub remote_node: Option<LsNodeDescriptorView>,
    pub link_descriptors: Option<LsLinkDescriptorView>,
    pub prefix_descriptors: Option<LsPrefixDescriptorView>,
}

impl View for LsNlri {
    type V = LsNlriView;

    open spec fn view(&self) -> LsNlriView {
        LsNlriView {
            nlri_type: self.nlri_type,
            protocol_id: self.protocol_id,
            identifier: self.identifier,
            local_node: conf::opt_view(self.local_node),
            remote_node: conf::opt_view(self.remote_node),
            link_descriptors: conf::opt_view(self.link_descriptors),
            prefix_descriptors: conf::opt_view(self.prefix_descriptors),
        }
    }
}

/// The attributes of a node.
#[derive(Debug, PartialEq, Eq)]
pub struct LsNodeAttribute {
    pub flag_bits: Option<u32>,
    pub opaque: Option<Vec<u8>>,
    pub name: Option<String>,
    pub isis_area_id: Vec<u8>,
    pub ipv4_router_id: Option<String>,
    pub ipv6_router_id: Option<String>,
}

pub struct LsNodeAttributeView {
    pub flag_bits: Option<u32>,
    pub opaque: Option<Seq<u8>>,
    pub name: Option<Seq<char>>,
    pub isis_area_id: Seq<u8>,
    pub ipv4_router_id: Option<Seq<char>>,
    pub ipv6_router_id: Option<Seq<char>>,
}

impl View for LsNodeAttribute {
    type V = LsNodeAttributeView;

    open spec fn view(&self) -> LsNodeAttributeView {
        LsNodeAttributeView {
            flag_bits: self.flag_bits,
            opaque: bgpls::opt_bytes(self.opaque),
            name: seqs::opt_text(self.name),
            isis_area_id: self.isis_area_id@,
            ipv4_router_id: seqs::opt_text(self.ipv4_router_id),
            ipv6_router_id: seqs::opt_text(self.ipv6_router_id),
        }
    }
}

/// A node of which no attribute is known.
pub open spec fn no_node_attribute() -> LsNodeAttributeView {
    LsNodeAttributeView {
        flag_bits: None,
        opaque: None,
        name: None,
        isis_area_id: Seq::empty(),
        ipv4_router_id: None,
        ipv6_router_id: None,
    }
}

impl Default for LsNodeAttribute {
    fn default() -> (r: Self)
        ensures
            r@ == no_node_attribute(),
    {
        LsNodeAttribute {
            flag_bits: None,
            opaque: None,
            name: None,
            isis_area_id: Vec::new(),
            ipv4_router_id: None,
            ipv6_router_id: None,
        }
    }
}

/// The attributes of a link. Bandwidths are numbers in single precision, held by
/// their bits.
#[derive(Debug, PartialEq, Eq)]
pub struct LsLinkAttribute {
    pub ipv4_router_id_local: Option<String>,
    pub ipv6_router_id_local: Option<String>,
    pub ipv4_router_id_remote: Option<String>,
    pub ipv6_router_id_remote: Option<String>,
    pub admin_group: Option<u32>,
    pub max_link_bandwidth_bits: Option<u32>,
    pub max_reservable_bandwidth_bits: Option<u32>,
    pub unreserved_bandwidth_bits: Vec<u32>,
    pub te_default_metric: Option<u32>,
    pub link_protection: Option<u32>,
    pub mpls_protocol_mask: Option<u32>,
    pub igp_metric: Option<u32>,
    pub srlg: Vec<u32>,
    pub opaque: Option<Vec<u8>>,
    pub name: Option<String>,
}

pub struct LsLinkAttributeView {
    pub ipv4_router_id_local: Option<Seq<char>>,
    pub ipv6_router_id_local: Option<Seq<char>>,
    pub ipv4_router_id_remote: Option<Seq<char>>,
    pub ipv6_router_id_remote: Option<Seq<char>>,
    pub admin_group: Option<u32>,
    pub max_link_bandwidth_bits: Option<u32>,
    pub max_reservable_bandwidth_bits: Option<u32>,
    pub unreserved_bandwidth_bits: Seq<u32>,
    pub te_default_metric: Option<u32>,
    pub link_protection: Option<u32>,
    pub mpls_protocol_mask: Option<u32>,
    pub igp_metric: Option<u32>,
    pub srlg: Seq<u32>,
    pub opaque: Option<Seq<u8>>,
    pub name: Option<Seq<char>>,
}

impl View for LsLinkAttribute {
    type V = LsLinkAttributeView;

    open spec fn view(&self) -> LsLinkAttributeView {
        LsLinkAttributeView {
            ipv4_router_id_local: seqs::opt_text(self.ipv4_router_id_local),
            ipv6_router_id_local: seqs::opt_text(self.ipv6_router_id_local),
            ipv4_router_id_remote: seqs::opt_text(self.ipv4_router_id_remote),
            ipv6_router_id_remote: seqs::opt_text(self.ipv6_router_id_remote),
            admin_group: self.admin_group,
            max_link_bandwidth_bits: self.max_link_bandwidth_bits,
            max_reservable_bandwidth_bits: self.max_reservable_bandwidth_bits,
            unreserved_bandwidth_bits: self.unreserved_bandwidth_bits@,
            te_default_metric: self.te_default_metric,
            link_protection: self.link_protection,
            mpls_protocol_mask: self.mpls_protocol_mask,
            igp_metric: self.igp_metric,
            srlg: self.srlg@,
            opaque: bgpls::opt_bytes(self.opaque),
            name: seqs::opt_text(self.name),
        }
    }
}

/// A link of which no attribute is known.
pub open spec fn no_link_attribute() -> LsLinkAttributeView {
    LsLinkAttributeView {
        ipv4_router_id_local: None,
        ipv6_router_id_local: None,
        ipv4_router_id_remote: None,
        ipv6_router_id_remote: None,
        admin_group: None,
        max_link_bandwidth_bits: None,
        max_reservable_bandwidth_bits: None,
        unreserved_bandwidth_bits: Seq::empty(),
        te_default_metric: None,
        link_protection: None,
        mpls_protocol_mask: None,
        igp_metric: None,
        srlg: Seq::empty(),
        opaque: None,
        name: None,
    }
}

impl Default for LsLinkAttribute {
    fn default() -> (r: Self)
        ensures
            r@ == no_link_attribute(),
    {
        LsLinkAttribute {
            ipv4_router_id_local: None,
            ipv6_router_id_local: None,
            ipv4_router_id_remote: None,
            ipv6_router_id_remote: None,
            admin_group: None,
            max_link_bandwidth_bits: None,
            max_reservable_bandwidth_bits: None,
            unreserved_bandwidth_bits: Vec::new(),
            te_default_metric: None,
            link_protection: None,
            mpls_protocol_mask: None,
            igp_metric: None,
            srlg: Vec::new(),
            opaque: None,
            name: None,
        }
    }
}

/// The attributes of a prefix.
#[derive(Debug, PartialEq, Eq)]
pub struct LsPrefixAttribute {
    pub igp_flags: Option<u32>,
    pub igp_route_tag: Vec<u32>,
    pub igp_extended_route_tag: Vec<u64>,
    pub metric: Option<u32>,
    pub ospf_forwarding_addr: Option<String>,
    pub opaque: Option<Vec<u8>>,
}

pub struct LsPrefixAttributeView {
    pub igp_flags: Option<u32>,
    pub igp_route_tag: Seq<u32>,
    pub igp_extended_route_tag: Seq<u64>,
    pub metric: Option<u32>,
    pub ospf_forwarding_addr: Option<Seq<char>>,
    pub opaque: Option<Seq<u8>>,
}

impl View for LsPrefixAttribute {
    type V = LsPrefixAttributeView;

    open spec fn view(&self) -> LsPrefixAttributeView {
        LsPrefixAttributeView {
            igp_flags: self.igp_flags,
            igp_route_tag: self.igp_route_tag@,
            igp_extended_route_tag: self.igp_extended_route_tag@,
            metric: self.metric,
            ospf_forwarding_addr: seqs::opt_text(self.ospf_forwarding_addr),
            opaque: bgpls::opt_bytes(self.opaque),
        }
    }
}

/// A prefix of which no attribute is known.
pub open spec fn no_prefix_attribute() -> LsPrefixAttributeView {
    LsPrefixAttributeView {
        igp_flags: None,
        igp_route_tag: Seq::empty(),
        igp_extended_route_tag: Seq::empty(),
        metric: None,
        ospf_forwarding_addr: None,
        opaque: None,
    }
}

impl Default for LsPrefixAttribute {
    fn default() -> (r: Self)
        ensures
            r@ == no_prefix_attribute(),
    {
        LsPrefixAttribute {
            igp_flags: None,
            igp_route_tag: Vec::new(),
            igp_extended_route_tag: Vec::new(),
            metric: None,
            ospf_forwarding_addr: None,
            opaque: None,
        }
    }
}

/// The link-state attribute of a path.
#[derive(Debug, PartialEq, Eq)]
pub struct LsAttribute {
    pub tlvs: Vec<LsTlv>,
    pub node: Option<LsNodeAttribute>,
    pub link: Option<LsLinkAttribute>,
    pub prefix: Option<LsPrefixAttribute>,
}

pub struct LsAttributeView {
    pub tlvs: Seq<LsTlvView>,
    pub node: Option<LsNodeAttributeView>,
    pub link: Option<LsLinkAttributeView>,
    pub prefix: Option<LsPrefixAttributeView>,
}

impl View for LsAttribute {
    type V = LsAttributeView;

    open spec fn view(&self) -> LsAttributeView {
        LsAttributeView {
            tlvs: seqs::views(self.tlvs@),
            node: conf::opt_view(self.node),
            link: conf::opt_view(self.link),
            prefix: conf::opt_view(self.prefix),
        }
    }
}

} // verus!
