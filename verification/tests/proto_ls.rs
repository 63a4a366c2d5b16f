//! Link-state routes and attributes of messages.

use bgpgg::bgp::bgpls::{
    LinkAttrTlv, LsAttr, LsAttrTlv, LsDescriptors, LsNlri, LsNlriType, LsProtocolId, LsTlv,
    NodeAttrTlv,
};
use bgpgg::grpc::proto;
use bgpgg::grpc::proto_ls::{
    ls_attr_to_proto, ls_nlri_to_proto, nlri_type_to_proto, proto_nlri_type, proto_protocol_id,
    proto_to_ls_attr, proto_to_ls_body, proto_to_ls_nlri, protocol_id_to_proto,
};
use bgpgg::net::Ipv4Addr;

#[test]
fn test_proto_to_ls_nlri_node_roundtrip() {
    let proto_nlri = proto::LsNlri {
        nlri_type: proto::LsNlriType::LsNode as i32,
        protocol_id: proto::LsProtocolId::LsDirect as i32,
        identifier: 42,
        local_node: Some(proto::LsNodeDescriptor {
            as_number: Some(65001),
            bgp_ls_id: None,
            ospf_area_id: None,
            igp_router_id: vec![10, 0, 0, 1],
        }),
        remote_node: None,
        link_descriptors: None,
        prefix_descriptors: None,
    };

    let internal = proto_to_ls_nlri(&proto_nlri, vec![]).expect("should parse");
    assert_eq!(internal.nlri_type, LsNlriType::Node.code());
    let body = internal.body.as_ref().expect("should have body");
    assert_eq!(body.protocol_id, LsProtocolId::Direct.code());
    assert_eq!(body.identifier, 42);
    if let LsDescriptors::Node { local_node } = &body.descriptors {
        assert_eq!(local_node.as_number, Some(65001));
        assert_eq!(
            local_node.igp_router_id.as_deref(),
            Some(&[10, 0, 0, 1][..])
        );
    } else {
        panic!("expected Node descriptors");
    }

    // Round-trip back to proto
    let back = ls_nlri_to_proto(&internal).expect("should have a message");
    assert_eq!(back.nlri_type, proto_nlri.nlri_type);
    assert_eq!(back.protocol_id, proto_nlri.protocol_id);
    assert_eq!(back.identifier, proto_nlri.identifier);
    let ln = back.local_node.as_ref().expect("should have local_node");
    assert_eq!(ln.as_number, Some(65001));
    assert_eq!(ln.igp_router_id, vec![10, 0, 0, 1]);
}

#[test]
fn test_proto_to_ls_nlri_link_roundtrip() {
    let proto_nlri = proto::LsNlri {
        nlri_type: proto::LsNlriType::LsLink as i32,
        protocol_id: proto::LsProtocolId::LsOspfv2 as i32,
        identifier: 100,
        local_node: Some(proto::LsNodeDescriptor {
            as_number: Some(65001),
            bgp_ls_id: None,
            ospf_area_id: Some(0),
            igp_router_id: vec![1, 1, 1, 1],
        }),
        remote_node: Some(proto::LsNodeDescriptor {
            as_number: Some(65001),
            bgp_ls_id: None,
            ospf_area_id: Some(0),
            igp_router_id: vec![2, 2, 2, 2],
        }),
        link_descriptors: Some(proto::LsLinkDescriptor {
            link_local_id: Some(1),
            link_remote_id: Some(2),
            ipv4_interface_addr: Some("10.0.0.1".to_string()),
            ipv4_neighbor_addr: Some("10.0.0.2".to_string()),
            ipv6_interface_addr: None,
            ipv6_neighbor_addr: None,
            multi_topology_id: vec![],
            unknown: vec![],
        }),
        prefix_descriptors: None,
    };

    let internal = proto_to_ls_nlri(&proto_nlri, vec![]).expect("should parse");
    assert_eq!(internal.nlri_type, LsNlriType::Link.code());
    let body = internal.body.as_ref().expect("should have body");
    if let LsDescriptors::Link {
        local_node,
        remote_node,
        link_descriptors,
    } = &body.descriptors
    {
        assert_eq!(local_node.as_number, Some(65001));
        assert_eq!(
            remote_node.igp_router_id.as_deref(),
            Some(&[2, 2, 2, 2][..])
        );
        assert_eq!(link_descriptors.link_local_id, Some(1));
        assert_eq!(link_descriptors.ipv4_interface_addr, Some([10, 0, 0, 1]));
    } else {
        panic!("expected Link descriptors");
    }

    let back = ls_nlri_to_proto(&internal).expect("should have a message");
    assert_eq!(back.nlri_type, proto_nlri.nlri_type);
    let ld = back
        .link_descriptors
        .as_ref()
        .expect("should have link desc");
    assert_eq!(ld.ipv4_interface_addr, Some("10.0.0.1".to_string()));
}

#[test]
fn test_proto_to_ls_attr_roundtrip() {
    let proto_attr = proto::LsAttribute {
        tlvs: vec![],
        node: Some(proto::LsNodeAttribute {
            flag_bits: Some(0x01),
            opaque: None,
            name: Some("router1".to_string()),
            isis_area_id: vec![],
            ipv4_router_id: Some("10.0.0.1".to_string()),
            ipv6_router_id: None,
        }),
        link: None,
        prefix: None,
    };

    let internal = proto_to_ls_attr(&proto_attr);
    assert_eq!(internal.tlvs.len(), 3); // FlagBits + Name + Ipv4RouterId

    let back = ls_attr_to_proto(&internal);
    let node = back.node.as_ref().expect("should have node");
    assert_eq!(node.flag_bits, Some(0x01));
    assert_eq!(node.name, Some("router1".to_string()));
    assert_eq!(node.ipv4_router_id, Some("10.0.0.1".to_string()));
}

#[test]
fn test_ls_attr_link_bandwidth_roundtrip() {
    let proto_attr = proto::LsAttribute {
        tlvs: vec![],
        node: None,
        link: Some(proto::LsLinkAttribute {
            ipv4_router_id_local: None,
            ipv6_router_id_local: None,
            ipv4_router_id_remote: None,
            ipv6_router_id_remote: None,
            admin_group: Some(0xFF),
            max_link_bandwidth_bits: Some(1_000_000.0f32.to_bits()),
            max_reservable_bandwidth_bits: Some(500_000.0f32.to_bits()),
            unreserved_bandwidth_bits: vec![],
            te_default_metric: None,
            link_protection: None,
            mpls_protocol_mask: None,
            igp_metric: Some(10),
            srlg: vec![100, 200],
            opaque: None,
            name: Some("eth0".to_string()),
        }),
        prefix: None,
    };

    let internal = proto_to_ls_attr(&proto_attr);
    let back = ls_attr_to_proto(&internal);
    let link = back.link.as_ref().expect("should have link");
    assert_eq!(link.admin_group, Some(0xFF));
    assert_eq!(link.igp_metric, Some(10));
    assert_eq!(link.srlg, vec![100, 200]);
    assert_eq!(link.name, Some("eth0".to_string()));
    // Float round-trip
    assert!((f32::from_bits(link.max_link_bandwidth_bits.unwrap()) - 1_000_000.0).abs() < 0.1);
}

#[test]
fn unknown_numbers_are_refused_with_their_value() {
    assert_eq!(
        proto_nlri_type(-7),
        Err("invalid LS NLRI type: -7".to_string())
    );
    assert_eq!(
        proto_protocol_id(6),
        Err("invalid LS protocol ID: 6".to_string())
    );
    assert_eq!(nlri_type_to_proto(9), -1);
    assert_eq!(protocol_id_to_proto(9), 0);
    for n in 0..4 {
        assert_eq!(nlri_type_to_proto(proto_nlri_type(n).unwrap().code()), n);
    }
    for n in 0..6 {
        assert_eq!(
            protocol_id_to_proto(proto_protocol_id(n).unwrap().code()),
            n
        );
    }
}

#[test]
fn the_kind_is_looked_at_before_the_protocol() {
    let m = proto::LsNlri {
        nlri_type: 4,
        protocol_id: 9,
        identifier: 0,
        local_node: None,
        remote_node: None,
        link_descriptors: None,
        prefix_descriptors: None,
    };
    assert_eq!(
        proto_to_ls_nlri(&m, vec![]),
        Err("invalid LS NLRI type: 4".to_string())
    );
}

#[test]
fn a_prefix_route_comes_back_as_it_was() {
    let m = proto::LsNlri {
        nlri_type: 3,
        protocol_id: 5,
        identifier: 7,
        local_node: Some(proto::LsNodeDescriptor {
            as_number: None,
            bgp_ls_id: Some(3),
            ospf_area_id: None,
            igp_router_id: vec![],
        }),
        remote_node: None,
        link_descriptors: None,
        prefix_descriptors: Some(proto::LsPrefixDescriptor {
            multi_topology_id: vec![2, 65535],
            ospf_route_type: Some(255),
            ip_reachability: vec![64, 32, 1],
            unknown: vec![proto::LsTlv {
                tlv_type: 1157,
                value: vec![1, 2],
            }],
        }),
    };
    let n = proto_to_ls_nlri(&m, vec![0, 4, 9]).unwrap();
    assert_eq!(n.nlri_type, 4);
    assert_eq!(n.raw, vec![0, 4, 9]);
    assert_eq!(ls_nlri_to_proto(&n), Some(m));
}

#[test]
fn a_link_with_long_addresses_comes_back_as_it_was() {
    let m = proto::LsNlri {
        nlri_type: 1,
        protocol_id: 0,
        identifier: 1,
        local_node: Some(proto::LsNodeDescriptor {
            as_number: Some(1),
            bgp_ls_id: None,
            ospf_area_id: None,
            igp_router_id: vec![],
        }),
        remote_node: Some(proto::LsNodeDescriptor {
            as_number: Some(2),
            bgp_ls_id: None,
            ospf_area_id: None,
            igp_router_id: vec![],
        }),
        link_descriptors: Some(proto::LsLinkDescriptor {
            link_local_id: None,
            link_remote_id: None,
            ipv4_interface_addr: None,
            ipv4_neighbor_addr: None,
            ipv6_interface_addr: Some("2001:db8::1".to_string()),
            ipv6_neighbor_addr: Some("::ffff:10.0.0.1".to_string()),
            multi_topology_id: vec![],
            unknown: vec![],
        }),
        prefix_descriptors: None,
    };
    let (kind, body) = proto_to_ls_body(&m).unwrap();
    assert_eq!(kind, LsNlriType::Link);
    assert_eq!(body.protocol_id, LsProtocolId::IsIsL1.code());
    let n = proto_to_ls_nlri(&m, vec![]).unwrap();
    assert_eq!(n.body, Some(body));
    assert_eq!(ls_nlri_to_proto(&n), Some(m));
}

#[test]
fn a_route_of_an_unknown_kind_has_no_message() {
    let n = LsNlri {
        nlri_type: 77,
        raw: vec![1],
        body: None,
        route_distinguisher: None,
    };
    assert_eq!(ls_nlri_to_proto(&n), None);
    // Nor has one of a known kind of which nothing is parsed.
    let n = LsNlri {
        nlri_type: 1,
        raw: vec![1],
        body: None,
        route_distinguisher: None,
    };
    assert_eq!(ls_nlri_to_proto(&n), None);
}

#[test]
fn of_two_items_of_a_kind_the_later_one_is_shown() {
    let attr = LsAttr {
        tlvs: vec![
            LsAttrTlv::Node(NodeAttrTlv::FlagBits(1)),
            LsAttrTlv::Node(NodeAttrTlv::FlagBits(2)),
            LsAttrTlv::Node(NodeAttrTlv::Ipv4RouterId(Ipv4Addr::new(10, 0, 0, 9))),
            LsAttrTlv::Unknown(LsTlv {
                tlv_type: 9,
                value: vec![8],
            }),
        ],
    };
    let m = ls_attr_to_proto(&attr);
    let node = m.node.unwrap();
    assert_eq!(node.flag_bits, Some(2));
    assert_eq!(node.ipv4_router_id, Some("10.0.0.9".to_string()));
    assert_eq!(m.link, None);
    assert_eq!(m.prefix, None);
    assert_eq!(
        m.tlvs,
        vec![proto::LsTlv {
            tlv_type: 9,
            value: vec![8]
        }]
    );
}

#[test]
fn eight_bandwidths_are_kept_and_fewer_are_not() {
    let mut link = proto::LsLinkAttribute::default();
    link.unreserved_bandwidth_bits = vec![1, 2, 3, 4, 5, 6, 7, 8];
    let m = proto::LsAttribute {
        tlvs: vec![],
        node: None,
        link: Some(link),
        prefix: None,
    };
    let attr = proto_to_ls_attr(&m);
    assert_eq!(
        attr.tlvs,
        vec![LsAttrTlv::Link(LinkAttrTlv::UnreservedBw([
            1, 2, 3, 4, 5, 6, 7, 8
        ]))]
    );
    assert_eq!(ls_attr_to_proto(&attr), m);

    let mut link = proto::LsLinkAttribute::default();
    link.unreserved_bandwidth_bits = vec![1, 2, 3];
    let m = proto::LsAttribute {
        tlvs: vec![],
        node: None,
        link: Some(link),
        prefix: None,
    };
    assert!(proto_to_ls_attr(&m).tlvs.is_empty());
}
