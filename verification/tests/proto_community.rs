//! Communities of messages and those of paths.

use bgpgg::bgp::community::LargeCommunity;
use bgpgg::bgp::ext_community::{
    from_color, from_encapsulation, from_four_octet_as, from_ipv4, from_router_mac,
    from_two_octet_as, SUBTYPE_LINK_BANDWIDTH, SUBTYPE_ROUTE_ORIGIN, SUBTYPE_ROUTE_TARGET,
    TYPE_NON_TRANSITIVE_BIT, TYPE_TRANSITIVE_OPAQUE,
};
use bgpgg::grpc::proto;
use bgpgg::grpc::proto_community::{
    internal_to_proto_large_community, proto_extcomm_to_u64, proto_large_community_to_internal,
    u64_to_proto_extcomm,
};

#[test]
fn test_two_octet_as_rt_roundtrip() {
    let original = from_two_octet_as(SUBTYPE_ROUTE_TARGET, 65000, 100);

    // u64 -> proto
    let proto_ec = u64_to_proto_extcomm(original);
    assert!(matches!(
        proto_ec.community,
        Some(proto::extended_community::Community::TwoOctetAs(_))
    ));

    // proto -> u64
    let result = proto_extcomm_to_u64(&proto_ec).unwrap();
    assert_eq!(original, result);
}

#[test]
fn test_ipv4_address_rt_roundtrip() {
    let original = from_ipv4(SUBTYPE_ROUTE_TARGET, 0xC0A80101, 100); // 192.168.1.1

    let proto_ec = u64_to_proto_extcomm(original);
    assert!(matches!(
        proto_ec.community,
        Some(proto::extended_community::Community::Ipv4Address(_))
    ));

    let result = proto_extcomm_to_u64(&proto_ec).unwrap();
    assert_eq!(original, result);
}

#[test]
fn test_four_octet_as_ro_roundtrip() {
    let original = from_four_octet_as(SUBTYPE_ROUTE_ORIGIN, 4200000000, 1);

    let proto_ec = u64_to_proto_extcomm(original);
    assert!(matches!(
        proto_ec.community,
        Some(proto::extended_community::Community::FourOctetAs(_))
    ));

    let result = proto_extcomm_to_u64(&proto_ec).unwrap();
    assert_eq!(original, result);
}

#[test]
fn test_link_bandwidth_roundtrip() {
    // Create Link Bandwidth: non-transitive, ASN 65000, 1.5 Gbps (in bytes/sec)
    let bandwidth_bps = 1_500_000_000.0f32;
    let bandwidth_bits = bandwidth_bps.to_bits();
    let original = from_two_octet_as(SUBTYPE_LINK_BANDWIDTH, 65000, bandwidth_bits)
        | ((TYPE_NON_TRANSITIVE_BIT as u64) << 56);

    let proto_ec = u64_to_proto_extcomm(original);
    if let Some(proto::extended_community::Community::LinkBandwidth(lb)) = &proto_ec.community {
        assert!(!lb.is_transitive);
        assert_eq!(lb.asn, 65000);
        assert_eq!(f32::from_bits(lb.bandwidth_bits), bandwidth_bps);
    } else {
        panic!("Expected LinkBandwidth variant");
    }

    let result = proto_extcomm_to_u64(&proto_ec).unwrap();
    assert_eq!(original, result);
}

#[test]
fn test_link_bandwidth_transitive() {
    // Test transitive Link Bandwidth (uncommon but allowed by spec)
    let bandwidth_bps = 100_000.0f32;
    let bandwidth_bits = bandwidth_bps.to_bits();
    let original = from_two_octet_as(SUBTYPE_LINK_BANDWIDTH, 200, bandwidth_bits);

    let proto_ec = u64_to_proto_extcomm(original);
    if let Some(proto::extended_community::Community::LinkBandwidth(lb)) = &proto_ec.community {
        assert!(lb.is_transitive);
        assert_eq!(lb.asn, 200);
        assert_eq!(f32::from_bits(lb.bandwidth_bits), bandwidth_bps);
    } else {
        panic!("Expected LinkBandwidth variant");
    }

    let result = proto_extcomm_to_u64(&proto_ec).unwrap();
    assert_eq!(original, result);
}

#[test]
fn test_opaque_roundtrip() {
    // Create opaque extended community: [type][subtype][6 bytes value]
    let mut typ = TYPE_TRANSITIVE_OPAQUE;
    typ |= TYPE_NON_TRANSITIVE_BIT; // non-transitive
    let val: u64 = ((typ as u64) << 56) | 0xAABBCCDDEE00;

    let proto_ec = u64_to_proto_extcomm(val);
    if let Some(proto::extended_community::Community::Opaque(op)) = &proto_ec.community {
        assert!(!op.is_transitive);
        assert_eq!(op.value, vec![0xAA, 0xBB, 0xCC, 0xDD, 0xEE, 0x00]);
    } else {
        panic!("Expected Opaque variant");
    }

    let result = proto_extcomm_to_u64(&proto_ec).unwrap();
    assert_eq!(val, result);
}

#[test]
fn test_unknown_type_roundtrip() {
    // Unknown type 0x99 with arbitrary data
    let val: u64 = 0x99FF_AABB_CCDD_EE00;

    let proto_ec = u64_to_proto_extcomm(val);
    if let Some(proto::extended_community::Community::Unknown(u)) = &proto_ec.community {
        assert_eq!(u.type_code, 0x99);
        assert_eq!(u.value, vec![0xFF, 0xAA, 0xBB, 0xCC, 0xDD, 0xEE, 0x00]);
    } else {
        panic!("Expected Unknown variant");
    }

    let result = proto_extcomm_to_u64(&proto_ec).unwrap();
    assert_eq!(val, result);
}

#[test]
fn test_non_transitive_two_octet_as() {
    let mut val = from_two_octet_as(SUBTYPE_ROUTE_TARGET, 100, 200);
    val |= (TYPE_NON_TRANSITIVE_BIT as u64) << 56;

    let proto_ec = u64_to_proto_extcomm(val);
    if let Some(proto::extended_community::Community::TwoOctetAs(ec)) = &proto_ec.community {
        assert!(!ec.is_transitive);
        assert_eq!(ec.asn, 100);
        assert_eq!(ec.local_admin, 200);
    } else {
        panic!("Expected TwoOctetAs variant");
    }

    let result = proto_extcomm_to_u64(&proto_ec).unwrap();
    assert_eq!(val, result);
}

#[test]
fn test_color_roundtrip() {
    let original = from_color(12345);

    // u64 -> proto
    let proto_ec = u64_to_proto_extcomm(original);
    if let Some(proto::extended_community::Community::Color(c)) = &proto_ec.community {
        assert!(c.is_transitive);
        assert_eq!(c.color, 12345);
    } else {
        panic!("Expected Color variant");
    }

    // proto -> u64
    let result = proto_extcomm_to_u64(&proto_ec).unwrap();
    assert_eq!(original, result);
}

#[test]
fn test_color_non_transitive() {
    let mut original = from_color(999);
    original |= (TYPE_NON_TRANSITIVE_BIT as u64) << 56;

    let proto_ec = u64_to_proto_extcomm(original);
    if let Some(proto::extended_community::Community::Color(c)) = &proto_ec.community {
        assert!(!c.is_transitive);
        assert_eq!(c.color, 999);
    } else {
        panic!("Expected Color variant");
    }

    let result = proto_extcomm_to_u64(&proto_ec).unwrap();
    assert_eq!(original, result);
}

#[test]
fn test_color_max_value() {
    let original = from_color(u32::MAX);

    let proto_ec = u64_to_proto_extcomm(original);
    if let Some(proto::extended_community::Community::Color(c)) = &proto_ec.community {
        assert!(c.is_transitive);
        assert_eq!(c.color, u32::MAX);
    } else {
        panic!("Expected Color variant");
    }

    let result = proto_extcomm_to_u64(&proto_ec).unwrap();
    assert_eq!(original, result);
}

#[test]
fn test_encapsulation_roundtrip() {
    let original = from_encapsulation(8); // VXLAN

    // u64 -> proto
    let proto_ec = u64_to_proto_extcomm(original);
    if let Some(proto::extended_community::Community::Encapsulation(e)) = &proto_ec.community {
        assert!(e.is_transitive);
        assert_eq!(e.tunnel_type, 8);
    } else {
        panic!("Expected Encapsulation variant");
    }

    // proto -> u64
    let result = proto_extcomm_to_u64(&proto_ec).unwrap();
    assert_eq!(original, result);
}

#[test]
fn test_encapsulation_non_transitive() {
    let mut original = from_encapsulation(15); // SR Policy
    original |= (TYPE_NON_TRANSITIVE_BIT as u64) << 56;

    let proto_ec = u64_to_proto_extcomm(original);
    if let Some(proto::extended_community::Community::Encapsulation(e)) = &proto_ec.community {
        assert!(!e.is_transitive);
        assert_eq!(e.tunnel_type, 15);
    } else {
        panic!("Expected Encapsulation variant");
    }

    let result = proto_extcomm_to_u64(&proto_ec).unwrap();
    assert_eq!(original, result);
}

#[test]
fn test_encapsulation_max_value() {
    let original = from_encapsulation(u16::MAX);

    let proto_ec = u64_to_proto_extcomm(original);
    if let Some(proto::extended_community::Community::Encapsulation(e)) = &proto_ec.community {
        assert!(e.is_transitive);
        assert_eq!(e.tunnel_type, u16::MAX as u32);
    } else {
        panic!("Expected Encapsulation variant");
    }

    let result = proto_extcomm_to_u64(&proto_ec).unwrap();
    assert_eq!(original, result);
}

#[test]
fn test_router_mac_roundtrip() {
    let mac = [0xaa, 0xbb, 0xcc, 0xdd, 0xee, 0xff];
    let original = from_router_mac(&mac.to_vec());

    // u64 -> proto
    let proto_ec = u64_to_proto_extcomm(original);
    if let Some(proto::extended_community::Community::RouterMac(rm)) = &proto_ec.community {
        assert!(rm.is_transitive);
        assert_eq!(rm.mac_address, vec![0xaa, 0xbb, 0xcc, 0xdd, 0xee, 0xff]);
    } else {
        panic!("Expected RouterMac variant");
    }

    // proto -> u64
    let result = proto_extcomm_to_u64(&proto_ec).unwrap();
    assert_eq!(original, result);
}

#[test]
fn test_router_mac_all_zeros() {
    let mac = [0x00, 0x00, 0x00, 0x00, 0x00, 0x00];
    let original = from_router_mac(&mac.to_vec());

    let proto_ec = u64_to_proto_extcomm(original);
    if let Some(proto::extended_community::Community::RouterMac(rm)) = &proto_ec.community {
        assert!(rm.is_transitive);
        assert_eq!(rm.mac_address, vec![0x00, 0x00, 0x00, 0x00, 0x00, 0x00]);
    } else {
        panic!("Expected RouterMac variant");
    }

    let result = proto_extcomm_to_u64(&proto_ec).unwrap();
    assert_eq!(original, result);
}

#[test]
fn test_router_mac_all_ones() {
    let mac = [0xff, 0xff, 0xff, 0xff, 0xff, 0xff];
    let original = from_router_mac(&mac.to_vec());

    let proto_ec = u64_to_proto_extcomm(original);
    if let Some(proto::extended_community::Community::RouterMac(rm)) = &proto_ec.community {
        assert!(rm.is_transitive);
        assert_eq!(rm.mac_address, vec![0xff, 0xff, 0xff, 0xff, 0xff, 0xff]);
    } else {
        panic!("Expected RouterMac variant");
    }

    let result = proto_extcomm_to_u64(&proto_ec).unwrap();
    assert_eq!(original, result);
}

#[test]
fn test_proto_extcomm_validation_asn_too_large() {
    let ec = proto::ExtendedCommunity {
        community: Some(proto::extended_community::Community::TwoOctetAs(
            proto::extended_community::TwoOctetAsSpecific {
                is_transitive: true,
                sub_type: 2,
                asn: 70000, // exceeds 16-bit max
                local_admin: 100,
            },
        )),
    };

    let result = proto_extcomm_to_u64(&ec);
    assert!(result.is_err());
    assert!(result.unwrap_err().contains("exceeds 16-bit max"));
}

#[test]
fn test_proto_extcomm_validation_local_admin_too_large() {
    let ec = proto::ExtendedCommunity {
        community: Some(proto::extended_community::Community::Ipv4Address(
            proto::extended_community::IPv4AddressSpecific {
                is_transitive: true,
                sub_type: 2,
                address: "192.168.1.1".to_string(),
                local_admin: 70000, // exceeds 16-bit max
            },
        )),
    };

    let result = proto_extcomm_to_u64(&ec);
    assert!(result.is_err());
    assert!(result.unwrap_err().contains("exceeds 16-bit max"));
}

#[test]
fn test_proto_extcomm_validation_invalid_ipv4() {
    let ec = proto::ExtendedCommunity {
        community: Some(proto::extended_community::Community::Ipv4Address(
            proto::extended_community::IPv4AddressSpecific {
                is_transitive: true,
                sub_type: 2,
                address: "999.999.999.999".to_string(),
                local_admin: 100,
            },
        )),
    };

    let result = proto_extcomm_to_u64(&ec);
    assert!(result.is_err());
    assert!(result.unwrap_err().contains("Invalid IPv4"));
}

#[test]
fn test_proto_extcomm_validation_opaque_wrong_length() {
    let ec = proto::ExtendedCommunity {
        community: Some(proto::extended_community::Community::Opaque(
            proto::extended_community::Opaque {
                is_transitive: true,
                value: vec![0xAA, 0xBB, 0xCC], // only 3 bytes, should be 6
            },
        )),
    };

    let result = proto_extcomm_to_u64(&ec);
    assert!(result.is_err());
    assert!(result.unwrap_err().contains("must be 6 bytes"));
}

#[test]
fn test_proto_extcomm_validation_unknown_wrong_length() {
    let ec = proto::ExtendedCommunity {
        community: Some(proto::extended_community::Community::Unknown(
            proto::extended_community::Unknown {
                type_code: 0x99,
                value: vec![0xAA, 0xBB], // only 2 bytes, should be 7
            },
        )),
    };

    let result = proto_extcomm_to_u64(&ec);
    assert!(result.is_err());
    assert!(result.unwrap_err().contains("must be 7 bytes"));
}

#[test]
fn test_link_bandwidth_asn_validation() {
    let ec = proto::ExtendedCommunity {
        community: Some(proto::extended_community::Community::LinkBandwidth(
            proto::extended_community::LinkBandwidth {
                is_transitive: false,
                asn: 70000, // exceeds 16-bit max
                bandwidth_bits: 1000.0f32.to_bits(),
            },
        )),
    };

    let result = proto_extcomm_to_u64(&ec);
    assert!(result.is_err());
    assert!(result.unwrap_err().contains("exceeds 16-bit max"));
}

#[test]
fn test_link_bandwidth_float_zero() {
    let bandwidth = 0.0f32;
    let bandwidth_bits = bandwidth.to_bits();
    let original = from_two_octet_as(SUBTYPE_LINK_BANDWIDTH, 100, bandwidth_bits);

    let proto_ec = u64_to_proto_extcomm(original);
    if let Some(proto::extended_community::Community::LinkBandwidth(lb)) = &proto_ec.community {
        assert_eq!(f32::from_bits(lb.bandwidth_bits), 0.0);
    } else {
        panic!("Expected LinkBandwidth variant");
    }

    let result = proto_extcomm_to_u64(&proto_ec).unwrap();
    assert_eq!(original, result);
}

#[test]
fn test_link_bandwidth_float_large_value() {
    // Test with large bandwidth value (10 Gbps in bytes/sec)
    let bandwidth = 10_000_000_000.0f32;
    let bandwidth_bits = bandwidth.to_bits();
    let original = from_two_octet_as(SUBTYPE_LINK_BANDWIDTH, 65000, bandwidth_bits);

    let proto_ec = u64_to_proto_extcomm(original);
    if let Some(proto::extended_community::Community::LinkBandwidth(lb)) = &proto_ec.community {
        // Float comparison with some tolerance due to precision
        assert!((f32::from_bits(lb.bandwidth_bits) - bandwidth).abs() < 1.0);
    } else {
        panic!("Expected LinkBandwidth variant");
    }

    let result = proto_extcomm_to_u64(&proto_ec).unwrap();
    assert_eq!(original, result);
}

#[test]
fn test_large_community_roundtrip() {
    let original = LargeCommunity::new(65536, 100, 200);

    // Internal -> proto
    let proto_lc = internal_to_proto_large_community(&original);
    assert_eq!(proto_lc.global_admin, 65536);
    assert_eq!(proto_lc.local_data_1, 100);
    assert_eq!(proto_lc.local_data_2, 200);

    // proto -> Internal
    let result = proto_large_community_to_internal(&proto_lc);
    assert_eq!(original, result);
}

#[test]
fn test_large_community_32bit_asn() {
    let original = LargeCommunity::new(4200000000, 1, 2);

    let proto_lc = internal_to_proto_large_community(&original);
    assert_eq!(proto_lc.global_admin, 4200000000);
    assert_eq!(proto_lc.local_data_1, 1);
    assert_eq!(proto_lc.local_data_2, 2);

    let result = proto_large_community_to_internal(&proto_lc);
    assert_eq!(original, result);
}

#[test]
fn test_large_community_zero() {
    let original = LargeCommunity::new(0, 0, 0);

    let proto_lc = internal_to_proto_large_community(&original);
    assert_eq!(proto_lc.global_admin, 0);
    assert_eq!(proto_lc.local_data_1, 0);
    assert_eq!(proto_lc.local_data_2, 0);

    let result = proto_large_community_to_internal(&proto_lc);
    assert_eq!(original, result);
}

#[test]
fn test_large_community_max_values() {
    let original = LargeCommunity::new(u32::MAX, u32::MAX, u32::MAX);

    let proto_lc = internal_to_proto_large_community(&original);
    assert_eq!(proto_lc.global_admin, u32::MAX);
    assert_eq!(proto_lc.local_data_1, u32::MAX);
    assert_eq!(proto_lc.local_data_2, u32::MAX);

    let result = proto_large_community_to_internal(&proto_lc);
    assert_eq!(original, result);
}

#[test]
fn a_message_without_a_community_is_refused() {
    let ec = proto::ExtendedCommunity { community: None };
    assert_eq!(
        proto_extcomm_to_u64(&ec),
        Err("ExtendedCommunity missing oneof field".to_string())
    );
}

#[test]
fn a_tunnel_type_of_more_than_sixteen_bits_is_refused() {
    let ec = proto::ExtendedCommunity {
        community: Some(proto::extended_community::Community::Encapsulation(
            proto::extended_community::Encapsulation {
                is_transitive: true,
                tunnel_type: 65536,
            },
        )),
    };
    assert_eq!(
        proto_extcomm_to_u64(&ec),
        Err("Tunnel type 65536 exceeds 16-bit max (65535)".to_string())
    );
}

#[test]
fn a_mac_address_of_another_length_is_refused() {
    let ec = proto::ExtendedCommunity {
        community: Some(proto::extended_community::Community::RouterMac(
            proto::extended_community::RouterMac {
                is_transitive: true,
                mac_address: vec![1, 2, 3],
            },
        )),
    };
    assert_eq!(
        proto_extcomm_to_u64(&ec),
        Err("MAC address must be 6 bytes, got 3".to_string())
    );
}

#[test]
fn a_two_octet_community_has_its_exact_number() {
    assert_eq!(
        from_two_octet_as(SUBTYPE_ROUTE_TARGET, 65000, 100),
        0x0002_FDE8_0000_0064
    );
}
