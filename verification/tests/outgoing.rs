//! Routes that are told to peers.

use bgpgg::bgp::community::{GRACEFUL_SHUTDOWN, NO_ADVERTISE, NO_EXPORT, NO_EXPORT_SUBCONFED};
use bgpgg::bgp::ext_community::from_rpki_state_community;
use bgpgg::bgp::msg::{AddPathMask, MessageFormat};
use bgpgg::bgp::msg_update::{
    AsPathSegment, AsPathSegmentType, NextHopAddr, Origin, PathAttrValue, PathAttribute,
    ATTR_OPTIONAL, ATTR_TRANSITIVE,
};
use bgpgg::bgp::multiprotocol::{Afi, AfiSafi, AfiSafiSet, Safi};
use bgpgg::bgp::update_message::UpdateMessage;
use bgpgg::net::{IpAddr, IpNetwork, Ipv4Addr, Ipv4Net};
use bgpgg::peer::fsm::BgpState;
use bgpgg::peer::outgoing::{
    build_export_as_path, build_export_communities, build_export_extended_communities,
    build_export_local_pref, build_export_med, build_export_next_hop, build_export_rr_attrs,
    build_export_unknown_attrs, compute_routes_for_peer, should_filter_by_community,
    should_propagate_to_peer, PeerExportContext,
};
use bgpgg::peer::propagate::{
    batch_announcements, propagate_routes_to_peer, select_paths_for_export, updates_for_peer,
    AnnouncementBatch,
};
use bgpgg::peer::sending::{announcements_for_peer, export_all_routes_to_peer, keep_sendable};
use bgpgg::peer::PeerCapabilities;
use bgpgg::policy::action::Action;
use bgpgg::policy::condition::Condition;
use bgpgg::policy::{AfiSafiPolicies, Policy, Statement};
use bgpgg::rib::{
    AdjRibOut, LocRib, Path, PathAttrs, Route, RouteDelta, RouteKey, RoutePath, RouteSource,
};
use bgpgg::rpki::RpkiValidation;
use std::sync::Arc;

fn change(path: &mut Path, f: impl Fn(&mut PathAttrs)) {
    let mut attrs = (*path.attrs).clone();
    f(&mut attrs);
    path.set_attrs(attrs);
}

fn test_ip(last: u8) -> IpAddr {
    IpAddr::V4(Ipv4Addr::new(10, 0, 0, last))
}

fn test_bgp_id(last: u8) -> Ipv4Addr {
    Ipv4Addr::new(1, 1, 1, last)
}

fn make_path(source: RouteSource, as_path: Vec<AsPathSegment>, next_hop: NextHopAddr) -> Path {
    Path {
        local_path_id: None,
        remote_path_id: None,
        stale: false,
        rpki_state: RpkiValidation::NotFound,
        attrs: Arc::new(PathAttrs {
            origin: Origin::IGP,
            as_path,
            next_hop,
            source,
            local_pref: Some(100),
            med: None,
            atomic_aggregate: false,
            aggregator: None,
            communities: vec![],
            extended_communities: vec![],
            large_communities: vec![],
            unknown_attrs: vec![],
            originator_id: None,
            cluster_list: vec![],
            ls_attr: None,
        }),
    }
}

fn as_seq(asns: Vec<u32>) -> AsPathSegment {
    AsPathSegment {
        segment_type: AsPathSegmentType::AsSequence,
        segment_len: asns.len() as u8,
        asn_list: asns,
    }
}

fn test_export_policies(policies: Vec<Arc<Policy>>) -> AfiSafiPolicies {
    let mut list = AfiSafiPolicies::new();
    for fam in [
        AfiSafi::new(Afi::Ipv4, Safi::Unicast),
        AfiSafi::new(Afi::Ipv6, Safi::Unicast),
        AfiSafi::new(Afi::LinkState, Safi::LinkState),
    ] {
        list.push((fam, policies.clone()));
    }
    list
}

fn make_peer_export_ctx(
    local_asn: u32,
    peer_asn: u32,
    rs_client: bool,
    next_hop_self: bool,
    send_rpki_community: bool,
) -> PeerExportContext<'static> {
    // Default test setup: negotiate both IPv4 and IPv6 Unicast
    let negotiated: &'static AfiSafiSet = Box::leak(Box::new(AfiSafiSet::from_vec(&vec![
        AfiSafi::new(Afi::Ipv4, Safi::Unicast),
        AfiSafi::new(Afi::Ipv6, Safi::Unicast),
    ])));
    let empty_policies: &'static AfiSafiPolicies = Box::leak(Box::new(AfiSafiPolicies::new()));

    let capabilities: &'static PeerCapabilities =
        Box::leak(Box::new(PeerCapabilities::default()));

    PeerExportContext {
        peer_addr: test_ip(1),
        local_asn,
        peer_asn,
        local_next_hop: IpAddr::V4(Ipv4Addr::new(1, 1, 1, 1)),
        local_link_local: None,
        export_policies: empty_policies,
        rr_client: false,
        rs_client,
        cluster_id: Ipv4Addr::new(1, 1, 1, 1),
        send_format: MessageFormat {
            use_4byte_asn: false,
            add_path: AddPathMask::none(),
            is_ebgp: local_asn != peer_asn,
            enhanced_rr: false,
        },
        negotiated_afi_safis: negotiated,
        next_hop_self,
        graceful_shutdown: false,
        capabilities,
        send_rpki_community,
    }
}

#[test]
fn test_should_propagate_to_peer() {
    // Should propagate to established peer when no originating peer
    assert!(should_propagate_to_peer(
        test_ip(2),
        BgpState::Established,
        None
    ));

    // Should propagate to established peer when different from originating peer
    assert!(should_propagate_to_peer(
        test_ip(2),
        BgpState::Established,
        Some(test_ip(1))
    ));

    // Should NOT propagate to same peer that sent the route
    assert!(!should_propagate_to_peer(
        test_ip(2),
        BgpState::Established,
        Some(test_ip(2))
    ));

    // Should NOT propagate to non-established peer
    assert!(!should_propagate_to_peer(
        test_ip(3),
        BgpState::Connect,
        Some(test_ip(1))
    ));
}

#[test]
fn test_build_export_as_path() {
    struct TestCase {
        name: &'static str,
        path_as_path: Vec<AsPathSegment>,
        path_source: RouteSource,
        local_asn: u32,
        peer_asn: u32,
        rs_client: bool,
        expected_as_path: Vec<Vec<u32>>, // List of ASN sequences
    }

    let test_cases = vec![
        TestCase {
            name: "local route to eBGP: prepend local ASN",
            path_as_path: vec![],
            path_source: RouteSource::Local,
            local_asn: 65000,
            peer_asn: 65001,
            rs_client: false,
            expected_as_path: vec![vec![65000]],
        },
        TestCase {
            name: "local route to iBGP: empty AS_PATH",
            path_as_path: vec![],
            path_source: RouteSource::Local,
            local_asn: 65000,
            peer_asn: 65000,
            rs_client: false,
            expected_as_path: vec![],
        },
        TestCase {
            name: "learned route to eBGP: prepend local ASN",
            path_as_path: vec![AsPathSegment {
                segment_type: AsPathSegmentType::AsSequence,
                segment_len: 2,
                asn_list: vec![65001, 65002],
            }],
            path_source: RouteSource::Ebgp {
                peer_ip: test_ip(1),
                bgp_id: test_bgp_id(1),
            },
            local_asn: 65000,
            peer_asn: 65001,
            rs_client: false,
            expected_as_path: vec![vec![65000, 65001, 65002]],
        },
        TestCase {
            name: "learned route to iBGP: preserve AS_PATH",
            path_as_path: vec![AsPathSegment {
                segment_type: AsPathSegmentType::AsSequence,
                segment_len: 1,
                asn_list: vec![65003],
            }],
            path_source: RouteSource::Ibgp {
                peer_ip: test_ip(2),
                bgp_id: test_bgp_id(2),
                rr_client: false,
            },
            local_asn: 65000,
            peer_asn: 65000,
            rs_client: false,
            expected_as_path: vec![vec![65003]],
        },
        TestCase {
            name: "RS client: preserve AS_PATH (no prepending)",
            path_as_path: vec![AsPathSegment {
                segment_type: AsPathSegmentType::AsSequence,
                segment_len: 2,
                asn_list: vec![65001, 65002],
            }],
            path_source: RouteSource::Ebgp {
                peer_ip: test_ip(1),
                bgp_id: test_bgp_id(1),
            },
            local_asn: 65000,
            peer_asn: 65003,
            rs_client: true,
            expected_as_path: vec![vec![65001, 65002]],
        },
        TestCase {
            name: "RS client with local route: preserve AS_PATH",
            path_as_path: vec![],
            path_source: RouteSource::Local,
            local_asn: 65000,
            peer_asn: 65001,
            rs_client: true,
            expected_as_path: vec![],
        },
    ];

    for test_case in test_cases {
        let path = make_path(
            test_case.path_source,
            test_case.path_as_path,
            NextHopAddr::Ipv4(Ipv4Addr::new(192, 168, 1, 1)),
        );

        let ctx = make_peer_export_ctx(
            test_case.local_asn,
            test_case.peer_asn,
            test_case.rs_client,
            false,
            false,
        );
        let result = build_export_as_path(&path, &ctx);

        // Convert result to Vec<Vec<u32>> for easier comparison
        let result_asns: Vec<Vec<u32>> =
            result.iter().map(|seg| seg.asn_list.clone()).collect();

        assert_eq!(
            result_asns, test_case.expected_as_path,
            "Test case '{}' failed: expected {:?}, got {:?}",
            test_case.name, test_case.expected_as_path, result_asns
        );
    }
}

#[test]
fn test_batch_announcements() {
    let path_a = Arc::new(make_path(
        RouteSource::Local,
        vec![AsPathSegment {
            segment_type: AsPathSegmentType::AsSequence,
            segment_len: 1,
            asn_list: vec![65000],
        }],
        NextHopAddr::Ipv4(Ipv4Addr::new(192, 168, 1, 1)),
    ));

    let path_b = Arc::new(make_path(
        RouteSource::Local,
        vec![AsPathSegment {
            segment_type: AsPathSegmentType::AsSequence,
            segment_len: 1,
            asn_list: vec![65000],
        }],
        NextHopAddr::Ipv4(Ipv4Addr::new(192, 168, 1, 2)),
    ));

    let p1 = IpNetwork::V4(Ipv4Net {
        address: Ipv4Addr::new(10, 0, 1, 0),
        prefix_length: 24,
    });
    let p2 = IpNetwork::V4(Ipv4Net {
        address: Ipv4Addr::new(10, 0, 2, 0),
        prefix_length: 24,
    });
    let p3 = IpNetwork::V4(Ipv4Net {
        address: Ipv4Addr::new(10, 0, 3, 0),
        prefix_length: 24,
    });
    let announcements = vec![
        RoutePath {
            key: RouteKey::Prefix(p1),
            path: Arc::clone(&path_a),
        },
        RoutePath {
            key: RouteKey::Prefix(p2),
            path: Arc::clone(&path_b),
        },
        RoutePath {
            key: RouteKey::Prefix(p3),
            path: Arc::clone(&path_a),
        },
    ];

    let mut actual = batch_announcements(&announcements);
    actual.sort_by_key(|batch| batch.keys.len());

    assert_eq!(
        actual,
        vec![
            AnnouncementBatch {
                afi_safi: AfiSafi::new(Afi::Ipv4, Safi::Unicast),
                path: Arc::clone(&path_b),
                keys: vec![RouteKey::Prefix(p2)],
            },
            AnnouncementBatch {
                afi_safi: AfiSafi::new(Afi::Ipv4, Safi::Unicast),
                path: Arc::clone(&path_a),
                keys: vec![RouteKey::Prefix(p1), RouteKey::Prefix(p3)],
            },
        ]
    );
}

#[test]
fn test_as_set_preservation_ebgp() {
    // Route with AS_SET should be preserved when exporting to eBGP
    let path_with_as_set = make_path(
        RouteSource::Ebgp {
            peer_ip: test_ip(1),
            bgp_id: test_bgp_id(1),
        },
        vec![
            AsPathSegment {
                segment_type: AsPathSegmentType::AsSequence,
                segment_len: 2,
                asn_list: vec![65001, 65002],
            },
            AsPathSegment {
                segment_type: AsPathSegmentType::AsSet,
                segment_len: 3,
                asn_list: vec![65003, 65004, 65005],
            },
        ],
        NextHopAddr::Ipv4(Ipv4Addr::new(192, 168, 1, 1)),
    );

    // Export to eBGP peer should prepend local ASN and preserve AS_SET
    let ctx = make_peer_export_ctx(65000, 65100, false, false, false);
    let result = build_export_as_path(&path_with_as_set, &ctx);
    assert_eq!(result.len(), 2);
    assert_eq!(result[0].segment_type, AsPathSegmentType::AsSequence);
    assert_eq!(result[0].asn_list, vec![65000, 65001, 65002]);
    assert_eq!(result[1].segment_type, AsPathSegmentType::AsSet);
    assert_eq!(result[1].asn_list, vec![65003, 65004, 65005]);
}

#[test]
fn test_as_set_first_segment_ebgp() {
    // Route starting with AS_SET should create new AS_SEQUENCE for local ASN
    let path_starting_with_as_set = make_path(
        RouteSource::Ebgp {
            peer_ip: test_ip(1),
            bgp_id: test_bgp_id(1),
        },
        vec![
            AsPathSegment {
                segment_type: AsPathSegmentType::AsSet,
                segment_len: 2,
                asn_list: vec![65001, 65002],
            },
            AsPathSegment {
                segment_type: AsPathSegmentType::AsSequence,
                segment_len: 1,
                asn_list: vec![65003],
            },
        ],
        NextHopAddr::Ipv4(Ipv4Addr::new(192, 168, 1, 1)),
    );

    // Export to eBGP should create new AS_SEQUENCE segment for local ASN
    let ctx = make_peer_export_ctx(65000, 65100, false, false, false);
    let result = build_export_as_path(&path_starting_with_as_set, &ctx);
    assert_eq!(result.len(), 3);
    assert_eq!(result[0].segment_type, AsPathSegmentType::AsSequence);
    assert_eq!(result[0].asn_list, vec![65000]);
    assert_eq!(result[1].segment_type, AsPathSegmentType::AsSet);
    assert_eq!(result[1].asn_list, vec![65001, 65002]);
    assert_eq!(result[2].segment_type, AsPathSegmentType::AsSequence);
    assert_eq!(result[2].asn_list, vec![65003]);
}

#[test]
fn test_as_set_preservation_ibgp() {
    // Route with AS_SET should be preserved unchanged when exporting to iBGP
    let path_with_as_set = make_path(
        RouteSource::Ebgp {
            peer_ip: test_ip(1),
            bgp_id: test_bgp_id(1),
        },
        vec![
            AsPathSegment {
                segment_type: AsPathSegmentType::AsSequence,
                segment_len: 2,
                asn_list: vec![65001, 65002],
            },
            AsPathSegment {
                segment_type: AsPathSegmentType::AsSet,
                segment_len: 3,
                asn_list: vec![65003, 65004, 65005],
            },
        ],
        NextHopAddr::Ipv4(Ipv4Addr::new(192, 168, 1, 1)),
    );

    // Export to iBGP peer should preserve AS_PATH unchanged
    let ctx = make_peer_export_ctx(65000, 65000, false, false, false);
    let result = build_export_as_path(&path_with_as_set, &ctx);
    assert_eq!(result.len(), 2);
    assert_eq!(result[0].segment_type, AsPathSegmentType::AsSequence);
    assert_eq!(result[0].asn_list, vec![65001, 65002]);
    assert_eq!(result[1].segment_type, AsPathSegmentType::AsSet);
    assert_eq!(result[1].asn_list, vec![65003, 65004, 65005]);
}

#[test]
fn test_build_export_next_hop() {
    let router_id = Ipv4Addr::new(1, 1, 1, 1);
    let prefix = IpNetwork::parse("10.0.0.0/24").unwrap();
    let prefix = RouteKey::Prefix(prefix);

    struct TestCase {
        name: &'static str,
        path_next_hop: NextHopAddr,
        path_source: RouteSource,
        local_asn: u32,
        peer_asn: u32,
        rs_client: bool,
        next_hop_self: bool,
        expected: NextHopAddr,
    }

    let test_cases = vec![
        TestCase {
            name: "iBGP: local route with unspecified NH -> set to local",
            path_next_hop: NextHopAddr::Ipv4(Ipv4Addr::unspecified()),
            path_source: RouteSource::Local,
            local_asn: 65000,
            peer_asn: 65000,
            rs_client: false,
            next_hop_self: false,
            expected: NextHopAddr::Ipv4(router_id),
        },
        TestCase {
            name: "iBGP: local route with explicit NH -> preserve",
            path_next_hop: NextHopAddr::Ipv4(Ipv4Addr::new(192, 168, 1, 1)),
            path_source: RouteSource::Local,
            local_asn: 65000,
            peer_asn: 65000,
            rs_client: false,
            next_hop_self: false,
            expected: NextHopAddr::Ipv4(Ipv4Addr::new(192, 168, 1, 1)),
        },
        TestCase {
            name: "iBGP: learned route -> preserve NH",
            path_next_hop: NextHopAddr::Ipv4(Ipv4Addr::new(192, 168, 2, 1)),
            path_source: RouteSource::Ibgp {
                peer_ip: test_ip(1),
                bgp_id: test_bgp_id(1),
                rr_client: false,
            },
            local_asn: 65000,
            peer_asn: 65000,
            rs_client: false,
            next_hop_self: false,
            expected: NextHopAddr::Ipv4(Ipv4Addr::new(192, 168, 2, 1)),
        },
        TestCase {
            name: "eBGP: local route with unspecified NH -> set to local",
            path_next_hop: NextHopAddr::Ipv4(Ipv4Addr::unspecified()),
            path_source: RouteSource::Local,
            local_asn: 65000,
            peer_asn: 65001,
            rs_client: false,
            next_hop_self: false,
            expected: NextHopAddr::Ipv4(router_id),
        },
        TestCase {
            name: "eBGP: local route with explicit NH -> rewrite to local",
            path_next_hop: NextHopAddr::Ipv4(Ipv4Addr::new(192, 168, 1, 1)),
            path_source: RouteSource::Local,
            local_asn: 65000,
            peer_asn: 65001,
            rs_client: false,
            next_hop_self: false,
            expected: NextHopAddr::Ipv4(router_id),
        },
        TestCase {
            name: "eBGP: learned route -> rewrite to local",
            path_next_hop: NextHopAddr::Ipv4(Ipv4Addr::new(192, 168, 3, 1)),
            path_source: RouteSource::Ebgp {
                peer_ip: test_ip(1),
                bgp_id: test_bgp_id(1),
            },
            local_asn: 65000,
            peer_asn: 65001,
            rs_client: false,
            next_hop_self: false,
            expected: NextHopAddr::Ipv4(router_id),
        },
        TestCase {
            name: "RS client: preserve original NH",
            path_next_hop: NextHopAddr::Ipv4(Ipv4Addr::new(192, 168, 3, 1)),
            path_source: RouteSource::Ebgp {
                peer_ip: test_ip(1),
                bgp_id: test_bgp_id(1),
            },
            local_asn: 65000,
            peer_asn: 65001,
            rs_client: true,
            next_hop_self: false,
            expected: NextHopAddr::Ipv4(Ipv4Addr::new(192, 168, 3, 1)),
        },
        TestCase {
            name: "iBGP + next_hop_self: learned route -> rewrite to local",
            path_next_hop: NextHopAddr::Ipv4(Ipv4Addr::new(192, 168, 9, 1)),
            path_source: RouteSource::Ebgp {
                peer_ip: test_ip(1),
                bgp_id: test_bgp_id(1),
            },
            local_asn: 65000,
            peer_asn: 65000,
            rs_client: false,
            next_hop_self: true,
            expected: NextHopAddr::Ipv4(router_id),
        },
        TestCase {
            name: "iBGP + next_hop_self: local route with unspecified NH -> set to local",
            path_next_hop: NextHopAddr::Ipv4(Ipv4Addr::unspecified()),
            path_source: RouteSource::Local,
            local_asn: 65000,
            peer_asn: 65000,
            rs_client: false,
            next_hop_self: true,
            expected: NextHopAddr::Ipv4(router_id),
        },
    ];

    for test_case in test_cases {
        let path = make_path(test_case.path_source, vec![], test_case.path_next_hop);

        let ctx = make_peer_export_ctx(
            test_case.local_asn,
            test_case.peer_asn,
            test_case.rs_client,
            test_case.next_hop_self,
            false,
        );
        let result = build_export_next_hop(&path, &ctx, &prefix);

        assert_eq!(
            result,
            Some(test_case.expected),
            "Test case '{}' failed: expected {:?}, got {:?}",
            test_case.name,
            Some(test_case.expected),
            result
        );
    }
}

#[test]
fn test_build_export_local_pref() {
    let path = Path {
        local_path_id: None,
        remote_path_id: None,
        stale: false,
        rpki_state: RpkiValidation::NotFound,
        attrs: Arc::new(PathAttrs {
            origin: Origin::IGP,
            as_path: vec![],
            next_hop: NextHopAddr::Ipv4(Ipv4Addr::new(192, 168, 1, 1)),
            source: RouteSource::Local,
            local_pref: Some(200),
            med: None,
            atomic_aggregate: false,
            aggregator: None,
            communities: vec![],
            extended_communities: vec![],
            large_communities: vec![],
            unknown_attrs: vec![],
            originator_id: None,
            cluster_list: vec![],
            ls_attr: None,
        }),
    };

    // iBGP: include LOCAL_PREF
    let ctx_ibgp = make_peer_export_ctx(65001, 65001, false, false, false);
    assert_eq!(build_export_local_pref(&path, &ctx_ibgp), Some(200));

    // eBGP: MUST NOT include LOCAL_PREF
    let ctx_ebgp = make_peer_export_ctx(65001, 65002, false, false, false);
    assert_eq!(build_export_local_pref(&path, &ctx_ebgp), None);
}

#[test]
fn test_build_export_med() {
    struct TestCase {
        name: &'static str,
        as_path: Vec<AsPathSegment>,
        source: RouteSource,
        local_asn: u32,
        peer_asn: u32,
        rs_client: bool,
        expected_med: Option<u32>,
    }

    let test_cases = vec![
        // Local routes (empty AS_PATH)
        TestCase {
            name: "local route to iBGP",
            as_path: vec![],
            source: RouteSource::Local,
            local_asn: 65001,
            peer_asn: 65001,
            rs_client: false,
            expected_med: Some(50),
        },
        TestCase {
            name: "local route to eBGP",
            as_path: vec![],
            source: RouteSource::Local,
            local_asn: 65001,
            peer_asn: 65002,
            rs_client: false,
            expected_med: Some(50),
        },
        TestCase {
            name: "local route to RS client",
            as_path: vec![],
            source: RouteSource::Local,
            local_asn: 65001,
            peer_asn: 65002,
            rs_client: true,
            expected_med: Some(50),
        },
        // Local route with non-empty AS_PATH (defensive check for API misuse)
        TestCase {
            name: "local route with non-empty AS_PATH to eBGP",
            as_path: vec![AsPathSegment {
                segment_type: AsPathSegmentType::AsSequence,
                segment_len: 1,
                asn_list: vec![65099], // Different from local_asn
            }],
            source: RouteSource::Local,
            local_asn: 65001,
            peer_asn: 65002,
            rs_client: false,
            expected_med: Some(50), // Should send MED because source=Local
        },
        // Route from our AS
        TestCase {
            name: "route from our AS to iBGP",
            as_path: vec![AsPathSegment {
                segment_type: AsPathSegmentType::AsSequence,
                segment_len: 1,
                asn_list: vec![65001],
            }],
            source: RouteSource::Ibgp {
                peer_ip: test_ip(1),
                bgp_id: test_bgp_id(1),
                rr_client: false,
            },
            local_asn: 65001,
            peer_asn: 65001,
            rs_client: false,
            expected_med: Some(50),
        },
        TestCase {
            name: "route from our AS to eBGP",
            as_path: vec![AsPathSegment {
                segment_type: AsPathSegmentType::AsSequence,
                segment_len: 1,
                asn_list: vec![65001],
            }],
            source: RouteSource::Ibgp {
                peer_ip: test_ip(1),
                bgp_id: test_bgp_id(1),
                rr_client: false,
            },
            local_asn: 65001,
            peer_asn: 65002,
            rs_client: false,
            expected_med: Some(50),
        },
        // Route from external AS (the critical bug case)
        TestCase {
            name: "route from external AS to iBGP",
            as_path: vec![AsPathSegment {
                segment_type: AsPathSegmentType::AsSequence,
                segment_len: 1,
                asn_list: vec![65000],
            }],
            source: RouteSource::Ibgp {
                peer_ip: test_ip(1),
                bgp_id: test_bgp_id(1),
                rr_client: false,
            },
            local_asn: 65001,
            peer_asn: 65001,
            rs_client: false,
            expected_med: Some(50),
        },
        TestCase {
            name: "route from external AS to eBGP (must strip MED)",
            as_path: vec![AsPathSegment {
                segment_type: AsPathSegmentType::AsSequence,
                segment_len: 1,
                asn_list: vec![65000],
            }],
            source: RouteSource::Ibgp {
                peer_ip: test_ip(1),
                bgp_id: test_bgp_id(1),
                rr_client: false,
            },
            local_asn: 65001,
            peer_asn: 65002,
            rs_client: false,
            expected_med: None,
        },
        // AS_SET handling
        TestCase {
            name: "AS_SET as first segment to eBGP (must strip MED)",
            as_path: vec![AsPathSegment {
                segment_type: AsPathSegmentType::AsSet,
                segment_len: 2,
                asn_list: vec![65001, 65003],
            }],
            source: RouteSource::Ibgp {
                peer_ip: test_ip(1),
                bgp_id: test_bgp_id(1),
                rr_client: false,
            },
            local_asn: 65001,
            peer_asn: 65002,
            rs_client: false,
            expected_med: None,
        },
        TestCase {
            name: "AS_SET as first segment to iBGP",
            as_path: vec![AsPathSegment {
                segment_type: AsPathSegmentType::AsSet,
                segment_len: 2,
                asn_list: vec![65001, 65003],
            }],
            source: RouteSource::Ibgp {
                peer_ip: test_ip(1),
                bgp_id: test_bgp_id(1),
                rr_client: false,
            },
            local_asn: 65001,
            peer_asn: 65001,
            rs_client: false,
            expected_med: Some(50),
        },
        // Route server transparency
        TestCase {
            name: "RS client always preserves MED",
            as_path: vec![AsPathSegment {
                segment_type: AsPathSegmentType::AsSequence,
                segment_len: 1,
                asn_list: vec![65000],
            }],
            source: RouteSource::Ebgp {
                peer_ip: test_ip(1),
                bgp_id: test_bgp_id(1),
            },
            local_asn: 65001,
            peer_asn: 65002,
            rs_client: true,
            expected_med: Some(50),
        },
    ];

    for test_case in test_cases {
        let path = Path {
            local_path_id: None,
            remote_path_id: None,
            stale: false,
            rpki_state: RpkiValidation::NotFound,
            attrs: Arc::new(PathAttrs {
                origin: Origin::IGP,
                as_path: test_case.as_path,
                next_hop: NextHopAddr::Ipv4(Ipv4Addr::new(192, 168, 1, 1)),
                source: test_case.source,
                local_pref: Some(100),
                med: Some(50),
                atomic_aggregate: false,
                aggregator: None,
                communities: vec![],
                extended_communities: vec![],
                large_communities: vec![],
                unknown_attrs: vec![],
                originator_id: None,
                cluster_list: vec![],
                ls_attr: None,
            }),
        };

        let ctx = make_peer_export_ctx(
            test_case.local_asn,
            test_case.peer_asn,
            test_case.rs_client,
            false,
            false,
        );
        let result = build_export_med(&path, &ctx);
        assert_eq!(
            result, test_case.expected_med,
            "Test case '{}' failed: expected {:?}, got {:?}",
            test_case.name, test_case.expected_med, result
        );
    }
}

#[test]
fn test_should_filter_by_community_no_advertise() {
    let communities = vec![NO_ADVERTISE, 65001];
    assert!(should_filter_by_community(&communities, 65000, 65001));
    assert!(should_filter_by_community(&communities, 65000, 65000));
}

#[test]
fn test_should_filter_by_community_no_export_ebgp() {
    let communities = vec![NO_EXPORT, 65001];
    assert!(
        should_filter_by_community(&communities, 65000, 65001),
        "NO_EXPORT should filter for eBGP"
    );
    assert!(
        !should_filter_by_community(&communities, 65000, 65000),
        "NO_EXPORT should not filter for iBGP"
    );
}

#[test]
fn test_should_filter_by_community_no_export_subconfed_ebgp() {
    let communities = vec![NO_EXPORT_SUBCONFED];
    assert!(
        should_filter_by_community(&communities, 65000, 65001),
        "NO_EXPORT_SUBCONFED should filter for eBGP"
    );
    assert!(
        !should_filter_by_community(&communities, 65000, 65000),
        "NO_EXPORT_SUBCONFED should not filter for iBGP"
    );
}

#[test]
fn test_should_filter_by_community_regular() {
    let communities = vec![65001, 65002];
    assert!(
        !should_filter_by_community(&communities, 65000, 65001),
        "Regular communities should not filter"
    );
    assert!(
        !should_filter_by_community(&communities, 65000, 65000),
        "Regular communities should not filter"
    );
}

#[test]
fn test_build_export_extended_communities() {
    let transitive = 0x0002FDE800000064u64; // Transitive extended community
    let non_transitive = 0x4002FDE800000064u64; // Non-transitive extended community
    let rpki_valid = from_rpki_state_community(RpkiValidation::VALID);
    let rpki_not_found = from_rpki_state_community(RpkiValidation::NOT_FOUND);

    struct TestCase {
        name: &'static str,
        local_asn: u32,
        peer_asn: u32,
        rs_client: bool,
        send_rpki_community: bool,
        rpki_state: RpkiValidation,
        input_communities: Vec<u64>,
        expected: Vec<u64>,
    }

    let test_cases = vec![
        TestCase {
            name: "eBGP filters non-transitive",
            local_asn: 65000,
            peer_asn: 65001,
            rs_client: false,
            send_rpki_community: false,
            rpki_state: RpkiValidation::NotFound,
            input_communities: vec![transitive, non_transitive],
            expected: vec![transitive],
        },
        TestCase {
            name: "iBGP keeps all",
            local_asn: 65000,
            peer_asn: 65000,
            rs_client: false,
            send_rpki_community: false,
            rpki_state: RpkiValidation::NotFound,
            input_communities: vec![transitive, non_transitive],
            expected: vec![transitive, non_transitive],
        },
        TestCase {
            name: "RS client preserves all (including non-transitive)",
            local_asn: 65000,
            peer_asn: 65001,
            rs_client: true,
            send_rpki_community: false,
            rpki_state: RpkiValidation::NotFound,
            input_communities: vec![transitive, non_transitive],
            expected: vec![transitive, non_transitive],
        },
        TestCase {
            name: "iBGP send_rpki_community attaches RPKI state",
            local_asn: 65000,
            peer_asn: 65000,
            rs_client: false,
            send_rpki_community: true,
            rpki_state: RpkiValidation::Valid,
            input_communities: vec![transitive],
            expected: vec![transitive, rpki_valid],
        },
        TestCase {
            name: "iBGP send_rpki_community replaces existing RPKI state",
            local_asn: 65000,
            peer_asn: 65000,
            rs_client: false,
            send_rpki_community: true,
            rpki_state: RpkiValidation::NotFound,
            input_communities: vec![transitive, rpki_valid],
            expected: vec![transitive, rpki_not_found],
        },
        TestCase {
            name: "eBGP send_rpki_community does not attach (non-transitive)",
            local_asn: 65000,
            peer_asn: 65001,
            rs_client: false,
            send_rpki_community: true,
            rpki_state: RpkiValidation::Valid,
            input_communities: vec![transitive],
            expected: vec![transitive],
        },
    ];

    for test_case in test_cases {
        let path = Path {
            local_path_id: None,
            remote_path_id: None,
            stale: false,
            rpki_state: test_case.rpki_state,
            attrs: Arc::new(PathAttrs {
                origin: Origin::IGP,
                as_path: vec![],
                next_hop: NextHopAddr::Ipv4(Ipv4Addr::new(10, 0, 0, 1)),
                source: RouteSource::Local,
                local_pref: None,
                med: None,
                atomic_aggregate: false,
                aggregator: None,
                communities: vec![],
                extended_communities: test_case.input_communities,
                large_communities: vec![],
                unknown_attrs: vec![],
                originator_id: None,
                cluster_list: vec![],
                ls_attr: None,
            }),
        };

        let ctx = make_peer_export_ctx(
            test_case.local_asn,
            test_case.peer_asn,
            test_case.rs_client,
            false,
            test_case.send_rpki_community,
        );
        let result = build_export_extended_communities(&path, &ctx);
        assert_eq!(
            result, test_case.expected,
            "Test case '{}' failed: expected {:?}, got {:?}",
            test_case.name, test_case.expected, result
        );
    }
}

#[test]
fn test_build_export_unknown_attrs() {
    let transitive_attr = PathAttribute::new(
        ATTR_OPTIONAL | ATTR_TRANSITIVE,
        PathAttrValue::Unknown {
            type_code: 200,
            flags: ATTR_OPTIONAL | ATTR_TRANSITIVE,
            data: vec![0xde, 0xad, 0xbe, 0xef],
        },
    );
    let non_transitive_attr = PathAttribute::new(
        ATTR_OPTIONAL,
        PathAttrValue::Unknown {
            type_code: 201,
            flags: ATTR_OPTIONAL,
            data: vec![0xca, 0xfe],
        },
    );

    struct TestCase {
        name: &'static str,
        local_asn: u32,
        peer_asn: u32,
        rs_client: bool,
        expected_count: usize,
    }

    let test_cases = vec![
        TestCase {
            name: "eBGP filters non-transitive unknown attrs",
            local_asn: 65000,
            peer_asn: 65001,
            rs_client: false,
            expected_count: 1, // transitive only
        },
        TestCase {
            name: "iBGP passes all unknown attrs",
            local_asn: 65000,
            peer_asn: 65000,
            rs_client: false,
            expected_count: 2,
        },
        TestCase {
            name: "RS client preserves all unknown attrs",
            local_asn: 65000,
            peer_asn: 65001,
            rs_client: true,
            expected_count: 2,
        },
    ];

    for test_case in test_cases {
        let mut path = make_path(
            RouteSource::Ebgp {
                peer_ip: test_ip(1),
                bgp_id: test_bgp_id(1),
            },
            vec![],
            NextHopAddr::Ipv4(Ipv4Addr::new(10, 0, 0, 1)),
        );
        change(&mut path, |a| {
            a.unknown_attrs = vec![transitive_attr.clone(), non_transitive_attr.clone()]
        });

        let ctx = make_peer_export_ctx(
            test_case.local_asn,
            test_case.peer_asn,
            test_case.rs_client,
            false,
            false,
        );
        let result = build_export_unknown_attrs(&path, &ctx);
        assert_eq!(
            result.len(),
            test_case.expected_count,
            "Test case '{}' failed: expected {} attrs, got {}",
            test_case.name,
            test_case.expected_count,
            result.len()
        );
    }
}

#[test]
fn test_apply_rr_attributes() {
    let cluster_id = Ipv4Addr::new(1, 1, 1, 1);
    let peer_bgp_id = Ipv4Addr::new(2, 2, 2, 2);

    // Sets ORIGINATOR_ID from source when not present
    let mut path = make_path(
        RouteSource::Ibgp {
            peer_ip: test_ip(1),
            bgp_id: peer_bgp_id,
            rr_client: false,
        },
        vec![],
        NextHopAddr::Ipv4(Ipv4Addr::new(10, 0, 0, 1)),
    );
    let negotiated = AfiSafiSet::from_vec(&vec![
        AfiSafi::new(Afi::Ipv4, Safi::Unicast),
        AfiSafi::new(Afi::Ipv6, Safi::Unicast),
    ]);
    let empty_policies = AfiSafiPolicies::new();
    let ctx = PeerExportContext {
        peer_addr: test_ip(2),
        local_asn: 65000,
        peer_asn: 65000,
        local_next_hop: IpAddr::V4(Ipv4Addr::new(1, 1, 1, 1)),
        local_link_local: None,
        export_policies: &empty_policies,
        rr_client: false,
        rs_client: false,
        cluster_id,
        send_format: MessageFormat {
            use_4byte_asn: false,
            add_path: AddPathMask::none(),
            is_ebgp: false,
            enhanced_rr: false,
        },
        negotiated_afi_safis: &negotiated,
        next_hop_self: false,
        graceful_shutdown: false,
        capabilities: &PeerCapabilities::default(),
        send_rpki_community: false,
    };
    let (originator_id, cluster_list) = build_export_rr_attrs(&path, &ctx, true);
    assert_eq!(originator_id, Some(peer_bgp_id));
    assert_eq!(cluster_list, vec![cluster_id]);

    // Preserves existing ORIGINATOR_ID, prepends to CLUSTER_LIST
    let existing_originator = Ipv4Addr::new(3, 3, 3, 3);
    let existing_cluster = Ipv4Addr::new(4, 4, 4, 4);
    change(&mut path, |a| {
        a.originator_id = Some(existing_originator);
        a.cluster_list = vec![existing_cluster];
    });
    let (originator_id, cluster_list) = build_export_rr_attrs(&path, &ctx, true);
    assert_eq!(originator_id, Some(existing_originator));
    assert_eq!(cluster_list, vec![cluster_id, existing_cluster]);
}

#[test]
fn test_select_paths_rs_route_iteration() {
    let prefix = IpNetwork::V4(Ipv4Net {
        address: Ipv4Addr::new(10, 0, 0, 0),
        prefix_length: 24,
    });
    let nh1 = NextHopAddr::Ipv4(Ipv4Addr::new(192, 168, 1, 1));
    let nh2 = NextHopAddr::Ipv4(Ipv4Addr::new(192, 168, 1, 2));

    // path1 (best, bgp_id 1.1.1.1): rejected by policy (sourced from test_ip(2))
    // path2 (second-best, bgp_id 1.1.1.2): accepted
    let path1 = make_path(
        RouteSource::Ebgp {
            peer_ip: test_ip(2),
            bgp_id: test_bgp_id(1),
        },
        vec![as_seq(vec![65001])],
        nh1,
    );

    let path2 = make_path(
        RouteSource::Ebgp {
            peer_ip: test_ip(3),
            bgp_id: test_bgp_id(2),
        },
        vec![as_seq(vec![65002])],
        nh2,
    );

    let loc_rib = LocRib {
        routes: vec![Route {
            key: RouteKey::Prefix(prefix),
            paths: vec![Arc::new(path1), Arc::new(path2)],
        }],
    };
    assert_eq!(loc_rib.get_all_paths(&RouteKey::Prefix(prefix)).len(), 2);

    let policies = vec![Arc::new(
        Policy::new("test".to_string())
            .with(
                Statement::new()
                    .when(Condition::Neighbor(test_ip(2)))
                    .then_do(Action::Reject),
            )
            .with(Statement::new().then_do(Action::Accept)),
    )];
    let export_policies = test_export_policies(policies);
    let rs_ctx = PeerExportContext {
        export_policies: &export_policies,
        ..make_peer_export_ctx(65000, 65003, true, false, false)
    };
    let non_rs_ctx = PeerExportContext {
        export_policies: &export_policies,
        ..make_peer_export_ctx(65000, 65003, false, false, false)
    };

    // RS client iterates to path2 (passes policy)
    let route_key = RouteKey::Prefix(prefix);
    let result = select_paths_for_export(&route_key, false, &loc_rib, &rs_ctx);
    assert_eq!(result.len(), 1);
    assert_eq!(result[0].path.attrs.next_hop, nh2);

    // Non-RS client only checks best path (path1) -> rejected
    let result = select_paths_for_export(&route_key, false, &loc_rib, &non_rs_ctx);
    assert!(result.is_empty());
}

#[test]
fn test_build_export_communities() {
    let make_path = |communities: Vec<u32>| Path {
        local_path_id: None,
        remote_path_id: None,
        stale: false,
        rpki_state: RpkiValidation::NotFound,
        attrs: Arc::new(PathAttrs {
            origin: Origin::IGP,
            as_path: vec![],
            next_hop: NextHopAddr::Ipv4(Ipv4Addr::new(10, 0, 0, 1)),
            source: RouteSource::Local,
            local_pref: None,
            med: None,
            atomic_aggregate: false,
            aggregator: None,
            communities,
            extended_communities: vec![],
            large_communities: vec![],
            unknown_attrs: vec![],
            originator_id: None,
            cluster_list: vec![],
            ls_attr: None,
        }),
    };

    struct TestCase {
        name: &'static str,
        graceful_shutdown: bool,
        input_communities: Vec<u32>,
        expected: Vec<u32>,
    }

    let other_community = 0x00010064u32; // 1:100
    let gshut = GRACEFUL_SHUTDOWN;

    let test_cases = vec![
        TestCase {
            name: "flag off, empty",
            graceful_shutdown: false,
            input_communities: vec![],
            expected: vec![],
        },
        TestCase {
            name: "flag on, empty: GRACEFUL_SHUTDOWN added",
            graceful_shutdown: true,
            input_communities: vec![],
            expected: vec![gshut],
        },
        TestCase {
            name: "flag on, already present: no duplicate",
            graceful_shutdown: true,
            input_communities: vec![gshut],
            expected: vec![gshut],
        },
        TestCase {
            name: "flag off, other community preserved unchanged",
            graceful_shutdown: false,
            input_communities: vec![other_community],
            expected: vec![other_community],
        },
        TestCase {
            name: "flag on, other community: GRACEFUL_SHUTDOWN appended",
            graceful_shutdown: true,
            input_communities: vec![other_community],
            expected: vec![other_community, gshut],
        },
    ];

    for test_case in test_cases {
        let path = make_path(test_case.input_communities);
        let mut ctx = make_peer_export_ctx(65001, 65002, false, false, false);
        ctx.graceful_shutdown = test_case.graceful_shutdown;
        let result = build_export_communities(&path, &ctx);
        assert_eq!(
            result, test_case.expected,
            "Test case '{}' failed",
            test_case.name
        );
    }
}

#[test]
fn test_is_ebgp_is_ibgp() {
    let ebgp_ctx = make_peer_export_ctx(65001, 65002, false, false, false);
    assert!(ebgp_ctx.is_ebgp());
    assert!(!ebgp_ctx.is_ibgp());

    let ibgp_ctx = make_peer_export_ctx(65001, 65001, false, false, false);
    assert!(!ibgp_ctx.is_ebgp());
    assert!(ibgp_ctx.is_ibgp());
}

fn prefix_key(n: u8) -> RouteKey {
    RouteKey::Prefix(IpNetwork::V4(Ipv4Net {
        address: Ipv4Addr::new(10, n, 0, 0),
        prefix_length: 16,
    }))
}

fn accept_all() -> AfiSafiPolicies {
    test_export_policies(vec![Arc::new(Policy::permit_all())])
}

#[test]
fn a_route_without_a_policy_is_not_told() {
    let ctx = make_peer_export_ctx(65000, 65001, false, false, false);
    let routes = vec![RoutePath {
        key: prefix_key(1),
        path: Arc::new(make_path(
            RouteSource::Local,
            vec![],
            NextHopAddr::Ipv4(Ipv4Addr::new(9, 9, 9, 9)),
        )),
    }];
    assert!(compute_routes_for_peer(&routes, &ctx).is_empty());
}

#[test]
fn a_route_of_this_speaker_is_told_with_its_next_hop_and_system() {
    let policies = accept_all();
    let ctx = PeerExportContext {
        export_policies: &policies,
        ..make_peer_export_ctx(65000, 65001, false, false, false)
    };
    let routes = vec![RoutePath {
        key: prefix_key(1),
        path: Arc::new(make_path(
            RouteSource::Local,
            vec![],
            NextHopAddr::Ipv4(Ipv4Addr::new(9, 9, 9, 9)),
        )),
    }];
    assert_eq!(announcements_for_peer(&routes, &ctx, ctx.send_format).len(), 1);
    let (told, messages) = export_all_routes_to_peer(&routes, &ctx, ctx.send_format, &vec![4096]);
    assert_eq!(told.len(), 1);
    let attrs = &told[0].path.attrs;
    assert_eq!(attrs.as_path, vec![as_seq(vec![65000])]);
    assert_eq!(attrs.local_pref, None);
    assert_eq!(
        attrs.next_hop,
        NextHopAddr::Ipv4(Ipv4Addr::new(1, 1, 1, 1))
    );
    assert_eq!(messages.len(), 1);
    assert!(messages[0].is_sendable(4096));
    assert!(!messages[0].is_sendable(4097));
}

#[test]
fn a_route_that_is_gone_is_withdrawn_once() {
    let policies = accept_all();
    let ctx = PeerExportContext {
        export_policies: &policies,
        ..make_peer_export_ctx(65000, 65001, false, false, false)
    };
    let path = Arc::new(Path {
        local_path_id: Some(7),
        ..make_path(
            RouteSource::Local,
            vec![],
            NextHopAddr::Ipv4(Ipv4Addr::new(9, 9, 9, 9)),
        )
    });
    let full = LocRib {
        routes: vec![Route {
            key: prefix_key(1),
            paths: vec![path],
        }],
    };
    let empty = LocRib { routes: vec![] };
    let delta = RouteDelta {
        changed: vec![prefix_key(1)],
        best_changed: vec![prefix_key(1)],
    };
    let mut out = AdjRibOut::new();
    let first = propagate_routes_to_peer(&ctx, &delta, &full, &mut out, &vec![60]);
    assert_eq!(first.len(), 1);
    assert!(matches!(first[0], UpdateMessage::Announce { .. }));
    let second = propagate_routes_to_peer(&ctx, &delta, &empty, &mut out, &vec![30]);
    assert_eq!(second.len(), 1);
    assert!(matches!(second[0], UpdateMessage::Withdraw { .. }));
    let third = propagate_routes_to_peer(&ctx, &delta, &empty, &mut out, &vec![]);
    assert!(third.is_empty());
}

/// The octets of the header and of the AS path, with two octets for a number: no
/// message is shorter.
fn least_size(message: &UpdateMessage) -> usize {
    match message {
        UpdateMessage::Announce { path, .. } => {
            let segments = path.attrs.as_path.iter();
            19 + segments.map(|x| 2 + 2 * x.asn_list.len()).sum::<usize>()
        }
        _ => 19,
    }
}

#[test]
fn test_send_announcements_oversized_message() {
    // RFC 4271 Section 9.2: Messages exceeding MAX_MESSAGE_SIZE must not be sent
    let peer_addr = test_ip(1);
    let policy =
        Arc::new(Policy::new("test".to_string()).with(Statement::new().then_do(Action::Accept)));

    // Create huge AS_PATH to make UPDATE message exceed 4096 bytes
    // Multiple AS_SEQUENCE segments with 255 ASNs each = ~4000 bytes total
    let mut as_path = vec![];
    for seg in 0..10 {
        let mut asn_list = vec![];
        for i in 0..255 {
            asn_list.push(65000 + ((seg * 255 + i) % 536));
        }
        as_path.push(AsPathSegment {
            segment_type: AsPathSegmentType::AsSequence,
            segment_len: 255,
            asn_list,
        });
    }

    let path = make_path(
        RouteSource::Ebgp {
            peer_ip: test_ip(2),
            bgp_id: test_bgp_id(2),
        },
        as_path,
        NextHopAddr::Ipv4(Ipv4Addr::new(192, 168, 1, 1)),
    );

    // Just one prefix, but huge AS_PATH should make UPDATE > 4096 bytes
    let prefix = IpNetwork::V4(Ipv4Net {
        address: Ipv4Addr::new(10, 0, 0, 0),
        prefix_length: 24,
    });
    let routes = vec![RoutePath {
        key: RouteKey::Prefix(prefix),
        path: Arc::new(path),
    }];

    // Send announcements - should skip due to size
    let export_policies = test_export_policies(vec![policy]);
    let ctx = PeerExportContext {
        peer_addr,
        export_policies: &export_policies,
        ..make_peer_export_ctx(65000, 65001, false, false, false)
    };
    let format = MessageFormat {
        use_4byte_asn: false,
        add_path: AddPathMask::none(),
        is_ebgp: false,
        enhanced_rr: false,
    };
    let composed = announcements_for_peer(&routes, &ctx, format);
    assert_eq!(composed.len(), 1);
    let sizes: Vec<usize> = composed.iter().map(least_size).collect();
    assert!(sizes[0] > 4096);
    let (sent, messages) = export_all_routes_to_peer(&routes, &ctx, format, &sizes);

    // Verify no message was sent
    assert!(messages.is_empty(), "Oversized UPDATE should not be sent");
    assert!(sent.is_empty());
}

fn local_route(n: u8, med: u32) -> RoutePath {
    let mut path = make_path(
        RouteSource::Local,
        vec![],
        NextHopAddr::Ipv4(Ipv4Addr::new(9, 9, 9, 9)),
    );
    change(&mut path, |a| a.med = Some(med));
    RoutePath {
        key: prefix_key(n),
        path: Arc::new(path),
    }
}

#[test]
fn only_the_routes_of_sent_messages_are_sent() {
    let policies = accept_all();
    let ctx = PeerExportContext {
        export_policies: &policies,
        ..make_peer_export_ctx(65000, 65000, false, false, false)
    };
    let routes = vec![local_route(1, 1), local_route(2, 2), local_route(3, 1), local_route(4, 2)];
    let composed = announcements_for_peer(&routes, &ctx, ctx.send_format);
    assert_eq!(composed.len(), 2);
    let keys = |sent: &Vec<RoutePath>| -> Vec<RouteKey> {
        sent.iter().map(|r| r.key.clone()).collect()
    };

    let (sent, messages) =
        export_all_routes_to_peer(&routes, &ctx, ctx.send_format, &vec![4096, 4096]);
    assert_eq!(messages.len(), 2);
    assert_eq!(keys(&sent), vec![prefix_key(1), prefix_key(2), prefix_key(3), prefix_key(4)]);

    let (sent, messages) =
        export_all_routes_to_peer(&routes, &ctx, ctx.send_format, &vec![4097, 4096]);
    assert_eq!(messages.len(), 1);
    assert_eq!(keys(&sent), vec![prefix_key(2), prefix_key(4)]);

    // A message without a size was not encoded.
    let (sent, messages) = export_all_routes_to_peer(&routes, &ctx, ctx.send_format, &vec![70]);
    assert_eq!(messages.len(), 1);
    assert_eq!(keys(&sent), vec![prefix_key(1), prefix_key(3)]);

    assert_eq!(keep_sendable(composed, &vec![5000, 5000]).len(), 0);
}

#[test]
fn an_oversized_change_is_not_sent() {
    let policies = accept_all();
    let ctx = PeerExportContext {
        export_policies: &policies,
        ..make_peer_export_ctx(65000, 65001, false, false, false)
    };
    let loc_rib = LocRib {
        routes: vec![Route {
            key: prefix_key(1),
            paths: vec![local_route(1, 1).path],
        }],
    };
    let delta = RouteDelta {
        changed: vec![prefix_key(1)],
        best_changed: vec![prefix_key(1)],
    };
    let mut out = AdjRibOut::new();
    let composed = updates_for_peer(&ctx, &delta, &loc_rib, &out);
    assert_eq!(composed.len(), 1);
    assert!(propagate_routes_to_peer(&ctx, &delta, &loc_rib, &mut out, &vec![4097]).is_empty());
    // Withdrawals are sent whatever their size.
    let empty = LocRib { routes: vec![] };
    let messages = propagate_routes_to_peer(&ctx, &delta, &empty, &mut out, &vec![4097]);
    assert_eq!(messages.len(), 1);
    assert!(matches!(messages[0], UpdateMessage::Withdraw { .. }));
}

#[test]
fn masks_with_the_same_families_are_equal() {
    let v4 = AfiSafi::new(Afi::Ipv4, Safi::Unicast);
    let ls = AfiSafi::new(Afi::LinkState, Safi::LinkStateVpn);
    let a = AddPathMask::none().with(&v4).with(&ls);
    let b = AddPathMask::none().with(&ls).with(&v4).with(&ls);
    assert_eq!(a, b);
    assert_ne!(a, AddPathMask::none().with(&v4));
}

#[test]
fn a_copy_of_a_batch_is_the_same_batch() {
    let routes = vec![local_route(1, 1), local_route(2, 1)];
    let batches = batch_announcements(&routes);
    assert_eq!(batches.len(), 1);
    assert_eq!(batches[0].keys.len(), 2);
    assert_eq!(batches[0].clone(), batches[0]);
}
