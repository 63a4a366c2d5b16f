//! Defined sets, statements and policies.

use bgpgg::bgp::bgpls::{
    LsDescriptors, LsNlri, LsNlriBody, LsNlriType, LsProtocolId, NodeDescriptor,
};
use bgpgg::bgp::community::LargeCommunity;
use bgpgg::bgp::msg_update::{AsPathSegment, AsPathSegmentType, NextHopAddr, Origin};
use bgpgg::conf::{
    ActionsConfig, AsPathSetConfig, BgpConfig, CommunityActionConfig, CommunitySetConfig,
    ConditionsConfig, DefinedSetsConfig, LocalPrefActionConfig, MatchOptionConfig,
    MatchSetRefConfig, MedActionConfig, NeighborSetConfig, PolicyDefinitionConfig,
    PrefixMatchConfig, PrefixSetConfig, RpkiValidationConfig, StatementConfig,
};
use bgpgg::net::{IpAddr, IpNetwork, Ipv4Addr, Ipv4Net};
use bgpgg::policy::action::{Action, CommunityOp, LargeCommunityOp};
use bgpgg::policy::condition::{
    matched_by, AfiSafiMatch, Condition, LsNlriTypeMatch, LsProtocolIdMatch,
};
use bgpgg::policy::from_config::{build_statement, parse_community_value};
use bgpgg::policy::pattern::AsPathPattern;
use bgpgg::policy::sets::{
    parse_community, parse_masklength_range, pattern_refusal, PrefixMatch,
};
use bgpgg::policy::{DefinedSetType, DefinedSets, Policy, PolicyContext, PolicyResult, Statement};
use bgpgg::rib::{Path, PathAttrs, RouteKey, RouteSource};
use bgpgg::rpki::RpkiValidation;
use std::sync::Arc;

fn create_path(source: RouteSource) -> Path {
    Path {
        local_path_id: None,
        remote_path_id: None,
        stale: false,
        rpki_state: RpkiValidation::NotFound,
        attrs: Arc::new(PathAttrs {
            origin: Origin::IGP,
            as_path: vec![],
            next_hop: NextHopAddr::Ipv4(Ipv4Addr::new(10, 0, 0, 1)),
            source,
            local_pref: None,
            med: None,
            atomic_aggregate: false,
            aggregator: None,
            communities: vec![],
            extended_communities: vec![],
            large_communities: vec![],
            unknown_attrs: vec![],
            originator_id: None,
            cluster_list: vec![],
            ls_attr: None,
        }),
    }
}

fn change(path: &mut Path, f: impl Fn(&mut PathAttrs)) {
    let mut attrs = (*path.attrs).clone();
    f(&mut attrs);
    path.set_attrs(attrs);
}

fn test_prefix() -> IpNetwork {
    IpNetwork::V4(Ipv4Net {
        address: Ipv4Addr::new(10, 0, 0, 0),
        prefix_length: 24,
    })
}

fn test_ip(last: u8) -> IpAddr {
    IpAddr::V4(Ipv4Addr::new(10, 0, 0, last))
}

fn prefix_key(prefix: IpNetwork) -> RouteKey {
    RouteKey::Prefix(prefix)
}

fn test_prefix_key() -> RouteKey {
    prefix_key(test_prefix())
}

fn make_ls_route_key(
    nlri_type: LsNlriType,
    protocol_id: u8,
    identifier: u64,
    as_number: Option<u32>,
    igp_router_id: Option<Vec<u8>>,
) -> RouteKey {
    RouteKey::LinkState(Box::new(LsNlri {
        nlri_type: nlri_type.code(),
        raw: vec![],
        body: Some(LsNlriBody {
            protocol_id,
            identifier,
            descriptors: LsDescriptors::Node {
                local_node: NodeDescriptor {
                    as_number,
                    igp_router_id,
                    ..Default::default()
                },
            },
        }),
        route_distinguisher: None,
    }))
}

fn ebgp_path() -> Path {
    create_path(RouteSource::Ebgp {
        peer_ip: test_ip(1),
        bgp_id: Ipv4Addr::new(1, 1, 1, 1),
    })
}

#[test]
fn test_parse_community() {
    // Decimal format
    assert_eq!(parse_community("65536").unwrap(), 65536);

    // AS:NN format
    assert_eq!(parse_community("65000:100").unwrap(), (65000 << 16) | 100);

    // Invalid formats
    assert!(parse_community("invalid").is_err());
    assert!(parse_community("65000:").is_err());
    assert!(parse_community(":100").is_err());
}

#[test]
fn test_parse_masklength_range_exact() {
    let (min, max) = parse_masklength_range("exact", 24, 32).unwrap();
    assert_eq!(min, 24);
    assert_eq!(max, 24);
}

#[test]
fn test_parse_masklength_range_explicit() {
    let (min, max) = parse_masklength_range("16..24", 8, 32).unwrap();
    assert_eq!(min, 16);
    assert_eq!(max, 24);
}

#[test]
fn test_parse_masklength_range_le() {
    let (min, max) = parse_masklength_range("..24", 16, 32).unwrap();
    assert_eq!(min, 16);
    assert_eq!(max, 24);
}

#[test]
fn test_parse_masklength_range_ge() {
    let (min, max) = parse_masklength_range("16..", 8, 32).unwrap();
    assert_eq!(min, 16);
    assert_eq!(max, 32);
}

#[test]
fn test_prefix_match_contains() {
    let compiled = PrefixMatch {
        network: IpNetwork::V4(Ipv4Net {
            address: Ipv4Addr::new(10, 0, 0, 0),
            prefix_length: 8,
        }),
        min_len: 16,
        max_len: 24,
    };

    // Within range
    let prefix16 = IpNetwork::V4(Ipv4Net {
        address: Ipv4Addr::new(10, 1, 0, 0),
        prefix_length: 16,
    });
    assert!(compiled.contains(&prefix16));

    let prefix24 = IpNetwork::V4(Ipv4Net {
        address: Ipv4Addr::new(10, 1, 1, 0),
        prefix_length: 24,
    });
    assert!(compiled.contains(&prefix24));

    // Too short
    let prefix8 = IpNetwork::V4(Ipv4Net {
        address: Ipv4Addr::new(10, 0, 0, 0),
        prefix_length: 8,
    });
    assert!(!compiled.contains(&prefix8));

    // Too long
    let prefix32 = IpNetwork::V4(Ipv4Net {
        address: Ipv4Addr::new(10, 1, 1, 1),
        prefix_length: 32,
    });
    assert!(!compiled.contains(&prefix32));

    // Outside network
    let outside = IpNetwork::V4(Ipv4Net {
        address: Ipv4Addr::new(192, 168, 0, 0),
        prefix_length: 16,
    });
    assert!(!compiled.contains(&outside));
}

#[test]
fn test_compile_defined_sets() {
    let config = DefinedSetsConfig {
        prefix_sets: vec![PrefixSetConfig {
            name: "test-set".to_string(),
            prefixes: vec![PrefixMatchConfig {
                prefix: "10.0.0.0/8".to_string(),
                masklength_range: Some("16..24".to_string()),
            }],
        }],
        neighbor_sets: vec![NeighborSetConfig {
            name: "test-neighbors".to_string(),
            neighbors: vec!["10.0.0.1".to_string()],
        }],
        as_path_sets: vec![AsPathSetConfig {
            name: "test-as-path".to_string(),
            patterns: vec!["_65001$".to_string()],
        }],
        community_sets: vec![CommunitySetConfig {
            name: "test-community".to_string(),
            communities: vec!["65000:100".to_string()],
        }],
        ext_community_sets: vec![],
        large_community_sets: vec![],
    };

    let sets = DefinedSets::new(&config).unwrap();

    assert!(sets.prefix_sets.contains_key("test-set"));
    assert!(sets.neighbor_sets.contains_key("test-neighbors"));
    assert!(sets.as_path_sets.contains_key("test-as-path"));
    assert!(sets.community_sets.contains_key("test-community"));
}

#[test]
fn test_statement_no_conditions() {
    let statement = Statement::new().then_do(Action::SetLocalPref {
        value: 100,
        force: false,
    });
    let mut path = create_path(RouteSource::Ebgp {
        peer_ip: test_ip(1),
        bgp_id: Ipv4Addr::new(1, 1, 1, 1),
    });
    assert_eq!(statement.apply(&test_prefix_key(), &mut path), Some(true));
    assert_eq!(path.local_pref(), Some(100));
}

#[test]
fn test_statement_condition() {
    let prefix = test_prefix();
    let other_prefix = IpNetwork::V4(Ipv4Net {
        address: Ipv4Addr::new(192, 168, 1, 0),
        prefix_length: 24,
    });
    let statement =
        Statement::new()
            .when(Condition::Prefix(prefix))
            .then_do(Action::SetLocalPref {
                value: 200,
                force: false,
            });
    let mut path = create_path(RouteSource::Ebgp {
        peer_ip: test_ip(1),
        bgp_id: Ipv4Addr::new(1, 1, 1, 1),
    });

    assert_eq!(statement.apply(&prefix_key(prefix), &mut path), Some(true));
    assert_eq!(path.local_pref(), Some(200));

    change(&mut path, |a| a.local_pref = None);
    assert_eq!(statement.apply(&prefix_key(other_prefix), &mut path), None);
    assert_eq!(path.local_pref(), None);

    // Prefix conditions ignore LS routes
    let ls_key = make_ls_route_key(LsNlriType::Node, 4, 0, None, None);
    assert_eq!(statement.apply(&ls_key, &mut path), None);
}

#[test]
fn test_statement_multiple_conditions() {
    let prefix = test_prefix();
    let statement = Statement::new()
        .when(Condition::Prefix(prefix))
        .when(Condition::Neighbor(test_ip(1)))
        .then_do(Action::SetLocalPref {
            value: 200,
            force: false,
        });

    let mut path1 = create_path(RouteSource::Ebgp {
        peer_ip: test_ip(1),
        bgp_id: Ipv4Addr::new(1, 1, 1, 1),
    });
    assert_eq!(statement.apply(&prefix_key(prefix), &mut path1), Some(true));
    assert_eq!(path1.local_pref(), Some(200));

    let mut path2 = create_path(RouteSource::Ebgp {
        peer_ip: test_ip(2),
        bgp_id: Ipv4Addr::new(2, 2, 2, 2),
    });
    assert_eq!(statement.apply(&prefix_key(prefix), &mut path2), None);
    assert_eq!(path2.local_pref(), None);
}

#[test]
fn test_statement_multiple_actions() {
    let statement = Statement::new()
        .then_do(Action::SetLocalPref {
            value: 200,
            force: false,
        })
        .then_do(Action::SetMed(None));
    let mut path = create_path(RouteSource::Ebgp {
        peer_ip: test_ip(1),
        bgp_id: Ipv4Addr::new(1, 1, 1, 1),
    });
    change(&mut path, |a| a.med = Some(100));
    assert_eq!(statement.apply(&test_prefix_key(), &mut path), Some(true));
    assert_eq!(path.local_pref(), Some(200));
    assert_eq!(path.med(), None);
}

#[test]
fn test_statement_reject() {
    let statement = Statement::new().then_do(Action::Reject);
    let mut path = create_path(RouteSource::Ebgp {
        peer_ip: test_ip(1),
        bgp_id: Ipv4Addr::new(1, 1, 1, 1),
    });
    assert_eq!(statement.apply(&test_prefix_key(), &mut path), Some(false));
}

#[test]
fn test_policy_accept_all() {
    let policy = Policy::new("test".to_string()).with(Statement::new().then_do(Action::Accept));
    let mut path = create_path(RouteSource::Ebgp {
        peer_ip: test_ip(1),
        bgp_id: Ipv4Addr::new(1, 1, 1, 1),
    });
    assert!(policy.accept(&test_prefix_key(), &mut path));
}

#[test]
fn test_policy_empty_rejects() {
    let policy = Policy::new("test".to_string());
    let mut path = create_path(RouteSource::Ebgp {
        peer_ip: test_ip(1),
        bgp_id: Ipv4Addr::new(1, 1, 1, 1),
    });
    assert!(!policy.accept(&test_prefix_key(), &mut path));
}

#[test]
fn test_policy_statement_ordering() {
    let prefix = test_prefix();
    let other_prefix = IpNetwork::V4(Ipv4Net {
        address: Ipv4Addr::new(192, 168, 1, 0),
        prefix_length: 24,
    });
    let policy = Policy::new("test".to_string())
        .with(
            Statement::new()
                .when(Condition::Prefix(prefix))
                .then_do(Action::SetLocalPref {
                    value: 200,
                    force: false,
                }),
        )
        .with(Statement::new().then_do(Action::SetLocalPref {
            value: 100,
            force: false,
        }));

    let mut path1 = create_path(RouteSource::Ebgp {
        peer_ip: test_ip(1),
        bgp_id: Ipv4Addr::new(1, 1, 1, 1),
    });
    assert!(policy.accept(&prefix_key(prefix), &mut path1));
    assert_eq!(path1.local_pref(), Some(200));

    let mut path2 = create_path(RouteSource::Ebgp {
        peer_ip: test_ip(1),
        bgp_id: Ipv4Addr::new(1, 1, 1, 1),
    });
    assert!(policy.accept(&prefix_key(other_prefix), &mut path2));
    assert_eq!(path2.local_pref(), Some(100));
}

#[test]
fn test_parse_community_value() {
    // Decimal format
    assert_eq!(parse_community_value("65536").unwrap(), 65536);

    // AS:NN format
    assert_eq!(
        parse_community_value("65000:100").unwrap(),
        (65000 << 16) | 100
    );

    // Invalid formats
    assert!(parse_community_value("invalid").is_err());
    assert!(parse_community_value("65000:").is_err());
    assert!(parse_community_value(":100").is_err());
}

#[test]
fn test_policy_from_config() {
    let defined_sets = DefinedSets::default();

    let policy_def = PolicyDefinitionConfig {
        name: "test-policy".to_string(),
        statements: vec![
            StatementConfig {
                name: Some("stmt1".to_string()),
                conditions: ConditionsConfig {
                    prefix: Some("10.0.0.0/8".to_string()),
                    ..Default::default()
                },
                actions: ActionsConfig {
                    local_pref: Some(LocalPrefActionConfig::Value(200)),
                    accept: Some(true),
                    ..Default::default()
                },
            },
            StatementConfig {
                name: Some("stmt2".to_string()),
                conditions: ConditionsConfig {
                    prefix: Some("192.168.0.0/16".to_string()),
                    ..Default::default()
                },
                actions: ActionsConfig {
                    reject: Some(true),
                    ..Default::default()
                },
            },
        ],
    };

    // Parse from config
    let actual = Policy::from_config(&policy_def, &defined_sets).unwrap();

    // Build expected policy manually
    let expected = Policy::new("test-policy".to_string())
        .with(
            Statement::new()
                .when(Condition::Prefix(IpNetwork::parse("10.0.0.0/8").unwrap()))
                .then_do(Action::SetLocalPref {
                    value: 200,
                    force: false,
                })
                .then_do(Action::Accept),
        )
        .with(
            Statement::new()
                .when(Condition::Prefix(IpNetwork::parse("192.168.0.0/16").unwrap()))
                .then_do(Action::Reject),
        );

    // Now we can directly compare policies!
    assert_eq!(actual, expected);
}

#[test]
fn test_afi_safi_condition() {
    let mut path = create_path(RouteSource::Local);
    let ipv4_key = test_prefix_key();
    let ls_key = make_ls_route_key(LsNlriType::Node, 4, 0, Some(65001), None);

    let cases = vec![
        // (condition, route_key, expected)
        (AfiSafiMatch::Ipv4Unicast, &ipv4_key, true),
        (AfiSafiMatch::BgpLs, &ipv4_key, false),
        (AfiSafiMatch::BgpLs, &ls_key, true),
        (AfiSafiMatch::Ipv4Unicast, &ls_key, false),
        (AfiSafiMatch::Ipv6Unicast, &ipv4_key, false),
        (AfiSafiMatch::Ipv6Unicast, &ls_key, false),
    ];
    for (afi_safi_match, route_key, expected) in cases {
        let cond = Condition::AfiSafi(afi_safi_match);
        assert_eq!(
            cond.matches(route_key, &path),
            expected,
            "AfiSafi({:?}) vs {:?}",
            afi_safi_match,
            route_key.afi_safi()
        );
    }

    // Verify it works in a statement (accept BGP-LS, reject everything else)
    let policy = Policy::new("test".to_string())
        .with(
            Statement::new()
                .when(Condition::AfiSafi(AfiSafiMatch::BgpLs))
                .then_do(Action::Accept),
        )
        .with(Statement::new().then_do(Action::Reject));

    assert!(policy.accept(&ls_key, &mut path));
    assert!(!policy.accept(&ipv4_key, &mut path));
}

#[test]
fn test_ls_nlri_type_condition() {
    let path = create_path(RouteSource::Local);
    let cases = vec![
        (LsNlriTypeMatch::Node, LsNlriType::Node, true),
        (LsNlriTypeMatch::Node, LsNlriType::Link, false),
        (LsNlriTypeMatch::Link, LsNlriType::Link, true),
        (LsNlriTypeMatch::PrefixV4, LsNlriType::PrefixV4, true),
        (LsNlriTypeMatch::PrefixV6, LsNlriType::PrefixV6, true),
        (LsNlriTypeMatch::PrefixV4, LsNlriType::PrefixV6, false),
    ];
    for (match_type, nlri_type, expected) in cases {
        let key = make_ls_route_key(nlri_type, 4, 0, None, None);
        let cond = Condition::LsNlriType(match_type);
        assert_eq!(
            cond.matches(&key, &path),
            expected,
            "LsNlriType({:?}) vs {:?}",
            match_type,
            nlri_type
        );
    }

    // Prefix routes never match
    assert!(!Condition::LsNlriType(LsNlriTypeMatch::Node).matches(&test_prefix_key(), &path));

    // No body (opaque NLRI) — nlri_type is always available
    let opaque_key = RouteKey::LinkState(Box::new(LsNlri {
        nlri_type: 1,
        raw: vec![],
        body: None,
        route_distinguisher: None,
    }));
    assert!(Condition::LsNlriType(LsNlriTypeMatch::Node).matches(&opaque_key, &path));
}

#[test]
fn test_ls_protocol_id_condition() {
    let path = create_path(RouteSource::Local);
    let cases = vec![
        (LsProtocolIdMatch::Direct, LsProtocolId::Direct.code(), true),
        (LsProtocolIdMatch::Static, LsProtocolId::Static.code(), true),
        (LsProtocolIdMatch::OspfV2, LsProtocolId::OspfV2.code(), true),
        (LsProtocolIdMatch::OspfV3, LsProtocolId::OspfV3.code(), true),
        (LsProtocolIdMatch::IsIsL1, LsProtocolId::IsIsL1.code(), true),
        (LsProtocolIdMatch::IsIsL2, LsProtocolId::IsIsL2.code(), true),
        (LsProtocolIdMatch::Direct, LsProtocolId::Static.code(), false),
        (LsProtocolIdMatch::OspfV2, LsProtocolId::OspfV3.code(), false),
    ];
    for (match_proto, proto_id, expected) in cases {
        let key = make_ls_route_key(LsNlriType::Node, proto_id, 0, None, None);
        let cond = Condition::LsProtocolId(match_proto);
        assert_eq!(
            cond.matches(&key, &path),
            expected,
            "LsProtocolId({:?}) vs proto_id={}",
            match_proto,
            proto_id
        );
    }

    // No body -> false
    let opaque = RouteKey::LinkState(Box::new(LsNlri {
        nlri_type: 1,
        raw: vec![],
        body: None,
        route_distinguisher: None,
    }));
    assert!(!Condition::LsProtocolId(LsProtocolIdMatch::Direct).matches(&opaque, &path));
}

#[test]
fn test_ls_instance_id_condition() {
    let path = create_path(RouteSource::Local);
    let key = make_ls_route_key(LsNlriType::Node, 4, 42, None, None);

    assert!(Condition::LsInstanceId(42).matches(&key, &path));
    assert!(!Condition::LsInstanceId(99).matches(&key, &path));
    assert!(!Condition::LsInstanceId(42).matches(&test_prefix_key(), &path));

    // No body -> false
    let opaque = RouteKey::LinkState(Box::new(LsNlri {
        nlri_type: 1,
        raw: vec![],
        body: None,
        route_distinguisher: None,
    }));
    assert!(!Condition::LsInstanceId(42).matches(&opaque, &path));
}

#[test]
fn test_ls_node_as_condition() {
    let path = create_path(RouteSource::Local);
    let key = make_ls_route_key(LsNlriType::Node, 4, 0, Some(65001), None);

    assert!(Condition::LsNodeAs(65001).matches(&key, &path));
    assert!(!Condition::LsNodeAs(65002).matches(&key, &path));

    // No AS number set
    let key_no_as = make_ls_route_key(LsNlriType::Node, 4, 0, None, None);
    assert!(!Condition::LsNodeAs(65001).matches(&key_no_as, &path));

    // Prefix routes never match
    assert!(!Condition::LsNodeAs(65001).matches(&test_prefix_key(), &path));

    // No body -> false
    let opaque = RouteKey::LinkState(Box::new(LsNlri {
        nlri_type: 1,
        raw: vec![],
        body: None,
        route_distinguisher: None,
    }));
    assert!(!Condition::LsNodeAs(65001).matches(&opaque, &path));
}

#[test]
fn test_ls_node_router_id_condition() {
    let path = create_path(RouteSource::Local);
    let router_id = Ipv4Addr::new(10, 0, 0, 1);
    let key = make_ls_route_key(
        LsNlriType::Node,
        4,
        0,
        None,
        Some(router_id.octets().to_vec()),
    );

    // Match
    assert!(Condition::LsNodeRouterId(IpAddr::V4(router_id)).matches(&key, &path));
    // Mismatch
    assert!(
        !Condition::LsNodeRouterId(IpAddr::V4(Ipv4Addr::new(10, 0, 0, 2))).matches(&key, &path)
    );
    // No router ID set
    let key_no_rid = make_ls_route_key(LsNlriType::Node, 4, 0, None, None);
    assert!(!Condition::LsNodeRouterId(IpAddr::V4(router_id)).matches(&key_no_rid, &path));
    // Prefix routes never match
    assert!(
        !Condition::LsNodeRouterId(IpAddr::V4(router_id)).matches(&test_prefix_key(), &path)
    );

    // No body -> false
    let opaque = RouteKey::LinkState(Box::new(LsNlri {
        nlri_type: 1,
        raw: vec![],
        body: None,
        route_distinguisher: None,
    }));
    assert!(!Condition::LsNodeRouterId(IpAddr::V4(router_id)).matches(&opaque, &path));
}

#[test]
fn test_combined_ls_conditions() {
    let mut path = create_path(RouteSource::Local);
    let key = make_ls_route_key(LsNlriType::Node, 4, 0, Some(65001), None);

    let policy = Policy::new("test".to_string()).with(
        Statement::new()
            .when(Condition::AfiSafi(AfiSafiMatch::BgpLs))
            .when(Condition::LsNlriType(LsNlriTypeMatch::Node))
            .when(Condition::LsNodeAs(65001))
            .then_do(Action::Accept),
    );

    // All three conditions match
    assert!(policy.accept(&key, &mut path));

    // Wrong NLRI type -> no match -> reject
    let link_key = make_ls_route_key(LsNlriType::Link, 4, 0, Some(65001), None);
    assert!(!policy.accept(&link_key, &mut path));

    // Wrong AS -> no match -> reject
    let wrong_as_key = make_ls_route_key(LsNlriType::Node, 4, 0, Some(65002), None);
    assert!(!policy.accept(&wrong_as_key, &mut path));
}

#[test]
fn test_ls_condition_config() {
    let defined_sets = DefinedSets::default();

    // Valid config roundtrips correctly
    let config = StatementConfig {
        name: None,
        conditions: ConditionsConfig {
            afi_safi: Some("bgp-ls".to_string()),
            ls_nlri_type: Some("node".to_string()),
            ls_protocol_id: Some("direct".to_string()),
            ls_instance_id: Some(42),
            ls_node_as: Some(65001),
            ls_node_router_id: Some("10.0.0.1".to_string()),
            ..Default::default()
        },
        actions: ActionsConfig {
            accept: Some(true),
            ..Default::default()
        },
    };
    let statement = build_statement(&config, &defined_sets).unwrap();
    let roundtripped = statement.to_config();
    assert_eq!(roundtripped.conditions.afi_safi, Some("bgp-ls".to_string()));
    assert_eq!(
        roundtripped.conditions.ls_nlri_type,
        Some("node".to_string())
    );
    assert_eq!(
        roundtripped.conditions.ls_protocol_id,
        Some("direct".to_string())
    );
    assert_eq!(roundtripped.conditions.ls_instance_id, Some(42));
    assert_eq!(roundtripped.conditions.ls_node_as, Some(65001));
    assert_eq!(
        roundtripped.conditions.ls_node_router_id,
        Some("10.0.0.1".to_string())
    );

    // Invalid values rejected
    let invalid_cases = vec![
        (
            "afi_safi",
            ConditionsConfig {
                afi_safi: Some("invalid".to_string()),
                ..Default::default()
            },
        ),
        (
            "ls_nlri_type",
            ConditionsConfig {
                ls_nlri_type: Some("invalid".to_string()),
                ..Default::default()
            },
        ),
        (
            "ls_protocol_id",
            ConditionsConfig {
                ls_protocol_id: Some("invalid".to_string()),
                ..Default::default()
            },
        ),
        (
            "ls_node_router_id",
            ConditionsConfig {
                ls_node_router_id: Some("not-an-ip".to_string()),
                ..Default::default()
            },
        ),
    ];
    for (field, conditions) in invalid_cases {
        let config = StatementConfig {
            name: None,
            conditions,
            actions: ActionsConfig {
                accept: Some(true),
                ..Default::default()
            },
        };
        assert!(
            build_statement(&config, &defined_sets).is_err(),
            "expected error for invalid {}",
            field
        );
    }
}

#[test]
fn ranges_of_lengths_that_leave_the_limits_are_refused() {
    assert_eq!(
        parse_masklength_range("4..24", 8, 32),
        Err("min length 4 < prefix length 8".to_string())
    );
    assert_eq!(
        parse_masklength_range("8..33", 8, 32),
        Err("max length 33 > max allowed 32".to_string())
    );
    assert_eq!(
        parse_masklength_range("x", 8, 32),
        Err("invalid masklength range format 'x'".to_string())
    );
}

#[test]
fn the_name_of_a_kind_of_sets_is_parsed_as_that_kind() {
    for t in [
        DefinedSetType::PrefixSet,
        DefinedSetType::AsPathSet,
        DefinedSetType::CommunitySet,
        DefinedSetType::ExtCommunitySet,
        DefinedSetType::LargeCommunitySet,
        DefinedSetType::NeighborSet,
    ] {
        assert_eq!(DefinedSetType::parse(t.as_str()), Ok(t));
    }
    assert_eq!(
        DefinedSetType::parse("sets"),
        Err("invalid set type: sets".to_string())
    );
}

#[test]
fn a_pattern_finds_what_it_describes_and_keeps_its_text() {
    let p = AsPathPattern::new("^65001 ").unwrap();
    assert!(p.is_match("65001 65002"));
    assert!(!p.is_match("65002 65001"));
    assert_eq!(p.as_str(), "^65001 ");
}

#[test]
fn a_pattern_that_is_none_is_refused_with_a_reason() {
    let e = AsPathPattern::new("(").unwrap_err();
    assert!(!e.is_empty());
    assert_ne!(e, "(");
}

#[test]
fn a_set_of_patterns_is_matched_against_the_numbers_of_a_path() {
    let config = DefinedSetsConfig {
        prefix_sets: vec![],
        neighbor_sets: vec![],
        as_path_sets: vec![AsPathSetConfig {
            name: "first".to_string(),
            patterns: vec!["^65001_".to_string(), "65003$".to_string()],
        }],
        community_sets: vec![],
        ext_community_sets: vec![],
        large_community_sets: vec![],
    };
    let sets = DefinedSets::new(&config).unwrap();
    let mut path = ebgp_path();
    change(&mut path, |a| {
        a.as_path = vec![AsPathSegment {
            segment_type: AsPathSegmentType::AsSequence,
            segment_len: 2,
            asn_list: vec![65001, 65002],
        }]
    });
    for (match_option, expected) in [
        (MatchOptionConfig::Any, true),
        (MatchOptionConfig::All, false),
        (MatchOptionConfig::Invert, false),
    ] {
        let config = StatementConfig {
            name: None,
            conditions: ConditionsConfig {
                match_as_path_set: Some(MatchSetRefConfig {
                    set_name: "first".to_string(),
                    match_option,
                }),
                ..Default::default()
            },
            actions: ActionsConfig {
                accept: Some(true),
                ..Default::default()
            },
        };
        let statement = build_statement(&config, &sets).unwrap();
        assert_eq!(
            statement.apply(&test_prefix_key(), &mut path),
            if expected { Some(true) } else { None }
        );
        assert_eq!(statement.to_config(), config);
    }
}

#[test]
fn a_missing_set_is_told_by_its_kind_and_name() {
    let config = StatementConfig {
        name: None,
        conditions: ConditionsConfig {
            match_prefix_set: Some(MatchSetRefConfig {
                set_name: "none".to_string(),
                match_option: MatchOptionConfig::Any,
            }),
            ..Default::default()
        },
        actions: ActionsConfig::default(),
    };
    assert_eq!(
        build_statement(&config, &DefinedSets::default()),
        Err("prefix-set 'none' not found".to_string())
    );
}

#[test]
fn a_statement_is_written_down_as_it_was_configured() {
    let config = StatementConfig {
        name: None,
        conditions: ConditionsConfig {
            prefix: Some("2001:db8::/32".to_string()),
            neighbor: Some("10.0.0.1".to_string()),
            has_asn: Some(7),
            route_type: Some("ibgp".to_string()),
            community: Some("65000:1".to_string()),
            rpki_validation: Some(RpkiValidationConfig::Invalid),
            ..Default::default()
        },
        actions: ActionsConfig {
            local_pref: Some(LocalPrefActionConfig::Force {
                value: 5,
                force: true,
            }),
            med: Some(MedActionConfig::Remove { remove: true }),
            community: Some(CommunityActionConfig {
                operation: "replace".to_string(),
                communities: vec!["1:2".to_string(), "3:4".to_string()],
            }),
            set_rpki_state: Some(RpkiValidationConfig::Valid),
            accept: Some(true),
            ..Default::default()
        },
    };
    let statement = build_statement(&config, &DefinedSets::default()).unwrap();
    assert_eq!(statement.to_config(), config);
}

#[test]
fn an_operation_without_a_name_of_its_own_is_refused() {
    let config = StatementConfig {
        name: None,
        conditions: ConditionsConfig::default(),
        actions: ActionsConfig {
            community: Some(CommunityActionConfig {
                operation: "swap".to_string(),
                communities: vec!["1:2".to_string()],
            }),
            ..Default::default()
        },
    };
    assert_eq!(
        build_statement(&config, &DefinedSets::default()),
        Err(
            "invalid community operation 'swap' (must be 'add', 'remove', or 'replace')"
                .to_string()
        )
    );
}

#[test]
fn reserved_names_are_refused() {
    for name in ["default-permit-all", "default-deny-all"] {
        let def = PolicyDefinitionConfig {
            name: name.to_string(),
            statements: vec![],
        };
        assert_eq!(
            Policy::from_config(&def, &DefinedSets::default()),
            Err(format!("policy name '{}' is reserved", name))
        );
    }
    assert!(Policy::is_reserved_name("default-permit-all"));
    assert!(!Policy::is_reserved_name("mine"));
}

#[test]
fn the_built_in_policies_accept_and_reject_everything() {
    let mut path = ebgp_path();
    assert_eq!(
        Policy::permit_all().evaluate(&test_prefix_key(), &mut path),
        PolicyResult::Accept
    );
    assert_eq!(
        Policy::deny_all().evaluate(&test_prefix_key(), &mut path),
        PolicyResult::Reject
    );
    assert_eq!(
        Policy::new("empty".to_string()).evaluate(&test_prefix_key(), &mut path),
        PolicyResult::Continue
    );
}

#[test]
fn a_configuration_holds_its_policies_and_the_built_in_ones() {
    let config = BgpConfig {
        defined_sets: DefinedSetsConfig {
            prefix_sets: vec![],
            neighbor_sets: vec![],
            as_path_sets: vec![],
            community_sets: vec![],
            ext_community_sets: vec![],
            large_community_sets: vec![],
        },
        policy_definitions: vec![PolicyDefinitionConfig {
            name: "mine".to_string(),
            statements: vec![],
        }],
    };
    let context = PolicyContext::from_config(&config).unwrap();
    assert!(context.policies.contains_key("mine"));
    assert!(context.policies.contains_key("default-permit-all"));
    assert!(context.policies.contains_key("default-deny-all"));
    assert!(!context.policies.contains_key("other"));
}

#[test]
fn a_preference_is_only_replaced_by_force() {
    let mut path = ebgp_path();
    change(&mut path, |a| a.local_pref = Some(300));
    Action::SetLocalPref {
        value: 100,
        force: false,
    }
    .apply(&mut path);
    assert_eq!(path.local_pref(), Some(300));
    Action::SetLocalPref {
        value: 100,
        force: true,
    }
    .apply(&mut path);
    assert_eq!(path.local_pref(), Some(100));
}

#[test]
fn operations_on_communities_have_their_exact_results() {
    let mut path = ebgp_path();
    change(&mut path, |a| a.communities = vec![1, 2]);
    Action::SetCommunity(CommunityOp::Add(vec![2, 3])).apply(&mut path);
    assert_eq!(path.communities(), &vec![1, 2, 3]);
    Action::SetCommunity(CommunityOp::Remove(vec![1, 3])).apply(&mut path);
    assert_eq!(path.communities(), &vec![2]);
    Action::SetCommunity(CommunityOp::Replace(vec![9])).apply(&mut path);
    assert_eq!(path.communities(), &vec![9]);
    let c = LargeCommunity::new(1, 2, 3);
    Action::SetLargeCommunity(LargeCommunityOp::Add(vec![c, c])).apply(&mut path);
    assert_eq!(path.large_communities(), &vec![c]);
}

#[test]
fn sets_are_removed_and_cleared_by_their_kind() {
    let config = DefinedSetsConfig {
        prefix_sets: vec![],
        neighbor_sets: vec![NeighborSetConfig {
            name: "n".to_string(),
            neighbors: vec!["10.0.0.1".to_string()],
        }],
        as_path_sets: vec![],
        community_sets: vec![CommunitySetConfig {
            name: "n".to_string(),
            communities: vec!["1:1".to_string()],
        }],
        ext_community_sets: vec![],
        large_community_sets: vec![],
    };
    let mut sets = DefinedSets::new(&config).unwrap();
    assert!(sets.contains(DefinedSetType::NeighborSet, "n"));
    assert!(sets.remove(DefinedSetType::NeighborSet, "n"));
    assert!(!sets.remove(DefinedSetType::NeighborSet, "n"));
    assert!(sets.contains(DefinedSetType::CommunitySet, "n"));
    sets.clear(DefinedSetType::CommunitySet);
    assert!(!sets.contains(DefinedSetType::CommunitySet, "n"));
}

#[test]
fn sets_match_by_their_option() {
    let cases = [
        (MatchOptionConfig::Any, vec![false, true], true),
        (MatchOptionConfig::Any, vec![false, false], false),
        (MatchOptionConfig::Any, vec![], false),
        (MatchOptionConfig::All, vec![true, true], true),
        (MatchOptionConfig::All, vec![true, false], false),
        (MatchOptionConfig::All, vec![], true),
        (MatchOptionConfig::Invert, vec![false, false], true),
        (MatchOptionConfig::Invert, vec![false, true], false),
        (MatchOptionConfig::Invert, vec![], true),
    ];
    for (option, found, expected) in cases {
        assert_eq!(matched_by(option, &found), expected, "{:?} {:?}", option, found);
    }
}

#[test]
fn patterns_are_refused_with_a_reason() {
    assert_eq!(
        pattern_refusal("transit", "(", "unclosed group"),
        "as-path-set 'transit': invalid regex '(': unclosed group"
    );
}

#[test]
fn a_copy_of_a_policy_is_the_same_policy() {
    let policy = Policy::new("copied".to_string()).with(
        Statement::new()
            .when(Condition::Community(7))
            .then_do(Action::SetCommunity(CommunityOp::Add(vec![1, 2])))
            .then_do(Action::Accept),
    );
    assert_eq!(policy.clone(), policy);
    assert_ne!(policy.clone(), Policy::permit_all());
}

#[test]
fn copied_sets_are_changed_on_their_own() {
    let config = DefinedSetsConfig {
        prefix_sets: vec![],
        neighbor_sets: vec![],
        as_path_sets: vec![AsPathSetConfig {
            name: "paths".to_string(),
            patterns: vec!["^65001".to_string()],
        }],
        community_sets: vec![],
        ext_community_sets: vec![],
        large_community_sets: vec![],
    };
    let mut sets = DefinedSets::new(&config).unwrap();
    let copy = sets.clone();
    assert!(sets.remove(DefinedSetType::AsPathSet, "paths"));
    assert!(copy.contains(DefinedSetType::AsPathSet, "paths"));
    assert!(!sets.contains(DefinedSetType::AsPathSet, "paths"));
}
