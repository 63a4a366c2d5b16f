//! The management interface: what requests ask for, and what they are answered.

use bgpgg::bgp::bgpls::LsNlri;
use bgpgg::bgp::msg_update::{AsPathSegment, AsPathSegmentType, NextHopAddr, Origin};
use bgpgg::bgp::multiprotocol::{Afi, AfiSafi, Safi};
use bgpgg::conf::{DefinedSetConfig, PolicyDefinitionConfig};
use bgpgg::grpc::client::{config_outcome, outcome, server_info};
use bgpgg::grpc::listings::{
    list_defined_sets_answer, list_peers_answer, list_policies_answer, list_routes_answer,
    list_rpki_caches_answer, rpki_validation_answer, server_info_answer, CacheState, Vrp,
};
use bgpgg::grpc::proto;
use bgpgg::grpc::proto::management::{
    AddRpkiCacheRequest, ResetPeerRequest, SetPolicyAssignmentRequest,
};
use bgpgg::grpc::proto::policy;
use bgpgg::grpc::proto::route::{Key, NewRoute};
use bgpgg::grpc::proto::{
    AddIpRouteRequest, AddLsRouteRequest, AddRouteRequest, ExtendedCommunity, RemoveRouteRequest,
    SessionConfig,
};
use bgpgg::grpc::proto_policy::{
    defined_set_config_to_proto, policy_info_to_proto, proto_to_defined_set_config,
    proto_to_statement_config,
};
use bgpgg::grpc::routes::{
    parse_add_ip_route, parse_prefix_and_nexthop, route_to_add, route_to_proto, route_to_remove,
    rpki_state_to_proto, streamed_route, Refusal, LOCAL_ROUTE_SOURCE_STR,
};
use bgpgg::grpc::service::{
    answer, assignment_of, bmp_server_address, config_answer, get_peer_answer, peer_answer,
    peer_to_add, peer_to_proto, peer_to_remove, prefix_to_validate, reply_of, reset_of,
    rpki_cache_address, rpki_cache_to_add, set_to_add, set_type_of, set_type_to_list,
    statements_to_add, statistics_to_proto, stream_answer, stream_step, to_proto_admin_state,
    to_proto_state, Answer, Assignment, ConfigAnswer, PeerDetails, PeerInfo, PolicyDirection,
    Reply, Reset, ResetType, Status, TransportType, Undertaking,
};
use bgpgg::grpc::sessions::{peer_config_to_proto, proto_to_peer_config};
use bgpgg::net::addr::{IpAddr, Ipv4Addr};
use bgpgg::net::network::{IpNetwork, Ipv4Net};
use bgpgg::net::socket::SocketAddr;
use bgpgg::peer::session::AdminState;
use bgpgg::peer::{BgpState, PeerStatistics};
use bgpgg::peer_config::PeerConfig;
use bgpgg::policy::sets::DefinedSetType;
use bgpgg::policy::PolicyResult;
use bgpgg::rib::{Path, PathAttrs, Route, RouteKey, RouteSource};
use bgpgg::rpki::RpkiValidation;
use std::sync::Arc;

// ---------------------------------------------------------------------------
// Sessions
// ---------------------------------------------------------------------------

#[test]
fn test_proto_to_peer_config_ttl_min() {
    let cases: &[(Option<u32>, Option<u8>)] = &[
        (Some(1), Some(1)),
        (Some(254), Some(254)),
        (Some(255), Some(255)),
        (None, None),
    ];
    for (input, expected) in cases {
        let config = proto_to_peer_config(Some(SessionConfig {
            ttl_min: *input,
            ..Default::default()
        }))
        .unwrap();
        assert_eq!(config.ttl_min, *expected);
    }
}

#[test]
fn test_proto_to_peer_config_llgr() {
    // Valid config with afi_safis
    let config = proto_to_peer_config(Some(SessionConfig {
        llgr: Some(proto::LlgrConfig {
            enabled: Some(true),
            stale_time_secs: Some(3600),
            afi_safis: vec![proto::AfiSafi { afi: 1, safi: 1 }],
        }),
        ..Default::default()
    }))
    .unwrap();
    let llgr = config.llgr.unwrap();
    assert!(llgr.enabled);
    assert_eq!(llgr.stale_time, Some(3600));
    let afi_safis = llgr.afi_safis.unwrap();
    assert_eq!(afi_safis.len(), 1);
    assert_eq!(afi_safis[0], AfiSafi::new(Afi::Ipv4, Safi::Unicast));

    // Invalid AFI is rejected
    let result = proto_to_peer_config(Some(SessionConfig {
        llgr: Some(proto::LlgrConfig {
            enabled: Some(true),
            stale_time_secs: Some(100),
            afi_safis: vec![proto::AfiSafi { afi: 99, safi: 1 }],
        }),
        ..Default::default()
    }));
    assert!(result.is_err());

    // enabled: false
    let config = proto_to_peer_config(Some(SessionConfig {
        llgr: Some(proto::LlgrConfig {
            enabled: Some(false),
            stale_time_secs: None,
            afi_safis: vec![],
        }),
        ..Default::default()
    }))
    .unwrap();
    let llgr = config.llgr.unwrap();
    assert!(!llgr.enabled);

    // No LLGR config -> None
    let config = proto_to_peer_config(Some(SessionConfig::default())).unwrap();
    assert!(config.llgr.is_none());
}

#[test]
fn a_session_config_comes_back_from_its_message() {
    let mut config = PeerConfig::default();
    config.asn = Some(65010);
    config.idle_hold_time_secs = Some(45);
    config.rr_client = true;
    config.ttl_min = Some(254);
    let message = peer_config_to_proto(&config);
    assert_eq!(message.asn, Some(65010));
    assert_eq!(message.idle_hold_time_secs, Some(45));
    assert_eq!(message.rr_client, Some(true));
    assert_eq!(message.ttl_min, Some(254));
    let back = proto_to_peer_config(Some(message)).unwrap();
    assert_eq!(back.asn, Some(65010));
    assert_eq!(back.idle_hold_time_secs, Some(45));
    assert!(back.rr_client);
    assert_eq!(back.ttl_min, Some(254));
    assert_eq!(peer_config_to_proto(&back), peer_config_to_proto(&config));
}

#[test]
fn a_missing_session_config_is_the_default() {
    let config = proto_to_peer_config(None).unwrap();
    assert_eq!(peer_config_to_proto(&config), peer_config_to_proto(&PeerConfig::default()));
}

#[test]
fn a_hop_limit_must_be_one_of_an_octet() {
    for ttl in [0, 256, 1000] {
        let result = peer_to_add(Some(SessionConfig { ttl_min: Some(ttl), ..Default::default() }));
        assert_eq!(
            result.err(),
            Some(Status::InvalidArgument("ttl_min must be between 1 and 255".to_string()))
        );
    }
    let config =
        peer_to_add(Some(SessionConfig { ttl_min: Some(255), ..Default::default() })).unwrap();
    assert_eq!(config.ttl_min, Some(255));
}

#[test]
fn a_peer_is_removed_by_its_address() {
    assert_eq!(peer_to_remove("10.0.0.1"), Ok(()));
    assert_eq!(peer_to_remove("2001:db8::1"), Ok(()));
    assert_eq!(
        peer_to_remove("10.0.0.256"),
        Err(Status::InvalidArgument("invalid IP address format".to_string()))
    );
}

#[test]
fn resets_are_told_apart_by_number() {
    let request = |reset_type, afi, safi| ResetPeerRequest {
        address: "10.0.0.1".to_string(),
        reset_type,
        afi,
        safi,
    };
    let kinds = [ResetType::SoftIn, ResetType::SoftOut, ResetType::Soft, ResetType::Hard];
    for (i, kind) in kinds.iter().enumerate() {
        assert_eq!(
            reset_of(&request(i as i32, Some(2), Some(1))),
            Ok(Reset { reset_type: *kind, afi: Some(Afi::Ipv6), safi: Some(Safi::Unicast) })
        );
    }
    assert_eq!(
        reset_of(&request(3, Some(7), None)),
        Ok(Reset { reset_type: ResetType::Hard, afi: None, safi: None })
    );
    assert_eq!(
        reset_of(&request(4, None, None)),
        Err(Status::InvalidArgument("invalid reset type".to_string()))
    );
}

// ---------------------------------------------------------------------------
// Answers
// ---------------------------------------------------------------------------

#[test]
fn a_silent_server_is_an_internal_failure() {
    assert_eq!(
        reply_of::<u32>(Reply::NotSent),
        Err(Status::Internal("failed to send request".to_string()))
    );
    assert_eq!(
        reply_of::<u32>(Reply::Lost),
        Err(Status::Internal("request processing failed".to_string()))
    );
    assert_eq!(reply_of(Reply::Given(7u32)), Ok(7));
}

#[test]
fn answers_say_what_was_done_or_why_not() {
    let server = SocketAddr::V4 { ip: Ipv4Addr::new(10, 0, 0, 9), port: 11019 };
    let cases = vec![
        (Undertaking::AddPeer("10.0.0.1".to_string()), "Peer 10.0.0.1 added"),
        (Undertaking::RemovePeer("10.0.0.1".to_string()), "Peer 10.0.0.1 removed"),
        (Undertaking::AddRoute("10.0.0.0/8".to_string()), "Route 10.0.0.0/8 added"),
        (Undertaking::RemoveRoute("LS 1".to_string()), "Route LS 1 removed"),
        (Undertaking::AddBmpServer(server), "BMP server 10.0.0.9:11019 added"),
        (Undertaking::RemoveBmpServer(server), "BMP server 10.0.0.9:11019 removed"),
        (Undertaking::AddRpkiCache(server), "RPKI cache 10.0.0.9:11019 added"),
        (Undertaking::RemoveRpkiCache(server), "RPKI cache 10.0.0.9:11019 removed"),
        (Undertaking::AddDefinedSet, "defined set added"),
        (Undertaking::RemoveDefinedSet, "defined set removed"),
        (Undertaking::AddPolicy, "policy added"),
        (Undertaking::RemovePolicy, "policy removed"),
        (Undertaking::SetPolicyAssignment, "policy assignment set"),
    ];
    for (what, expected) in cases {
        assert_eq!(
            answer(&what, Reply::Given(Ok(()))),
            Ok(Answer { success: true, message: expected.to_string() })
        );
        assert_eq!(
            answer(&what, Reply::Given(Err("busy".to_string()))),
            Ok(Answer { success: false, message: "busy".to_string() })
        );
        assert_eq!(
            answer(&what, Reply::Lost),
            Err(Status::Internal("request processing failed".to_string()))
        );
    }
}

#[test]
fn requests_on_peers_fail_where_there_is_none() {
    assert_eq!(peer_answer(Reply::Given(Ok(()))), Ok(()));
    assert_eq!(
        peer_answer(Reply::Given(Err("peer not found".to_string()))),
        Err(Status::NotFound("peer not found".to_string()))
    );
}

#[test]
fn changes_of_the_configuration_are_answered() {
    assert_eq!(
        config_answer(Reply::Given(Ok(()))),
        Ok(ConfigAnswer { ok: true, error: String::new() })
    );
    assert_eq!(
        config_answer(Reply::Given(Err("locked".to_string()))),
        Ok(ConfigAnswer { ok: false, error: "locked".to_string() })
    );
}

#[test]
fn streamed_routes_are_counted() {
    assert_eq!(stream_answer(0), "0 routes added");
    assert_eq!(stream_answer(1024), "1024 routes added");
}

#[test]
fn clients_see_failures_as_errors() {
    assert_eq!(
        outcome(Answer { success: true, message: "Peer 10.0.0.1 added".to_string() }),
        Ok("Peer 10.0.0.1 added".to_string())
    );
    assert_eq!(
        outcome(Answer { success: false, message: "busy".to_string() }),
        Err(Status::Unknown("busy".to_string()))
    );
    assert_eq!(config_outcome(ConfigAnswer { ok: true, error: String::new() }), Ok(()));
    assert_eq!(
        config_outcome(ConfigAnswer { ok: false, error: "locked".to_string() }),
        Err(Status::Unknown("locked".to_string()))
    );
}

#[test]
fn the_server_tells_where_it_listens() {
    assert_eq!(
        server_info("127.0.0.1", 179, 12),
        Ok((IpAddr::V4(Ipv4Addr::new(127, 0, 0, 1)), 179, 12))
    );
    assert_eq!(
        server_info("localhost", 179, 12),
        Err(Status::Internal("invalid listen_addr".to_string()))
    );
}

// ---------------------------------------------------------------------------
// Peers
// ---------------------------------------------------------------------------

fn peer_info() -> PeerInfo {
    PeerInfo {
        address: "10.0.0.1".to_string(),
        asn: Some(65001),
        state: BgpState::Established,
        admin_state: AdminState::Up,
        import_policies: vec!["in".to_string()],
        export_policies: vec![],
    }
}

#[test]
fn states_are_told_by_number() {
    let states = [
        BgpState::Idle,
        BgpState::Connect,
        BgpState::Active,
        BgpState::OpenSent,
        BgpState::OpenConfirm,
        BgpState::Established,
    ];
    for (i, s) in states.iter().enumerate() {
        assert_eq!(to_proto_state(*s), i as i32);
    }
    assert_eq!(to_proto_admin_state(AdminState::Up), 0);
    assert_eq!(to_proto_admin_state(AdminState::Down), 1);
    assert_eq!(to_proto_admin_state(AdminState::PrefixLimitReached), 2);
}

#[test]
fn peers_are_told_with_their_policies() {
    let mut info = peer_info();
    info.asn = None;
    let m = peer_to_proto(info, None);
    assert_eq!(m.address, "10.0.0.1");
    assert_eq!(m.asn, 0);
    assert_eq!(m.state, 5);
    assert_eq!(m.import_policies, vec!["in".to_string()]);
    assert_eq!(m.session_config, None);
}

#[test]
fn one_peer_is_told_with_what_was_exchanged() {
    let mut statistics = PeerStatistics::default();
    statistics.update_sent = 17;
    let details = PeerDetails { info: peer_info(), config: PeerConfig::default(), statistics };
    let m = get_peer_answer("10.0.0.1", Some(details)).unwrap();
    assert_eq!(m.statistics, Some(statistics_to_proto(&statistics)));
    assert_eq!(m.statistics.unwrap().update_sent, 17);
    let peer = m.peer.unwrap();
    assert_eq!(peer.asn, 65001);
    assert_eq!(peer.session_config, Some(peer_config_to_proto(&PeerConfig::default())));
    assert_eq!(
        get_peer_answer("10.0.0.2", None).err(),
        Some(Status::NotFound("Peer 10.0.0.2 not found".to_string()))
    );
}

// ---------------------------------------------------------------------------
// Servers and caches
// ---------------------------------------------------------------------------

#[test]
fn servers_are_named_by_address_and_port() {
    let expected = SocketAddr::V4 { ip: Ipv4Addr::new(192, 0, 2, 1), port: 11019 };
    assert_eq!(bmp_server_address("192.0.2.1:11019"), Ok(expected));
    assert_eq!(rpki_cache_address("192.0.2.1:11019"), Ok(expected));
    assert!(matches!(
        bmp_server_address("192.0.2.1"),
        Err(Status::InvalidArgument(e)) if e.starts_with("invalid BMP server address: ")
    ));
    assert!(matches!(
        rpki_cache_address("192.0.2.1"),
        Err(Status::InvalidArgument(e)) if e.starts_with("invalid address: ")
    ));
}

fn cache_request() -> AddRpkiCacheRequest {
    AddRpkiCacheRequest {
        address: "192.0.2.1:323".to_string(),
        preference: Some(10),
        transport: None,
        ssh_username: None,
        ssh_private_key_file: None,
        ssh_known_hosts_file: None,
        retry_interval: Some(600),
        refresh_interval: None,
        expire_interval: None,
    }
}

#[test]
fn caches_over_ssh_need_a_user_and_a_key() {
    let plain = rpki_cache_to_add(cache_request(), None).unwrap();
    assert_eq!(plain.address, "192.0.2.1:323");
    assert_eq!(plain.preference, 10);
    assert_eq!(plain.transport, TransportType::Tcp);
    assert_eq!(plain.retry_interval, Some(600));

    let result = rpki_cache_to_add(cache_request(), Some(Ok(TransportType::Ssh)));
    assert_eq!(
        result.err(),
        Some(Status::InvalidArgument("ssh_username required for SSH transport".to_string()))
    );

    let mut with_user = cache_request();
    with_user.ssh_username = Some("rtr".to_string());
    let result = rpki_cache_to_add(with_user, Some(Ok(TransportType::Ssh)));
    assert_eq!(
        result.err(),
        Some(Status::InvalidArgument(
            "ssh_private_key_file required for SSH transport".to_string()
        ))
    );

    let mut whole = cache_request();
    whole.ssh_username = Some("rtr".to_string());
    whole.ssh_private_key_file = Some("/etc/key".to_string());
    let cache = rpki_cache_to_add(whole, Some(Ok(TransportType::Ssh))).unwrap();
    assert_eq!(cache.transport, TransportType::Ssh);
    assert_eq!(cache.ssh_username, Some("rtr".to_string()));
    assert_eq!(cache.ssh_private_key_file, Some("/etc/key".to_string()));

    let result = rpki_cache_to_add(cache_request(), Some(Err("unknown transport".to_string())));
    assert_eq!(
        result.err(),
        Some(Status::InvalidArgument("invalid transport: unknown transport".to_string()))
    );
}

#[test]
fn prefixes_to_validate_are_read() {
    assert_eq!(
        prefix_to_validate("10.1.0.0/16"),
        Ok(IpNetwork::V4(Ipv4Net { address: Ipv4Addr::new(10, 1, 0, 0), prefix_length: 16 }))
    );
    assert!(matches!(prefix_to_validate("10.1.0.0/33"), Err(Status::InvalidArgument(_))));
}

// ---------------------------------------------------------------------------
// Policies
// ---------------------------------------------------------------------------

fn prefix_set_message() -> policy::DefinedSetConfig {
    policy::DefinedSetConfig {
        name: "customers".to_string(),
        config: Some(policy::SetData::PrefixSet(policy::PrefixSetData {
            prefixes: vec![policy::PrefixMatch {
                prefix: "10.0.0.0/8".to_string(),
                masklength_range: Some("16..24".to_string()),
            }],
        })),
    }
}

#[test]
fn sets_come_back_in_messages() {
    let config = proto_to_defined_set_config(&prefix_set_message()).unwrap();
    let info = defined_set_config_to_proto(config);
    assert_eq!(info.set_type, "prefix-set");
    assert_eq!(info.name, "customers");
    assert_eq!(info.set_data, prefix_set_message().config);

    let cases = vec![
        (
            policy::SetData::NeighborSet(policy::NeighborSetData {
                addresses: vec!["10.0.0.1".to_string()],
            }),
            "neighbor-set",
        ),
        (
            policy::SetData::AsPathSet(policy::AsPathSetData {
                patterns: vec!["^65001_".to_string()],
            }),
            "as-path-set",
        ),
        (
            policy::SetData::CommunitySet(policy::CommunitySetData {
                communities: vec!["65001:100".to_string()],
            }),
            "community-set",
        ),
        (
            policy::SetData::ExtCommunitySet(policy::ExtendedCommunitySetData {
                ext_communities: vec!["rt:65001:100".to_string()],
            }),
            "ext-community-set",
        ),
        (
            policy::SetData::LargeCommunitySet(policy::LargeCommunitySetData {
                large_communities: vec!["65001:1:2".to_string()],
            }),
            "large-community-set",
        ),
    ];
    for (data, kind) in cases {
        let m = policy::DefinedSetConfig { name: "s".to_string(), config: Some(data) };
        let info = defined_set_config_to_proto(proto_to_defined_set_config(&m).unwrap());
        assert_eq!(info.set_type, kind);
        assert_eq!(info.set_data, m.config);
    }
}

#[test]
fn sets_without_members_are_refused() {
    let empty = policy::DefinedSetConfig { name: "customers".to_string(), config: None };
    let reason = proto_to_defined_set_config(&empty).err().unwrap();
    assert_eq!(
        set_to_add(&Some(empty)).err(),
        Some(Status::InvalidArgument(format!("invalid set config: {}", reason)))
    );
    assert_eq!(
        set_to_add(&None).err(),
        Some(Status::InvalidArgument("set config required".to_string()))
    );
    assert!(matches!(
        set_to_add(&Some(prefix_set_message())),
        Ok(DefinedSetConfig::PrefixSet(s)) if s.name == "customers"
    ));
}

#[test]
fn kinds_of_sets_are_named() {
    assert_eq!(set_type_of("prefix-set"), Ok(DefinedSetType::PrefixSet));
    assert!(matches!(set_type_of("prefixes"), Err(Status::InvalidArgument(_))));
    assert_eq!(set_type_to_list(&None), Ok(None));
    assert_eq!(
        set_type_to_list(&Some("neighbor-set".to_string())),
        Ok(Some(DefinedSetType::NeighborSet))
    );
    assert!(set_type_to_list(&Some("neighbors".to_string())).is_err());
}

fn statement_message() -> policy::StatementConfig {
    policy::StatementConfig {
        conditions: Some(policy::ConditionsConfig {
            match_prefix_set: Some(policy::MatchSetRef {
                set_name: "customers".to_string(),
                match_option: "any".to_string(),
            }),
            match_neighbor_set: None,
            match_as_path_set: None,
            match_community_set: None,
            match_ext_community_set: None,
            match_large_community_set: None,
            prefix: None,
            neighbor: Some("10.0.0.1".to_string()),
            rpki_validation: None,
            afi_safi: None,
            ls_nlri_type: None,
            ls_protocol_id: None,
            ls_instance_id: None,
            ls_node_as: None,
            ls_node_router_id: None,
        }),
        actions: Some(policy::ActionsConfig {
            accept: Some(true),
            reject: None,
            local_pref: Some(200),
            med: None,
            add_communities: vec!["65001:100".to_string()],
            remove_communities: vec![],
            set_rpki_state: None,
        }),
    }
}

#[test]
fn statements_are_read_from_messages() {
    let config = proto_to_statement_config(statement_message()).unwrap();
    assert_eq!(config.conditions.neighbor, Some("10.0.0.1".to_string()));
    assert_eq!(config.conditions.match_prefix_set.as_ref().unwrap().set_name, "customers");
    assert_eq!(config.actions.accept, Some(true));
    assert!(config.actions.local_pref.is_some());
    let all = statements_to_add(vec![statement_message(), statement_message()]).unwrap();
    assert_eq!(all.len(), 2);
}

#[test]
fn policies_are_told_with_their_statements() {
    let statements = statements_to_add(vec![statement_message()]).unwrap();
    let m = policy_info_to_proto(PolicyDefinitionConfig { name: "in".to_string(), statements });
    assert_eq!(m.name, "in");
    assert_eq!(m.statements.len(), 1);
    assert_eq!(m.statements[0].actions, statement_message().actions);
    assert_eq!(m.statements[0].conditions, statement_message().conditions);
}

#[test]
fn policies_are_assigned_to_peers() {
    let request = |peer: &str, direction: &str, action: Option<&str>| SetPolicyAssignmentRequest {
        peer_address: peer.to_string(),
        direction: direction.to_string(),
        afi: 1,
        safi: 1,
        policy_names: vec!["in".to_string()],
        default_action: action.map(|x| x.to_string()),
    };
    assert_eq!(
        assignment_of(&request("10.0.0.1", "import", Some("accept"))),
        Ok(Assignment {
            peer_addr: IpAddr::V4(Ipv4Addr::new(10, 0, 0, 1)),
            family: AfiSafi::new(Afi::Ipv4, Safi::Unicast),
            direction: PolicyDirection::Import,
            default_action: Some(PolicyResult::Accept),
        })
    );
    let other = assignment_of(&request("10.0.0.1", "export", Some("drop"))).unwrap();
    assert_eq!(other.direction, PolicyDirection::Export);
    assert_eq!(other.default_action, Some(PolicyResult::Reject));
    let open = assignment_of(&request("10.0.0.1", "export", None)).unwrap();
    assert_eq!(open.default_action, None);
    assert_eq!(
        assignment_of(&request("peer", "import", None)),
        Err(Status::InvalidArgument("invalid peer address".to_string()))
    );
    assert_eq!(
        assignment_of(&request("10.0.0.1", "inbound", None)),
        Err(Status::InvalidArgument("direction must be 'import' or 'export'".to_string()))
    );
    let mut family = request("10.0.0.1", "import", None);
    family.afi = 99;
    assert!(matches!(assignment_of(&family), Err(Status::InvalidArgument(_))));
}

// ---------------------------------------------------------------------------
// Routes
// ---------------------------------------------------------------------------

fn ip_route() -> AddIpRouteRequest {
    AddIpRouteRequest {
        prefix: "10.1.0.0/16".to_string(),
        next_hop: "192.0.2.1".to_string(),
        origin: 0,
        as_path: vec![proto::AsPathSegment { segment_type: 1, asns: vec![65001, 65002] }],
        local_pref: Some(200),
        med: Some(5),
        atomic_aggregate: true,
        communities: vec![0xFDE9_0064],
        extended_communities: vec![],
        large_communities: vec![],
        originator_id: Some("1.1.1.1".to_string()),
        cluster_list: vec!["2.2.2.2".to_string()],
    }
}

fn add(route: NewRoute) -> AddRouteRequest {
    AddRouteRequest { route: Some(route) }
}

fn refused(route: AddIpRouteRequest) -> Option<Refusal> {
    route_to_add(&add(NewRoute::Ip(route)), vec![]).err()
}

#[test]
fn prefixes_and_next_hops_are_read_together() {
    assert_eq!(
        parse_prefix_and_nexthop("10.1.0.0/16", "192.0.2.1"),
        Ok((
            IpNetwork::V4(Ipv4Net { address: Ipv4Addr::new(10, 1, 0, 0), prefix_length: 16 }),
            NextHopAddr::Ipv4(Ipv4Addr::new(192, 0, 2, 1)),
        ))
    );
    assert!(parse_prefix_and_nexthop("10.1.0.0", "192.0.2.1").is_err());
    assert!(parse_prefix_and_nexthop("10.1.0.0/16", "192.0.2").is_err());
}

#[test]
fn a_route_to_a_prefix_is_added() {
    let added = route_to_add(&add(NewRoute::Ip(ip_route())), vec![]).unwrap();
    assert_eq!(added.description, "10.1.0.0/16");
    assert_eq!(
        added.key,
        RouteKey::Prefix(IpNetwork::V4(Ipv4Net {
            address: Ipv4Addr::new(10, 1, 0, 0),
            prefix_length: 16
        }))
    );
    assert_eq!(added.attrs.origin, Origin::IGP);
    assert_eq!(
        added.attrs.as_path,
        vec![AsPathSegment {
            segment_type: AsPathSegmentType::AsSequence,
            segment_len: 2,
            asn_list: vec![65001, 65002],
        }]
    );
    assert_eq!(added.attrs.source, RouteSource::Local);
    assert_eq!(added.attrs.local_pref, Some(200));
    assert_eq!(added.attrs.med, Some(5));
    assert!(added.attrs.atomic_aggregate);
    assert_eq!(added.attrs.communities, vec![0xFDE9_0064]);
    assert_eq!(added.attrs.originator_id, Some(Ipv4Addr::new(1, 1, 1, 1)));
    assert_eq!(added.attrs.cluster_list, vec![Ipv4Addr::new(2, 2, 2, 2)]);
}

#[test]
fn routes_with_unreadable_parts_are_refused() {
    let mut r = ip_route();
    r.origin = 3;
    assert_eq!(
        parse_add_ip_route(&r).err(),
        Some("Invalid origin value".to_string())
    );
    assert_eq!(refused(r), Some(Refusal::InvalidArgument("Invalid origin value".to_string())));

    let mut r = ip_route();
    r.originator_id = Some("router".to_string());
    assert_eq!(refused(r), Some(Refusal::InvalidArgument("Invalid originator_id".to_string())));

    let mut r = ip_route();
    r.cluster_list = vec!["2.2.2.2".to_string(), "x".to_string()];
    assert_eq!(refused(r), Some(Refusal::InvalidArgument("Invalid cluster_list".to_string())));

    let mut r = ip_route();
    r.extended_communities = vec![ExtendedCommunity { community: None }];
    assert!(matches!(
        refused(r),
        Some(Refusal::InvalidArgument(e)) if e.starts_with("Invalid extended community: ")
    ));

    assert_eq!(
        route_to_add(&AddRouteRequest { route: None }, vec![]).err(),
        Some(Refusal::Answer("request must contain either ip or ls route".to_string()))
    );
    let nothing = AddLsRouteRequest { nlri: None, attribute: None, next_hop: None };
    assert_eq!(
        route_to_add(&add(NewRoute::Ls(nothing)), vec![]).err(),
        Some(Refusal::InvalidArgument("ls route requires nlri".to_string()))
    );
}

#[test]
fn streams_skip_what_cannot_be_read() {
    assert!(streamed_route(&add(NewRoute::Ip(ip_route()))).is_some());
    let mut r = ip_route();
    r.prefix = "10.1.0.0/99".to_string();
    assert!(streamed_route(&add(NewRoute::Ip(r))).is_none());
    assert!(streamed_route(&AddRouteRequest { route: None }).is_none());
}

#[test]
fn a_stream_counts_what_was_added_until_the_server_is_gone() {
    assert_eq!(stream_step(Reply::Given(Ok(())), 4), Some(5));
    assert_eq!(stream_step(Reply::Given(Err("no".to_string())), 4), Some(4));
    assert_eq!(stream_step(Reply::Lost, 4), Some(4));
    assert_eq!(stream_step(Reply::NotSent, 4), None);
}

#[test]
fn a_route_is_removed_by_its_key() {
    let request = RemoveRouteRequest { key: Some(Key::Prefix("10.1.0.0/16".to_string())) };
    let (key, name) = route_to_remove(&request, vec![]).unwrap();
    assert_eq!(name, "10.1.0.0/16");
    assert_eq!(
        key,
        RouteKey::Prefix(IpNetwork::V4(Ipv4Net {
            address: Ipv4Addr::new(10, 1, 0, 0),
            prefix_length: 16
        }))
    );
    let request = RemoveRouteRequest { key: Some(Key::Prefix("10.1.0.0".to_string())) };
    assert!(route_to_remove(&request, vec![]).is_err());
    assert!(route_to_remove(&RemoveRouteRequest { key: None }, vec![]).is_err());
}

fn direct_node() -> proto::LsNlri {
    proto::LsNlri {
        nlri_type: 0,
        protocol_id: 3,
        identifier: 42,
        local_node: None,
        remote_node: None,
        link_descriptors: None,
        prefix_descriptors: None,
    }
}

#[test]
fn a_link_state_route_has_the_octets_that_encode_it() {
    let request = proto::AddLsRouteRequest {
        nlri: Some(direct_node()),
        attribute: None,
        next_hop: None,
    };
    let added = route_to_add(&add(NewRoute::Ls(request)), vec![0, 1, 7]).unwrap();
    assert_eq!(added.description, "LS 1");
    let request = RemoveRouteRequest { key: Some(Key::LsNlri(Box::new(direct_node()))) };
    let (key, name) = route_to_remove(&request, vec![0, 1, 7]).unwrap();
    assert_eq!(name, "LS 1");
    assert_eq!(key, added.key);
    match key {
        RouteKey::LinkState(n) => assert_eq!(n.raw, vec![0, 1, 7]),
        RouteKey::Prefix(_) => panic!("expected a link-state route"),
    }
    let (other, _) = route_to_remove(&request, vec![]).unwrap();
    assert_ne!(other, added.key);
}

#[test]
fn a_route_of_which_nothing_is_parsed_is_shown_without_a_key() {
    let route = Route {
        key: RouteKey::LinkState(Box::new(LsNlri {
            nlri_type: 77,
            raw: vec![1, 2],
            body: None,
            route_distinguisher: None,
        })),
        paths: vec![],
    };
    assert_eq!(route_to_proto(route).key, None);
}

fn shown_path(source: RouteSource, as_path: Vec<AsPathSegment>) -> proto::Path {
    let route = Route {
        key: RouteKey::Prefix(IpNetwork::V4(Ipv4Net {
            address: Ipv4Addr::new(10, 1, 0, 0),
            prefix_length: 16,
        })),
        paths: vec![Arc::new(Path {
            local_path_id: Some(4),
            remote_path_id: None,
            stale: false,
            rpki_state: RpkiValidation::Valid,
            attrs: Arc::new(PathAttrs {
                origin: Origin::INCOMPLETE,
                as_path,
                next_hop: NextHopAddr::Ipv4(Ipv4Addr::new(192, 0, 2, 1)),
                source,
                local_pref: Some(100),
                med: None,
                atomic_aggregate: false,
                aggregator: None,
                communities: vec![7],
                extended_communities: vec![],
                large_communities: vec![],
                unknown_attrs: vec![],
                originator_id: None,
                cluster_list: vec![Ipv4Addr::new(3, 3, 3, 3)],
                ls_attr: None,
            }),
        })],
    };
    let mut m = route_to_proto(route);
    assert_eq!(m.key, Some(Key::Prefix("10.1.0.0/16".to_string())));
    assert_eq!(m.paths.len(), 1);
    m.paths.remove(0)
}

#[test]
fn routes_are_shown_with_their_paths() {
    let p = shown_path(RouteSource::Local, vec![]);
    assert_eq!(p.peer_address, LOCAL_ROUTE_SOURCE_STR);
    assert_eq!(p.next_hop, "192.0.2.1");
    assert_eq!(p.origin, 2);
    assert_eq!(p.local_pref, Some(100));
    assert_eq!(p.local_path_id, Some(4));
    assert_eq!(p.cluster_list, vec!["3.3.3.3".to_string()]);
    assert_eq!(p.rpki_validation, rpki_state_to_proto(RpkiValidation::Valid));
    assert_eq!(p.communities, vec![7]);

    let peer_ip = IpAddr::V4(Ipv4Addr::new(10, 0, 0, 1));
    let p = shown_path(RouteSource::Ebgp { peer_ip, bgp_id: Ipv4Addr::new(1, 1, 1, 1) }, vec![]);
    assert_eq!(p.peer_address, "10.0.0.1");
}

#[test]
fn segments_of_confederations_are_not_shown() {
    let segment = |segment_type, asn| AsPathSegment {
        segment_type,
        segment_len: 1,
        asn_list: vec![asn],
    };
    let p = shown_path(
        RouteSource::Local,
        vec![
            segment(AsPathSegmentType::AsConfedSequence, 65100),
            segment(AsPathSegmentType::AsSequence, 65001),
            segment(AsPathSegmentType::AsConfedSet, 65101),
            segment(AsPathSegmentType::AsSet, 65002),
        ],
    );
    assert_eq!(
        p.as_path,
        vec![
            proto::AsPathSegment { segment_type: 1, asns: vec![65001] },
            proto::AsPathSegment { segment_type: 0, asns: vec![65002] },
        ]
    );
}

// ---------------------------------------------------------------------------
// Lists
// ---------------------------------------------------------------------------

#[test]
fn all_peers_are_listed_without_their_configuration() {
    let peers = list_peers_answer(Reply::Given(vec![peer_info(), peer_info()])).unwrap();
    assert_eq!(peers.len(), 2);
    assert_eq!(peers[1], peer_to_proto(peer_info(), None));
    assert_eq!(
        list_peers_answer(Reply::Lost),
        Err(Status::Internal("request processing failed".to_string()))
    );
}

#[test]
fn routes_are_listed_or_the_request_is_refused() {
    let route = || Route {
        key: RouteKey::Prefix(IpNetwork::V4(Ipv4Net {
            address: Ipv4Addr::new(10, 1, 0, 0),
            prefix_length: 16,
        })),
        paths: vec![],
    };
    let routes = list_routes_answer(Reply::Given(Ok(vec![route()]))).unwrap();
    assert_eq!(routes, vec![route_to_proto(route())]);
    assert_eq!(
        list_routes_answer(Reply::Given(Err("no such table".to_string()))),
        Err(Status::InvalidArgument("no such table".to_string()))
    );
    assert_eq!(
        list_routes_answer(Reply::NotSent),
        Err(Status::Internal("failed to send request".to_string()))
    );
}

#[test]
fn sets_and_policies_are_listed() {
    let set = proto_to_defined_set_config(&prefix_set_message()).unwrap();
    let sets = list_defined_sets_answer(Reply::Given(vec![set])).unwrap();
    assert_eq!(sets.len(), 1);
    assert_eq!(sets[0].set_data, prefix_set_message().config);
    let statements = statements_to_add(vec![statement_message()]).unwrap();
    let policies = list_policies_answer(Reply::Given(vec![PolicyDefinitionConfig {
        name: "in".to_string(),
        statements,
    }]))
    .unwrap();
    assert_eq!(policies.len(), 1);
    assert_eq!(policies[0].name, "in");
    assert!(list_defined_sets_answer(Reply::Lost).is_err());
    assert!(list_policies_answer(Reply::Lost).is_err());
}

#[test]
fn caches_are_listed_with_their_counts() {
    let m = list_rpki_caches_answer(Reply::Given((
        vec![CacheState {
            address: SocketAddr::V4 { ip: Ipv4Addr::new(192, 0, 2, 1), port: 323 },
            preference: 10,
            transport_name: "tcp".to_string(),
            session_active: true,
            vrp_count: 42,
        }],
        43,
    )))
    .unwrap();
    assert_eq!(m.total_vrp_count, 43);
    assert_eq!(m.caches.len(), 1);
    assert_eq!(m.caches[0].address, "192.0.2.1:323");
    assert_eq!(m.caches[0].preference, 10);
    assert_eq!(m.caches[0].transport, "tcp");
    assert!(m.caches[0].session_active);
    assert_eq!(m.caches[0].vrp_count, 42);
    assert!(list_rpki_caches_answer(Reply::Lost).is_err());
}

#[test]
fn validations_are_told_with_what_covers_the_prefix() {
    let m = rpki_validation_answer(Reply::Given((
        RpkiValidation::Invalid,
        vec![Vrp {
            prefix: IpNetwork::V4(Ipv4Net {
                address: Ipv4Addr::new(10, 0, 0, 0),
                prefix_length: 8,
            }),
            max_length: 24,
            origin_as: 65001,
        }],
    )))
    .unwrap();
    assert_eq!(m.validation, 2);
    assert_eq!(m.covering_vrps.len(), 1);
    assert_eq!(m.covering_vrps[0].prefix, "10.0.0.0/8");
    assert_eq!(m.covering_vrps[0].max_length, 24);
    assert_eq!(m.covering_vrps[0].origin_as, 65001);
    assert!(rpki_validation_answer(Reply::NotSent).is_err());
}

#[test]
fn clients_read_where_the_server_listens() {
    let addr = IpAddr::parse("2001:db8::1").unwrap();
    let m = server_info_answer(Reply::Given((addr, 1790, 5))).unwrap();
    assert_eq!(m.listen_addr, "2001:db8::1");
    assert_eq!(
        server_info(m.listen_addr.as_str(), m.listen_port, m.num_routes),
        Ok((addr, 1790, 5))
    );
    assert!(server_info_answer(Reply::Lost).is_err());
}
