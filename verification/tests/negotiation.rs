//! What sessions agree on, and the messages of a peer.

use bgpgg::bgp::msg::message_parts;
use bgpgg::bgp::msg_notification::{BgpError, CeaseSubcode, NotificationMessage};
use bgpgg::bgp::msg_open::{AddPathMode, BgpCapabiltyCode, Capability, LlgrEntry};
use bgpgg::bgp::msg_update::{AsPathSegment, AsPathSegmentType, NextHopAddr, Origin};
use bgpgg::bgp::multiprotocol::{Afi, AfiSafi, AfiSafiSet, Safi};
use bgpgg::bgp::open_message::{OpenMessage, OptionalParam};
use bgpgg::net::addr::{IpAddr, Ipv4Addr};
use bgpgg::peer::incoming::ReceivedUpdate;
use bgpgg::peer::messages::BgpMessage;
use bgpgg::peer::negotiation::{create_open_message, extract_capabilities};
use bgpgg::peer::session::{ConnectionType, IoError, Turn};
use bgpgg::peer::{
    BgpOpenParams, BgpState, Fsm, LocalConfig, Peer, PeerCapabilities, PeerError, SessionType,
};
use bgpgg::peer_config::{AddPathSend, AfiSafiConfig, LlgrConfig, PeerConfig};
use bgpgg::rib::{PathAttrs, RouteSource};

/// The moment at which everything happens, in milliseconds.
const NOW: u64 = 1_000_000_000;

trait Hear {
    fn hear(&mut self, message: BgpMessage) -> Result<(), PeerError>;
}

impl Hear for Peer {
    fn hear(&mut self, message: BgpMessage) -> Result<(), PeerError> {
        let mut turn = Turn::new(100);
        self.handle_message(&message, NOW, &mut turn).map(|_| ())
    }
}

fn create_test_peer_with_state(state: BgpState) -> Peer {
    let local_ip = IpAddr::V4(Ipv4Addr::new(127, 0, 0, 1));
    let local_config = LocalConfig {
        asn: 65000,
        bgp_id: Ipv4Addr::new(1, 1, 1, 1),
        hold_time: 180,
        addr: local_ip,
        port: 0,
        cluster_id: Ipv4Addr::new(1, 1, 1, 1),
        llgr: None,
    };
    let mut peer = Peer::new(
        local_ip,
        179,
        local_config,
        PeerConfig::default(),
        120,
        ConnectionType::Outgoing,
    );
    peer.fsm = Fsm::with_state(state, false);
    peer.connected = true;
    peer.asn = Some(65001);
    peer.bgp_id = Some(Ipv4Addr::new(10, 0, 0, 1));
    peer.session_type = Some(SessionType::Ebgp);
    peer
}

fn test_attrs() -> PathAttrs {
    PathAttrs {
        origin: Origin::IGP,
        as_path: vec![AsPathSegment {
            segment_type: AsPathSegmentType::AsSequence,
            segment_len: 1,
            asn_list: vec![65001],
        }],
        next_hop: NextHopAddr::Ipv4(Ipv4Addr::new(10, 0, 0, 1)),
        source: RouteSource::Local,
        local_pref: None,
        med: None,
        atomic_aggregate: false,
        aggregator: None,
        communities: vec![],
        extended_communities: vec![],
        large_communities: vec![],
        unknown_attrs: vec![],
        originator_id: None,
        cluster_list: vec![],
        ls_attr: None,
    }
}

/// An UPDATE message with a path and no prefixes.
fn test_update() -> ReceivedUpdate {
    ReceivedUpdate {
        withdrawn_routes: vec![],
        ls_withdrawn_list: vec![],
        nlri_list: vec![],
        ls_nlri_list: vec![],
        attrs: Some(test_attrs()),
        corrected_attrs: Some(test_attrs()),
        eor_afi_safi: None,
    }
}

#[test]
fn test_extract_capabilities() {
    let config = PeerConfig {
        afi_safis: vec![
            AfiSafiConfig::new(Afi::Ipv4, Safi::Unicast),
            AfiSafiConfig::new(Afi::Ipv6, Safi::Unicast),
        ],
        ..PeerConfig::default()
    };
    let open_msg = create_open_message(65001, 180, Ipv4Addr::new(1, 1, 1, 1), &config, &None);
    let capabilities = extract_capabilities(&open_msg);

    // Check multiprotocol capabilities
    assert_eq!(capabilities.multiprotocol.len(), 2);
    assert!(capabilities
        .multiprotocol
        .contains(&AfiSafi::new(Afi::Ipv4, Safi::Unicast)));
    assert!(capabilities
        .multiprotocol
        .contains(&AfiSafi::new(Afi::Ipv6, Safi::Unicast)));

    // Check route refresh capability
    assert!(capabilities.route_refresh);

    // Check four-octet ASN capability
    assert_eq!(capabilities.four_octet_asn, Some(65001));

    // Check graceful restart capability (enabled by default)
    assert!(capabilities.graceful_restart.is_some());

    // Check add_path capability (disabled by default)
    assert!(capabilities.add_path.is_none());
}

#[test]
fn test_extract_capabilities_add_path() {
    let ipv4_uni = AfiSafi::new(Afi::Ipv4, Safi::Unicast);
    let ipv6_uni = AfiSafi::new(Afi::Ipv6, Safi::Unicast);

    let test_cases = vec![
        ("send", AddPathSend::All, false, AddPathMode::Send),
        ("receive", AddPathSend::Disabled, true, AddPathMode::Receive),
        ("both", AddPathSend::All, true, AddPathMode::Both),
    ];

    for (name, send, receive, expected_mode) in test_cases {
        let config = PeerConfig {
            add_path_send: send,
            add_path_receive: receive,
            afi_safis: vec![
                AfiSafiConfig::new(Afi::Ipv4, Safi::Unicast),
                AfiSafiConfig::new(Afi::Ipv6, Safi::Unicast),
            ],
            ..PeerConfig::default()
        };
        let open_msg =
            create_open_message(65001, 180, Ipv4Addr::new(1, 1, 1, 1), &config, &None);
        let caps = extract_capabilities(&open_msg);
        let add_path = caps
            .add_path
            .unwrap_or_else(|| panic!("expected add_path for {}", name));
        assert_eq!(add_path.entries.len(), 2, "{}", name);
        assert!(
            add_path.entries.contains(&(ipv4_uni, expected_mode)),
            "{}",
            name
        );
        assert!(
            add_path.entries.contains(&(ipv6_uni, expected_mode)),
            "{}",
            name
        );
    }
}

#[test]
fn test_local_wins_collision() {
    // Local: bgp_id 1.1.1.1, asn 65000 (from create_test_peer_with_state)
    // (name, remote_bgp_id, remote_asn, local_wins)
    let cases = vec![
        ("higher remote id", Ipv4Addr::new(2, 2, 2, 2), 65001, false),
        ("lower remote id", Ipv4Addr::new(0, 0, 0, 1), 65001, true),
        (
            "equal id, higher remote asn",
            Ipv4Addr::new(1, 1, 1, 1),
            65001,
            false,
        ),
        (
            "equal id, lower remote asn",
            Ipv4Addr::new(1, 1, 1, 1),
            64999,
            true,
        ),
        (
            "equal id, equal asn",
            Ipv4Addr::new(1, 1, 1, 1),
            65000,
            false,
        ),
    ];

    for (name, remote_id, remote_asn, expected) in cases {
        let peer = create_test_peer_with_state(BgpState::OpenSent);
        let open = OpenMessage::new(remote_asn, 180, remote_id.to_u32());
        assert_eq!(peer.local_wins_collision(&open), expected, "{}", name);
    }
}

#[test]
fn test_admin_shutdown_notification() {
    let notif = NotificationMessage::new(
        BgpError::Cease(CeaseSubcode::AdministrativeShutdown),
        Vec::new(),
    );
    let bytes = notif.to_bytes();
    assert_eq!(bytes[0], 6); // Cease error code
    assert_eq!(bytes[1], 2); // AdministrativeShutdown subcode
    assert_eq!(bytes.len(), 2); // No data
}

#[test]
fn test_update_rejected_in_non_established_states() {
    // Receiving an UPDATE message in any other state is an error."

    let non_established_states = vec![
        BgpState::Connect,
        BgpState::Active,
        BgpState::OpenSent,
        BgpState::OpenConfirm,
    ];

    for state in non_established_states {
        let mut peer = create_test_peer_with_state(state);
        peer.config.send_notification_without_open = true;

        let update = test_update();

        let result = peer.hear(BgpMessage::Update(update));

        assert!(
            result.is_err(),
            "UPDATE should cause error in {:?} state",
            state
        );
        assert_eq!(
            peer.state(),
            BgpState::Idle,
            "Peer should transition to Idle after UPDATE in {:?}",
            state
        );
        assert_eq!(
            peer.statistics.notification_sent, 1,
            "FSM error NOTIFICATION should be sent in {:?}",
            state
        );
    }
}

#[test]
fn test_update_accepted_in_established() {

    let mut peer = create_test_peer_with_state(BgpState::Established);
    peer.fsm.timers.start_hold_timer(NOW);

    let update = test_update();

    let result = peer.hear(BgpMessage::Update(update));

    assert!(
        result.is_ok(),
        "UPDATE should be accepted in Established state"
    );
    assert_eq!(
        peer.state(),
        BgpState::Established,
        "Peer should remain in Established state"
    );
    assert_eq!(
        peer.statistics.notification_sent, 0,
        "No NOTIFICATION should be sent for valid UPDATE"
    );
}

#[test]
fn test_llgr_capability_advertised() {
    let ipv4_unicast = AfiSafi::new(Afi::Ipv4, Safi::Unicast);

    let llgr = Some(LlgrConfig {
        enabled: true,
        stale_time: Some(3600),
        afi_safis: Some(vec![ipv4_unicast]),
    });

    let config = PeerConfig::default();
    // GR is enabled by default
    assert!(config.graceful_restart.enabled);

    let open_msg = create_open_message(65001, 180, Ipv4Addr::new(1, 1, 1, 1), &config, &llgr);

    // Find LLGR capability (code 71) in OPEN
    let has_llgr = open_msg
        .optional_params
        .iter()
        .flat_map(|p| p.capabilities().iter())
        .any(|cap| matches!(cap.code, BgpCapabiltyCode::Llgr));
    assert!(has_llgr, "OPEN should contain LLGR capability (code 71)");

    // Verify it round-trips through extract_capabilities
    let caps = extract_capabilities(&open_msg);
    let llgr = caps.llgr.expect("should have LLGR capability");
    assert_eq!(llgr.entries.len(), 1);
    assert_eq!(llgr.entries[0].afi_safi, ipv4_unicast);
    assert!(!llgr.entries[0].forwarding_preserved);
    assert_eq!(llgr.entries[0].stale_time, 3600);
}

#[test]
fn test_extract_capabilities_split_params() {
    let open_msg = OpenMessage {
        version: 4,
        asn: 65001,
        hold_time: 180,
        bgp_identifier: Ipv4Addr::new(1, 1, 1, 1).to_u32(),
        optional_params_len: 0,
        optional_params: vec![
            OptionalParam::from_capabilities(vec![Capability::new_multiprotocol(
                &AfiSafi::new(Afi::Ipv4, Safi::Unicast),
            )]),
            OptionalParam::from_capabilities(vec![Capability::new_route_refresh()]),
            OptionalParam::from_capabilities(vec![Capability::new_four_octet_asn(65001)]),
        ],
    };

    let caps = extract_capabilities(&open_msg);
    assert!(caps
        .multiprotocol
        .contains(&AfiSafi::new(Afi::Ipv4, Safi::Unicast)));
    assert!(caps.route_refresh);
    assert_eq!(caps.four_octet_asn, Some(65001));
}

#[test]
fn test_extract_capabilities_llgr_ignored_without_gr() {
    let ipv4_unicast = AfiSafi::new(Afi::Ipv4, Safi::Unicast);

    // Build an OPEN with LLGR but no GR capability
    let llgr_cap = Capability::new_llgr(&vec![LlgrEntry {
        afi_safi: ipv4_unicast,
        forwarding_preserved: false,
        stale_time: 3600,
    }]);
    let open_msg = OpenMessage {
        version: 4,
        asn: 65002,
        hold_time: 180,
        bgp_identifier: Ipv4Addr::new(2, 2, 2, 2).to_u32(),
        optional_params_len: 0,
        optional_params: vec![OptionalParam::from_capabilities(vec![llgr_cap])],
    };

    let caps = extract_capabilities(&open_msg);
    assert!(caps.llgr.is_none(), "LLGR should be ignored without GR");
}

#[test]
fn test_extract_capabilities_afi_safis() {
    let ls = AfiSafi::new(Afi::LinkState, Safi::LinkState);
    let ipv4_unicast = AfiSafi::new(Afi::Ipv4, Safi::Unicast);
    let ipv6_unicast = AfiSafi::new(Afi::Ipv6, Safi::Unicast);

    // Empty afi_safis: implicit IPv4 Unicast default only.
    let config = PeerConfig::default();
    assert!(config.afi_safis.is_empty());
    let open_msg = create_open_message(65001, 180, Ipv4Addr::new(1, 1, 1, 1), &config, &None);
    let caps = extract_capabilities(&open_msg);
    assert_eq!(caps.multiprotocol.len(), 1);
    assert!(caps.multiprotocol.contains(&ipv4_unicast));

    // Explicit list: only configured families are advertised, no implicit defaults.
    let config = PeerConfig {
        afi_safis: vec![
            AfiSafiConfig::new(Afi::Ipv4, Safi::Unicast),
            AfiSafiConfig::new(Afi::Ipv6, Safi::Unicast),
            AfiSafiConfig::new(Afi::LinkState, Safi::LinkState),
        ],
        ..PeerConfig::default()
    };
    let open_msg = create_open_message(65001, 180, Ipv4Addr::new(1, 1, 1, 1), &config, &None);
    let caps = extract_capabilities(&open_msg);
    assert_eq!(caps.multiprotocol.len(), 3);
    assert!(caps.multiprotocol.contains(&ipv4_unicast));
    assert!(caps.multiprotocol.contains(&ipv6_unicast));
    assert!(caps.multiprotocol.contains(&ls));
}

#[test]
fn test_capability_negotiation_intersection() {
    let ipv4_unicast = AfiSafi::new(Afi::Ipv4, Safi::Unicast);
    let ipv4_multicast = AfiSafi::new(Afi::Ipv4, Safi::Multicast);
    let ipv6_unicast = AfiSafi::new(Afi::Ipv6, Safi::Unicast);

    // (local_caps, peer_caps, expected_negotiated)
    let cases = vec![
        (vec![ipv4_unicast], vec![ipv4_unicast], vec![ipv4_unicast]),
        (
            vec![ipv4_unicast],
            vec![ipv4_unicast, ipv4_multicast],
            vec![ipv4_unicast],
        ),
        (vec![ipv4_unicast], vec![ipv6_unicast], vec![]),
        (
            vec![ipv4_unicast, ipv6_unicast],
            vec![ipv4_unicast, ipv6_unicast],
            vec![ipv4_unicast, ipv6_unicast],
        ),
        (
            vec![ipv4_unicast, ipv6_unicast],
            vec![ipv4_unicast],
            vec![ipv4_unicast],
        ),
    ];

    for (local_caps, peer_caps, expected) in cases {
        let mut peer = create_test_peer_with_state(BgpState::OpenSent);
        peer.config.afi_safis =
            local_caps.iter().map(|f| AfiSafiConfig::new(f.afi, f.safi)).collect();
        let mut peer_capabilities = PeerCapabilities::default();
        peer_capabilities.multiprotocol = AfiSafiSet::from_vec(&peer_caps);
        let params = BgpOpenParams {
            peer_asn: 65001,
            peer_hold_time: 180,
            peer_bgp_id: 0x02020202,
            local_asn: 65000,
            local_hold_time: 180,
            peer_capabilities,
        };
        let mut turn = Turn::new(100);
        let result = peer.enter_open_confirm(&params, NOW, &mut turn);
        if expected.is_empty() {
            assert_eq!(result, Err(IoError::NoCommonFamily));
        } else {
            assert_eq!(result, Ok(()));
            assert_eq!(
                peer.capabilities.multiprotocol.to_vec(),
                expected,
                "local={:?} peer={:?}",
                local_caps,
                peer_caps
            );
        }
    }
}

/// OPEN message roundtrip: encode -> decode -> extract_capabilities.
#[test]
fn test_open_message_roundtrip() {
    let config = PeerConfig {
        afi_safis: vec![
            AfiSafiConfig::new(Afi::Ipv4, Safi::Unicast),
            AfiSafiConfig::new(Afi::Ipv6, Safi::Unicast),
        ],
        ..PeerConfig::default()
    };
    let open_msg =
        create_open_message(4242423930, 180, Ipv4Addr::new(1, 1, 1, 1), &config, &None);

    // Serialize and reparse.
    let bytes = open_msg.to_bytes();
    let parsed = OpenMessage::from_bytes(bytes).expect("encoded OPEN must reparse");

    assert_eq!(parsed.asn, 4242423930, "AS4 must survive roundtrip");
    assert_eq!(parsed.hold_time, open_msg.hold_time);
    assert_eq!(parsed.bgp_identifier, open_msg.bgp_identifier);
    assert_eq!(parsed.optional_params, open_msg.optional_params);

    // Capabilities must survive the roundtrip.
    let caps = extract_capabilities(&parsed);
    assert!(caps
        .multiprotocol
        .contains(&AfiSafi::new(Afi::Ipv4, Safi::Unicast)));
    assert!(caps
        .multiprotocol
        .contains(&AfiSafi::new(Afi::Ipv6, Safi::Unicast)));
    assert!(caps.route_refresh);
    assert!(caps.enhanced_route_refresh);
    assert!(caps.graceful_restart.is_some());
    assert_eq!(caps.four_octet_asn, Some(4242423930));
}

#[test]
fn an_open_message_has_its_octets() {
    let bare = OpenMessage::new(65001, 180, Ipv4Addr::new(10, 0, 0, 1).to_u32());
    assert_eq!(bare.to_bytes(), vec![4, 0xfd, 0xe9, 0, 180, 10, 0, 0, 1, 0]);
    // A number of four octets is stood for by 23456.
    let large = OpenMessage::new(4242423930, 0, 1);
    assert_eq!(large.to_bytes(), vec![4, 0x5b, 0xa0, 0, 0, 0, 0, 0, 1, 0]);
    let with_param = OpenMessage {
        version: 4,
        asn: 1,
        hold_time: 90,
        bgp_identifier: 1,
        optional_params_len: 4,
        optional_params: vec![OptionalParam::from_capabilities(vec![
            Capability::new_route_refresh(),
        ])],
    };
    assert_eq!(with_param.to_bytes(), vec![4, 0, 1, 0, 90, 0, 0, 0, 1, 4, 2, 2, 2, 0]);
    assert_eq!(OpenMessage::from_bytes(with_param.to_bytes()), Some(with_param));
}

#[test]
fn broken_open_messages_are_not_read() {
    let whole = vec![4, 0, 1, 0, 90, 0, 0, 0, 1, 4, 2, 2, 2, 0];
    assert!(OpenMessage::from_bytes(whole.clone()).is_some());
    for i in 0..whole.len() {
        assert!(OpenMessage::from_bytes(whole[..i].to_vec()).is_none());
    }
    // Another parameter than capabilities.
    let mut other = whole.clone();
    other[10] = 1;
    assert!(OpenMessage::from_bytes(other).is_none());
    // A capability that is longer than its parameter.
    let mut long = whole.clone();
    long[13] = 1;
    assert!(OpenMessage::from_bytes(long).is_none());
    // A parameter that is longer than the message.
    let mut long = whole;
    long[11] = 3;
    assert!(OpenMessage::from_bytes(long).is_none());
}

#[test]
fn a_message_is_taken_apart_behind_its_header() {
    let mut bytes = vec![255; 16];
    bytes.extend([0, 21, 3, 6, 2]);
    assert_eq!(message_parts(&bytes), (3, vec![6, 2]));
    bytes.truncate(19);
    assert_eq!(message_parts(&bytes), (3, vec![]));
}
