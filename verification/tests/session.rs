//! Sessions: what happens in each state.

use bgpgg::bgp::msg_notification::{
    BgpError, CeaseSubcode, MessageHeaderError, NotificationMessage, OpenMessageError,
    UpdateMessageError,
};
use bgpgg::net::addr::{IpAddr, Ipv4Addr};
use bgpgg::peer::session::{ConnectionType, Turn};
use bgpgg::peer::{
    BgpOpenParams, BgpState, Fsm, FsmEvent, LocalConfig, Peer, PeerCapabilities, PeerError,
    SessionType,
};
use bgpgg::peer_config::PeerConfig;

/// The moment at which everything happens, in milliseconds.
const NOW: u64 = 1_000_000_000;

trait Step {
    fn step(&mut self, event: &FsmEvent) -> Result<(), PeerError>;
}

impl Step for Peer {
    fn step(&mut self, event: &FsmEvent) -> Result<(), PeerError> {
        let mut turn = Turn::new(100);
        self.process_event(event, NOW, &mut turn)
    }
}

fn create_test_peer_with_state(state: BgpState) -> Peer {
    let local_ip = IpAddr::V4(Ipv4Addr::new(127, 0, 0, 1));
    let local_config = LocalConfig {
        asn: 65000,
        bgp_id: Ipv4Addr::new(1, 1, 1, 1),
        hold_time: 180,
        addr: local_ip,
        port: 0,
        cluster_id: Ipv4Addr::new(1, 1, 1, 1),
        llgr: None,
    };
    let mut peer = Peer::new(
        local_ip,
        179,
        local_config,
        PeerConfig::default(),
        120,
        ConnectionType::Outgoing,
    );
    peer.fsm = Fsm::with_state(state, false);
    peer.connected = true;
    peer.asn = Some(65001);
    peer.bgp_id = Some(Ipv4Addr::new(10, 0, 0, 1));
    peer.session_type = Some(SessionType::Ebgp);
    peer.mrai_interval = 0;
    peer
}

#[test]
fn test_state() {
    let peer = create_test_peer_with_state(BgpState::Idle);
    assert_eq!(peer.state(), BgpState::Idle);

    let peer = create_test_peer_with_state(BgpState::Connect);
    assert_eq!(peer.state(), BgpState::Connect);

    let peer = create_test_peer_with_state(BgpState::Established);
    assert_eq!(peer.state(), BgpState::Established);
}

#[test]
fn test_manual_stop_session_states() {
    let test_cases = vec![
        BgpState::OpenSent,
        BgpState::OpenConfirm,
        BgpState::Established,
    ];

    for state in test_cases {
        let mut peer = create_test_peer_with_state(state);
        peer.fsm.connect_retry_counter = 5;
        peer.fsm.timers.start_connect_retry(NOW);
        peer.fsm.timers.start_hold_timer(NOW);
        peer.fsm.timers.start_keepalive_timer(NOW);

        peer.step(&FsmEvent::ManualStop).unwrap();

        assert_eq!(peer.state(), BgpState::Idle);
        assert!(peer.manually_stopped);
        assert!(!peer.connected);
        assert_eq!(
            peer.fsm.connect_retry_counter, 0,
            "ConnectRetryCounter should be reset to 0"
        );
        assert!(
            peer.fsm.timers.connect_retry_started.is_none(),
            "ConnectRetryTimer should be stopped"
        );
        assert!(peer.fsm.timers.hold_timer_started.is_none());
        assert!(peer.fsm.timers.keepalive_timer_started.is_none());
    }
}

#[test]
fn test_update_msg_err_in_session_states() {
    for state in [
        BgpState::OpenSent,
        BgpState::OpenConfirm,
        BgpState::Established,
    ] {
        let mut peer = create_test_peer_with_state(state);
        peer.fsm.timers.start_hold_timer(NOW);
        peer.fsm.timers.start_keepalive_timer(NOW);
        peer.config.send_notification_without_open = true;

        let notif = NotificationMessage::new(
            BgpError::UpdateMessageError(UpdateMessageError::MalformedAttributeList),
            vec![],
        );

        // Process the event - should send NOTIFICATION and transition to Idle
        peer.step(&FsmEvent::BgpUpdateMsgErr(notif.clone()))
            .unwrap_err(); // Should return error

        assert_eq!(peer.state(), BgpState::Idle);
        assert!(peer.fsm.timers.hold_timer_started.is_none());
        assert!(peer.fsm.timers.keepalive_timer_started.is_none());
        assert!(!peer.connected);
        // Verify notification was sent (check statistics)
        assert_eq!(peer.statistics.notification_sent, 1);
    }
}

#[test]
fn test_automatic_stop_in_session_states() {
    for state in [
        BgpState::OpenSent,
        BgpState::OpenConfirm,
        BgpState::Established,
    ] {
        let mut peer = create_test_peer_with_state(state);
        peer.fsm.connect_retry_counter = 2;
        peer.fsm.timers.start_connect_retry(NOW);
        peer.fsm.timers.start_hold_timer(NOW);
        peer.fsm.timers.start_keepalive_timer(NOW);
        peer.statistics.open_sent = 1;

        let result = peer.step(&FsmEvent::AutomaticStop(CeaseSubcode::MaxPrefixesReached));
        assert!(result.is_err(), "AutomaticStop should return error");

        assert_eq!(peer.state(), BgpState::Idle);
        assert!(
            peer.fsm.timers.connect_retry_started.is_none(),
            "ConnectRetryTimer should be set to zero"
        );
        assert_eq!(
            peer.fsm.connect_retry_counter, 3,
            "ConnectRetryCounter should be incremented"
        );
        assert!(!peer.connected, "TCP connection should be dropped");
        assert!(peer.fsm.timers.hold_timer_started.is_none());
        assert!(peer.fsm.timers.keepalive_timer_started.is_none());
        assert_eq!(
            peer.statistics.notification_sent, 1,
            "NOTIFICATION with Cease should be sent"
        );
    }
}

#[test]
fn test_hold_timer_expires_in_session_states() {
    for state in [
        BgpState::OpenSent,
        BgpState::OpenConfirm,
        BgpState::Established,
    ] {
        let mut peer = create_test_peer_with_state(state);
        peer.fsm.connect_retry_counter = 1;
        peer.fsm.timers.start_connect_retry(NOW);
        peer.fsm.timers.start_hold_timer(NOW);
        peer.fsm.timers.start_keepalive_timer(NOW);
        peer.statistics.open_sent = 1;

        peer.step(&FsmEvent::HoldTimerExpires)
            .unwrap();

        assert_eq!(peer.state(), BgpState::Idle);
        assert!(
            peer.fsm.timers.connect_retry_started.is_none(),
            "ConnectRetryTimer should be set to zero"
        );
        assert_eq!(
            peer.fsm.connect_retry_counter, 2,
            "ConnectRetryCounter should be incremented"
        );
        assert!(!peer.connected, "TCP connection should be dropped");
        assert!(peer.fsm.timers.hold_timer_started.is_none());
        assert!(peer.fsm.timers.keepalive_timer_started.is_none());
        assert_eq!(
            peer.statistics.notification_sent, 1,
            "NOTIFICATION with HoldTimerExpired should be sent"
        );
    }
}

#[test]
fn test_open_received_hold_time_zero() {
    let mut peer = create_test_peer_with_state(BgpState::Connect);

    peer.step(&FsmEvent::BgpOpenWithDelayOpenTimer(BgpOpenParams {
        peer_asn: 65001,
        peer_hold_time: 0, // Peer wants no hold timer
        peer_bgp_id: 0x02020202,
        local_asn: 65000,
        local_hold_time: 180,
        peer_capabilities: PeerCapabilities::default(),
    }))
    .unwrap();

    // Verify state transition
    assert_eq!(peer.state(), BgpState::OpenConfirm);
    // Verify hold time negotiated to zero (min of 0 and 180)
    assert_eq!(peer.fsm.timers.hold_time, 0);
    assert_eq!(peer.fsm.timers.keepalive_time, 0);
    // Verify timers are NOT started when hold_time is zero
    assert!(peer.fsm.timers.hold_timer_started.is_none());
    assert!(peer.fsm.timers.keepalive_timer_started.is_none());
    // Verify KEEPALIVE was still sent
    assert_eq!(peer.statistics.keepalive_sent, 1);
}

#[test]
fn test_connect_retry_timer_started_on_idle_transition() {
    let test_cases = vec![
        (FsmEvent::ManualStart, BgpState::Connect),
        (FsmEvent::AutomaticStart, BgpState::Connect),
        (FsmEvent::ManualStartPassive, BgpState::Active),
        (FsmEvent::AutomaticStartPassive, BgpState::Active),
    ];

    for (event, expected_state) in test_cases {
        let mut peer = create_test_peer_with_state(BgpState::Idle);
        assert!(
            peer.fsm.timers.connect_retry_started.is_none(),
            "ConnectRetryTimer should not be started initially"
        );

        peer.step(&event).unwrap();

        assert_eq!(
            peer.state(),
            expected_state,
            "State should transition to {:?}",
            expected_state
        );
        assert_eq!(
            peer.fsm.connect_retry_counter, 0,
            "ConnectRetryCounter should be set to 0 after {:?}",
            event
        );
        assert!(
            peer.fsm.timers.connect_retry_started.is_some(),
            "ConnectRetryTimer should be started after {:?}",
            event
        );
    }
}

#[test]
fn test_bgp_message_errors_in_connect_active() {
    let cases = vec![
        (
            BgpState::Connect,
            BgpError::MessageHeaderError(MessageHeaderError::BadMessageLength),
            false,
            0,
        ),
        (
            BgpState::Connect,
            BgpError::OpenMessageError(OpenMessageError::UnsupportedVersionNumber),
            true,
            1,
        ),
    ];

    for (state, error, send_notif, expected_notif) in cases {
        let mut peer = create_test_peer_with_state(state);
        peer.fsm.timers.start_connect_retry(NOW);
        peer.config.send_notification_without_open = send_notif;
        peer.config.damp_peer_oscillations = true;
        let initial_down_count = peer.consecutive_down_count;
        let notif = NotificationMessage::new(error.clone(), vec![]);
        let event = match error {
            BgpError::MessageHeaderError(_) => FsmEvent::BgpHeaderErr(notif),
            BgpError::OpenMessageError(_) => FsmEvent::BgpOpenMsgErr(notif),
            _ => panic!("unexpected error type"),
        };

        peer.step(&event).unwrap();

        assert_eq!(peer.state(), BgpState::Idle);
        assert!(!peer.connected, "TCP connection should be dropped");
        assert!(
            peer.fsm.timers.connect_retry_started.is_none(),
            "ConnectRetryTimer should be stopped (set to zero)"
        );
        assert!(
            !peer.fsm.timers.delay_open_timer_running(),
            "DelayOpenTimer should be stopped"
        );
        assert_eq!(
            peer.fsm.connect_retry_counter, 1,
            "ConnectRetryCounter should be incremented"
        );
        assert_eq!(peer.statistics.notification_sent, expected_notif);
        assert_eq!(
            peer.consecutive_down_count,
            initial_down_count + 1,
            "DampPeerOscillations should increment consecutive_down_count"
        );
    }
}

#[test]
fn test_notification_received_in_connect() {
    let notif_ver = NotificationMessage::new(
        BgpError::OpenMessageError(OpenMessageError::UnsupportedVersionNumber),
        vec![],
    );
    let notif = NotificationMessage::new(
        BgpError::Cease(CeaseSubcode::AdministrativeShutdown),
        vec![],
    );

    let cases = vec![
        (FsmEvent::NotifMsgVerErr(notif_ver.clone()), true, 0, 0),
        (FsmEvent::NotifMsgVerErr(notif_ver.clone()), false, 1, 1),
        (FsmEvent::NotifMsg(notif.clone()), true, 1, 1),
        (FsmEvent::NotifMsg(notif.clone()), false, 1, 1),
    ];

    for (event, delay_open_running, expected_down_count, expected_counter) in cases {
        let mut peer = create_test_peer_with_state(BgpState::Connect);
        peer.fsm.timers.start_connect_retry(NOW);
        if delay_open_running {
            peer.fsm.timers.start_delay_open_timer(NOW);
        }
        peer.config.damp_peer_oscillations = true;

        peer.step(&event).unwrap();

        assert_eq!(peer.state(), BgpState::Idle);
        assert!(!peer.connected);
        assert!(peer.fsm.timers.connect_retry_started.is_none());
        assert!(!peer.fsm.timers.delay_open_timer_running());
        assert_eq!(peer.consecutive_down_count, expected_down_count);
        assert_eq!(peer.fsm.connect_retry_counter, expected_counter);
    }
}

#[test]
fn test_connect_retry_expires_in_connect_resets_everything() {
    let mut peer = create_test_peer_with_state(BgpState::Connect);

    peer.fsm.timers.start_connect_retry(NOW);
    peer.fsm.timers.start_delay_open_timer(NOW);

    assert!(peer.connected, "Test peer should have connection");
    assert!(peer.fsm.timers.delay_open_timer_running());
    assert!(peer.fsm.timers.connect_retry_started.is_some());

    peer.step(&FsmEvent::ConnectRetryTimerExpires)
        .unwrap();

    assert!(!peer.connected, "Connection should be dropped");
    assert!(
        !peer.fsm.timers.delay_open_timer_running(),
        "DelayOpenTimer should be stopped"
    );
    assert!(
        peer.fsm.timers.connect_retry_started.is_some(),
        "ConnectRetryTimer should be restarted"
    );
    assert_eq!(peer.state(), BgpState::Connect);
}

#[test]
fn test_manual_stop_connect() {
    let mut peer = create_test_peer_with_state(BgpState::Connect);
    peer.fsm.connect_retry_counter = 5;
    peer.fsm.timers.start_connect_retry(NOW);

    peer.step(&FsmEvent::ManualStop).unwrap();

    assert_eq!(peer.state(), BgpState::Idle);
    assert!(peer.manually_stopped);
    assert_eq!(peer.fsm.connect_retry_counter, 0);
    assert!(peer.fsm.timers.connect_retry_started.is_none());
    assert!(!peer.connected);
}

#[test]
fn test_tcp_connection_fails_connect() {
    {
        let mut peer = create_test_peer_with_state(BgpState::Connect);
        assert!(peer.connected);

        peer.step(&FsmEvent::TcpConnectionFails)
            .unwrap();

        assert_eq!(peer.state(), BgpState::Idle);
        assert!(!peer.connected);
        assert!(peer.fsm.timers.connect_retry_started.is_none());
        assert_eq!(peer.fsm.connect_retry_counter, 0);
    }

    {
        let mut peer = create_test_peer_with_state(BgpState::Connect);
        peer.fsm.timers.start_delay_open_timer(NOW);
        assert!(peer.connected);

        peer.step(&FsmEvent::TcpConnectionFails)
            .unwrap();

        assert_eq!(peer.state(), BgpState::Active);
        assert!(!peer.connected);
        assert!(!peer.fsm.timers.delay_open_timer_running());
        assert!(peer.fsm.timers.connect_retry_started.is_some());
    }
}

#[test]
fn test_open_received_in_connect_stops_timers() {
    let mut peer = create_test_peer_with_state(BgpState::Connect);
    peer.fsm.timers.start_connect_retry(NOW);
    peer.fsm.timers.start_delay_open_timer(NOW);
    assert!(peer.fsm.timers.connect_retry_started.is_some());
    assert!(peer.fsm.timers.delay_open_timer_running());
    assert_eq!(peer.statistics.open_sent, 0);
    assert_eq!(peer.statistics.keepalive_sent, 0);

    peer.step(&FsmEvent::BgpOpenWithDelayOpenTimer(BgpOpenParams {
        peer_asn: 65001,
        peer_hold_time: 180,
        peer_bgp_id: 0x02020202,
        local_asn: 65000,
        local_hold_time: 180,
        peer_capabilities: PeerCapabilities::default(),
    }))
    .unwrap();

    assert_eq!(peer.state(), BgpState::OpenConfirm);
    assert!(peer.fsm.timers.connect_retry_started.is_none());
    assert!(!peer.fsm.timers.delay_open_timer_running());
    assert_eq!(peer.statistics.open_sent, 1);
    assert_eq!(peer.statistics.keepalive_sent, 1);
    assert!(peer.fsm.timers.hold_timer_started.is_some());
    assert!(peer.fsm.timers.keepalive_timer_started.is_some());
    assert_eq!(peer.fsm.timers.hold_time, 180);
    assert_eq!(peer.fsm.timers.keepalive_time, 60);
}

#[test]
fn test_delay_open_timer_expires_connect() {
    let mut peer = create_test_peer_with_state(BgpState::Connect);
    peer.fsm.timers.start_connect_retry(NOW);
    peer.fsm.timers.start_delay_open_timer(NOW);
    assert_eq!(peer.statistics.open_sent, 0);

    peer.step(&FsmEvent::DelayOpenTimerExpires)
        .unwrap();

    assert_eq!(peer.state(), BgpState::OpenSent);
    assert!(!peer.fsm.timers.delay_open_timer_running());
    assert!(
        peer.fsm.timers.connect_retry_started.is_some(),
        "ConnectRetryTimer should NOT be stopped in Connect state"
    );
    assert!(peer.fsm.timers.hold_timer_started.is_some());
    assert_eq!(peer.statistics.open_sent, 1);
}

#[test]
fn test_tcp_connection_success_connect() {
    let cases = vec![(None, BgpState::OpenSent), (Some(5), BgpState::Connect)];

    for (delay_open, expected_state) in cases {
        let mut peer = create_test_peer_with_state(BgpState::Connect);
        peer.fsm.timers.start_connect_retry(NOW);
        peer.config.delay_open_time_secs = delay_open;

        if delay_open.is_none() {
            peer.step(&FsmEvent::TcpConnectionConfirmed)
                .unwrap();

            assert_eq!(peer.state(), expected_state);
            assert!(peer.fsm.timers.connect_retry_started.is_none());
            assert!(peer.fsm.timers.hold_timer_started.is_some());
            assert_eq!(peer.statistics.open_sent, 1);
        } else {
            peer.fsm.timers.stop_connect_retry();
            peer.fsm.timers.start_delay_open_timer(NOW);

            assert_eq!(peer.state(), expected_state);
            assert!(peer.fsm.timers.connect_retry_started.is_none());
            assert!(peer.fsm.timers.delay_open_timer_running());
            assert_eq!(peer.statistics.open_sent, 0);
        }
    }
}

#[test]
fn test_connect_other_events() {
    // Events that transition to Idle without FSM error
    let events_no_error = vec![
        FsmEvent::AutomaticStop(CeaseSubcode::MaxPrefixesReached),
        FsmEvent::HoldTimerExpires,
        FsmEvent::KeepaliveTimerExpires,
        FsmEvent::IdleHoldTimerExpires,
        FsmEvent::BgpOpenReceived(BgpOpenParams {
            peer_asn: 65001,
            peer_hold_time: 180,
            peer_bgp_id: 0x02020202,
            local_asn: 65000,
            local_hold_time: 180,
            peer_capabilities: PeerCapabilities::default(),
        }),
        FsmEvent::BgpUpdateMsgErr(NotificationMessage::new(
            BgpError::UpdateMessageError(UpdateMessageError::MalformedAttributeList),
            vec![],
        )),
    ];
    let events_fsm_error = vec![FsmEvent::BgpKeepaliveReceived, FsmEvent::BgpUpdateReceived];

    let cases = vec![(true, true), (false, false)];

    for (start_connect_retry_timer, start_delay_open_timer) in cases {
        // Test events that don't cause FSM error
        for event in &events_no_error {
            let mut peer = create_test_peer_with_state(BgpState::Connect);
            if start_connect_retry_timer {
                peer.fsm.timers.start_connect_retry(NOW);
            }
            if start_delay_open_timer {
                peer.fsm.timers.start_delay_open_timer(NOW);
            }
            peer.config.damp_peer_oscillations = true;

            peer.step(event).unwrap();

            assert_eq!(peer.state(), BgpState::Idle);
            assert!(peer.fsm.timers.connect_retry_started.is_none());
            assert!(peer.fsm.timers.delay_open_timer_started.is_none());
            assert!(!peer.connected);
            assert_eq!(peer.fsm.connect_retry_counter, 1);
            assert_eq!(peer.consecutive_down_count, 1);
        }

        // Test events that cause FSM error
        for event in &events_fsm_error {
            let mut peer = create_test_peer_with_state(BgpState::Connect);
            if start_connect_retry_timer {
                peer.fsm.timers.start_connect_retry(NOW);
            }
            if start_delay_open_timer {
                peer.fsm.timers.start_delay_open_timer(NOW);
            }
            peer.config.damp_peer_oscillations = true;
            peer.config.send_notification_without_open = true;

            let result = peer.step(event);
            assert!(result.is_err(), "FSM error expected for {:?}", event);

            assert_eq!(peer.state(), BgpState::Idle);
            assert!(peer.fsm.timers.connect_retry_started.is_none());
            assert!(peer.fsm.timers.delay_open_timer_started.is_none());
            assert!(!peer.connected);
            assert_eq!(peer.fsm.connect_retry_counter, 1);
            assert_eq!(peer.consecutive_down_count, 1);
            assert_eq!(peer.statistics.notification_sent, 1);
        }
    }
}

#[test]
fn test_manual_stop_active() {
    let cases = vec![
        (true, true, 1),
        (true, false, 0),
        (false, true, 0),
        (false, false, 0),
    ];

    for (delay_open_running, send_notif_config, expected_notif) in cases {
        let mut peer = create_test_peer_with_state(BgpState::Active);
        peer.fsm.connect_retry_counter = 3;
        peer.fsm.timers.start_connect_retry(NOW);
        peer.config.send_notification_without_open = send_notif_config;

        if delay_open_running {
            peer.fsm.timers.start_delay_open_timer(NOW);
        }

        peer.step(&FsmEvent::ManualStop).unwrap();

        assert_eq!(peer.state(), BgpState::Idle);
        assert!(peer.manually_stopped);
        assert_eq!(peer.fsm.connect_retry_counter, 0);
        assert!(peer.fsm.timers.connect_retry_started.is_none());
        assert!(peer.fsm.timers.delay_open_timer_started.is_none());
        assert!(!peer.connected);
        assert_eq!(peer.statistics.notification_sent, expected_notif);
    }
}

#[test]
fn test_connect_retry_timer_expires_active() {
    let mut peer = create_test_peer_with_state(BgpState::Active);
    peer.fsm.timers.start_connect_retry(NOW - 10);
    let timer_before = peer.fsm.timers.connect_retry_started;

    peer.step(&FsmEvent::ConnectRetryTimerExpires)
        .unwrap();

    assert_eq!(peer.state(), BgpState::Connect);
    let timer_after = peer.fsm.timers.connect_retry_started;
    assert!(timer_after.is_some(), "ConnectRetryTimer should be running");
    assert_ne!(timer_before, timer_after);
}

#[test]
fn test_delay_open_timer_expires_active() {
    let mut peer = create_test_peer_with_state(BgpState::Active);
    peer.fsm.timers.start_connect_retry(NOW);
    peer.fsm.timers.start_delay_open_timer(NOW);
    assert_eq!(peer.statistics.open_sent, 0);

    peer.step(&FsmEvent::DelayOpenTimerExpires)
        .unwrap();

    assert_eq!(peer.state(), BgpState::OpenSent);
    assert!(!peer.fsm.timers.delay_open_timer_running());
    assert!(peer.fsm.timers.connect_retry_started.is_none());
    assert!(peer.fsm.timers.hold_timer_started.is_some());
    assert_eq!(peer.statistics.open_sent, 1);
}

#[test]
fn test_tcp_connection_fails_active() {
    let mut peer = create_test_peer_with_state(BgpState::Active);
    peer.fsm.timers.start_delay_open_timer(NOW);
    peer.config.damp_peer_oscillations = true;
    assert!(peer.connected);

    peer.step(&FsmEvent::TcpConnectionFails)
        .unwrap();

    assert_eq!(peer.state(), BgpState::Idle);
    assert!(!peer.connected);
    assert!(!peer.fsm.timers.delay_open_timer_running());
    assert!(peer.fsm.timers.connect_retry_started.is_some());
    assert_eq!(peer.fsm.connect_retry_counter, 1);
    assert_eq!(peer.consecutive_down_count, 1);
}

#[test]
fn test_open_received_in_active_stops_timers() {
    let mut peer = create_test_peer_with_state(BgpState::Active);
    peer.fsm.timers.start_connect_retry(NOW);
    peer.fsm.timers.start_delay_open_timer(NOW);
    assert!(peer.fsm.timers.connect_retry_started.is_some());
    assert!(peer.fsm.timers.delay_open_timer_running());
    assert_eq!(peer.statistics.open_sent, 0);
    assert_eq!(peer.statistics.keepalive_sent, 0);

    peer.step(&FsmEvent::BgpOpenWithDelayOpenTimer(BgpOpenParams {
        peer_asn: 65001,
        peer_hold_time: 180,
        peer_bgp_id: 0x02020202,
        local_asn: 65000,
        local_hold_time: 180,
        peer_capabilities: PeerCapabilities::default(),
    }))
    .unwrap();

    assert_eq!(peer.state(), BgpState::OpenConfirm);
    assert!(peer.fsm.timers.connect_retry_started.is_none());
    assert!(!peer.fsm.timers.delay_open_timer_running());
    assert_eq!(peer.statistics.open_sent, 1);
    assert_eq!(peer.statistics.keepalive_sent, 1);
    assert!(peer.fsm.timers.hold_timer_started.is_some());
    assert!(peer.fsm.timers.keepalive_timer_started.is_some());
    assert_eq!(peer.fsm.timers.hold_time, 180);
    assert_eq!(peer.fsm.timers.keepalive_time, 60);
}

#[test]
fn test_open_received_in_active_hold_time_zero() {
    let mut peer = create_test_peer_with_state(BgpState::Active);
    peer.fsm.timers.start_connect_retry(NOW);
    peer.fsm.timers.start_delay_open_timer(NOW);

    peer.step(&FsmEvent::BgpOpenWithDelayOpenTimer(BgpOpenParams {
        peer_asn: 65001,
        peer_hold_time: 0,
        peer_bgp_id: 0x02020202,
        local_asn: 65000,
        local_hold_time: 180,
        peer_capabilities: PeerCapabilities::default(),
    }))
    .unwrap();

    assert_eq!(peer.state(), BgpState::OpenConfirm);
    assert!(peer.fsm.timers.connect_retry_started.is_none());
    assert!(!peer.fsm.timers.delay_open_timer_running());
    assert_eq!(peer.fsm.timers.hold_time, 0);
    assert_eq!(peer.fsm.timers.keepalive_time, 0);
    assert!(peer.fsm.timers.hold_timer_started.is_none());
    assert!(peer.fsm.timers.keepalive_timer_started.is_none());
    assert_eq!(peer.statistics.keepalive_sent, 1);
}

#[test]
fn test_tcp_connection_success_active() {
    let cases = vec![(None, BgpState::OpenSent), (Some(5), BgpState::Active)];

    for (delay_open, expected_state) in cases {
        let mut peer = create_test_peer_with_state(BgpState::Active);
        peer.fsm.timers.start_connect_retry(NOW);
        peer.config.delay_open_time_secs = delay_open;

        if delay_open.is_none() {
            peer.step(&FsmEvent::TcpConnectionConfirmed)
                .unwrap();

            assert_eq!(peer.state(), expected_state);
            assert!(peer.fsm.timers.connect_retry_started.is_none());
            assert!(peer.fsm.timers.hold_timer_started.is_some());
            assert_eq!(peer.statistics.open_sent, 1);
        } else {
            peer.fsm.timers.stop_connect_retry();
            peer.fsm.timers.start_delay_open_timer(NOW);

            assert_eq!(peer.state(), expected_state);
            assert!(peer.fsm.timers.connect_retry_started.is_none());
            assert!(peer.fsm.timers.delay_open_timer_running());
            assert_eq!(peer.statistics.open_sent, 0);
        }
    }
}

#[test]
fn test_opensent_tcp_connection_fails() {
    let mut peer = create_test_peer_with_state(BgpState::OpenSent);
    peer.fsm.timers.start_hold_timer(NOW);
    assert!(peer.connected);
    assert!(peer.fsm.timers.connect_retry_started.is_none());

    peer.step(&FsmEvent::TcpConnectionFails)
        .unwrap();

    assert_eq!(peer.state(), BgpState::Active);
    assert!(!peer.connected);
    assert!(peer.fsm.timers.connect_retry_started.is_some());
}

#[test]
fn test_opensent_open_received_hold_time_negotiation() {
    let cases = vec![
        (180, 180, 180, 60),
        (180, 90, 90, 30),
        (90, 180, 90, 30),
        (240, 120, 120, 40),
        (180, 0, 0, 0),
        (0, 180, 0, 0),
    ];

    for (local_hold, peer_hold, expected_hold, expected_keepalive) in cases {
        let mut peer = create_test_peer_with_state(BgpState::OpenSent);
        peer.fsm.timers.start_connect_retry(NOW);
        peer.fsm.timers.start_delay_open_timer(NOW);

        peer.step(&FsmEvent::BgpOpenReceived(BgpOpenParams {
            peer_asn: 65001,
            peer_hold_time: peer_hold,
            peer_bgp_id: 0x02020202,
            local_asn: 65000,
            local_hold_time: local_hold,
            peer_capabilities: PeerCapabilities::default(),
        }))
        .unwrap();

        assert_eq!(peer.state(), BgpState::OpenConfirm);
        assert!(peer.fsm.timers.delay_open_timer_started.is_none());
        assert!(peer.fsm.timers.connect_retry_started.is_none());
        assert_eq!(peer.statistics.keepalive_sent, 1);
        assert_eq!(peer.fsm.timers.hold_time, expected_hold);
        assert_eq!(peer.fsm.timers.keepalive_time, expected_keepalive);

        if expected_hold == 0 {
            assert!(peer.fsm.timers.hold_timer_started.is_none());
            assert!(peer.fsm.timers.keepalive_timer_started.is_none());
        } else {
            assert!(peer.fsm.timers.hold_timer_started.is_some());
            assert!(peer.fsm.timers.keepalive_timer_started.is_some());
        }
    }
}

#[test]
fn test_opensent_bgp_message_errors() {
    let errors = vec![
        BgpError::MessageHeaderError(MessageHeaderError::BadMessageLength),
        BgpError::OpenMessageError(OpenMessageError::UnsupportedVersionNumber),
    ];

    for error in errors {
        let mut peer = create_test_peer_with_state(BgpState::OpenSent);
        peer.fsm.connect_retry_counter = 2;
        peer.fsm.timers.start_connect_retry(NOW);
        peer.statistics.open_sent = 1;

        let notif = NotificationMessage::new(error, vec![]);
        let event = match notif.error() {
            BgpError::MessageHeaderError(_) => FsmEvent::BgpHeaderErr(notif),
            BgpError::OpenMessageError(_) => FsmEvent::BgpOpenMsgErr(notif),
            _ => panic!("unexpected error type"),
        };

        peer.step(&event).unwrap();

        assert_eq!(peer.state(), BgpState::Idle);
        assert!(peer.fsm.timers.connect_retry_started.is_none());
        assert_eq!(peer.fsm.connect_retry_counter, 3);
        assert!(!peer.connected);
        assert_eq!(peer.statistics.notification_sent, 1);
    }
}

#[test]
fn test_opensent_notification_received() {
    let notif_ver = NotificationMessage::new(
        BgpError::OpenMessageError(OpenMessageError::UnsupportedVersionNumber),
        vec![],
    );
    let notif = NotificationMessage::new(
        BgpError::Cease(CeaseSubcode::AdministrativeShutdown),
        vec![],
    );

    let cases = vec![
        (FsmEvent::NotifMsgVerErr(notif_ver), 0, 0),
        (FsmEvent::NotifMsg(notif), 1, 1),
    ];

    for (event, expected_down_count, expected_counter) in cases {
        let mut peer = create_test_peer_with_state(BgpState::OpenSent);
        peer.fsm.timers.start_connect_retry(NOW);
        peer.config.damp_peer_oscillations = true;

        peer.step(&event).unwrap();

        assert_eq!(peer.state(), BgpState::Idle);
        assert!(!peer.connected);
        assert!(peer.fsm.timers.connect_retry_started.is_none());
        assert_eq!(peer.consecutive_down_count, expected_down_count);
        assert_eq!(peer.fsm.connect_retry_counter, expected_counter);
    }
}

#[test]
fn test_opensent_fsm_errors() {
    let events = vec![
        FsmEvent::ConnectRetryTimerExpires,
        FsmEvent::KeepaliveTimerExpires,
        FsmEvent::DelayOpenTimerExpires,
        FsmEvent::IdleHoldTimerExpires,
        FsmEvent::BgpKeepaliveReceived,
        FsmEvent::BgpUpdateReceived,
    ];

    for event in events {
        let mut peer = create_test_peer_with_state(BgpState::OpenSent);
        peer.fsm.timers.start_connect_retry(NOW);
        peer.config.damp_peer_oscillations = true;
        peer.statistics.open_sent = 1;

        let result = peer.step(&event);

        assert!(result.is_err());
        assert!(matches!(result.unwrap_err(), PeerError::FsmError));
        assert_eq!(peer.state(), BgpState::Idle);
        assert!(!peer.connected);
        assert!(peer.fsm.timers.connect_retry_started.is_none());
        assert_eq!(peer.fsm.connect_retry_counter, 1);
        assert_eq!(peer.consecutive_down_count, 1);
        assert_eq!(peer.statistics.notification_sent, 1);
    }
}

#[test]
fn test_opensent_ignores_start_events() {
    let start_events = vec![
        FsmEvent::ManualStart,
        FsmEvent::AutomaticStart,
        FsmEvent::ManualStartPassive,
        FsmEvent::AutomaticStartPassive,
    ];

    for event in start_events {
        let mut peer = create_test_peer_with_state(BgpState::OpenSent);
        let initial_counter = peer.fsm.connect_retry_counter;

        peer.step(&event).unwrap();

        assert_eq!(peer.state(), BgpState::OpenSent);
        assert_eq!(peer.fsm.connect_retry_counter, initial_counter);
        assert!(peer.connected);
    }
}

#[test]
fn test_opensent_automatic_stop_damping() {
    let mut peer = create_test_peer_with_state(BgpState::OpenSent);
    peer.config.damp_peer_oscillations = true;
    peer.consecutive_down_count = 0;
    peer.fsm.connect_retry_counter = 1;
    peer.config.send_notification_without_open = true;

    let result = peer.step(&FsmEvent::AutomaticStop(CeaseSubcode::MaxPrefixesReached));

    assert!(result.is_err());
    assert_eq!(peer.state(), BgpState::Idle);
    assert_eq!(peer.consecutive_down_count, 1);
    assert_eq!(peer.fsm.connect_retry_counter, 2);
}

#[test]
fn test_openconfirm_ignores_start_events() {
    let start_events = vec![
        FsmEvent::ManualStart,
        FsmEvent::AutomaticStart,
        FsmEvent::ManualStartPassive,
        FsmEvent::AutomaticStartPassive,
    ];

    for event in start_events {
        let mut peer = create_test_peer_with_state(BgpState::OpenConfirm);
        peer.fsm.timers.start_hold_timer(NOW);
        peer.fsm.timers.start_keepalive_timer(NOW);
        let initial_counter = peer.fsm.connect_retry_counter;

        peer.step(&event).unwrap();

        assert_eq!(peer.state(), BgpState::OpenConfirm);
        assert!(peer.connected);
        assert_eq!(peer.fsm.connect_retry_counter, initial_counter);
        assert!(peer.fsm.timers.hold_timer_started.is_some());
        assert!(peer.fsm.timers.keepalive_timer_started.is_some());
    }
}

#[test]
fn test_openconfirm_manual_stop() {
    let mut peer = create_test_peer_with_state(BgpState::OpenConfirm);
    peer.fsm.connect_retry_counter = 5;
    peer.fsm.timers.start_hold_timer(NOW);
    peer.fsm.timers.start_keepalive_timer(NOW);
    peer.config.send_notification_without_open = true;

    peer.step(&FsmEvent::ManualStop).unwrap();

    assert_eq!(peer.state(), BgpState::Idle);
    assert!(!peer.connected, "TCP connection should be dropped");
    assert_eq!(
        peer.fsm.connect_retry_counter, 0,
        "ConnectRetryCounter should be zero"
    );
    assert!(
        peer.fsm.timers.connect_retry_started.is_none(),
        "ConnectRetryTimer should be zero"
    );
    assert!(
        peer.fsm.timers.hold_timer_started.is_none(),
        "Hold timer should be stopped"
    );
    assert!(
        peer.fsm.timers.keepalive_timer_started.is_none(),
        "Keepalive timer should be stopped"
    );
    assert_eq!(
        peer.statistics.notification_sent, 1,
        "NOTIFICATION with Cease should be sent"
    );
}

#[test]
fn test_openconfirm_automatic_stop() {
    let mut peer = create_test_peer_with_state(BgpState::OpenConfirm);
    peer.fsm.connect_retry_counter = 2;
    peer.fsm.timers.start_hold_timer(NOW);
    peer.fsm.timers.start_keepalive_timer(NOW);
    peer.config.send_notification_without_open = true;

    let result = peer.step(&FsmEvent::AutomaticStop(CeaseSubcode::MaxPrefixesReached));

    assert!(result.is_err(), "AutomaticStop should return error");
    assert_eq!(peer.state(), BgpState::Idle);
    assert!(!peer.connected, "TCP connection should be dropped");
    assert!(
        peer.fsm.timers.connect_retry_started.is_none(),
        "ConnectRetryTimer should be zero"
    );
    assert_eq!(
        peer.fsm.connect_retry_counter, 3,
        "ConnectRetryCounter should be incremented by 1"
    );
    assert!(
        peer.fsm.timers.hold_timer_started.is_none(),
        "Hold timer should be stopped"
    );
    assert!(
        peer.fsm.timers.keepalive_timer_started.is_none(),
        "Keepalive timer should be stopped"
    );
    assert_eq!(
        peer.statistics.notification_sent, 1,
        "NOTIFICATION with Cease should be sent"
    );
}

#[test]
fn test_openconfirm_automatic_stop_with_damping() {
    let mut peer = create_test_peer_with_state(BgpState::OpenConfirm);
    peer.fsm.connect_retry_counter = 1;
    peer.config.damp_peer_oscillations = true;
    peer.consecutive_down_count = 0;
    peer.config.send_notification_without_open = true;

    let result = peer.step(&FsmEvent::AutomaticStop(CeaseSubcode::MaxPrefixesReached));

    assert!(result.is_err());
    assert_eq!(peer.state(), BgpState::Idle);
    assert_eq!(
        peer.fsm.connect_retry_counter, 2,
        "ConnectRetryCounter should be incremented"
    );
    assert_eq!(
        peer.consecutive_down_count, 1,
        "Peer oscillation damping should increment consecutive_down_count"
    );
}

#[test]
fn test_openconfirm_keepalive_timer_expires() {
    let test_cases = vec![
        (180, true), // (hold_time, should_restart_timer)
        (0, false),  // hold_time=0 should not restart timer
    ];

    for (hold_time, should_restart) in test_cases {
        let mut peer = create_test_peer_with_state(BgpState::OpenConfirm);
        peer.fsm.timers.set_negotiated_hold_time(hold_time);
        if hold_time > 0 {
            peer.fsm.timers.start_hold_timer(NOW);
            peer.fsm.timers.start_keepalive_timer(NOW);
        }
        let initial_keepalive_sent = peer.statistics.keepalive_sent;

        peer.step(&FsmEvent::KeepaliveTimerExpires)
            .unwrap();

        assert_eq!(peer.state(), BgpState::OpenConfirm);
        assert_eq!(
            peer.statistics.keepalive_sent,
            initial_keepalive_sent + 1,
            "KEEPALIVE message should be sent (hold_time={})",
            hold_time
        );
        assert!(peer.connected, "TCP connection should remain");

        if should_restart {
            assert!(
                peer.fsm.timers.keepalive_timer_started.is_some(),
                "KeepaliveTimer should be restarted when hold_time > 0"
            );
        } else {
            assert!(
                peer.fsm.timers.keepalive_timer_started.is_none(),
                "KeepaliveTimer should NOT be restarted when hold_time is zero"
            );
        }
    }
}

#[test]
fn test_openconfirm_hold_timer_expires() {
    let mut peer = create_test_peer_with_state(BgpState::OpenConfirm);
    peer.fsm.connect_retry_counter = 3;
    peer.fsm.timers.start_hold_timer(NOW);
    peer.fsm.timers.start_keepalive_timer(NOW);
    peer.config.send_notification_without_open = true;

    peer.step(&FsmEvent::HoldTimerExpires)
        .unwrap();

    assert_eq!(peer.state(), BgpState::Idle);
    assert_eq!(
        peer.statistics.notification_sent, 1,
        "NOTIFICATION with HoldTimerExpired should be sent"
    );
    assert!(
        peer.fsm.timers.connect_retry_started.is_none(),
        "ConnectRetryTimer should be set to zero"
    );
    assert_eq!(
        peer.fsm.connect_retry_counter, 4,
        "ConnectRetryCounter should be incremented by 1"
    );
    assert!(!peer.connected, "TCP connection should be dropped");
    assert!(
        peer.fsm.timers.hold_timer_started.is_none(),
        "Hold timer should be stopped"
    );
    assert!(
        peer.fsm.timers.keepalive_timer_started.is_none(),
        "Keepalive timer should be stopped"
    );
}

#[test]
fn test_openconfirm_tcp_connection_fails() {
    let mut peer = create_test_peer_with_state(BgpState::OpenConfirm);
    peer.fsm.connect_retry_counter = 2;
    peer.fsm.timers.start_hold_timer(NOW);
    peer.fsm.timers.start_keepalive_timer(NOW);

    peer.step(&FsmEvent::TcpConnectionFails)
        .unwrap();

    assert_eq!(peer.state(), BgpState::Idle);
    assert!(!peer.connected, "TCP connection should be dropped");
    assert!(
        peer.fsm.timers.connect_retry_started.is_none(),
        "ConnectRetryTimer should be set to zero"
    );
    assert_eq!(
        peer.fsm.connect_retry_counter, 3,
        "ConnectRetryCounter should be incremented by 1"
    );
    assert!(
        peer.fsm.timers.hold_timer_started.is_none(),
        "Hold timer should be stopped"
    );
    assert!(
        peer.fsm.timers.keepalive_timer_started.is_none(),
        "Keepalive timer should be stopped"
    );
}

#[test]
fn test_openconfirm_notification_received() {
    let mut peer = create_test_peer_with_state(BgpState::OpenConfirm);
    peer.fsm.connect_retry_counter = 1;
    peer.fsm.timers.start_hold_timer(NOW);
    peer.fsm.timers.start_keepalive_timer(NOW);

    let notif = NotificationMessage::new(
        BgpError::Cease(CeaseSubcode::AdministrativeShutdown),
        vec![],
    );
    peer.step(&FsmEvent::NotifMsg(notif))
        .unwrap();

    assert_eq!(peer.state(), BgpState::Idle);
    assert!(!peer.connected, "TCP connection should be dropped");
    assert!(
        peer.fsm.timers.connect_retry_started.is_none(),
        "ConnectRetryTimer should be set to zero"
    );
    assert_eq!(
        peer.fsm.connect_retry_counter, 2,
        "ConnectRetryCounter should be incremented by 1"
    );
    assert!(
        peer.fsm.timers.hold_timer_started.is_none(),
        "Hold timer should be stopped"
    );
    assert!(
        peer.fsm.timers.keepalive_timer_started.is_none(),
        "Keepalive timer should be stopped"
    );
}

#[test]
fn test_openconfirm_notification_version_error() {
    let mut peer = create_test_peer_with_state(BgpState::OpenConfirm);
    peer.fsm.connect_retry_counter = 5;
    peer.fsm.timers.start_hold_timer(NOW);
    peer.fsm.timers.start_keepalive_timer(NOW);

    let notif = NotificationMessage::new(
        BgpError::OpenMessageError(OpenMessageError::UnsupportedVersionNumber),
        vec![],
    );
    peer.step(&FsmEvent::NotifMsgVerErr(notif))
        .unwrap();

    assert_eq!(peer.state(), BgpState::Idle);
    assert!(!peer.connected, "TCP connection should be dropped");
    assert!(
        peer.fsm.timers.connect_retry_started.is_none(),
        "ConnectRetryTimer should be set to zero"
    );
    assert_eq!(
        peer.fsm.connect_retry_counter, 5,
        "ConnectRetryCounter should NOT be incremented for version error"
    );
}

#[test]
fn test_openconfirm_bgp_header_error() {
    let mut peer = create_test_peer_with_state(BgpState::OpenConfirm);
    peer.fsm.connect_retry_counter = 1;
    peer.fsm.timers.start_hold_timer(NOW);
    peer.fsm.timers.start_keepalive_timer(NOW);
    peer.config.send_notification_without_open = true;

    let notif = NotificationMessage::new(
        BgpError::MessageHeaderError(MessageHeaderError::BadMessageLength),
        vec![],
    );

    peer.step(&FsmEvent::BgpHeaderErr(notif))
        .unwrap();

    assert_eq!(peer.state(), BgpState::Idle);
    assert!(!peer.connected, "TCP connection should be dropped");
    assert!(
        peer.fsm.timers.connect_retry_started.is_none(),
        "ConnectRetryTimer should be set to zero"
    );
    assert_eq!(
        peer.fsm.connect_retry_counter, 2,
        "ConnectRetryCounter should be incremented by 1"
    );
    assert!(
        peer.fsm.timers.hold_timer_started.is_none(),
        "Hold timer should be stopped"
    );
    assert!(
        peer.fsm.timers.keepalive_timer_started.is_none(),
        "Keepalive timer should be stopped"
    );
    assert_eq!(
        peer.statistics.notification_sent, 1,
        "NOTIFICATION should be sent"
    );
}

#[test]
fn test_openconfirm_bgp_open_msg_error() {
    let mut peer = create_test_peer_with_state(BgpState::OpenConfirm);
    peer.fsm.connect_retry_counter = 3;
    peer.fsm.timers.start_hold_timer(NOW);
    peer.fsm.timers.start_keepalive_timer(NOW);
    peer.config.send_notification_without_open = true;

    let notif = NotificationMessage::new(
        BgpError::OpenMessageError(OpenMessageError::UnsupportedVersionNumber),
        vec![],
    );

    peer.step(&FsmEvent::BgpOpenMsgErr(notif))
        .unwrap();

    assert_eq!(peer.state(), BgpState::Idle);
    assert!(!peer.connected, "TCP connection should be dropped");
    assert!(
        peer.fsm.timers.connect_retry_started.is_none(),
        "ConnectRetryTimer should be set to zero"
    );
    assert_eq!(
        peer.fsm.connect_retry_counter, 4,
        "ConnectRetryCounter should be incremented by 1"
    );
    assert!(
        peer.fsm.timers.hold_timer_started.is_none(),
        "Hold timer should be stopped"
    );
    assert!(
        peer.fsm.timers.keepalive_timer_started.is_none(),
        "Keepalive timer should be stopped"
    );
    assert_eq!(
        peer.statistics.notification_sent, 1,
        "NOTIFICATION should be sent"
    );
}

#[test]
fn test_openconfirm_fsm_errors() {
    let events = vec![
        FsmEvent::ConnectRetryTimerExpires,
        FsmEvent::DelayOpenTimerExpires,
        FsmEvent::IdleHoldTimerExpires,
        FsmEvent::BgpOpenWithDelayOpenTimer(BgpOpenParams {
            peer_asn: 65001,
            peer_hold_time: 180,
            peer_bgp_id: 0x02020202,
            local_asn: 65000,
            local_hold_time: 180,
            peer_capabilities: PeerCapabilities::default(),
        }),
        FsmEvent::BgpUpdateReceived,
        FsmEvent::BgpUpdateMsgErr(NotificationMessage::new(
            BgpError::UpdateMessageError(UpdateMessageError::MalformedAttributeList),
            vec![],
        )),
    ];

    for event in events {
        let mut peer = create_test_peer_with_state(BgpState::OpenConfirm);
        peer.fsm.connect_retry_counter = 2;
        peer.fsm.timers.start_hold_timer(NOW);
        peer.fsm.timers.start_keepalive_timer(NOW);
        peer.config.damp_peer_oscillations = true;
        peer.config.send_notification_without_open = true;

        let result = peer.step(&event);

        assert!(result.is_err(), "FSM error should return error");
        assert_eq!(peer.state(), BgpState::Idle);
        assert!(!peer.connected, "TCP connection should be dropped");
        assert!(
            peer.fsm.timers.hold_timer_started.is_none(),
            "Hold timer should be stopped"
        );
        assert!(
            peer.fsm.timers.keepalive_timer_started.is_none(),
            "Keepalive timer should be stopped"
        );
        assert_eq!(
            peer.statistics.notification_sent, 1,
            "NOTIFICATION should be sent"
        );
    }
}

#[test]
fn test_openconfirm_transition_to_established() {
    let mut peer = create_test_peer_with_state(BgpState::OpenConfirm);
    peer.fsm.timers.start_hold_timer(NOW);
    peer.fsm.timers.start_keepalive_timer(NOW);

    peer.step(&FsmEvent::BgpKeepaliveReceived)
        .unwrap();

    assert_eq!(peer.state(), BgpState::Established);
    assert!(peer.established_at.is_some());
}

#[test]
fn test_openconfirm_keepalive_received() {
        let mut peer = create_test_peer_with_state(BgpState::OpenConfirm);
    peer.fsm.timers.start_hold_timer(NOW - 10);
    let hold_start = peer.fsm.timers.hold_timer_started;

    peer.step(&FsmEvent::BgpKeepaliveReceived)
        .unwrap();

    assert_eq!(peer.state(), BgpState::Established);
    assert!(peer.fsm.timers.hold_timer_started > hold_start);
}

#[test]
fn test_established_ignores_start_events() {
    let start_events = vec![
        FsmEvent::ManualStart,
        FsmEvent::AutomaticStart,
        FsmEvent::ManualStartPassive,
        FsmEvent::AutomaticStartPassive,
    ];

    for event in start_events {
        let mut peer = create_test_peer_with_state(BgpState::Established);
        peer.fsm.timers.start_hold_timer(NOW);
        peer.fsm.timers.start_keepalive_timer(NOW);
        let initial_counter = peer.fsm.connect_retry_counter;

        peer.step(&event).unwrap();

        assert_eq!(
            peer.state(),
            BgpState::Established,
            "Start event {:?} should be ignored in Established state",
            event
        );
        assert!(peer.connected, "TCP connection should remain");
        assert_eq!(peer.fsm.connect_retry_counter, initial_counter);
        assert!(peer.fsm.timers.hold_timer_started.is_some());
        assert!(peer.fsm.timers.keepalive_timer_started.is_some());
    }
}

#[test]
fn test_established_manual_stop() {
    let mut peer = create_test_peer_with_state(BgpState::Established);
    peer.fsm.connect_retry_counter = 5;
    peer.fsm.timers.start_hold_timer(NOW);
    peer.fsm.timers.start_keepalive_timer(NOW);
    peer.config.send_notification_without_open = true;

    peer.step(&FsmEvent::ManualStop).unwrap();

    assert_eq!(peer.state(), BgpState::Idle);
    assert!(!peer.connected, "TCP connection should be dropped");
    assert_eq!(
        peer.fsm.connect_retry_counter, 0,
        "ConnectRetryCounter should be set to zero"
    );
    assert!(
        peer.fsm.timers.connect_retry_started.is_none(),
        "ConnectRetryTimer should be set to zero"
    );
    assert!(
        peer.fsm.timers.hold_timer_started.is_none(),
        "Hold timer should be stopped"
    );
    assert!(
        peer.fsm.timers.keepalive_timer_started.is_none(),
        "Keepalive timer should be stopped"
    );
    assert_eq!(
        peer.statistics.notification_sent, 1,
        "NOTIFICATION with Cease should be sent"
    );
    assert!(peer.manually_stopped, "manually_stopped flag should be set");
}

#[test]
fn test_established_automatic_stop() {
    let mut peer = create_test_peer_with_state(BgpState::Established);
    peer.fsm.connect_retry_counter = 2;
    peer.fsm.timers.start_hold_timer(NOW);
    peer.fsm.timers.start_keepalive_timer(NOW);
    peer.config.send_notification_without_open = true;

    let result = peer.step(&FsmEvent::AutomaticStop(CeaseSubcode::MaxPrefixesReached));

    assert!(result.is_err(), "AutomaticStop should return error");
    assert_eq!(peer.state(), BgpState::Idle);
    assert!(!peer.connected, "TCP connection should be dropped");
    assert!(
        peer.fsm.timers.connect_retry_started.is_none(),
        "ConnectRetryTimer should be set to zero"
    );
    assert_eq!(
        peer.fsm.connect_retry_counter, 3,
        "ConnectRetryCounter should be incremented"
    );
    assert!(
        peer.fsm.timers.hold_timer_started.is_none(),
        "Hold timer should be stopped"
    );
    assert!(
        peer.fsm.timers.keepalive_timer_started.is_none(),
        "Keepalive timer should be stopped"
    );
    assert_eq!(
        peer.statistics.notification_sent, 1,
        "NOTIFICATION with Cease should be sent"
    );
}

#[test]
fn test_established_hold_timer_expires() {
    let mut peer = create_test_peer_with_state(BgpState::Established);
    peer.fsm.connect_retry_counter = 1;
    peer.fsm.timers.start_hold_timer(NOW);
    peer.fsm.timers.start_keepalive_timer(NOW);
    peer.config.send_notification_without_open = true;

    peer.step(&FsmEvent::HoldTimerExpires)
        .unwrap();

    assert_eq!(peer.state(), BgpState::Idle);
    assert_eq!(
        peer.statistics.notification_sent, 1,
        "NOTIFICATION with HoldTimerExpired should be sent"
    );
    assert!(
        peer.fsm.timers.connect_retry_started.is_none(),
        "ConnectRetryTimer should be set to zero"
    );
    assert_eq!(
        peer.fsm.connect_retry_counter, 2,
        "ConnectRetryCounter should be incremented"
    );
    assert!(!peer.connected, "TCP connection should be dropped");
    assert!(
        peer.fsm.timers.hold_timer_started.is_none(),
        "Hold timer should be stopped"
    );
    assert!(
        peer.fsm.timers.keepalive_timer_started.is_none(),
        "Keepalive timer should be stopped"
    );
}

#[test]
fn test_established_keepalive_timer_expires() {
    let test_cases = vec![
        (180, true), // (hold_time, should_restart_timer)
        (0, false),  // hold_time=0 should not restart timer
    ];

    for (hold_time, should_restart) in test_cases {
        let mut peer = create_test_peer_with_state(BgpState::Established);
        peer.fsm.timers.set_negotiated_hold_time(hold_time);
        if hold_time > 0 {
            peer.fsm.timers.start_hold_timer(NOW);
            peer.fsm.timers.start_keepalive_timer(NOW);
        }
        let initial_keepalive_sent = peer.statistics.keepalive_sent;

        peer.step(&FsmEvent::KeepaliveTimerExpires)
            .unwrap();

        assert_eq!(peer.state(), BgpState::Established);
        assert_eq!(
            peer.statistics.keepalive_sent,
            initial_keepalive_sent + 1,
            "KEEPALIVE message should be sent (hold_time={})",
            hold_time
        );
        assert!(peer.connected, "TCP connection should remain");

        if should_restart {
            assert!(
                peer.fsm.timers.keepalive_timer_started.is_some(),
                "KeepaliveTimer should be restarted when hold_time > 0"
            );
        } else {
            assert!(
                peer.fsm.timers.keepalive_timer_started.is_none(),
                "KeepaliveTimer should NOT be restarted when hold_time is zero"
            );
        }
    }
}

#[test]
fn test_established_keepalive_received() {
    let test_cases = vec![
        (180, true), // (hold_time, should_reset_hold_timer)
        (0, false),  // hold_time=0 should not reset hold timer
    ];

    for (hold_time, should_reset) in test_cases {
        let mut peer = create_test_peer_with_state(BgpState::Established);
        peer.fsm.timers.set_negotiated_hold_time(hold_time);
        if hold_time > 0 {
            peer.fsm.timers.start_hold_timer(NOW);
            peer.fsm.timers.start_keepalive_timer(NOW);
        }
        peer.consecutive_down_count = 3;
        peer.config.damp_peer_oscillations = true;

        // Set established_at to simulate stable connection
        peer.established_at =
            Some(NOW - 200_000);

        peer.step(&FsmEvent::BgpKeepaliveReceived)
            .unwrap();

        assert_eq!(peer.state(), BgpState::Established);
        assert!(peer.connected, "TCP connection should remain");

        if should_reset {
            assert!(
                peer.fsm.timers.hold_timer_started.is_some(),
                "Hold timer should be reset when hold_time > 0"
            );
        } else {
            assert!(
                peer.fsm.timers.hold_timer_started.is_none(),
                "Hold timer should NOT be reset when hold_time is zero"
            );
        }

        if hold_time > 0 {
            assert_eq!(
                peer.consecutive_down_count, 0,
                "Damping counter should be reset after stable connection"
            );
        }
    }
}

#[test]
fn test_established_update_received() {
    let test_cases = vec![
        (180, true), // (hold_time, should_reset_hold_timer)
        (0, false),  // hold_time=0 should not reset hold timer
    ];

    for (hold_time, should_reset) in test_cases {
        let mut peer = create_test_peer_with_state(BgpState::Established);
        peer.fsm.timers.set_negotiated_hold_time(hold_time);
        if hold_time > 0 {
            peer.fsm.timers.start_hold_timer(NOW);
            peer.fsm.timers.start_keepalive_timer(NOW);
        }

        peer.step(&FsmEvent::BgpUpdateReceived)
            .unwrap();

        assert_eq!(peer.state(), BgpState::Established);
        assert!(peer.connected, "TCP connection should remain");

        if should_reset {
            assert!(
                peer.fsm.timers.hold_timer_started.is_some(),
                "Hold timer should be reset when hold_time > 0"
            );
        } else {
            assert!(
                peer.fsm.timers.hold_timer_started.is_none(),
                "Hold timer should NOT be reset when hold_time is zero"
            );
        }
    }
}

#[test]
fn test_established_update_msg_error() {
    let mut peer = create_test_peer_with_state(BgpState::Established);
    peer.fsm.connect_retry_counter = 3;
    peer.fsm.timers.start_hold_timer(NOW);
    peer.fsm.timers.start_keepalive_timer(NOW);
    peer.config.send_notification_without_open = true;

    let notif = NotificationMessage::new(
        BgpError::UpdateMessageError(UpdateMessageError::MalformedAttributeList),
        vec![],
    );

    let result = peer.step(&FsmEvent::BgpUpdateMsgErr(notif));

    assert!(result.is_err(), "UpdateMsgErr should return error");
    assert_eq!(peer.state(), BgpState::Idle);
    assert!(!peer.connected, "TCP connection should be dropped");
    assert!(
        peer.fsm.timers.connect_retry_started.is_none(),
        "ConnectRetryTimer should be set to zero"
    );
    assert_eq!(
        peer.fsm.connect_retry_counter, 4,
        "ConnectRetryCounter should be incremented"
    );
    assert!(
        peer.fsm.timers.hold_timer_started.is_none(),
        "Hold timer should be stopped"
    );
    assert!(
        peer.fsm.timers.keepalive_timer_started.is_none(),
        "Keepalive timer should be stopped"
    );
    assert_eq!(
        peer.statistics.notification_sent, 1,
        "NOTIFICATION should be sent"
    );
}

#[test]
fn test_established_tcp_connection_fails() {
    let mut peer = create_test_peer_with_state(BgpState::Established);
    peer.fsm.connect_retry_counter = 2;
    peer.fsm.timers.start_hold_timer(NOW);
    peer.fsm.timers.start_keepalive_timer(NOW);

    // Simulate TCP connection failure by dropping the connection
    peer.connected = false;

    peer.step(&FsmEvent::TcpConnectionFails)
        .unwrap();

    assert_eq!(peer.state(), BgpState::Idle);
    assert!(!peer.connected, "TCP connection should be dropped");
    assert!(
        peer.fsm.timers.connect_retry_started.is_none(),
        "ConnectRetryTimer should be set to zero"
    );
    assert_eq!(
        peer.fsm.connect_retry_counter, 3,
        "ConnectRetryCounter should be incremented"
    );
    assert!(
        peer.fsm.timers.hold_timer_started.is_none(),
        "Hold timer should be stopped"
    );
    assert!(
        peer.fsm.timers.keepalive_timer_started.is_none(),
        "Keepalive timer should be stopped"
    );
    assert_eq!(
        peer.statistics.notification_sent, 0,
        "No NOTIFICATION should be sent on TCP failure"
    );
}

#[test]
fn test_established_notification_received() {
    let mut peer = create_test_peer_with_state(BgpState::Established);
    peer.fsm.connect_retry_counter = 1;
    peer.fsm.timers.start_hold_timer(NOW);
    peer.fsm.timers.start_keepalive_timer(NOW);

    let notif = NotificationMessage::new(
        BgpError::Cease(CeaseSubcode::AdministrativeShutdown),
        vec![],
    );
    peer.step(&FsmEvent::NotifMsg(notif))
        .unwrap();

    assert_eq!(peer.state(), BgpState::Idle);
    assert!(!peer.connected, "TCP connection should be dropped");
    assert!(
        peer.fsm.timers.connect_retry_started.is_none(),
        "ConnectRetryTimer should be set to zero"
    );
    assert_eq!(
        peer.fsm.connect_retry_counter, 2,
        "ConnectRetryCounter should be incremented"
    );
    assert!(
        peer.fsm.timers.hold_timer_started.is_none(),
        "Hold timer should be stopped"
    );
    assert!(
        peer.fsm.timers.keepalive_timer_started.is_none(),
        "Keepalive timer should be stopped"
    );
}

#[test]
fn test_established_fsm_error_connect_retry_timer() {
    let mut peer = create_test_peer_with_state(BgpState::Established);
    peer.fsm.connect_retry_counter = 1;
    peer.fsm.timers.start_hold_timer(NOW);
    peer.fsm.timers.start_keepalive_timer(NOW);
    peer.config.send_notification_without_open = true;

    let result = peer.step(&FsmEvent::ConnectRetryTimerExpires);

    assert!(result.is_err(), "FSM error should return error");
    assert_eq!(peer.state(), BgpState::Idle);
    assert!(!peer.connected, "TCP connection should be dropped");
    assert!(
        peer.fsm.timers.connect_retry_started.is_none(),
        "ConnectRetryTimer should be set to zero"
    );
    assert_eq!(
        peer.fsm.connect_retry_counter, 2,
        "ConnectRetryCounter should be incremented"
    );
    assert!(
        peer.fsm.timers.hold_timer_started.is_none(),
        "Hold timer should be stopped"
    );
    assert!(
        peer.fsm.timers.keepalive_timer_started.is_none(),
        "Keepalive timer should be stopped"
    );
    assert_eq!(
        peer.statistics.notification_sent, 1,
        "NOTIFICATION should be sent"
    );
}

#[test]
fn test_established_damping_reset_after_stability() {
    // Test that consecutive_down_count is reset after stable connection
    let mut peer = create_test_peer_with_state(BgpState::Established);
    peer.fsm.timers.start_hold_timer(NOW);
    peer.fsm.timers.start_keepalive_timer(NOW);
    peer.consecutive_down_count = 5;
    peer.config.damp_peer_oscillations = true;

    // Set established_at to simulate stable connection (longer than hold_time)
    let hold_time = peer.fsm.timers.hold_time;
    peer.established_at =
        Some(NOW - hold_time * 1_000 - 1_000);

    peer.step(&FsmEvent::BgpKeepaliveReceived)
        .unwrap();

    assert_eq!(
        peer.consecutive_down_count, 0,
        "Damping counter should be reset after stable connection"
    );
}

#[test]
fn test_established_damping_not_reset_before_stability() {
    // Test that consecutive_down_count is NOT reset before stability threshold
    let mut peer = create_test_peer_with_state(BgpState::Established);
    peer.fsm.timers.start_hold_timer(NOW);
    peer.fsm.timers.start_keepalive_timer(NOW);
    peer.consecutive_down_count = 3;
    peer.config.damp_peer_oscillations = true;

    // Set established_at to simulate recent connection (less than hold_time)
    peer.established_at = Some(NOW - 10_000);

    peer.step(&FsmEvent::BgpKeepaliveReceived)
        .unwrap();

    assert_eq!(
        peer.consecutive_down_count, 3,
        "Damping counter should NOT be reset before stability threshold"
    );
}

#[test]
fn test_established_fsm_errors() {
    let events = vec![
        FsmEvent::DelayOpenTimerExpires,
        FsmEvent::IdleHoldTimerExpires,
        FsmEvent::BgpOpenWithDelayOpenTimer(BgpOpenParams {
            peer_asn: 65001,
            peer_hold_time: 180,
            peer_bgp_id: 0x02020202,
            local_asn: 65000,
            local_hold_time: 180,
            peer_capabilities: PeerCapabilities::default(),
        }),
        FsmEvent::BgpHeaderErr(NotificationMessage::new(
            BgpError::MessageHeaderError(MessageHeaderError::BadMessageLength),
            vec![],
        )),
        FsmEvent::BgpOpenMsgErr(NotificationMessage::new(
            BgpError::OpenMessageError(OpenMessageError::UnsupportedVersionNumber),
            vec![],
        )),
    ];

    for event in events {
        let mut peer = create_test_peer_with_state(BgpState::Established);
        peer.fsm.connect_retry_counter = 3;
        peer.fsm.timers.start_hold_timer(NOW);
        peer.fsm.timers.start_keepalive_timer(NOW);
        peer.config.send_notification_without_open = true;

        let result = peer.step(&event);

        assert!(result.is_err(), "FSM error should return error");
        assert_eq!(peer.state(), BgpState::Idle);
        assert!(!peer.connected, "TCP connection should be dropped");
        assert!(
            peer.fsm.timers.connect_retry_started.is_none(),
            "ConnectRetryTimer should be set to zero"
        );
        assert_eq!(
            peer.fsm.connect_retry_counter, 4,
            "ConnectRetryCounter should be incremented"
        );
        assert!(
            peer.fsm.timers.hold_timer_started.is_none(),
            "Hold timer should be stopped"
        );
        assert!(
            peer.fsm.timers.keepalive_timer_started.is_none(),
            "Keepalive timer should be stopped"
        );
        assert_eq!(
            peer.statistics.notification_sent, 1,
            "NOTIFICATION should be sent"
        );
    }
}

#[test]
fn test_get_idle_hold_time() {
    // (idle_hold_secs, damping, down_count, expected_secs)
    let cases = [
        (Some(30), true, 0, Some(30)),   // No downs -> base
        (Some(30), true, 1, Some(60)),   // 1 down -> 30*2
        (Some(30), true, 2, Some(120)),  // 2 downs -> 30*4, capped at 120
        (Some(30), true, 3, Some(120)),  // 3 downs -> 30*8=240, capped at 120
        (Some(30), false, 5, Some(30)),  // Damping disabled -> base
        (Some(10), true, 1, Some(20)),   // 10*2
        (Some(10), true, 3, Some(80)),   // 10*8
        (Some(10), true, 6, Some(120)),  // 10*64=640, capped at 120
        (Some(10), true, 10, Some(120)), // exp capped at 6 -> 10*64=640, capped at 120
        (None, true, 0, None),           // Disabled -> None
        (None, true, 5, None),           // Disabled with damping -> still None
    ];
    for (idle, damp, count, expected) in cases {
        let mut peer = create_test_peer_with_state(BgpState::Idle);
        peer.config.idle_hold_time_secs = idle;
        peer.config.damp_peer_oscillations = damp;
        peer.consecutive_down_count = count;
        assert_eq!(
            peer.get_idle_hold_time(),
            expected,
            "idle={:?}, damp={}, count={}",
            idle,
            damp,
            count
        );
    }
}
