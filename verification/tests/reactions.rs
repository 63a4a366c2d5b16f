//! Sessions: what is done when something happens.

use bgpgg::bgp::msg_notification::{BgpError, CeaseSubcode, NotificationMessage, OpenMessageError};
use bgpgg::bgp::msg_open::GracefulRestartCapability;
use bgpgg::bgp::msg_update::{AsPathSegment, AsPathSegmentType, NextHopAddr, Origin};
use bgpgg::bgp::multiprotocol::{Afi, AfiSafi, AfiSafiSet, Safi};
use bgpgg::bgp::open_message::OpenMessage;
use bgpgg::metrics::{LabelValue, Metric, Unit};
use bgpgg::net::addr::{IpAddr, Ipv4Addr};
use bgpgg::net::network::{IpNetwork, Ipv4Net};
use bgpgg::peer::connecting::{ConnectInput, ConnectStep, IdleInput};
use bgpgg::peer::incoming::{NlriEntry, ReceivedUpdate};
use bgpgg::peer::messages::{parse_error_to_fsm_event, BgpMessage};
use bgpgg::peer::reactions::{Next, PeerInput, Reading, ROUTE_FLUSH_WATERMARK};
use bgpgg::peer::session::{
    ConnectionType, Effect, IoError, OutMessage, PeerDownReason, RouteRefreshSubtype, Turn,
};
use bgpgg::peer::{
    BgpState, Fsm, FsmEvent, GracefulRestartState, LocalConfig, Peer, PeerError, PeerOp,
    PendingRoute, SessionType,
};
use bgpgg::peer_config::PeerConfig;
use bgpgg::rib::{PathAttrs, RouteKey, RouteSource};

const NOW: u64 = 1_000_000_000;

fn peer_ip() -> IpAddr {
    IpAddr::V4(Ipv4Addr::new(10, 0, 0, 1))
}

fn ipv4_unicast() -> AfiSafi {
    AfiSafi::new(Afi::Ipv4, Safi::Unicast)
}

fn peer_in(state: BgpState) -> Peer {
    let local_config = LocalConfig {
        asn: 65000,
        bgp_id: Ipv4Addr::new(1, 1, 1, 1),
        hold_time: 180,
        addr: IpAddr::V4(Ipv4Addr::new(127, 0, 0, 1)),
        port: 0,
        cluster_id: Ipv4Addr::new(1, 1, 1, 1),
        llgr: None,
    };
    let mut peer = Peer::new(
        peer_ip(),
        179,
        local_config,
        PeerConfig::default(),
        120,
        ConnectionType::Outgoing,
    );
    peer.fsm = Fsm::with_state(state, false);
    peer.connected = true;
    peer.asn = Some(65001);
    peer.bgp_id = Some(Ipv4Addr::new(10, 0, 0, 1));
    peer.session_type = Some(SessionType::Ebgp);
    peer
}

fn restart_state(families: &[AfiSafi]) -> GracefulRestartState {
    GracefulRestartState {
        in_restart: AfiSafiSet::from_vec(&families.to_vec()),
        restart_timer: true,
        eor_received: AfiSafiSet::new(),
        afi_safis: AfiSafiSet::from_vec(&families.to_vec()),
        eor_sent: AfiSafiSet::new(),
        loc_rib_received: AfiSafiSet::new(),
    }
}

fn attrs() -> PathAttrs {
    PathAttrs {
        origin: Origin::IGP,
        as_path: vec![AsPathSegment {
            segment_type: AsPathSegmentType::AsSequence,
            segment_len: 1,
            asn_list: vec![65001],
        }],
        next_hop: NextHopAddr::Ipv4(Ipv4Addr::new(10, 0, 0, 1)),
        source: RouteSource::Local,
        local_pref: None,
        med: Some(7),
        atomic_aggregate: false,
        aggregator: None,
        communities: vec![],
        extended_communities: vec![],
        large_communities: vec![],
        unknown_attrs: vec![],
        originator_id: None,
        cluster_list: vec![],
        ls_attr: None,
    }
}

fn prefix(n: u8) -> IpNetwork {
    IpNetwork::V4(Ipv4Net { address: Ipv4Addr::new(10, n, 0, 0), prefix_length: 16 })
}

fn update(announced: usize, withdrawn: usize) -> ReceivedUpdate {
    let entry = |n: usize| NlriEntry { prefix: prefix((n % 200) as u8), path_id: Some(n as u32) };
    ReceivedUpdate {
        withdrawn_routes: (0..withdrawn).map(entry).collect(),
        ls_withdrawn_list: vec![],
        nlri_list: (0..announced).map(entry).collect(),
        ls_nlri_list: vec![],
        attrs: Some(attrs()),
        corrected_attrs: Some(attrs()),
        eor_afi_safi: None,
    }
}

fn established(peer: &mut Peer, input: PeerInput, writes: usize) -> (Vec<Effect>, Next) {
    let mut turn = Turn::new(writes);
    let next = peer.handle_established(input, NOW, &mut turn);
    (turn.effects, next)
}

fn sent_updates(effects: &[Effect]) -> Vec<Vec<u8>> {
    effects
        .iter()
        .filter_map(|e| match e {
            Effect::Send(OutMessage::Update(b)) => Some(b.clone()),
            _ => None,
        })
        .collect()
}

// ---------------------------------------------------------------------------
// UPDATE messages
// ---------------------------------------------------------------------------

#[test]
fn updates_wait_for_their_time() {
    let mut peer = peer_in(BgpState::Established);
    peer.mrai_interval = 30;
    peer.last_update_sent = Some(NOW - 29_999);
    for n in 1..4u8 {
        let op = PeerInput::Op(PeerOp::SendUpdate(vec![n]));
        let (effects, next) = established(&mut peer, op, 100);
        assert_eq!(next, Next::Stay);
        assert!(effects.is_empty());
    }
    assert_eq!(peer.pending_updates, vec![vec![1], vec![2], vec![3]]);
    assert_eq!(peer.next_send_time(), Some((NOW - 29_999, 30)));

    let (effects, next) = established(&mut peer, PeerInput::Due, 100);
    assert_eq!(next, Next::Stay);
    assert_eq!(sent_updates(&effects), vec![vec![1], vec![2], vec![3]]);
    assert!(peer.pending_updates.is_empty());
    assert_eq!(peer.last_update_sent, Some(NOW));
    assert_eq!(peer.statistics.update_sent, 3);
    assert_eq!(peer.next_send_time(), None);
}

#[test]
fn updates_are_sent_when_their_time_has_come() {
    let mut peer = peer_in(BgpState::Established);
    peer.mrai_interval = 30;
    peer.last_update_sent = Some(NOW - 30_000);
    let (effects, next) =
        established(&mut peer, PeerInput::Op(PeerOp::SendUpdate(vec![9])), 100);
    assert_eq!(next, Next::Stay);
    assert_eq!(sent_updates(&effects), vec![vec![9]]);
    assert_eq!(peer.last_update_sent, Some(NOW));
    assert_eq!(peer.fsm.timers.keepalive_timer_started, Some(NOW));
}

#[test]
fn a_connection_that_fails_ends_the_session() {
    let mut peer = peer_in(BgpState::Established);
    let (effects, next) = established(&mut peer, PeerInput::Op(PeerOp::SendUpdate(vec![9])), 0);
    assert_eq!(next, Next::Leave);
    assert!(sent_updates(&effects).is_empty());
    assert!(matches!(
        &effects[0],
        Effect::PeerDisconnected {
            reason: PeerDownReason::LocalNoNotification(FsmEvent::BgpUpdateReceived),
            ..
        }
    ));
    assert!(!peer.connected);

    let mut peer = peer_in(BgpState::Established);
    peer.pending_updates = vec![vec![1], vec![2], vec![3]];
    peer.last_update_sent = Some(NOW);
    let (effects, next) = established(&mut peer, PeerInput::Due, 2);
    assert_eq!(next, Next::Leave);
    assert_eq!(sent_updates(&effects), vec![vec![1], vec![2]]);
    assert!(!peer.connected);
}

#[test]
fn routes_are_not_exchanged_while_opening() {
    for state in [BgpState::OpenSent, BgpState::OpenConfirm] {
        let mut peer = peer_in(state);
        for op in [
            PeerOp::SendUpdate(vec![1]),
            PeerOp::SendRouteRefresh {
                afi_safi: ipv4_unicast(),
                subtype: RouteRefreshSubtype::Normal,
            },
        ] {
            let mut turn = Turn::new(100);
            assert_eq!(
                peer.handle_open_states(PeerInput::Op(op), NOW, &mut turn),
                Next::Stay
            );
            assert!(turn.effects.is_empty());
        }
    }
}

// ---------------------------------------------------------------------------
// Routes of the peer
// ---------------------------------------------------------------------------

#[test]
fn routes_of_a_message_share_attributes() {
    let peer = peer_in(BgpState::Established);
    let (announced, withdrawn) = peer.handle_update(&update(2, 1));
    assert_eq!(announced.len(), 2);
    assert_eq!(announced[0].path.attrs, announced[1].path.attrs);
    assert_eq!(
        announced[0].path.attrs.source,
        RouteSource::Ebgp { peer_ip: peer_ip(), bgp_id: Ipv4Addr::new(10, 0, 0, 1) }
    );
    assert_eq!(announced[0].key, RouteKey::Prefix(prefix(0)));
    assert_eq!(announced[1].key, RouteKey::Prefix(prefix(1)));
    assert_eq!(announced[1].path.remote_path_id, Some(1));
    assert_eq!(withdrawn, vec![(RouteKey::Prefix(prefix(0)), Some(0))]);
}

#[test]
fn corrections_count_for_old_speakers_only() {
    let mut u = update(1, 0);
    let mut corrected = attrs();
    corrected.med = Some(99);
    u.corrected_attrs = Some(corrected);
    let mut peer = peer_in(BgpState::Established);
    assert_eq!(peer.handle_update(&u).0[0].path.attrs.med, Some(99));
    peer.capabilities.four_octet_asn = Some(65001);
    assert_eq!(peer.handle_update(&u).0[0].path.attrs.med, Some(7));
}

#[test]
fn nothing_is_announced_without_attributes_or_a_known_peer() {
    let mut u = update(1, 1);
    u.attrs = None;
    u.corrected_attrs = None;
    let (announced, withdrawn) = peer_in(BgpState::Established).handle_update(&u);
    assert!(announced.is_empty());
    assert_eq!(withdrawn.len(), 1);
    let mut peer = peer_in(BgpState::Established);
    peer.bgp_id = None;
    assert!(peer.handle_update(&update(1, 0)).0.is_empty());
}

#[test]
fn many_route_changes_are_handed_on_at_once() {
    let mut peer = peer_in(BgpState::Established);
    let few = PeerInput::Read(Reading::Message(BgpMessage::Update(update(2, 1))));
    let (effects, next) = established(&mut peer, few, 100);
    assert_eq!(next, Next::Stay);
    assert!(effects.is_empty());
    assert_eq!(peer.pending_routes.len(), 3);

    let n = ROUTE_FLUSH_WATERMARK;
    let many = PeerInput::Read(Reading::Message(BgpMessage::Update(update(n, 0))));
    let (effects, next) = established(&mut peer, many, 100);
    assert_eq!(next, Next::Stay);
    assert!(peer.pending_routes.is_empty());
    assert_eq!(effects.len(), 1);
    assert!(matches!(&effects[0], Effect::PeerUpdate(r) if r.len() == n + 3));
}

#[test]
fn route_changes_are_handed_on_in_their_order() {
    let mut peer = peer_in(BgpState::Established);
    for (a, w) in [(1, 0), (0, 1)] {
        let x = PeerInput::Read(Reading::Message(BgpMessage::Update(update(a, w))));
        established(&mut peer, x, 100);
    }
    let (effects, _) = established(&mut peer, PeerInput::Flush, 100);
    match &effects[0] {
        Effect::PeerUpdate(routes) => {
            assert!(matches!(routes[0], PendingRoute::Announce(_)));
            assert!(matches!(routes[1], PendingRoute::Withdraw(_)));
            assert_eq!(routes[0].route_key(), routes[1].route_key());
            let (announced, withdrawn) = PendingRoute::split(routes);
            assert_eq!((announced.len(), withdrawn.len()), (1, 1));
        }
        _ => panic!("no routes were handed on"),
    }
    assert!(peer.pending_routes.is_empty());
    assert!(established(&mut peer, PeerInput::Flush, 100).0.is_empty());
}

// ---------------------------------------------------------------------------
// Restarts and refreshes
// ---------------------------------------------------------------------------

#[test]
fn a_peer_is_told_once_that_it_has_all_routes() {
    let mut peer = peer_in(BgpState::Established);
    let ipv6 = AfiSafi::new(Afi::Ipv6, Safi::Unicast);
    peer.gr_state = Some(restart_state(&[ipv4_unicast()]));
    let mut turn = Turn::new(100);
    assert_eq!(peer.send_eor_markers(&vec![ipv4_unicast(), ipv6], &mut turn), Ok(()));
    assert_eq!(turn.effects.len(), 1);
    assert!(matches!(
        &turn.effects[0],
        Effect::Send(OutMessage::EndOfRib(f)) if *f == ipv4_unicast()
    ));
    let mut turn = Turn::new(100);
    assert_eq!(peer.send_eor_markers(&vec![ipv4_unicast()], &mut turn), Ok(()));
    assert!(turn.effects.is_empty());

    peer.gr_state = None;
    let mut turn = Turn::new(100);
    assert_eq!(
        peer.send_eor_markers(&vec![ipv4_unicast()], &mut turn),
        Err(IoError::NoRestartState)
    );
    peer.connected = false;
    assert_eq!(
        peer.send_eor_markers(&vec![ipv4_unicast()], &mut turn),
        Err(IoError::NotConnected)
    );
}

#[test]
fn all_families_are_sent_before_the_peer_is_told() {
    let ipv6 = AfiSafi::new(Afi::Ipv6, Safi::Unicast);
    let mut peer = peer_in(BgpState::Established);
    peer.gr_state = Some(restart_state(&[ipv4_unicast(), ipv6]));
    let op = PeerInput::Op(PeerOp::LocalRibSent { afi_safi: ipv6 });
    assert!(established(&mut peer, op, 100).0.is_empty());
    let op = PeerInput::Op(PeerOp::LocalRibSent { afi_safi: ipv4_unicast() });
    assert_eq!(established(&mut peer, op, 100).0.len(), 2);
}

#[test]
fn a_family_completes_once() {
    let mut peer = peer_in(BgpState::Established);
    peer.gr_state = Some(restart_state(&[ipv4_unicast()]));
    let mut turn = Turn::new(100);
    peer.handle_eor_received(ipv4_unicast(), &mut turn);
    assert_eq!(turn.effects.len(), 3);
    assert!(matches!(turn.effects[0], Effect::CancelRestartTimer));
    assert!(matches!(&turn.effects[1], Effect::PeerUpdate(r) if r.is_empty()));
    assert!(matches!(turn.effects[2], Effect::GracefulRestartComplete(f) if f == ipv4_unicast()));
    let mut turn = Turn::new(100);
    peer.handle_eor_received(ipv4_unicast(), &mut turn);
    assert!(turn.effects.is_empty());
}

#[test]
fn refreshes_are_sent_only_if_agreed_on() {
    let op = |subtype| {
        PeerInput::Op(PeerOp::SendRouteRefresh { afi_safi: ipv4_unicast(), subtype })
    };
    let mut peer = peer_in(BgpState::Established);
    assert!(established(&mut peer, op(RouteRefreshSubtype::Normal), 100).0.is_empty());
    peer.capabilities.route_refresh = true;
    assert!(established(&mut peer, op(RouteRefreshSubtype::Normal), 100).0.is_empty());
    peer.capabilities.multiprotocol.insert(ipv4_unicast());
    assert_eq!(established(&mut peer, op(RouteRefreshSubtype::Normal), 100).0.len(), 1);
    assert_eq!(peer.statistics.route_refresh_sent, 1);

    // Marks wait until the peer was told that it has all routes.
    peer.gr_state = Some(restart_state(&[ipv4_unicast()]));
    assert!(established(&mut peer, op(RouteRefreshSubtype::BoRR), 100).0.is_empty());
    let mut turn = Turn::new(100);
    peer.send_eor_markers(&vec![ipv4_unicast()], &mut turn).unwrap();
    assert_eq!(established(&mut peer, op(RouteRefreshSubtype::BoRR), 100).0.len(), 1);
}

#[test]
fn refreshes_are_heeded_only_if_agreed_on() {
    let mut peer = peer_in(BgpState::Established);
    let mut turn = Turn::new(100);
    peer.handle_route_refresh(Afi::Ipv4, Safi::Unicast, RouteRefreshSubtype::Normal, &mut turn);
    assert!(turn.effects.is_empty());
    peer.capabilities.route_refresh = true;
    peer.capabilities.multiprotocol.insert(ipv4_unicast());
    peer.handle_route_refresh(Afi::Ipv4, Safi::Unicast, RouteRefreshSubtype::Normal, &mut turn);
    assert_eq!(turn.effects.len(), 1);
    // Marks need a capability of their own.
    peer.handle_route_refresh(Afi::Ipv4, Safi::Unicast, RouteRefreshSubtype::EoRR, &mut turn);
    assert_eq!(turn.effects.len(), 1);
    peer.capabilities.enhanced_route_refresh = true;
    peer.handle_route_refresh(Afi::Ipv4, Safi::Unicast, RouteRefreshSubtype::EoRR, &mut turn);
    assert_eq!(turn.effects.len(), 3);
}

#[test]
fn routes_are_kept_unless_a_notification_ends_the_session() {
    let restarting = || {
        let mut peer = peer_in(BgpState::Established);
        peer.capabilities.graceful_restart = Some(GracefulRestartCapability {
            restart_time: 120,
            restart_state: false,
            afi_safi_list: vec![(ipv4_unicast(), false)],
        });
        peer
    };
    let mut peer = restarting();
    let (effects, _) = established(&mut peer, PeerInput::Read(Reading::Closed), 100);
    assert!(effects
        .iter()
        .any(|e| matches!(e, Effect::StartRestartTimer { seconds: 120, .. })));
    assert!(effects.iter().any(
        |e| matches!(e, Effect::PeerDisconnected { gr_afi_safis, .. } if gr_afi_safis == &vec![ipv4_unicast()])
    ));

    let mut peer = restarting();
    let cease = NotificationMessage::new(
        BgpError::Cease(CeaseSubcode::AdministrativeShutdown),
        vec![],
    );
    let read = PeerInput::Read(Reading::Message(BgpMessage::Notification(cease)));
    let (effects, _) = established(&mut peer, read, 100);
    assert!(!effects.iter().any(|e| matches!(e, Effect::StartRestartTimer { .. })));
    assert!(effects.iter().any(
        |e| matches!(e, Effect::PeerDisconnected { gr_afi_safis, .. } if gr_afi_safis.is_empty())
    ));
}

// ---------------------------------------------------------------------------
// Requests and timers
// ---------------------------------------------------------------------------

#[test]
fn silence_ends_a_session() {
    let mut peer = peer_in(BgpState::Established);
    peer.statistics.open_sent = 1;
    peer.fsm.timers.start_hold_timer(NOW - 179_999);
    peer.fsm.timers.start_keepalive_timer(NOW);
    assert_eq!(established(&mut peer, PeerInput::Tick, 100).1, Next::Stay);
    peer.fsm.timers.start_hold_timer(NOW - 180_000);
    let (effects, next) = established(&mut peer, PeerInput::Tick, 100);
    assert_eq!(next, Next::Leave);
    assert_eq!(peer.state(), BgpState::Idle);
    assert!(!peer.connected);
    assert!(effects.iter().any(|e| matches!(
        e,
        Effect::Send(OutMessage::Notification(n)) if n.error() == BgpError::HoldTimerExpired
    )));
}

#[test]
fn keepalives_are_sent_in_time() {
    let mut peer = peer_in(BgpState::Established);
    peer.fsm.timers.start_hold_timer(NOW);
    peer.fsm.timers.start_keepalive_timer(NOW - 60_000);
    let (effects, next) = established(&mut peer, PeerInput::Tick, 100);
    assert_eq!(next, Next::Stay);
    assert!(matches!(effects[0], Effect::Send(OutMessage::Keepalive)));
    assert_eq!(peer.fsm.timers.keepalive_timer_started, Some(NOW));
}

#[test]
fn a_session_is_shut_down_with_a_notification() {
    let mut peer = peer_in(BgpState::Established);
    peer.statistics.open_sent = 1;
    let op = PeerInput::Op(PeerOp::Shutdown(CeaseSubcode::PeerDeConfigured));
    let (effects, next) = established(&mut peer, op, 100);
    assert_eq!(next, Next::Shutdown);
    assert_eq!(effects.len(), 2);
    assert!(matches!(
        &effects[0],
        Effect::Send(OutMessage::Notification(n))
            if n.error() == BgpError::Cease(CeaseSubcode::PeerDeConfigured)
    ));
    let expected = Metric {
        name: "NotificationSentCount",
        value: 1,
        unit: Unit::Count,
        dimensions: vec![
            ("Peer", LabelValue::Address(peer.addr)),
            ("Code", LabelValue::Code(6)),
        ],
        dimension_sets: vec![vec!["Peer"], vec!["Code"], vec!["Peer", "Code"]],
        properties: vec![("Subcode", LabelValue::Code(3))],
    };
    assert!(matches!(&effects[1], Effect::Emit(m) if *m == expected));
}

#[test]
fn a_notification_that_is_not_sent_is_not_measured() {
    let mut peer = peer_in(BgpState::Established);
    peer.statistics.open_sent = 1;
    let op = PeerInput::Op(PeerOp::Shutdown(CeaseSubcode::PeerDeConfigured));
    let (effects, _) = established(&mut peer, op, 0);
    assert!(effects.is_empty());
}

#[test]
fn a_notification_of_the_peer_is_measured() {
    let mut peer = peer_in(BgpState::Established);
    let n = NotificationMessage::new(
        BgpError::OpenMessageError(OpenMessageError::UnsupportedOptionalParameter),
        vec![],
    );
    let mut turn = Turn::new(100);
    peer.track_received_message(&BgpMessage::Notification(n), &mut turn);
    assert_eq!(peer.statistics.notification_received, 1);
    assert!(peer.capabilities_suppressed);
    let expected = Metric {
        name: "NotificationReceivedCount",
        value: 1,
        unit: Unit::Count,
        dimensions: vec![
            ("Peer", LabelValue::Address(peer.addr)),
            ("Code", LabelValue::Code(2)),
        ],
        dimension_sets: vec![vec!["Peer"], vec!["Code"], vec!["Peer", "Code"]],
        properties: vec![("Subcode", LabelValue::Code(4))],
    };
    assert_eq!(turn.effects.len(), 1);
    assert!(matches!(&turn.effects[0], Effect::Emit(m) if *m == expected));
    peer.track_received_message(&BgpMessage::Keepalive, &mut turn);
    assert_eq!(turn.effects.len(), 1);
}

#[test]
fn a_reset_ends_the_connection_and_not_the_session() {
    let mut peer = peer_in(BgpState::Established);
    let (effects, next) = established(&mut peer, PeerInput::Op(PeerOp::HardReset), 100);
    assert_eq!(next, Next::Leave);
    assert!(matches!(
        &effects[0],
        Effect::Send(OutMessage::Notification(n))
            if n.error() == BgpError::Cease(CeaseSubcode::AdministrativeReset)
    ));
    assert!(matches!(&effects[1], Effect::Emit(m) if m.name == "NotificationSentCount"));
    assert_eq!(peer.state(), BgpState::Idle);
}

#[test]
fn a_lost_collision_ends_the_session() {
    let mut peer = peer_in(BgpState::OpenSent);
    peer.statistics.open_sent = 1;
    let mut turn = Turn::new(100);
    let next = peer.handle_open_states(PeerInput::Op(PeerOp::CollisionLost), NOW, &mut turn);
    assert_eq!(next, Next::Shutdown);
    assert!(matches!(
        &turn.effects[0],
        Effect::Send(OutMessage::Notification(n))
            if n.error() == BgpError::Cease(CeaseSubcode::ConnectionCollisionResolution)
    ));
}

#[test]
fn an_unreadable_message_is_answered() {
    let n = NotificationMessage::new(
        BgpError::OpenMessageError(OpenMessageError::UnsupportedVersionNumber),
        vec![],
    );
    assert_eq!(parse_error_to_fsm_event(Some(n.clone())), FsmEvent::BgpOpenMsgErr(n.clone()));
    assert_eq!(parse_error_to_fsm_event(None), FsmEvent::TcpConnectionFails);
    let mut peer = peer_in(BgpState::Established);
    peer.statistics.open_sent = 1;
    let read = PeerInput::Read(Reading::Unreadable(Some(n.clone())));
    let (effects, next) = established(&mut peer, read, 100);
    assert_eq!(next, Next::Leave);
    assert!(matches!(&effects[0], Effect::Send(OutMessage::Notification(x)) if *x == n));
    assert!(!peer.connected);
}

// ---------------------------------------------------------------------------
// Before there is a connection
// ---------------------------------------------------------------------------

fn disconnected(state: BgpState) -> Peer {
    let mut peer = peer_in(state);
    peer.connected = false;
    peer
}

#[test]
fn idle_sessions_refuse_connections() {
    let mut peer = disconnected(BgpState::Idle);
    let mut turn = Turn::new(100);
    let input = IdleInput::Op(PeerOp::TcpConnectionAccepted);
    assert_eq!(peer.handle_idle_state(input, NOW, &mut turn), Next::Stay);
    assert!(!peer.connected);
    assert!(turn.effects.is_empty());
}

#[test]
fn stopped_sessions_stay_down() {
    let mut peer = disconnected(BgpState::Idle);
    peer.config.idle_hold_time_secs = Some(30);
    assert_eq!(peer.idle_restart(), Some(30));
    peer.manually_stopped = true;
    assert_eq!(peer.idle_restart(), None);
    let mut turn = Turn::new(100);
    assert_eq!(peer.handle_idle_state(IdleInput::Expired, NOW, &mut turn), Next::Stay);
    assert_eq!(peer.state(), BgpState::Idle);
    assert_eq!(
        peer.handle_idle_state(IdleInput::Op(PeerOp::ManualStart), NOW, &mut turn),
        Next::Leave
    );
    assert_eq!(peer.state(), BgpState::Connect);
    assert!(!peer.manually_stopped);
}

#[test]
fn passive_sessions_heed_passive_starts() {
    let mut peer = disconnected(BgpState::Idle);
    peer.config.passive_mode = true;
    let mut turn = Turn::new(100);
    assert_eq!(
        peer.handle_idle_state(IdleInput::Op(PeerOp::ManualStart), NOW, &mut turn),
        Next::Stay
    );
    assert_eq!(
        peer.handle_idle_state(IdleInput::Op(PeerOp::ManualStartPassive), NOW, &mut turn),
        Next::Leave
    );
    assert_eq!(peer.state(), BgpState::Active);
}

#[test]
fn a_new_connection_opens_the_session() {
    let mut peer = disconnected(BgpState::Connect);
    assert_eq!(peer.connect_step(), ConnectStep::Dial);
    peer.fsm.timers.start_connect_retry(NOW);
    let mut turn = Turn::new(100);
    peer.handle_connect_state(ConnectInput::Connected, NOW, &mut turn);
    assert_eq!(peer.state(), BgpState::OpenSent);
    assert!(peer.connected);
    assert!(turn.effects.iter().any(|e| matches!(e, Effect::Send(OutMessage::Open(_)))));
    assert!(peer.sent_open.is_some());
    assert_eq!(peer.statistics.open_sent, 1);
}

#[test]
fn an_open_message_can_be_delayed() {
    let mut peer = disconnected(BgpState::Active);
    peer.config.delay_open_time_secs = Some(5);
    peer.fsm.timers.delay_open_time = Some(5);
    let mut turn = Turn::new(100);
    let input = ConnectInput::Op(PeerOp::TcpConnectionAccepted);
    peer.handle_active_state(input, NOW, &mut turn);
    assert!(peer.connected);
    assert_eq!(peer.state(), BgpState::Active);
    assert!(peer.fsm.timers.delay_open_timer_running());
    assert_eq!(peer.statistics.open_sent, 0);

    peer.handle_active_state(ConnectInput::Tick, NOW + 4_999, &mut turn);
    assert_eq!(peer.state(), BgpState::Active);
    peer.handle_active_state(ConnectInput::Tick, NOW + 5_000, &mut turn);
    assert_eq!(peer.state(), BgpState::OpenSent);
    assert_eq!(peer.statistics.open_sent, 1);
}

#[test]
fn an_open_message_of_the_peer_ends_the_delay() {
    let mut peer = peer_in(BgpState::Connect);
    peer.fsm.timers.start_delay_open_timer(NOW);
    assert_eq!(peer.connect_step(), ConnectStep::AwaitDelay);
    let mut turn = Turn::new(100);
    let open = OpenMessage::new(65001, 90, 7);
    let read = ConnectInput::Read(Reading::Message(BgpMessage::Open(open)));
    peer.handle_connect_state(read, NOW, &mut turn);
    assert_eq!(peer.state(), BgpState::OpenConfirm);
    assert_eq!(peer.fsm.timers.hold_time, 90);
    assert_eq!(peer.statistics.open_sent, 1);
    assert_eq!(peer.statistics.keepalive_sent, 1);
}

#[test]
fn a_copy_of_a_session_goes_its_own_way() {
    let mut peer = peer_in(BgpState::Established);
    peer.pending_updates = vec![vec![1, 2]];
    let copy = peer.clone();
    peer.pending_updates.push(vec![3]);
    assert_eq!(copy.pending_updates, vec![vec![1, 2]]);
    assert_eq!(copy.state(), BgpState::Established);
    assert_eq!(copy.fsm, peer.fsm);
}

// ---------------------------------------------------------------------------
// Errors
// ---------------------------------------------------------------------------

#[test]
fn errors_are_put_into_words() {
    let cases = vec![
        (PeerError::FsmError, "FSM protocol error"),
        (
            PeerError::AutomaticStop(CeaseSubcode::MaxPrefixesReached),
            "automatic stop: MaxPrefixesReached",
        ),
        (PeerError::AutomaticStop(CeaseSubcode::Unknown(42)), "automatic stop: Unknown(42)"),
        (PeerError::UpdateError, "UPDATE message error"),
        (PeerError::IoError(IoError::NotConnected), "I/O error: no TCP connection"),
        (
            PeerError::IoError(IoError::AsnMismatch { expected: 65001, received: 65002 }),
            "I/O error: remote ASN mismatch: expected 65001, received 65002",
        ),
        (PeerError::IoError(IoError::NoCommonFamily), "I/O error: no common AFI/SAFI"),
        (PeerError::IoError(IoError::NotificationReceived), "I/O error: notification received"),
    ];
    for (error, expected) in cases {
        assert_eq!(error.to_text(), expected);
    }
}
