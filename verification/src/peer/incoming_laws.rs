//! What is taken in of the messages of a peer.

use crate::bgp::multiprotocol::AfiSafi;
use crate::bgp::open_message::OpenView;
use crate::peer::capabilities::SessionType;
use crate::peer::fsm::{BgpState, EventView, Fsm};
use crate::peer::incoming;
use crate::peer::incoming::{ReceivedUpdate, UpdateIn};
use crate::peer::messages;
use crate::peer::messages::MessageView;
use crate::peer::pending::PendingRouteView;
use crate::peer::session::{
    EffectView, IoError, Peer, PeerError, PeerStatistics, PeerView, RestartView,
    RouteRefreshSubtype,
};
use crate::peer::steps::Stage;
use crate::peer::transitions;
use crate::peer::transitions::PlanView;
use crate::rib::{PathAttrsView, RouteKeyView, RouteSource};
use crate::rpki::RpkiValidation;
use vstd::prelude::*;

verus! {

/// What is looked at of a session is what it holds.
pub proof fn law_sessions_as_they_are(p: Peer)
    ensures
        p@.addr == p.addr,
        p@.port == p.port,
        p@.fsm == p.fsm,
        p@.asn == p.asn,
        p@.bgp_id == p.bgp_id,
        p@.session_type == p.session_type,
        p@.statistics == p.statistics,
        p@.connected == p.connected,
        p@.config.rr_client == p.config.rr_client,
        p@.config.rs_client == p.config.rs_client,
        p@.capabilities.four_octet_asn == p.capabilities.four_octet_asn,
        p@.capabilities.route_refresh == p.capabilities.route_refresh,
        p@.capabilities.enhanced_route_refresh == p.capabilities.enhanced_route_refresh,
        p@.capabilities.multiprotocol == p.capabilities.multiprotocol@,
        p@.established_at == p.established_at,
        p@.manually_stopped == p.manually_stopped,
        p@.consecutive_down_count == p.consecutive_down_count,
{
}

/// What is looked at of an UPDATE message is what it holds.
pub proof fn law_messages_as_they_are(u: ReceivedUpdate)
    ensures
        u@.withdrawn_routes == u.withdrawn_routes@,
        u@.nlri_list == u.nlri_list@,
        u@.eor_afi_safi == u.eor_afi_safi,
        u@.ls_nlri_list.len() == u.ls_nlri_list@.len(),
        u@.ls_withdrawn_list.len() == u.ls_withdrawn_list@.len(),
        forall|i: int|
            0 <= i < u.ls_nlri_list@.len() ==> #[trigger] u@.ls_nlri_list[i]
                == u.ls_nlri_list@[i]@,
        forall|i: int|
            0 <= i < u.ls_withdrawn_list@.len() ==> #[trigger] u@.ls_withdrawn_list[i]
                == u.ls_withdrawn_list@[i]@,
        u.attrs is Some ==> u@.attrs == Some(u.attrs->0@),
        u.attrs is None ==> u@.attrs is None,
        u.corrected_attrs is Some ==> u@.corrected_attrs == Some(u.corrected_attrs->0@),
        u.corrected_attrs is None ==> u@.corrected_attrs is None,
{
}

// ---------------------------------------------------------------------------
// Routes
// ---------------------------------------------------------------------------

/// A path that is announced on an internal session comes from within, from the
/// peer's address and identifier, and from a client of this reflector exactly if
/// the peer is configured as one; on an external session it comes from outside, as
/// it does while the kind of the session is not known.
pub proof fn law_paths_come_from_the_session(p: PeerView, u: UpdateIn, i: int)
    requires
        0 <= i < p.announced_in(u).len(),
    ensures
        p.bgp_id is Some,
        ({
            let source = p.announced_in(u)[i].path.attrs.source;
            &&& p.session_type == Some(SessionType::Ibgp) ==> source == (RouteSource::Ibgp {
                peer_ip: p.addr,
                bgp_id: p.bgp_id->0,
                rr_client: p.config.rr_client,
            })
            &&& p.session_type != Some(SessionType::Ibgp) ==> source == (RouteSource::Ebgp {
                peer_ip: p.addr,
                bgp_id: p.bgp_id->0,
            })
        }),
{
}

/// An UPDATE message announces its prefixes, each under the path identifier that
/// the peer gave, and its link-state objects behind them, all with the attributes of
/// the message; a path that was just received is fresh, not validated, and has no
/// identifier of this speaker.
pub proof fn law_messages_announce_their_routes(p: PeerView, u: UpdateIn, attrs: PathAttrsView)
    requires
        p.bgp_id is Some,
        p.capabilities.four_octet_asn is Some ==> u.attrs == Some(attrs),
        p.capabilities.four_octet_asn is None ==> u.corrected_attrs == Some(attrs),
    ensures
        ({
            let routes = p.announced_in(u);
            let n = u.nlri_list.len();
            &&& routes.len() == n + u.ls_nlri_list.len()
            &&& forall|i: int|
                0 <= i < n ==> (#[trigger] routes[i]).key == RouteKeyView::Prefix(
                    u.nlri_list[i].prefix,
                ) && routes[i].path.remote_path_id == u.nlri_list[i].path_id
            &&& forall|i: int|
                n <= i < routes.len() ==> (#[trigger] routes[i]).key == RouteKeyView::LinkState(
                    u.ls_nlri_list[i - n],
                ) && routes[i].path.remote_path_id is None
            &&& forall|i: int|
                0 <= i < routes.len() ==> {
                    let path = (#[trigger] routes[i]).path;
                    &&& path.local_path_id is None
                    &&& !path.stale
                    &&& path.rpki_state == RpkiValidation::NotFound
                    &&& path.attrs == (PathAttrsView { source: path.attrs.source, ..attrs })
                }
        }),
{
}

/// A message announces nothing before the peer is known, and none without the
/// attributes that are required.
pub proof fn law_incomplete_messages_announce_nothing(p: PeerView, u: UpdateIn)
    requires
        p.bgp_id is None || (p.capabilities.four_octet_asn is Some && u.attrs is None) || (
        p.capabilities.four_octet_asn is None && u.corrected_attrs is None),
    ensures
        p.announced_in(u).len() == 0,
{
}

/// An UPDATE message withdraws its prefixes, each under the path identifier that
/// the peer gave, and its link-state objects behind them.
pub proof fn law_messages_withdraw_their_routes(u: UpdateIn)
    ensures
        ({
            let w = incoming::withdrawn_in(u);
            let n = u.withdrawn_routes.len();
            &&& w.len() == n + u.ls_withdrawn_list.len()
            &&& forall|i: int|
                0 <= i < n ==> #[trigger] w[i] == (
                    RouteKeyView::Prefix(u.withdrawn_routes[i].prefix),
                    u.withdrawn_routes[i].path_id,
                )
            &&& forall|i: int|
                n <= i < w.len() ==> #[trigger] w[i] == (
                    RouteKeyView::LinkState(u.ls_withdrawn_list[i - n]),
                    None::<u32>,
                )
        }),
{
}

proof fn lemma_established_hears(s: Stage, e: EventView, now: u64)
    requires
        s.peer.fsm.current is Established,
        e is BgpUpdateReceived || e is BgpKeepaliveReceived,
    ensures
        ({
            let (t, r) = s.processed(e, now);
            &&& r is Ok
            &&& t.effects == s.effects
            &&& t.writes == s.writes
            &&& t.peer.fsm.current is Established
            &&& t.peer.fsm.timers.hold_time == s.peer.fsm.timers.hold_time
            &&& s.peer.fsm.timers.hold_time == 0 ==> t.peer.fsm.timers.hold_timer_started
                == s.peer.fsm.timers.hold_timer_started
            &&& t.peer.connected == s.peer.connected
            &&& t.peer.statistics == s.peer.statistics
            &&& t.peer.pending_routes == s.peer.pending_routes
            &&& t.peer.bgp_id == s.peer.bgp_id
            &&& t.peer.addr == s.peer.addr
            &&& t.peer.session_type == s.peer.session_type
            &&& t.peer.config == s.peer.config
            &&& t.peer.capabilities == s.peer.capabilities
        }),
{
    let moved = Stage {
        peer: PeerView { fsm: Fsm { current: BgpState::Established, ..s.peer.fsm }, ..s.peer },
        ..s
    };
    assert(moved == s);
    assert(s.peer.plan(e) == (PlanView { heard: true, ..transitions::nothing() }));
    assert(s.processed(e, now) == s.carried_out(s.peer.plan(e), e, now)) by {
        reveal(Stage::processed);
    }
    assert(s.told(None).finished(None) == s) by {
        reveal(Stage::told);
        reveal(Stage::finished);
    }
}

/// In an established session the routes of an UPDATE message wait to be handed on
/// behind those that wait already, what is withdrawn before what is announced;
/// nothing is sent, and the hold timer starts again where there is one.
pub proof fn law_routes_wait_to_be_handed_on(s: Stage, u: UpdateIn, now: u64)
    requires
        s.peer.fsm.current is Established,
        u.eor_afi_safi is None,
    ensures
        ({
            let (t, r) = s.received(MessageView::Update(u), now);
            let w = incoming::withdrawn_in(u);
            let a = s.peer.announced_in(u);
            let old = s.peer.pending_routes;
            let new = t.peer.pending_routes;
            &&& r is Ok
            &&& new.len() == old.len() + w.len() + a.len()
            &&& forall|i: int| 0 <= i < old.len() ==> #[trigger] new[i] == old[i]
            &&& forall|i: int|
                0 <= i < w.len() ==> new[old.len() + i] == PendingRouteView::Withdraw(
                    #[trigger] w[i],
                )
            &&& forall|i: int|
                0 <= i < a.len() ==> new[old.len() + w.len() + i] == PendingRouteView::Announce(
                    #[trigger] a[i],
                )
            &&& t.effects == s.effects
            &&& t.writes == s.writes
            &&& t.peer.fsm.current is Established
            &&& t.peer.connected == s.peer.connected
            &&& s.peer.fsm.timers.hold_time > 0 ==> t.peer.fsm.timers.hold_timer_started == Some(
                now,
            )
            &&& s.peer.fsm.timers.hold_time == 0 ==> t.peer.fsm.timers.hold_timer_started
                == s.peer.fsm.timers.hold_timer_started
            &&& t.peer.statistics.update_received
                == s.peer.statistics.update_received.wrapping_add(1)
        }),
{
    lemma_established_hears(
        s.message_counted(MessageView::Update(u)),
        EventView::BgpUpdateReceived,
        now,
    );
}

/// Routes that wait are handed on in their order, all of them, and wait no longer.
pub proof fn law_waiting_routes_are_handed_on(s: Stage)
    ensures
        s.flushed().peer.pending_routes.len() == 0,
        s.flushed().effects == s.effects.push(EffectView::PeerUpdate(s.peer.pending_routes)),
{
}

/// That all routes of a family were received is noted for a family whose routes
/// were kept: the routes that wait are handed on, it is told that the family is
/// complete, and once all families are, the peer is no longer waited for.
pub proof fn law_complete_families(s: Stage, f: AfiSafi, g: RestartView)
    requires
        s.peer.gr_state == Some(g),
    ensures
        ({
            let t = s.completed(f);
            let first = g.afi_safis.contains(f) && !g.eor_received.contains(f);
            let all = forall|x: AfiSafi|
                g.afi_safis.contains(x) ==> x == f || #[trigger] g.eor_received.contains(x);
            &&& !first ==> t == s
            &&& first ==> {
                let h = t.peer.gr_state->0;
                &&& t.peer.gr_state is Some
                &&& h.eor_received == g.eor_received.insert(f)
                &&& h.in_restart == g.in_restart.remove(f)
                &&& h.afi_safis == g.afi_safis
                &&& h.eor_sent == g.eor_sent
                &&& h.restart_timer == (g.restart_timer && !all)
                &&& t.peer.pending_routes.len() == 0
                &&& t.effects == (if all && g.restart_timer {
                    s.effects.push(EffectView::CancelRestartTimer)
                } else {
                    s.effects
                }).push(EffectView::PeerUpdate(s.peer.pending_routes)).push(
                    EffectView::GracefulRestartComplete(f),
                )
            }
        }),
        forall|p: Stage| p.peer.gr_state is None ==> #[trigger] p.completed(f) == p,
{
    if g.afi_safis.contains(f) && !g.eor_received.contains(f) {
        let received = g.eor_received.insert(f);
        let all = forall|x: AfiSafi|
            g.afi_safis.contains(x) ==> x == f || #[trigger] g.eor_received.contains(x);
        let each = forall|x: AfiSafi| g.afi_safis.contains(x) ==> received.contains(x);
        if all {
            assert forall|x: AfiSafi| g.afi_safis.contains(x) implies received.contains(x) by {
                assert(x == f || g.eor_received.contains(x));
            }
        }
        if each {
            assert forall|x: AfiSafi| g.afi_safis.contains(x) implies x == f
                || #[trigger] g.eor_received.contains(x) by {
                assert(received.contains(x));
            }
        }
        assert(all == each);
    }
}

/// A request of the peer for routes is heeded exactly if such requests, and the
/// family, were agreed on; a mark at either end only if marks were too, and at the
/// beginning, where the peer restarts, only when all routes of the family were
/// received. Routes that wait are handed on before the mark at the end.
pub proof fn law_requests_for_routes(s: Stage, f: AfiSafi, subtype: RouteRefreshSubtype)
    ensures
        ({
            let c = s.peer.capabilities;
            let t = s.refreshed(f, subtype);
            let told = EffectView::RouteRefresh { afi_safi: f, subtype };
            let agreed = c.route_refresh && c.multiprotocol.contains(f);
            &&& !agreed ==> t == s
            &&& agreed && subtype is Normal ==> t.effects == s.effects.push(told) && t.peer
                == s.peer
            &&& agreed && subtype is BoRR && c.enhanced_route_refresh && (c.graceful_restart is None
                || s.peer.gr_state is None || s.peer.gr_state->0.eor_received.contains(f))
                ==> t.effects == s.effects.push(told) && t.peer == s.peer
            &&& agreed && subtype is BoRR && (!c.enhanced_route_refresh || (
            c.graceful_restart is Some && s.peer.gr_state is Some
                && !s.peer.gr_state->0.eor_received.contains(f))) ==> t == s
            &&& agreed && subtype is EoRR && c.enhanced_route_refresh ==> t.effects
                == s.effects.push(EffectView::PeerUpdate(s.peer.pending_routes)).push(told)
                && t.peer.pending_routes.len() == 0
            &&& agreed && subtype is EoRR && !c.enhanced_route_refresh ==> t == s
            &&& subtype is Unknown ==> t == s
        }),
{
}

// ---------------------------------------------------------------------------
// Counts
// ---------------------------------------------------------------------------

/// A message of the peer is counted among those of its kind and no other.
pub proof fn law_messages_are_counted(s: PeerStatistics, m: MessageView)
    ensures
        ({
            let t = messages::counted(s, m);
            &&& t.open_received == (if m is Open {
                s.open_received.wrapping_add(1)
            } else {
                s.open_received
            })
            &&& t.keepalive_received == (if m is Keepalive {
                s.keepalive_received.wrapping_add(1)
            } else {
                s.keepalive_received
            })
            &&& t.update_received == (if m is Update {
                s.update_received.wrapping_add(1)
            } else {
                s.update_received
            })
            &&& t.notification_received == (if m is Notification {
                s.notification_received.wrapping_add(1)
            } else {
                s.notification_received
            })
            &&& t.route_refresh_received == (if m is RouteRefresh {
                s.route_refresh_received.wrapping_add(1)
            } else {
                s.route_refresh_received
            })
            &&& t.open_sent == s.open_sent
            &&& t.keepalive_sent == s.keepalive_sent
            &&& t.update_sent == s.update_sent
            &&& t.notification_sent == s.notification_sent
            &&& t.route_refresh_sent == s.route_refresh_sent
            &&& t.adj_rib_in_count == s.adj_rib_in_count
        }),
{
}

/// A message is counted before anything else is done about it.
pub proof fn law_counting_comes_first(s: Stage, m: MessageView)
    ensures
        s.message_counted(m).peer.statistics == messages::counted(s.peer.statistics, m),
        !(m is Notification) ==> s.message_counted(m).effects == s.effects,
        s.message_counted(m).writes == s.writes,
        s.message_counted(m).peer.fsm == s.peer.fsm,
        s.message_counted(m).peer.pending_routes == s.peer.pending_routes,
{
}

// ---------------------------------------------------------------------------
// Other messages
// ---------------------------------------------------------------------------

/// The OPEN message of the peer is kept, and names its identifier; what both sides
/// bring is compared as each said it.
pub proof fn law_open_messages_introduce(p: PeerView, open: OpenView)
    ensures
        p.introduced_by(open).received_open == Some(open),
        p.introduced_by(open).bgp_id is Some,
        ({
            let id = p.introduced_by(open).bgp_id->0;
            id.a * 0x100_0000 + id.b * 0x1_0000 + id.c * 0x100 + id.d == open.bgp_identifier
        }),
        p.introduced_by(open).asn == p.asn,
        p.introduced_by(open).sent_open == p.sent_open,
        p.params_of(open).peer_asn == open.asn,
        p.params_of(open).peer_hold_time == open.hold_time,
        p.params_of(open).peer_bgp_id == open.bgp_identifier,
        p.params_of(open).local_asn == p.local_config.asn,
        p.params_of(open).local_hold_time == p.local_config.hold_time,
{
    let v = open.bgp_identifier;
    assert(((v >> 24) as u8) * 0x100_0000 + ((v >> 16) as u8) * 0x1_0000 + ((v >> 8) as u8) * 0x100
        + (v as u8) == v) by (bit_vector);
}

/// A keepalive in an established session keeps the session as it is, but for the
/// hold timer; a notification ends the reading of messages.
pub proof fn law_keepalives_and_notifications(s: Stage, now: u64, m: MessageView)
    requires
        s.peer.fsm.current is Established,
    ensures
        m is Keepalive ==> ({
            let (t, r) = s.received(m, now);
            &&& r is Ok
            &&& t.effects == s.effects
            &&& t.peer.fsm.current is Established
            &&& t.peer.pending_routes == s.peer.pending_routes
            &&& s.peer.fsm.timers.hold_time > 0 ==> t.peer.fsm.timers.hold_timer_started == Some(
                now,
            )
        }),
        m is Notification ==> s.received(m, now).1 == Err::<(), PeerError>(
            PeerError::IoError(IoError::NotificationReceived),
        ),
        m is RouteRefresh ==> s.received(m, now).1 is Ok,
{
    if m is Keepalive {
        lemma_established_hears(s.message_counted(m), EventView::BgpKeepaliveReceived, now);
    }
}

/// A change that waits leads where its announcement or its withdrawal does.
pub proof fn law_keys_of_changes(c: PendingRouteView)
    ensures
        match c {
            PendingRouteView::Announce(r) => c.key() == r.key,
            PendingRouteView::Withdraw((key, _)) => c.key() == key,
        },
{
}

} // verus!
