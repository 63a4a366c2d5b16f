//! What sessions do, step by step: what is sent and counted, how connections begin
//! and end, and what follows from each request.

use crate::bgp::msg_notification::{BgpError, CeaseSubcode, NotificationView, OpenMessageError};
use crate::bgp::msg_open;
use crate::bgp::multiprotocol::AfiSafi;
use crate::bgp::open_message;
use crate::bgp::open_message::OpenView;
use crate::net::addr::IpAddr;
use crate::peer::capabilities::{CapabilitiesView, SessionType};
use crate::peer::confirm;
use crate::peer::fsm;
use crate::peer::fsm::{BgpState, EventView, FsmTimers, OpenParamsView};
use crate::peer::messages::MessageView;
use crate::peer::negotiation;
use crate::peer::reactions::{InputView, Next, OpView, ReadingView};
use crate::peer::session;
use crate::peer::session::{
    ConnectionType, DownView, EffectView, IoError, LocalView, OutView, PeerStatistics, PeerView,
    RestartView, RouteRefreshSubtype,
};
use crate::peer::steps::Stage;
use crate::peer_config::PeerConfigView;
use vstd::prelude::*;

verus! {

// ---------------------------------------------------------------------------
// Sending
// ---------------------------------------------------------------------------

/// All counts but that of one kind of messages are as they were.
pub open spec fn counts_but(
    a: PeerStatistics,
    b: PeerStatistics,
    open: bool,
    keepalive: bool,
    update: bool,
    notification: bool,
    refresh: bool,
) -> bool {
    &&& b.open_sent == (if open {
        a.open_sent.wrapping_add(1)
    } else {
        a.open_sent
    })
    &&& b.keepalive_sent == (if keepalive {
        a.keepalive_sent.wrapping_add(1)
    } else {
        a.keepalive_sent
    })
    &&& b.update_sent == (if update {
        a.update_sent.wrapping_add(1)
    } else {
        a.update_sent
    })
    &&& b.notification_sent == (if notification {
        a.notification_sent.wrapping_add(1)
    } else {
        a.notification_sent
    })
    &&& b.route_refresh_sent == (if refresh {
        a.route_refresh_sent.wrapping_add(1)
    } else {
        a.route_refresh_sent
    })
    &&& b.open_received == a.open_received
    &&& b.keepalive_received == a.keepalive_received
    &&& b.update_received == a.update_received
    &&& b.notification_received == a.notification_received
    &&& b.route_refresh_received == a.route_refresh_received
    &&& b.adj_rib_in_count == a.adj_rib_in_count
}

/// A message that the connection takes is sent once and counted among those of its
/// kind alone; one that it does not take leaves the session as it is.
pub proof fn law_sent_messages_are_counted(
    s: Stage,
    n: NotificationView,
    bytes: Seq<u8>,
    now: u64,
)
    ensures
        ({
            let a = s.peer.statistics;
            &&& s.peer.connected && s.writes > 0 ==> {
                &&& s.opened().effects == s.effects.push(
                    EffectView::Send(OutView::Open(s.peer.own_open())),
                )
                &&& s.opened().peer.sent_open == Some(s.peer.own_open())
                &&& s.opened().writes == s.writes - 1
                &&& counts_but(a, s.opened().peer.statistics, true, false, false, false, false)
                &&& s.kept_alive(now).effects == s.effects.push(
                    EffectView::Send(OutView::Keepalive),
                )
                &&& s.kept_alive(now).writes == s.writes - 1
                &&& counts_but(
                    a,
                    s.kept_alive(now).peer.statistics,
                    false,
                    true,
                    false,
                    false,
                    false,
                )
                &&& s.updated(bytes, now).effects == s.effects.push(
                    EffectView::Send(OutView::Update(bytes)),
                )
                &&& s.updated(bytes, now).writes == s.writes - 1
                &&& counts_but(
                    a,
                    s.updated(bytes, now).peer.statistics,
                    false,
                    false,
                    true,
                    false,
                    false,
                )
            }
            &&& !(s.peer.connected && s.writes > 0) ==> s.opened() == s && s.kept_alive(now) == s
                && s.updated(bytes, now) == s
            &&& counts_but(
                a,
                s.notice_sent(n).peer.statistics,
                false,
                false,
                false,
                true,
                false,
            )
            &&& s.notice_sent(n).writes == s.writes - 1
            &&& s.notice_sent(n).effects.len() == s.effects.len() + 2
            &&& s.notice_sent(n).effects[s.effects.len() as int] == EffectView::Send(
                OutView::Notification(n),
            )
        }),
{
}

/// The next keepalive is due a while after the last message, where a hold time was
/// agreed on.
pub proof fn law_keepalives_follow_messages(s: Stage, bytes: Seq<u8>, now: u64)
    requires
        s.peer.connected,
        s.writes > 0,
    ensures
        s.peer.fsm.timers.hold_time > 0 ==> s.kept_alive(
            now,
        ).peer.fsm.timers.keepalive_timer_started == Some(now) && s.updated(
            bytes,
            now,
        ).peer.fsm.timers.keepalive_timer_started == Some(now),
        s.peer.fsm.timers.hold_time == 0 ==> s.kept_alive(now).peer.fsm == s.peer.fsm && s.updated(
            bytes,
            now,
        ).peer.fsm == s.peer.fsm,
        s.kept_alive(now).peer.fsm.timers.hold_timer_started
            == s.peer.fsm.timers.hold_timer_started,
{
}

/// A notification may be sent over a connection on which an OPEN message was sent, or
/// need not have been.
pub proof fn law_when_the_peer_is_told(s: Stage, n: NotificationView)
    ensures
        ({
            let may = s.peer.connected && (s.peer.statistics.open_sent > 0
                || s.peer.config.send_notification_without_open);
            &&& may && s.writes > 0 ==> s.notified(n) == s.notice_sent(n) && s.notify_result() is Ok
            &&& !may ==> s.notified(n) == s && s.notify_result() is Ok
            &&& may && s.writes == 0 ==> s.notify_result() == Err::<(), IoError>(
                IoError::WriteFailed,
            )
        }),
        s.peer.connected && s.writes > 0 ==> s.write_result() is Ok,
        s.peer.connected && s.writes <= 0 ==> s.write_result() == Err::<(), IoError>(
            IoError::WriteFailed,
        ),
        !s.peer.connected ==> s.write_result() == Err::<(), IoError>(IoError::NotConnected),
{
}

/// A request for routes is sent exactly if such requests, and the family, were agreed
/// on, and the connection takes it; marks, where the peer restarts, only behind the
/// word that it has all routes of the family.
pub proof fn law_requests_that_are_sent(s: Stage, f: AfiSafi, subtype: RouteRefreshSubtype)
    ensures
        ({
            let c = s.peer.capabilities;
            let t = s.asked(f, subtype);
            let mark = subtype is BoRR || subtype is EoRR;
            let early = mark && s.peer.gr_state is Some && !s.peer.gr_state->0.eor_sent.contains(
                f,
            );
            let goes = c.route_refresh && c.multiprotocol.contains(f) && s.peer.connected
                && s.writes > 0 && !early;
            &&& goes ==> t.effects == s.effects.push(
                EffectView::Send(OutView::RouteRefresh { afi_safi: f, subtype }),
            ) && t.writes == s.writes - 1 && counts_but(
                s.peer.statistics,
                t.peer.statistics,
                false,
                false,
                false,
                false,
                true,
            )
            &&& !goes ==> t == s
        }),
{
}

/// An UPDATE message is sent at once if the time between them is over or there is
/// none, and waits behind the others else; it waits without a change to anything
/// else.
pub proof fn law_updates_keep_their_distance(s: Stage, bytes: Seq<u8>, now: u64, t: u64)
    requires
        s.peer.last_update_sent == Some(t),
        t <= now,
        s.peer.connected,
        s.writes > 0,
    ensures
        ({
            let (r, ok) = s.offered(bytes, now);
            let due = (now - t) / 1000 >= s.peer.mrai_interval;
            &&& ok
            &&& due ==> r.effects == s.effects.push(EffectView::Send(OutView::Update(bytes)))
                && r.peer.last_update_sent == Some(now) && r.peer.pending_updates
                == s.peer.pending_updates
            &&& !due ==> r.effects == s.effects && r.peer.pending_updates
                == s.peer.pending_updates.push(bytes) && r.peer.last_update_sent == Some(t)
                && r.peer.statistics == s.peer.statistics
        }),
{
}

// ---------------------------------------------------------------------------
// Ends of connections
// ---------------------------------------------------------------------------

/// When a connection ends, it is said that it did and why; the timers of it stop, and
/// a failure is counted where failures are. A session without a connection says
/// nothing.
pub proof fn law_connections_end(s: Stage, damp: bool, reason: DownView)
    ensures
        ({
            let t = s.dropped(damp, reason);
            let kept = s.peer.kept_families(reason);
            &&& !t.peer.connected
            &&& t.peer.established_at is None
            &&& t.peer.fsm.timers.hold_timer_started is None
            &&& t.peer.fsm.timers.keepalive_timer_started is None
            &&& t.peer.fsm.timers.delay_open_timer_started is None
            &&& t.peer.fsm.timers.connect_retry_started
                == s.peer.fsm.timers.connect_retry_started
            &&& t.peer.fsm.current == s.peer.fsm.current
            &&& t.peer.statistics == s.peer.statistics
            &&& t.writes == s.writes
            &&& !s.peer.connected ==> t.effects == s.effects && t.peer.consecutive_down_count
                == s.peer.consecutive_down_count
            &&& s.peer.connected ==> t.effects.len() > s.effects.len() && t.effects.last()
                == (EffectView::PeerDisconnected { reason, gr_afi_safis: kept })
            &&& s.peer.connected && damp ==> t.peer.consecutive_down_count
                == s.peer.consecutive_down_count.wrapping_add(1)
            &&& !damp ==> t.peer.consecutive_down_count == s.peer.consecutive_down_count
            &&& s.peer.connected && kept.len() == 0 ==> t.effects.len() == s.effects.len() + 1
                && t.peer.gr_state == s.peer.gr_state
        }),
{
}

/// The routes of a peer outlive the connection exactly if the session was
/// established, no notification ended it, and the peer had named families and some
/// time to keep them; they are then the families that it named.
pub proof fn law_routes_that_outlive_connections(p: PeerView, reason: DownView)
    ensures
        ({
            let gr = p.capabilities.graceful_restart;
            let some_time = gr is Some && (gr->0.restart_time > 0 || (p.capabilities.llgr is Some
                && exists|i: int|
                0 <= i < p.capabilities.llgr->0.len() && (
                #[trigger] p.capabilities.llgr->0[i]).stale_time > 0));
            let keeps = {
                &&& reason is LocalNoNotification || reason is RemoteNoNotification
                &&& p.fsm.current == BgpState::Established
                &&& gr is Some && gr->0.afi_safi_list.len() > 0
                &&& some_time
            };
            &&& keeps ==> p.kept_families(reason) == msg_open::families(gr->0.afi_safi_list)
            &&& !keeps ==> p.kept_families(reason).len() == 0
        }),
{
}

/// A peer whose routes are kept is waited for: for the time that it asked for, with
/// the families whose stale routes stay longer; earlier waiting ends first.
pub proof fn law_peers_are_waited_for(s: Stage)
    requires
        s.peer.capabilities.graceful_restart is Some,
        msg_open::families(s.peer.capabilities.graceful_restart->0.afi_safi_list).len() > 0,
    ensures
        ({
            let gr = s.peer.capabilities.graceful_restart->0;
            let families = msg_open::families(gr.afi_safi_list);
            let t = s.awaited();
            let g = t.peer.gr_state->0;
            let waited = s.peer.gr_state is Some && s.peer.gr_state->0.restart_timer;
            &&& t.peer.gr_state is Some
            &&& g.restart_timer
            &&& g.in_restart == families.to_set()
            &&& g.eor_received == Set::<AfiSafi>::empty()
            &&& g.eor_sent == Set::<AfiSafi>::empty()
            &&& g.loc_rib_received == Set::<AfiSafi>::empty()
            &&& t.effects.len() == s.effects.len() + (if waited {
                2int
            } else {
                1int
            })
            &&& waited ==> t.effects[s.effects.len() as int] is CancelRestartTimer
            &&& match t.effects.last() {
                EffectView::StartRestartTimer { seconds, llgr_afi_safis } => {
                    &&& seconds == gr.restart_time
                    &&& s.peer.capabilities.llgr is None ==> llgr_afi_safis.len() == 0
                    &&& s.peer.capabilities.llgr is Some ==> {
                        let l = s.peer.capabilities.llgr->0;
                        &&& llgr_afi_safis.len() == l.len()
                        &&& forall|i: int|
                            0 <= i < l.len() ==> #[trigger] llgr_afi_safis[i] == (
                                l[i].afi_safi,
                                l[i].stale_time,
                            )
                    }
                },
                _ => false,
            }
        }),
{
}

// ---------------------------------------------------------------------------
// Agreement
// ---------------------------------------------------------------------------

/// An OPEN message is refused for the first of these reasons that there is: the peer
/// has another AS number than it should have; no family is common to both sides,
/// though the peer named some; the peer does not know long AS numbers and this side
/// has one. The peer is told the reason.
pub proof fn law_refused_open_messages(p: PeerView, q: OpenParamsView)
    ensures
        ({
            let r = confirm::refusal(p, q);
            let caps = q.peer_capabilities;
            let stranger = p.config.asn is Some && p.config.asn->0 != q.peer_asn;
            let apart = caps.multiprotocol != Set::<AfiSafi>::empty()
                && p.common_families(caps) == Set::<AfiSafi>::empty();
            let old = p.local_config.asn > 65535 && caps.four_octet_asn is None;
            let (why, told) = r->0;
            &&& r is Some <==> stranger || apart || old
            &&& stranger ==> why == (IoError::AsnMismatch {
                expected: p.config.asn->0,
                received: q.peer_asn,
            }) && told.error == BgpError::OpenMessageError(OpenMessageError::BadPeerAs)
                && told.data.len() == 0
            &&& !stranger && apart ==> why == IoError::NoCommonFamily && told.error
                == BgpError::OpenMessageError(OpenMessageError::UnsupportedCapability)
            &&& !stranger && !apart && old ==> why == IoError::NoFourOctetAsn && told.error
                == BgpError::OpenMessageError(OpenMessageError::UnsupportedOptionalParameter)
                && told.data.len() == 0
        }),
{
}

/// Of a peer whose OPEN message is refused nothing is noted if it has another AS number
/// than it should have; else that number is, and what was agreed on is, unless no family
/// is common.
pub proof fn law_noted_at_refusal(s: Stage, q: OpenParamsView, now: u64)
    requires
        confirm::refusal(s.peer, q) is Some,
    ensures
        ({
            let (t, r) = s.confirmed(q, now);
            let caps = q.peer_capabilities;
            let stranger = s.peer.config.asn is Some && s.peer.config.asn->0 != q.peer_asn;
            let apart = caps.multiprotocol != Set::<AfiSafi>::empty() && s.peer.common_families(
                caps,
            ) == Set::<AfiSafi>::empty();
            &&& r is Err
            &&& stranger ==> t.peer.asn == s.peer.asn && t.peer.session_type == s.peer.session_type
                && t.peer.capabilities == s.peer.capabilities
            &&& !stranger ==> t.peer.asn == Some(q.peer_asn) && t.peer.session_type == Some(
                if q.peer_asn == q.local_asn {
                    SessionType::Ibgp
                } else {
                    SessionType::Ebgp
                },
            )
            &&& !stranger && apart ==> t.peer.capabilities == s.peer.capabilities
            &&& !stranger && !apart ==> t.peer.capabilities == s.peer.agreed(caps).capabilities
        }),
{
}

/// A session is internal exactly if both sides have one AS number. What is agreed on
/// is what the peer said, but for families, which both sides must have named, and for
/// several paths, which both sides must want.
pub proof fn law_agreements(p: PeerView, q: OpenParamsView, caps: CapabilitiesView, f: AfiSafi)
    ensures
        p.identified(q).asn == Some(q.peer_asn),
        p.identified(q).session_type == Some(SessionType::Ibgp) <==> q.peer_asn == q.local_asn,
        p.identified(q).session_type == Some(SessionType::Ebgp) <==> q.peer_asn != q.local_asn,
        p.agreed(caps).capabilities.multiprotocol.contains(f) <==> caps.multiprotocol.contains(f)
            && negotiation::offered_families(p.config).contains(f),
        p.agreed(caps).capabilities.route_refresh == caps.route_refresh,
        p.agreed(caps).capabilities.enhanced_route_refresh == caps.enhanced_route_refresh,
        p.agreed(caps).capabilities.four_octet_asn == caps.four_octet_asn,
        p.agreed(caps).capabilities.graceful_restart == caps.graceful_restart,
        p.agreed(caps).capabilities.llgr == caps.llgr,
        p.agreed(caps).fsm.graceful_restart_negotiated == caps.graceful_restart is Some,
{
}

/// An accepted OPEN message is answered by a keepalive; the shorter hold time counts,
/// a third of it passes between keepalives, and without one no timer runs. It is said
/// that the handshake is complete.
pub proof fn law_accepted_open_messages(s: Stage, q: OpenParamsView, now: u64)
    requires
        confirm::refusal(s.peer, q) is None,
        s.peer.connected,
        s.writes > 0,
    ensures
        ({
            let (t, r) = s.confirmed(q, now);
            let shorter = if q.local_hold_time < q.peer_hold_time {
                q.local_hold_time
            } else {
                q.peer_hold_time
            };
            let timers = t.peer.fsm.timers;
            &&& r is Ok
            &&& timers.hold_time == shorter
            &&& timers.keepalive_time == shorter / 3
            &&& shorter != 0 ==> timers.hold_timer_started == Some(now)
                && timers.keepalive_timer_started == Some(now)
            &&& shorter == 0 ==> timers.hold_timer_started is None
                && timers.keepalive_timer_started is None
            &&& t.effects == s.effects.push(EffectView::Send(OutView::Keepalive)).push(
                EffectView::HandshakeComplete { asn: q.peer_asn },
            )
            &&& t.peer.asn == Some(q.peer_asn)
        }),
{
}

/// When both sides opened a connection, that of the side with the higher identifier
/// stays; between equal ones that of the higher AS number.
pub proof fn law_collisions(p: PeerView, open: OpenView)
    ensures
        ({
            let own = p.local_config.bgp_id.bits();
            let caps = negotiation::understood(
                open_message::all_capabilities(open.optional_params),
            );
            &&& own > open.bgp_identifier ==> p.wins_collision(open)
            &&& own < open.bgp_identifier ==> !p.wins_collision(open)
            &&& own == open.bgp_identifier && caps.four_octet_asn is Some ==> (p.wins_collision(
                open,
            ) <==> p.local_config.asn > caps.four_octet_asn->0)
            &&& own == open.bgp_identifier && caps.four_octet_asn is None ==> (p.wins_collision(
                open,
            ) <==> p.local_config.asn > open.asn)
        }),
{
}

// ---------------------------------------------------------------------------
// Timers
// ---------------------------------------------------------------------------

/// A timer has run out when as many whole seconds passed as it runs for; one that was
/// not started never has. Moments are counted in milliseconds.
pub proof fn law_timers(started: u64, time: u64, now: u64)
    ensures
        !fsm::run_out(None, time, now),
        started <= now ==> (fsm::run_out(Some(started), time, now) <==> now - started >= time
            * 1000),
        started > now ==> (fsm::run_out(Some(started), time, now) <==> time == 0),
{
    assert(started <= now ==> ((now - started) / 1000 >= time <==> now - started >= time * 1000))
        by (nonlinear_arith);
}

/// The hold timer is looked at first, then that of keepalives; if neither has run out,
/// nothing is done.
pub proof fn law_timers_of_a_connection(s: Stage, now: u64)
    ensures
        ({
            let t = s.peer.fsm.timers;
            let silent = t.hold_time > 0 && fsm::run_out(t.hold_timer_started, t.hold_time, now);
            let quiet = fsm::run_out(t.keepalive_timer_started, t.keepalive_time, now);
            &&& silent ==> s.ticked(now) == (s.processed(EventView::HoldTimerExpires, now).0, false)
            &&& !silent && quiet ==> s.ticked(now) == s.pushed(
                EventView::KeepaliveTimerExpires,
                now,
            )
            &&& !silent && !quiet ==> s.ticked(now) == (s, true)
        }),
{
}

/// A session is held off for longer after each failure in a row, twice as long each
/// time for the first six, and for two minutes at most; without such care, and
/// without a failure, for its own time.
pub proof fn law_hold_off(p: PeerView, base: u64)
    requires
        p.config.idle_hold_time_secs == Some(base),
    ensures
        ({
            let n = p.consecutive_down_count;
            let careful = p.config.damp_peer_oscillations;
            let q = PeerView { consecutive_down_count: (n + 1) as u32, ..p };
            &&& !careful || n == 0 ==> p.idle_hold_time() == Some(base as int)
            &&& careful && n > 0 ==> p.idle_hold_time()->0 <= 120
            &&& careful && n == 1 && base * 2 <= 120 ==> p.idle_hold_time() == Some(base * 2)
            &&& careful && 0 < n < 6 && p.idle_hold_time()->0 * 2 <= 120 ==> q.idle_hold_time()
                == Some(p.idle_hold_time()->0 * 2)
            &&& careful && n >= 6 && n < u32::MAX ==> q.idle_hold_time() == p.idle_hold_time()
        }),
        p.manually_stopped ==> p.restart_in() is None,
        !p.manually_stopped ==> p.restart_in() == p.idle_hold_time(),
{
}

// ---------------------------------------------------------------------------
// Requests
// ---------------------------------------------------------------------------

/// Statistics are told as they are in every state, and what was agreed on in an
/// established session; before that nothing was.
pub proof fn law_what_is_told_on_request(s: Stage, now: u64)
    ensures
        s.asked_established(OpView::GetStatistics, now).0.effects == s.effects.push(
            EffectView::ReplyStatistics(s.peer.statistics),
        ),
        s.asked_while_opening(OpView::GetStatistics, now).0.effects == s.effects.push(
            EffectView::ReplyStatistics(s.peer.statistics),
        ),
        s.asked_established(OpView::GetNegotiatedCapabilities, now).0.effects == s.effects.push(
            EffectView::ReplyCapabilities(s.peer.capabilities),
        ),
        match s.asked_while_opening(OpView::GetNegotiatedCapabilities, now).0.effects.last() {
            EffectView::ReplyCapabilities(c) => {
                &&& c.multiprotocol == Set::<AfiSafi>::empty()
                &&& !c.route_refresh && !c.enhanced_route_refresh
                &&& c.four_octet_asn is None && c.graceful_restart is None && c.add_path is None
                    && c.llgr is None
            },
            _ => false,
        },
        s.asked_established(OpView::GetStatistics, now).0.peer == s.peer,
        s.asked_while_opening(OpView::GetStatistics, now).0.peer == s.peer,
{
}

/// A session that is shut down tells the peer the reason and comes to its end; one
/// that is reset says so and leaves its state.
pub proof fn law_shutting_down(s: Stage, c: CeaseSubcode, n: NotificationView, now: u64)
    requires
        n.error == BgpError::Cease(c),
        n.data == Seq::<u8>::empty(),
    ensures
        s.asked_established(OpView::Shutdown(c), now) == (s.notified(n), Next::Shutdown),
        s.asked_while_opening(OpView::Shutdown(c), now) == (s.notified(n), Next::Shutdown),
        s.asked_established(OpView::HardReset, now).1 is Leave,
        s.asked_while_opening(OpView::HardReset, now).1 is Leave,
        c == CeaseSubcode::ConnectionCollisionResolution ==> s.asked_while_opening(
            OpView::CollisionLost,
            now,
        ) == (s.notified(n).dropped(true, DownView::LocalNotification(n)), Next::Shutdown),
        c == CeaseSubcode::AdministrativeReset && s.peer.connected && s.writes > 0 ==> s.reset(now)
            == s.notice_sent(n).processed(EventView::NotifMsgVerErr(n), now).0,
{
}

/// What cannot be read ends a connection: the peer is told why where there is
/// something to tell; a connection that is closed just ends.
pub proof fn law_unreadable_messages(s: Stage, n: NotificationView, now: u64)
    ensures
        s.read(ReadingView::Unreadable(Some(n)), now) == (
            s.notified(n).dropped(true, DownView::LocalNotification(n)),
            false,
        ),
        s.read(ReadingView::Unreadable(None), now) == (
            s.dropped(true, DownView::RemoteNoNotification),
            false,
        ),
        s.read(ReadingView::Closed, now) == (
            s.dropped(true, DownView::RemoteNoNotification),
            false,
        ),
{
}

/// Route changes are handed on at once when a thousand wait; fewer go on waiting.
pub proof fn law_many_routes_are_handed_on(s: Stage, m: MessageView, now: u64)
    requires
        s.received(m, now).1 is Ok,
    ensures
        ({
            let t = s.received(m, now).0;
            let (u, _) = s.read_established(ReadingView::Message(m), now);
            &&& t.peer.pending_routes.len() >= 1000 ==> u.peer.pending_routes.len() == 0
                && u.effects == t.effects.push(EffectView::PeerUpdate(t.peer.pending_routes))
            &&& t.peer.pending_routes.len() < 1000 ==> u == t
        }),
{
}

// ---------------------------------------------------------------------------
// Ends of tables
// ---------------------------------------------------------------------------

/// A peer that restarts is told once for each family that it named, and is not told of
/// others, that it has all routes; what it was told is noted.
pub proof fn law_word_of_complete_families(
    s: Stage,
    families: Seq<AfiSafi>,
    f: AfiSafi,
    g: RestartView,
)
    requires
        s.marked(families).1 is Ok,
        s.marked(families).0.peer.gr_state == Some(g),
    ensures
        ({
            let before = s.marked(families).0;
            let (t, r) = s.marked(families.push(f));
            let owed = g.afi_safis.contains(f) && !g.eor_sent.contains(f);
            &&& !owed ==> (t, r) == (before, Ok::<(), IoError>(()))
            &&& owed && before.writes != 0 ==> {
                &&& r is Ok
                &&& t.effects == before.effects.push(EffectView::Send(OutView::EndOfRib(f)))
                &&& t.writes == before.writes - 1
                &&& t.peer.gr_state is Some
                &&& t.peer.gr_state->0.eor_sent == g.eor_sent.insert(f)
                &&& t.peer.gr_state->0.afi_safis == g.afi_safis
            }
            &&& owed && before.writes == 0 ==> r == Err::<(), IoError>(IoError::WriteFailed)
        }),
        !s.peer.connected ==> s.eor_sent(families).1 == Err::<(), IoError>(IoError::NotConnected),
        s.peer.connected && s.peer.gr_state is None ==> s.eor_sent(families).1 == Err::<
            (),
            IoError,
        >(IoError::NoRestartState),
{
    assert(families.push(f).drop_last() =~= families);
}

/// The peer is told when the routes of all families that it named were sent, and not
/// before.
pub proof fn law_complete_tables(s: Stage, f: AfiSafi, g: RestartView)
    requires
        s.peer.gr_state == Some(g),
    ensures
        ({
            let t = s.rib_sent(f);
            let all = forall|x: AfiSafi|
                g.afi_safis.contains(x) ==> x == f || #[trigger] g.loc_rib_received.contains(x);
            let noted = Stage {
                peer: PeerView {
                    gr_state: Some(
                        RestartView { loc_rib_received: g.loc_rib_received.insert(f), ..g },
                    ),
                    ..s.peer
                },
                ..s
            };
            &&& all ==> t == noted.eor_sent(g.afi_safis).0
            &&& !all ==> t == noted
        }),
{
    let done = g.loc_rib_received.insert(f);
    let all = forall|x: AfiSafi|
        g.afi_safis.contains(x) ==> x == f || #[trigger] g.loc_rib_received.contains(x);
    let each = forall|x: AfiSafi| g.afi_safis.contains(x) ==> done.contains(x);
    if all {
        assert forall|x: AfiSafi| g.afi_safis.contains(x) implies done.contains(x) by {
            assert(x == f || g.loc_rib_received.contains(x));
        }
    }
    if each {
        assert forall|x: AfiSafi| g.afi_safis.contains(x) implies x == f
            || #[trigger] g.loc_rib_received.contains(x) by {
            assert(done.contains(x));
        }
    }
    assert(all == each);
}

// ---------------------------------------------------------------------------
// Staying and leaving
// ---------------------------------------------------------------------------

/// An established session goes on as long as it has its connection, a step does not fail
/// and it is established still. A stop and a reset end it, and a shutdown ends all.
pub proof fn law_established_sessions_go_on(s: Stage, x: InputView, now: u64)
    ensures
        ({
            let (t, next) = s.reacted_established(x, now);
            let still = t.peer.fsm.current == BgpState::Established;
            let was = s.peer.fsm.current == BgpState::Established;
            &&& !s.peer.connected ==> next == Next::Leave
            &&& s.peer.connected ==> match x {
                InputView::Tick => next == (if s.ticked(now).1 && still {
                    Next::Stay
                } else {
                    Next::Leave
                }),
                InputView::Read(r) => next == (if s.read(r, now).1 && still {
                    Next::Stay
                } else {
                    Next::Leave
                }),
                InputView::Flush => next == (if still {
                    Next::Stay
                } else {
                    Next::Leave
                }),
                InputView::Op(OpView::HardReset) => next == Next::Leave,
                InputView::Op(OpView::ManualStop) => next == Next::Leave,
                InputView::Op(OpView::Shutdown(_)) => next == Next::Shutdown,
                InputView::Op(OpView::SendUpdate(b)) => next == (if s.offered(b, now).1 && was {
                    Next::Stay
                } else {
                    Next::Leave
                }),
                InputView::Op(_) => next == (if was {
                    Next::Stay
                } else {
                    Next::Leave
                }),
                InputView::Due => was && s.peer.pending_updates.len() == 0 ==> next == Next::Stay,
            }
        }),
{
}

/// A session that exchanges OPEN messages goes on as long as it has its connection, a
/// step does not fail and it exchanges them still. A stop and a reset end it; a shutdown
/// and a lost collision end all.
pub proof fn law_opening_sessions_go_on(s: Stage, x: InputView, now: u64)
    ensures
        ({
            let (t, next) = s.reacted_opening(x, now);
            let now_at = t.peer.fsm.current;
            let was_at = s.peer.fsm.current;
            let still = now_at == BgpState::OpenSent || now_at == BgpState::OpenConfirm;
            let was = was_at == BgpState::OpenSent || was_at == BgpState::OpenConfirm;
            &&& !s.peer.connected ==> next == Next::Leave
            &&& s.peer.connected ==> match x {
                InputView::Tick => next == (if s.ticked(now).1 && still {
                    Next::Stay
                } else {
                    Next::Leave
                }),
                InputView::Read(r) => next == (if s.read(r, now).1 && still {
                    Next::Stay
                } else {
                    Next::Leave
                }),
                InputView::Op(OpView::HardReset) => next == Next::Leave,
                InputView::Op(OpView::ManualStop) => next == Next::Leave,
                InputView::Op(OpView::Shutdown(_)) => next == Next::Shutdown,
                InputView::Op(OpView::CollisionLost) => next == Next::Shutdown,
                _ => next == (if was {
                    Next::Stay
                } else {
                    Next::Leave
                }),
            }
        }),
{
}

// ---------------------------------------------------------------------------
// New sessions
// ---------------------------------------------------------------------------

/// A new session is idle and without a connection, knows nothing of the peer, has
/// counted nothing, and is set up as it is configured.
pub proof fn law_new_sessions(
    addr: IpAddr,
    port: u16,
    local: LocalView,
    config: PeerConfigView,
    retry: u64,
    kind: ConnectionType,
)
    ensures
        ({
            let p = session::new_session(addr, port, local, config, retry, kind);
            let t = p.fsm.timers;
            &&& p.addr == addr && p.port == port && p.config == config && p.local_config == local
            &&& p.conn_type == kind && p.connect_retry_secs == retry
            &&& p.fsm.current == BgpState::Idle && !p.connected && !p.manually_stopped
            &&& p.fsm.passive_mode == config.passive_mode && p.fsm.connect_retry_counter == 0
            &&& p.asn is None && p.bgp_id is None && p.session_type is None
            &&& p.sent_open is None && p.received_open is None && p.gr_state is None
            &&& p.pending_routes.len() == 0 && p.pending_updates.len() == 0
            &&& p.last_update_sent is None && p.established_at is None
            &&& p.consecutive_down_count == 0 && !p.capabilities_suppressed
            &&& p.statistics.open_sent == 0 && p.statistics.open_received == 0
            &&& p.statistics.keepalive_sent == 0 && p.statistics.keepalive_received == 0
            &&& p.statistics.update_sent == 0 && p.statistics.update_received == 0
            &&& p.statistics.notification_sent == 0 && p.statistics.notification_received == 0
            &&& p.statistics.route_refresh_sent == 0 && p.statistics.route_refresh_received == 0
            &&& p.statistics.adj_rib_in_count == 0
            &&& config.min_route_advertisement_interval_secs is None ==> p.mrai_interval == 0
            &&& config.min_route_advertisement_interval_secs is Some ==> Some(p.mrai_interval)
                == config.min_route_advertisement_interval_secs
            &&& t.connect_retry_started is None && t.hold_timer_started is None
            &&& t.keepalive_timer_started is None && t.delay_open_timer_started is None
            &&& t.delay_open_time == config.delay_open_time_secs
            &&& t.hold_time == 180 && t.keepalive_time == 60 && t.connect_retry_time == 120
        }),
{
}

/// While messages wait, the next is sent the time between messages after the last.
pub proof fn law_when_waiting_messages_are_sent(p: PeerView)
    ensures
        p.pending_updates.len() == 0 || p.last_update_sent is None ==> p.next_send() is None,
        p.pending_updates.len() > 0 && p.last_update_sent is Some ==> p.next_send() == Some(
            (p.last_update_sent->0, p.mrai_interval),
        ),
{
}

/// The peer's OPEN message is waited for four minutes at most.
pub proof fn law_waiting_for_open_messages(p: PeerView, e: EventView, t: FsmTimers, now: u64)
    ensures
        p.plan(e).await_open ==> p.plan(e).timed(t, now).hold_time == 240 && p.plan(e).timed(
            t,
            now,
        ).hold_timer_started == Some(now),
        !p.plan(e).await_open ==> p.plan(e).timed(t, now).hold_time == t.hold_time,
        p.plan(e).undelay ==> p.plan(e).timed(t, now).delay_open_timer_started is None,
        p.plan(e).establish ==> p.plan(e).timed(t, now).hold_timer_started == Some(now),
        p.plan(e).heard && t.hold_time > 0 ==> p.plan(e).timed(t, now).hold_timer_started == Some(
            now,
        ),
        !p.plan(e).await_open && !p.plan(e).establish && !p.plan(e).heard ==> p.plan(e).timed(
            t,
            now,
        ).hold_timer_started == t.hold_timer_started,
        p.plan(e).timed(t, now).keepalive_timer_started == t.keepalive_timer_started,
{
}

/// A session that was heard of after it was stable for its hold time has no failures to
/// its name any more; its age is counted from when it was established.
pub proof fn law_stable_sessions(p: PeerView, e: EventView, now: u64, since: u64)
    requires
        p.established_at == Some(since),
        since <= now,
    ensures
        ({
            let q = p.arranged(p.plan(e), now);
            let stable = now - since >= p.fsm.timers.hold_time * 1000;
            &&& p.plan(e).heard && stable ==> q.consecutive_down_count == 0
            &&& !p.plan(e).heard || !stable ==> q.consecutive_down_count == p.consecutive_down_count
            &&& p.plan(e).establish ==> q.established_at == Some(now)
            &&& !p.plan(e).establish ==> q.established_at == Some(since)
            &&& q.manually_stopped <==> p.manually_stopped || p.plan(e).stop
        }),
{
    let h = p.fsm.timers.hold_time;
    assert((now - since) / 1000 >= h <==> now - since >= h * 1000) by (nonlinear_arith);
}

} // verus!
