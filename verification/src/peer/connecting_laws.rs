//! How connections come about.

use crate::bgp::msg_notification::NotificationView;
use crate::bgp::open_message::OpenView;
use crate::peer::connecting::{ConnectStep, ConnectView, IdleView};
use crate::peer::fsm;
use crate::peer::fsm::{BgpState, EventView, Fsm, FsmTimers};
use crate::peer::messages::MessageView;
use crate::peer::reactions::{Next, OpView, ReadingView};
use crate::peer::session::{DownView, EffectView, PeerView};
use crate::peer::steps::Stage;
use vstd::prelude::*;

verus! {

/// A session that waits in Idle is started as it is configured: one that connects by
/// itself by plain starts, and one that waits for the peer by passive ones. A start by
/// hand takes back a stop by hand; a start of the wrong kind does nothing.
pub proof fn law_starts(s: Stage, now: u64)
    ensures
        ({
            let passive = s.peer.config.passive_mode;
            let again = Stage { peer: PeerView { manually_stopped: false, ..s.peer }, ..s };
            let plain = s.reacted_idle(IdleView::Op(OpView::ManualStart), now);
            let own = s.reacted_idle(IdleView::Op(OpView::AutomaticStart), now);
            let plain_passive = s.reacted_idle(IdleView::Op(OpView::ManualStartPassive), now);
            let own_passive = s.reacted_idle(IdleView::Op(OpView::AutomaticStartPassive), now);
            &&& !passive ==> {
                &&& plain == (again.processed(EventView::ManualStart, now).0, Next::Leave)
                &&& own == (s.processed(EventView::AutomaticStart, now).0, Next::Leave)
                &&& plain_passive == (s, Next::Stay) && own_passive == (s, Next::Stay)
            }
            &&& passive ==> {
                &&& plain == (s, Next::Stay) && own == (s, Next::Stay)
                &&& plain_passive == (
                    again.processed(EventView::ManualStartPassive, now).0,
                    Next::Leave,
                )
                &&& own_passive == (
                    s.processed(EventView::AutomaticStartPassive, now).0,
                    Next::Leave,
                )
            }
        }),
{
}

/// In Idle statistics are told, a shutdown ends the session, and the end of the hold-off
/// starts it again, where it is started again by itself.
pub proof fn law_waiting_in_idle(s: Stage, now: u64)
    ensures
        s.reacted_idle(IdleView::Op(OpView::GetStatistics), now) == (
            s.said(EffectView::ReplyStatistics(s.peer.statistics)),
            Next::Stay,
        ),
        s.reacted_idle(IdleView::Closed, now) == (s, Next::Shutdown),
        s.reacted_idle(IdleView::Op(OpView::ManualStop), now) == (s, Next::Stay),
        !s.peer.manually_stopped && s.peer.config.idle_hold_time_secs is Some ==> s.reacted_idle(
            IdleView::Expired,
            now,
        ) == (s.processed(EventView::IdleHoldTimerExpires, now).0, Next::Leave),
        s.peer.manually_stopped || s.peer.config.idle_hold_time_secs is None ==> s.reacted_idle(
            IdleView::Expired,
            now,
        ) == (s, Next::Stay),
{
}

/// A new connection stops the timer between attempts. If the OPEN message is to be
/// delayed, the delay begins; else the connection is confirmed at once.
pub proof fn law_new_connections(s: Stage, now: u64)
    ensures
        ({
            let t = s.accepted(now);
            let delay = s.peer.config.delay_open_time_secs is Some;
            &&& delay ==> {
                &&& t.peer.connected
                &&& t.peer.fsm.current == s.peer.fsm.current
                &&& t.peer.fsm.timers.connect_retry_started is None
                &&& t.peer.fsm.timers.delay_open_timer_started == Some(now)
                &&& t.effects == s.effects && t.writes == s.writes
            }
            &&& !delay ==> t == (Stage {
                peer: PeerView {
                    connected: true,
                    fsm: Fsm {
                        timers: FsmTimers { connect_retry_started: None, ..s.peer.fsm.timers },
                        ..s.peer.fsm
                    },
                    ..s.peer
                },
                ..s
            }).pushed(EventView::TcpConnectionConfirmed, now).0
        }),
{
}

/// What a session does next while it connects: it waits for the end of the delay, goes
/// on with a connection that it has, or calls the peer.
pub proof fn law_next_while_connecting(p: PeerView)
    ensures
        p.connect_step() == ConnectStep::AwaitDelay <==> p.fsm.timers.delay_open_timer_started
            is Some,
        p.connect_step() == ConnectStep::Proceed <==> p.fsm.timers.delay_open_timer_started is None
            && p.connected,
        p.connect_step() == ConnectStep::Dial <==> p.fsm.timers.delay_open_timer_started is None
            && !p.connected,
{
}

/// While the OPEN message is delayed, one of the peer is answered at once, on what it
/// says and without capabilities; a notification ends the connection, as do other
/// messages and what cannot be read.
pub proof fn law_messages_during_the_delay(
    s: Stage,
    open: OpenView,
    n: NotificationView,
    now: u64,
)
    ensures
        s.peer.early_params(open).peer_asn == open.asn,
        s.peer.early_params(open).peer_hold_time == open.hold_time,
        s.peer.early_params(open).peer_bgp_id == open.bgp_identifier,
        s.peer.early_params(open).local_asn == s.peer.local_config.asn,
        s.peer.early_params(open).local_hold_time == s.peer.local_config.hold_time,
        s.peer.undelayed().fsm.timers.delay_open_timer_started is None,
        s.peer.undelayed().fsm.current == s.peer.fsm.current,
        s.peer.undelayed().connected == s.peer.connected,
        s.read_delayed(ReadingView::Message(MessageView::Open(open)), now) == (Stage {
            peer: s.peer.undelayed(),
            ..s
        }).pushed(EventView::BgpOpenWithDelayOpenTimer(s.peer.early_params(open)), now).0,
        s.read_delayed(ReadingView::Message(MessageView::Notification(n)), now) == s.notified_by(
            n,
            now,
        ),
        s.read_delayed(ReadingView::Message(MessageView::Keepalive), now) == s.dropped(
            true,
            DownView::RemoteNoNotification,
        ),
        s.read_delayed(ReadingView::Closed, now) == s.processed(
            EventView::TcpConnectionFails,
            now,
        ).0,
{
}

/// The end of the delay is looked for behind that of the attempt to connect, which
/// counts while the session connects.
pub proof fn law_timers_during_the_delay(s: Stage, now: u64)
    ensures
        ({
            let t = s.peer.fsm.timers;
            let retry = s.peer.fsm.current == BgpState::Connect && fsm::run_out(
                t.connect_retry_started,
                t.connect_retry_time,
                now,
            );
            let delay = match t.delay_open_time {
                Some(d) => fsm::run_out(t.delay_open_timer_started, d, now),
                None => t.delay_open_timer_started is Some,
            };
            &&& retry ==> s.ticked_delayed(now) == s.processed(
                EventView::ConnectRetryTimerExpires,
                now,
            ).0
            &&& !retry && delay ==> s.ticked_delayed(now) == s.pushed(
                EventView::DelayOpenTimerExpires,
                now,
            ).0
            &&& !retry && !delay ==> s.ticked_delayed(now) == s
        }),
{
}

/// While it calls the peer, a session takes a connection of the peer as well as its own,
/// and heeds a stop; while it waits for the end of the delay it heeds a stop alone.
pub proof fn law_requests_while_connecting(s: Stage, now: u64)
    ensures
        ({
            let stopped = s.processed(EventView::ManualStop, now).0;
            let dials = s.peer.fsm.timers.delay_open_timer_started is None && !s.peer.connected;
            let waits = s.peer.fsm.timers.delay_open_timer_started is Some;
            &&& dials || waits ==> s.reacted_connect(ConnectView::Op(OpView::ManualStop), now)
                == stopped
            &&& dials ==> {
                &&& s.reacted_connect(ConnectView::Connected, now) == s.accepted(now)
                &&& s.reacted_connect(ConnectView::Queued(OpView::TcpConnectionAccepted), now)
                    == s.accepted(now)
                &&& s.reacted_connect(ConnectView::Failed, now) == s.processed(
                    EventView::TcpConnectionFails,
                    now,
                ).0
                &&& s.reacted_connect(ConnectView::RetryElapsed, now) == s.processed(
                    EventView::ConnectRetryTimerExpires,
                    now,
                ).0
                &&& s.reacted_connect(ConnectView::Op(OpView::TcpConnectionAccepted), now) == s
            }
            &&& waits ==> {
                &&& s.reacted_active(ConnectView::Op(OpView::ManualStop), now) == stopped
                &&& s.reacted_active(ConnectView::Op(OpView::TcpConnectionAccepted), now) == s
                &&& s.reacted_active(ConnectView::Tick, now) == s.ticked_delayed(now)
                &&& s.reacted_connect(ConnectView::Tick, now) == s.ticked_delayed(now)
            }
            &&& !waits ==> {
                &&& s.reacted_active(ConnectView::Op(OpView::ManualStop), now) == stopped
                &&& s.reacted_active(ConnectView::Op(OpView::TcpConnectionAccepted), now)
                    == s.accepted(now)
                &&& s.reacted_active(ConnectView::RetryElapsed, now) == s.processed(
                    EventView::ConnectRetryTimerExpires,
                    now,
                ).0
            }
        }),
{
}

} // verus!
