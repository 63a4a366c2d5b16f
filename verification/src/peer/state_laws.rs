//! How sessions change their state, and what they do on the way.

use crate::bgp::msg_notification::{BgpError, CeaseSubcode, NotificationView};
use crate::peer::fsm::{BgpState, EventView, Fsm};
use crate::peer::session::{AdminState, DownView, PeerError, PeerView};
use crate::peer::transitions::{RetryCounter, RetryTimer, Sending};
use vstd::prelude::*;

verus! {

/// A start of a session, by hand or not, passive or not.
pub open spec fn starts(e: EventView) -> bool {
    e is ManualStart || e is AutomaticStart || e is ManualStartPassive || e is AutomaticStartPassive
}

/// An OPEN message of the peer.
pub open spec fn brings_open(e: EventView) -> bool {
    e is BgpOpenReceived || e is BgpOpenWithDelayOpenTimer
}

// ---------------------------------------------------------------------------
// States
// ---------------------------------------------------------------------------

/// What leads to each state, and what keeps a session in it. Everything else leads
/// to Idle.
pub proof fn law_ways_into_states(f: Fsm, e: EventView)
    ensures
        f.next(e) == BgpState::Established <==> {
            ||| f.current == BgpState::OpenConfirm && e is BgpKeepaliveReceived
            ||| f.current == BgpState::Established && (e is BgpKeepaliveReceived
                || e is BgpUpdateReceived || e is KeepaliveTimerExpires
                || e is TcpConnectionConfirmed || e is BgpOpenReceived || starts(e))
        },
        f.next(e) == BgpState::OpenConfirm <==> {
            ||| f.current == BgpState::OpenSent && brings_open(e)
            ||| (f.current == BgpState::Connect || f.current == BgpState::Active)
                && e is BgpOpenWithDelayOpenTimer
            ||| f.current == BgpState::OpenConfirm && (e is KeepaliveTimerExpires
                || e is TcpConnectionConfirmed || e is BgpOpenReceived || starts(e))
        },
        f.next(e) == BgpState::OpenSent <==> {
            ||| (f.current == BgpState::Connect || f.current == BgpState::Active) && (
            e is TcpConnectionConfirmed || e is DelayOpenTimerExpires)
            ||| f.current == BgpState::OpenSent && (e is TcpConnectionConfirmed || starts(e))
        },
        f.next(e) == BgpState::Connect <==> {
            ||| f.current == BgpState::Idle && (e is ManualStart || e is AutomaticStart || (
            e is IdleHoldTimerExpires && !f.passive_mode))
            ||| f.current == BgpState::Connect && (e is ConnectRetryTimerExpires || starts(e))
            ||| f.current == BgpState::Active && e is ConnectRetryTimerExpires
        },
        f.next(e) == BgpState::Active <==> {
            ||| f.current == BgpState::Idle && (e is ManualStartPassive
                || e is AutomaticStartPassive || (e is IdleHoldTimerExpires && f.passive_mode))
            ||| f.current == BgpState::Connect && e is TcpConnectionFails
                && f.timers.delay_open_timer_started is Some
            ||| f.current == BgpState::OpenSent && e is TcpConnectionFails
            ||| f.current == BgpState::Active && starts(e)
        },
{
}

// ---------------------------------------------------------------------------
// What is done
// ---------------------------------------------------------------------------

/// When a session is stopped for good, established, or knows that the peer lives;
/// when the peer's OPEN message is waited for, and when this side's is not delayed
/// any more.
pub proof fn law_turning_points(p: PeerView, e: EventView)
    ensures
        ({
            let at = p.fsm.current;
            let early = at == BgpState::Connect || at == BgpState::Active;
            let plan = p.plan(e);
            &&& plan.stop <==> e is ManualStop && at != BgpState::Idle
            &&& plan.establish <==> e is BgpKeepaliveReceived && at == BgpState::OpenConfirm
            &&& plan.heard <==> at == BgpState::Established && (e is BgpKeepaliveReceived
                || e is BgpUpdateReceived)
            &&& plan.await_open <==> early && (e is TcpConnectionConfirmed
                || e is DelayOpenTimerExpires)
            &&& plan.undelay <==> (early && (e is DelayOpenTimerExpires
                || e is BgpOpenWithDelayOpenTimer)) || (at == BgpState::OpenSent && brings_open(e))
        }),
{
}

/// What is sent: an OPEN message on a new connection, or with the answer to one that
/// came first; an answer to the peer's OPEN message; and keepalives when they are
/// due.
pub proof fn law_what_is_sent(p: PeerView, e: EventView)
    ensures
        ({
            let at = p.fsm.current;
            let early = at == BgpState::Connect || at == BgpState::Active;
            let plan = p.plan(e);
            &&& plan.sending == Sending::Open <==> early && (e is TcpConnectionConfirmed
                || e is DelayOpenTimerExpires)
            &&& plan.sending == Sending::OpenAndConfirm <==> early && e is BgpOpenWithDelayOpenTimer
            &&& plan.sending == Sending::Confirm <==> at == BgpState::OpenSent && brings_open(e)
            &&& plan.sending == Sending::Keepalive <==> e is KeepaliveTimerExpires && (at
                == BgpState::OpenConfirm || at == BgpState::Established)
        }),
{
}

/// A session that stops itself is down from then on, or has reached its limit, if
/// that is why; nothing else changes whether it is wanted.
pub proof fn law_stops_by_themselves(p: PeerView, e: EventView, c: CeaseSubcode)
    ensures
        ({
            let at = p.fsm.current;
            let late = at == BgpState::OpenSent || at == BgpState::OpenConfirm || at
                == BgpState::Established;
            let plan = p.plan(e);
            &&& plan.admin is Some <==> late && e is AutomaticStop
            &&& late && e == EventView::AutomaticStop(c) ==> plan.admin == Some(
                if c == CeaseSubcode::MaxPrefixesReached {
                    AdminState::PrefixLimitReached
                } else {
                    AdminState::Down
                },
            )
            &&& late && e == EventView::AutomaticStop(c) ==> plan.error == Some(
                PeerError::AutomaticStop(c),
            )
        }),
{
}

/// Which events are errors: keepalives and routes before their time, timers that do
/// not run, and malformed routes.
pub proof fn law_which_events_are_errors(p: PeerView, e: EventView)
    ensures
        ({
            let at = p.fsm.current;
            let early = at == BgpState::Connect || at == BgpState::Active;
            let late = at == BgpState::OpenConfirm || at == BgpState::Established;
            let stray = e is ConnectRetryTimerExpires || e is DelayOpenTimerExpires
                || e is IdleHoldTimerExpires;
            let plan = p.plan(e);
            &&& plan.error == Some(PeerError::FsmError) <==> {
                ||| early && (e is BgpKeepaliveReceived || e is BgpUpdateReceived)
                ||| at == BgpState::OpenSent && (stray || e is KeepaliveTimerExpires
                    || e is BgpKeepaliveReceived || e is BgpUpdateReceived)
                ||| late && (stray || e is BgpOpenWithDelayOpenTimer)
                ||| at == BgpState::OpenConfirm && (e is BgpUpdateReceived || e is BgpUpdateMsgErr)
                ||| at == BgpState::Established && (e is BgpHeaderErr || e is BgpOpenMsgErr)
            }
            &&& plan.error == Some(PeerError::UpdateError) <==> e is BgpUpdateMsgErr && (at
                == BgpState::OpenSent || at == BgpState::Established)
            &&& plan.error is Some ==> plan.end is Some && p.fsm.next(e) == BgpState::Idle
        }),
{
}

/// A notification with nothing but its reason.
pub open spec fn says(n: Option<NotificationView>, error: BgpError) -> bool {
    n is Some && n->0.error == error && n->0.data.len() == 0
}

/// What the peer is told when a session that was agreed on ends: that it was shut
/// down, stopped itself, heard nothing, or got what it did not expect, or what is
/// wrong with a message; nothing when the connection is lost or the peer ended it.
pub proof fn law_reasons_given(p: PeerView, e: EventView, c: CeaseSubcode, n: NotificationView)
    requires
        p.fsm.current == BgpState::OpenConfirm || p.fsm.current == BgpState::Established,
    ensures
        ({
            let told = p.plan(e).notify;
            let established = p.fsm.current == BgpState::Established;
            &&& e is ManualStop ==> says(
                told,
                BgpError::Cease(CeaseSubcode::AdministrativeShutdown),
            )
            &&& e == EventView::AutomaticStop(c) ==> says(told, BgpError::Cease(c))
            &&& e is HoldTimerExpires ==> says(told, BgpError::HoldTimerExpired)
            &&& p.plan(e).error == Some(PeerError::FsmError) ==> says(
                told,
                BgpError::FiniteStateMachineError,
            )
            &&& established && e == EventView::BgpUpdateMsgErr(n) ==> told == Some(n)
            &&& !established && (e == EventView::BgpHeaderErr(n) || e == EventView::BgpOpenMsgErr(
                n,
            )) ==> told == Some(n)
            &&& e is TcpConnectionFails || e is NotifMsg || e is NotifMsgVerErr ==> told is None
            &&& told is Some ==> p.plan(e).end is Some && p.plan(e).end->0.reason
                == DownView::LocalNotification(told->0)
        }),
{
}

/// How the connection of a session that was agreed on ends: with the peer's
/// notification, with this side's, or with none.
pub proof fn law_ends_of_sessions(p: PeerView, e: EventView, n: NotificationView)
    requires
        p.fsm.current == BgpState::OpenConfirm || p.fsm.current == BgpState::Established,
    ensures
        ({
            let end = p.plan(e).end;
            &&& end is Some <==> p.fsm.next(e) == BgpState::Idle
            &&& e == EventView::NotifMsg(n) || e == EventView::NotifMsgVerErr(n) ==> end->0.reason
                == DownView::RemoteNotification(n)
            &&& e is TcpConnectionFails ==> end->0.reason is RemoteNoNotification
            &&& end is Some ==> (end->0.damp <==> !(e is NotifMsgVerErr && p.fsm.current
                == BgpState::OpenConfirm))
        }),
{
}

/// What the peer is told before a session was agreed on.
pub proof fn law_early_reasons_given(
    p: PeerView,
    e: EventView,
    c: CeaseSubcode,
    n: NotificationView,
)
    requires
        p.fsm.current == BgpState::Connect || p.fsm.current == BgpState::Active || p.fsm.current
            == BgpState::OpenSent,
    ensures
        ({
            let told = p.plan(e).notify;
            let sent = p.fsm.current == BgpState::OpenSent;
            let delayed = p.fsm.timers.delay_open_timer_started is Some;
            &&& e == EventView::BgpHeaderErr(n) || e == EventView::BgpOpenMsgErr(n) ==> told
                == Some(n)
            &&& e is BgpKeepaliveReceived || e is BgpUpdateReceived ==> says(
                told,
                BgpError::FiniteStateMachineError,
            )
            &&& sent && e is ManualStop ==> says(
                told,
                BgpError::Cease(CeaseSubcode::AdministrativeShutdown),
            )
            &&& p.fsm.current == BgpState::Active && e is ManualStop ==> (if delayed
                && p.config.send_notification_without_open {
                says(told, BgpError::Cease(CeaseSubcode::AdministrativeShutdown))
            } else {
                told is None
            })
            &&& p.fsm.current == BgpState::Connect && e is ManualStop ==> told is None
            &&& sent && e == EventView::AutomaticStop(c) ==> says(told, BgpError::Cease(c))
            &&& sent && e is HoldTimerExpires ==> says(told, BgpError::HoldTimerExpired)
            &&& sent && e == EventView::BgpUpdateMsgErr(n) ==> told == Some(n)
            &&& sent && e is NotifMsg ==> says(told, BgpError::FiniteStateMachineError)
            &&& !sent && e is NotifMsg ==> told is None
            &&& e is NotifMsgVerErr || e is TcpConnectionFails ==> told is None
        }),
{
}

/// How early connections end, and that failures are counted, but for the peer's word
/// that it has another version.
pub proof fn law_early_ends(p: PeerView, e: EventView, n: NotificationView)
    requires
        p.fsm.current == BgpState::Connect || p.fsm.current == BgpState::Active || p.fsm.current
            == BgpState::OpenSent,
    ensures
        ({
            let end = p.plan(e).end;
            let delayed = p.fsm.timers.delay_open_timer_started is Some;
            &&& p.fsm.next(e) == BgpState::Idle ==> end is Some
            &&& e is TcpConnectionFails ==> end is Some
            &&& e is TcpConnectionConfirmed || brings_open(e) && p.fsm.current == BgpState::OpenSent
                || starts(e) ==> end is None
            &&& e == EventView::NotifMsg(n) || e == EventView::NotifMsgVerErr(n) ==> end->0.reason
                == DownView::RemoteNotification(n)
            &&& end is Some && !(e is NotifMsg) && !(e is NotifMsgVerErr) ==> end->0.reason
                is RemoteNoNotification
            &&& end is Some && !(e is NotifMsgVerErr) ==> end->0.damp
            &&& e is NotifMsgVerErr ==> (end->0.damp <==> p.fsm.current != BgpState::OpenSent
                && !delayed)
        }),
{
}

/// The timer between attempts to connect starts when a session leaves Idle, with each
/// attempt, and when a connection is lost before the sessions agree; it stops with a
/// connection, and when a session is given up. Attempts are counted from the start
/// of a session, or from when it was stopped.
pub proof fn law_attempts_to_connect(p: PeerView, e: EventView)
    ensures
        ({
            let at = p.fsm.current;
            let to = p.fsm.next(e);
            let plan = p.plan(e);
            &&& at == BgpState::Idle ==> (if to == BgpState::Connect || to == BgpState::Active {
                plan.retry_timer == RetryTimer::Start && plan.retry_counter == RetryCounter::Reset
            } else {
                plan.retry_timer == RetryTimer::Keep && plan.retry_counter == RetryCounter::Keep
            })
            &&& (at == BgpState::Connect || at == BgpState::Active)
                && e is ConnectRetryTimerExpires ==> plan.retry_timer == RetryTimer::Start
                && plan.retry_counter == RetryCounter::Keep
            &&& e is TcpConnectionFails && (at == BgpState::Active || at == BgpState::OpenSent)
                ==> plan.retry_timer == RetryTimer::Start
            &&& e is TcpConnectionFails && at == BgpState::Connect ==> (
            if p.fsm.timers.delay_open_timer_started is Some {
                plan.retry_timer == RetryTimer::Start && plan.retry_counter == RetryCounter::Keep
            } else {
                plan.retry_timer == RetryTimer::Stop && plan.retry_counter == RetryCounter::Reset
            })
            &&& e is TcpConnectionConfirmed && (at == BgpState::Connect || at == BgpState::Active)
                ==> plan.retry_timer == RetryTimer::Stop
            &&& at == BgpState::OpenSent && brings_open(e) ==> plan.retry_timer == RetryTimer::Stop
                && plan.retry_counter == RetryCounter::Keep
            &&& e is ManualStop && at != BgpState::Idle ==> plan.retry_timer == RetryTimer::Stop
                && plan.retry_counter == RetryCounter::Reset
            &&& (at == BgpState::OpenConfirm || at == BgpState::Established) && plan.end is Some
                && !(e is ManualStop) && !(e is NotifMsgVerErr) ==> plan.retry_timer
                == RetryTimer::Stop && plan.retry_counter == RetryCounter::Increment
            &&& at == BgpState::Established && e is NotifMsgVerErr ==> plan.retry_counter
                == RetryCounter::Increment
        }),
{
}

} // verus!
