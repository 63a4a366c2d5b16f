//! What is done when something happens in a session.
//!
//! Every event leads to a plan, which depends on the state of the session; the
//! plan is then carried out.

use crate::bgp::msg_notification;
use crate::bgp::msg_notification::{BgpError, CeaseSubcode, NotificationMessage, NotificationView};
use crate::peer::confirm;
use crate::peer::fsm;
use crate::peer::fsm::{
    elapsed_seconds, BgpState, EventView, Fsm, FsmEvent, FsmTimers, INITIAL_HOLD_TIME,
};
use crate::peer::session::{
    AdminState, DownView, Effect, EffectView, IoError, Peer, PeerDownReason, PeerError, PeerView,
    Turn,
};
use crate::peer::steps;
use crate::peer::steps::Stage;
use vstd::prelude::*;

verus! {

// ---------------------------------------------------------------------------
// Plans
// ---------------------------------------------------------------------------

/// What becomes of the timer between attempts to connect.
#[derive(Debug, Clone, Copy, PartialEq, Eq, Structural)]
pub enum RetryTimer {
    Keep,
    Start,
    Stop,
}

/// What becomes of the count of failed attempts to connect.
#[derive(Debug, Clone, Copy, PartialEq, Eq, Structural)]
pub enum RetryCounter {
    Keep,
    Reset,
    Increment,
}

/// Which messages are sent.
#[derive(Debug, Clone, Copy, PartialEq, Eq, Structural)]
pub enum Sending {
    Nothing,
    Keepalive,
    Open,
    /// The peer's OPEN message is answered.
    Confirm,
    /// An OPEN message is sent, and the peer's is answered.
    OpenAndConfirm,
}

/// How a connection ends: whether failures are counted, and why it ends.
#[derive(Debug)]
pub struct End {
    pub damp: bool,
    pub reason: PeerDownReason,
}

pub struct EndView {
    pub damp: bool,
    pub reason: DownView,
}

impl View for End {
    type V = EndView;

    open spec fn view(&self) -> EndView {
        EndView { damp: self.damp, reason: self.reason@ }
    }
}

/// What is done on an event.
#[derive(Debug)]
pub struct Plan {
    /// The session is not started again by itself.
    pub stop: bool,
    pub notify: Option<NotificationMessage>,
    pub end: Option<End>,
    pub retry_timer: RetryTimer,
    pub retry_counter: RetryCounter,
    /// The OPEN message is no longer delayed.
    pub undelay: bool,
    /// The peer's OPEN message is awaited from now on.
    pub await_open: bool,
    pub admin: Option<AdminState>,
    pub sending: Sending,
    /// The session is established from now on.
    pub establish: bool,
    /// The peer was heard of.
    pub heard: bool,
    pub error: Option<PeerError>,
}

pub struct PlanView {
    pub stop: bool,
    pub notify: Option<NotificationView>,
    pub end: Option<EndView>,
    pub retry_timer: RetryTimer,
    pub retry_counter: RetryCounter,
    pub undelay: bool,
    pub await_open: bool,
    pub admin: Option<AdminState>,
    pub sending: Sending,
    pub establish: bool,
    pub heard: bool,
    pub error: Option<PeerError>,
}

impl View for Plan {
    type V = PlanView;

    open spec fn view(&self) -> PlanView {
        PlanView {
            stop: self.stop,
            notify: crate::conf::opt_view(self.notify),
            end: crate::conf::opt_view(self.end),
            retry_timer: self.retry_timer,
            retry_counter: self.retry_counter,
            undelay: self.undelay,
            await_open: self.await_open,
            admin: self.admin,
            sending: self.sending,
            establish: self.establish,
            heard: self.heard,
            error: self.error,
        }
    }
}

/// Nothing is done.
pub open spec fn nothing() -> PlanView {
    PlanView {
        stop: false,
        notify: None,
        end: None,
        retry_timer: RetryTimer::Keep,
        retry_counter: RetryCounter::Keep,
        undelay: false,
        await_open: false,
        admin: None,
        sending: Sending::Nothing,
        establish: false,
        heard: false,
        error: None,
    }
}

/// The connection ends because the peer is gone or makes no sense, and this
/// side does not say why.
pub open spec fn ended(damp: bool, reason: DownView) -> PlanView {
    PlanView { end: Some(EndView { damp, reason }), ..nothing() }
}

/// The attempt to connect failed for `reason`.
pub open spec fn failed(reason: DownView) -> PlanView {
    PlanView {
        retry_timer: RetryTimer::Stop,
        retry_counter: RetryCounter::Increment,
        ..ended(true, reason)
    }
}

/// As before, and the peer is told.
pub open spec fn failed_with(n: NotificationView, reason: DownView) -> PlanView {
    PlanView { notify: Some(n), ..failed(reason) }
}

/// The notification that an event was not expected.
pub open spec fn unexpected() -> NotificationView {
    msg_notification::bare_notification(BgpError::FiniteStateMachineError)
}

/// The notification that the session is shut down.
pub open spec fn shut_down() -> NotificationView {
    msg_notification::bare_notification(BgpError::Cease(CeaseSubcode::AdministrativeShutdown))
}

/// Whether a session that stopped itself is wanted: not by itself, and not
/// before its routes are fewer where there were too many.
pub open spec fn stopped_state(c: CeaseSubcode) -> AdminState {
    if c is MaxPrefixesReached {
        AdminState::PrefixLimitReached
    } else {
        AdminState::Down
    }
}

/// The OPEN message is sent and the peer's is awaited.
pub open spec fn opening() -> PlanView {
    PlanView { await_open: true, sending: Sending::Open, ..nothing() }
}

/// What is done in Idle: leaving it starts the timer between attempts to
/// connect, and the count of failed ones.
pub open spec fn plan_idle(to: BgpState) -> PlanView {
    if to is Connect || to is Active {
        PlanView {
            retry_timer: RetryTimer::Start,
            retry_counter: RetryCounter::Reset,
            ..nothing()
        }
    } else {
        nothing()
    }
}

/// What is done in Connect and Active alike.
pub open spec fn plan_unconnected(e: EventView, delayed: bool) -> PlanView {
    let gone = DownView::RemoteNoNotification;
    match e {
        EventView::BgpHeaderErr(n) | EventView::BgpOpenMsgErr(n) => failed_with(n, gone),
        EventView::NotifMsgVerErr(n) => PlanView {
            retry_timer: RetryTimer::Stop,
            retry_counter: if delayed {
                RetryCounter::Keep
            } else {
                RetryCounter::Increment
            },
            ..ended(!delayed, DownView::RemoteNotification(n))
        },
        EventView::NotifMsg(n) => failed(DownView::RemoteNotification(n)),
        EventView::BgpKeepaliveReceived | EventView::BgpUpdateReceived => PlanView {
            error: Some(PeerError::FsmError),
            ..failed_with(unexpected(), gone)
        },
        EventView::AutomaticStop(_)
        | EventView::HoldTimerExpires
        | EventView::KeepaliveTimerExpires
        | EventView::IdleHoldTimerExpires
        | EventView::BgpOpenReceived(_)
        | EventView::BgpUpdateMsgErr(_) => failed(gone),
        EventView::TcpConnectionConfirmed => PlanView {
            retry_timer: RetryTimer::Stop,
            ..opening()
        },
        EventView::BgpOpenWithDelayOpenTimer(_) => PlanView {
            retry_timer: RetryTimer::Stop,
            undelay: true,
            sending: Sending::OpenAndConfirm,
            ..nothing()
        },
        _ => nothing(),
    }
}

/// What is done in Connect.
pub open spec fn plan_connect(e: EventView, delayed: bool) -> PlanView {
    let gone = DownView::RemoteNoNotification;
    match e {
        EventView::ConnectRetryTimerExpires => PlanView {
            retry_timer: RetryTimer::Start,
            ..ended(true, gone)
        },
        EventView::TcpConnectionFails => if delayed {
            PlanView { retry_timer: RetryTimer::Start, ..ended(true, gone) }
        } else {
            PlanView {
                retry_timer: RetryTimer::Stop,
                retry_counter: RetryCounter::Reset,
                ..ended(true, gone)
            }
        },
        EventView::ManualStop => PlanView {
            stop: true,
            retry_timer: RetryTimer::Stop,
            retry_counter: RetryCounter::Reset,
            ..ended(true, gone)
        },
        EventView::DelayOpenTimerExpires => PlanView { undelay: true, ..opening() },
        _ => plan_unconnected(e, delayed),
    }
}

/// What is done in Active.
pub open spec fn plan_active(e: EventView, delayed: bool, without_open: bool) -> PlanView {
    let gone = DownView::RemoteNoNotification;
    match e {
        EventView::ConnectRetryTimerExpires => PlanView {
            retry_timer: RetryTimer::Start,
            ..nothing()
        },
        EventView::TcpConnectionFails => PlanView {
            retry_timer: RetryTimer::Start,
            retry_counter: RetryCounter::Increment,
            ..ended(true, gone)
        },
        EventView::ManualStop => PlanView {
            stop: true,
            notify: if delayed && without_open {
                Some(shut_down())
            } else {
                None
            },
            retry_timer: RetryTimer::Stop,
            retry_counter: RetryCounter::Reset,
            ..ended(true, gone)
        },
        EventView::DelayOpenTimerExpires => PlanView {
            retry_timer: RetryTimer::Stop,
            undelay: true,
            ..opening()
        },
        _ => plan_unconnected(e, delayed),
    }
}

/// What is done in OpenSent.
pub open spec fn plan_open_sent(e: EventView) -> PlanView {
    let gone = DownView::RemoteNoNotification;
    match e {
        EventView::ManualStop => PlanView {
            stop: true,
            retry_counter: RetryCounter::Reset,
            ..failed_with(shut_down(), gone)
        },
        EventView::AutomaticStop(c) => PlanView {
            admin: Some(stopped_state(c)),
            error: Some(PeerError::AutomaticStop(c)),
            ..failed_with(msg_notification::bare_notification(BgpError::Cease(c)), gone)
        },
        EventView::HoldTimerExpires => failed_with(
            msg_notification::bare_notification(BgpError::HoldTimerExpired),
            gone,
        ),
        EventView::TcpConnectionFails => PlanView {
            retry_timer: RetryTimer::Start,
            ..ended(true, gone)
        },
        EventView::BgpHeaderErr(n) | EventView::BgpOpenMsgErr(n) => failed_with(n, gone),
        EventView::NotifMsgVerErr(n) => PlanView {
            retry_timer: RetryTimer::Stop,
            ..ended(false, DownView::RemoteNotification(n))
        },
        EventView::NotifMsg(n) => failed_with(unexpected(), DownView::RemoteNotification(n)),
        EventView::ConnectRetryTimerExpires
        | EventView::KeepaliveTimerExpires
        | EventView::DelayOpenTimerExpires
        | EventView::IdleHoldTimerExpires
        | EventView::BgpKeepaliveReceived
        | EventView::BgpUpdateReceived => PlanView {
            error: Some(PeerError::FsmError),
            ..failed_with(unexpected(), gone)
        },
        EventView::BgpUpdateMsgErr(n) => PlanView {
            notify: Some(n),
            error: Some(PeerError::UpdateError),
            ..ended(true, gone)
        },
        EventView::BgpOpenReceived(_) | EventView::BgpOpenWithDelayOpenTimer(_) => PlanView {
            retry_timer: RetryTimer::Stop,
            undelay: true,
            sending: Sending::Confirm,
            ..nothing()
        },
        _ => nothing(),
    }
}

/// The connection ends, and the peer is told why.
pub open spec fn told(n: NotificationView) -> PlanView {
    failed_with(n, DownView::LocalNotification(n))
}

/// What is done in OpenConfirm and Established alike.
pub open spec fn plan_connected(e: EventView) -> PlanView {
    match e {
        EventView::ManualStop => PlanView {
            stop: true,
            retry_counter: RetryCounter::Reset,
            ..told(shut_down())
        },
        EventView::AutomaticStop(c) => PlanView {
            admin: Some(stopped_state(c)),
            error: Some(PeerError::AutomaticStop(c)),
            ..told(msg_notification::bare_notification(BgpError::Cease(c)))
        },
        EventView::HoldTimerExpires => told(
            msg_notification::bare_notification(BgpError::HoldTimerExpired),
        ),
        EventView::TcpConnectionFails => failed(DownView::RemoteNoNotification),
        EventView::NotifMsg(n) => failed(DownView::RemoteNotification(n)),
        EventView::KeepaliveTimerExpires => PlanView { sending: Sending::Keepalive, ..nothing() },
        EventView::ConnectRetryTimerExpires
        | EventView::DelayOpenTimerExpires
        | EventView::IdleHoldTimerExpires
        | EventView::BgpOpenWithDelayOpenTimer(_) => PlanView {
            error: Some(PeerError::FsmError),
            ..told(unexpected())
        },
        _ => nothing(),
    }
}

/// What is done in OpenConfirm.
pub open spec fn plan_open_confirm(e: EventView) -> PlanView {
    match e {
        EventView::NotifMsgVerErr(n) => PlanView {
            retry_timer: RetryTimer::Stop,
            ..ended(false, DownView::RemoteNotification(n))
        },
        EventView::BgpHeaderErr(n) | EventView::BgpOpenMsgErr(n) => told(n),
        EventView::BgpKeepaliveReceived => PlanView { establish: true, ..nothing() },
        EventView::BgpUpdateReceived | EventView::BgpUpdateMsgErr(_) => PlanView {
            error: Some(PeerError::FsmError),
            ..told(unexpected())
        },
        _ => plan_connected(e),
    }
}

/// What is done in Established.
pub open spec fn plan_established(e: EventView) -> PlanView {
    match e {
        EventView::NotifMsgVerErr(n) => failed(DownView::RemoteNotification(n)),
        EventView::BgpUpdateMsgErr(n) => PlanView {
            error: Some(PeerError::UpdateError),
            ..told(n)
        },
        EventView::BgpKeepaliveReceived | EventView::BgpUpdateReceived => PlanView {
            heard: true,
            ..nothing()
        },
        EventView::BgpHeaderErr(_) | EventView::BgpOpenMsgErr(_) => PlanView {
            error: Some(PeerError::FsmError),
            ..told(unexpected())
        },
        _ => plan_connected(e),
    }
}

impl PeerView {
    /// What is done on an event.
    pub open spec fn plan(self, e: EventView) -> PlanView {
        let delayed = self.fsm.timers.delay_open_timer_started is Some;
        match self.fsm.current {
            BgpState::Idle => plan_idle(self.fsm.next(e)),
            BgpState::Connect => plan_connect(e, delayed),
            BgpState::Active => plan_active(
                e,
                delayed,
                self.config.send_notification_without_open,
            ),
            BgpState::OpenSent => plan_open_sent(e),
            BgpState::OpenConfirm => plan_open_confirm(e),
            BgpState::Established => plan_established(e),
        }
    }
}

fn plan_nothing() -> (r: Plan)
    ensures
        r@ == nothing(),
{
    Plan {
        stop: false,
        notify: None,
        end: None,
        retry_timer: RetryTimer::Keep,
        retry_counter: RetryCounter::Keep,
        undelay: false,
        await_open: false,
        admin: None,
        sending: Sending::Nothing,
        establish: false,
        heard: false,
        error: None,
    }
}

fn plan_end(damp: bool, reason: PeerDownReason) -> (r: Plan)
    ensures
        r@ == ended(damp, reason@),
{
    let mut p = plan_nothing();
    p.end = Some(End { damp, reason });
    p
}

fn plan_failed(reason: PeerDownReason) -> (r: Plan)
    ensures
        r@ == failed(reason@),
{
    let mut p = plan_end(true, reason);
    p.retry_timer = RetryTimer::Stop;
    p.retry_counter = RetryCounter::Increment;
    p
}

fn plan_failed_with(n: NotificationMessage, reason: PeerDownReason) -> (r: Plan)
    ensures
        r@ == failed_with(n@, reason@),
{
    let mut p = plan_failed(reason);
    p.notify = Some(n);
    p
}

fn plan_told(n: NotificationMessage) -> (r: Plan)
    ensures
        r@ == told(n@),
{
    let copy = n.clone();
    plan_failed_with(n, PeerDownReason::LocalNotification(copy))
}

fn bare(error: BgpError) -> (r: NotificationMessage)
    ensures
        r@ == msg_notification::bare_notification(error),
{
    NotificationMessage::new(error, Vec::new())
}

fn plan_opening() -> (r: Plan)
    ensures
        r@ == opening(),
{
    let mut p = plan_nothing();
    p.await_open = true;
    p.sending = Sending::Open;
    p
}

fn admin_state_of(c: CeaseSubcode) -> (r: AdminState)
    ensures
        r == stopped_state(c),
{
    match c {
        CeaseSubcode::MaxPrefixesReached => AdminState::PrefixLimitReached,
        _ => AdminState::Down,
    }
}

fn idle_plan(to: BgpState) -> (r: Plan)
    ensures
        r@ == plan_idle(to),
{
    let mut p = plan_nothing();
    match to {
        BgpState::Connect | BgpState::Active => {
            p.retry_timer = RetryTimer::Start;
            p.retry_counter = RetryCounter::Reset;
        },
        _ => {},
    }
    p
}

fn unconnected_plan(e: &FsmEvent, delayed: bool) -> (r: Plan)
    ensures
        r@ == plan_unconnected(e@, delayed),
{
    match e {
        FsmEvent::BgpHeaderErr(n) | FsmEvent::BgpOpenMsgErr(n) => plan_failed_with(
            n.clone(),
            PeerDownReason::RemoteNoNotification,
        ),
        FsmEvent::NotifMsgVerErr(n) => {
            let mut p = plan_end(!delayed, PeerDownReason::RemoteNotification(n.clone()));
            p.retry_timer = RetryTimer::Stop;
            if !delayed {
                p.retry_counter = RetryCounter::Increment;
            }
            p
        },
        FsmEvent::NotifMsg(n) => plan_failed(PeerDownReason::RemoteNotification(n.clone())),
        FsmEvent::BgpKeepaliveReceived | FsmEvent::BgpUpdateReceived => {
            let mut p = plan_failed_with(
                bare(BgpError::FiniteStateMachineError),
                PeerDownReason::RemoteNoNotification,
            );
            p.error = Some(PeerError::FsmError);
            p
        },
        FsmEvent::AutomaticStop(_)
        | FsmEvent::HoldTimerExpires
        | FsmEvent::KeepaliveTimerExpires
        | FsmEvent::IdleHoldTimerExpires
        | FsmEvent::BgpOpenReceived(_)
        | FsmEvent::BgpUpdateMsgErr(_) => plan_failed(PeerDownReason::RemoteNoNotification),
        FsmEvent::TcpConnectionConfirmed => {
            let mut p = plan_opening();
            p.retry_timer = RetryTimer::Stop;
            p
        },
        FsmEvent::BgpOpenWithDelayOpenTimer(_) => {
            let mut p = plan_nothing();
            p.retry_timer = RetryTimer::Stop;
            p.undelay = true;
            p.sending = Sending::OpenAndConfirm;
            p
        },
        _ => plan_nothing(),
    }
}

fn connect_plan(e: &FsmEvent, delayed: bool) -> (r: Plan)
    ensures
        r@ == plan_connect(e@, delayed),
{
    match e {
        FsmEvent::ConnectRetryTimerExpires => {
            let mut p = plan_end(true, PeerDownReason::RemoteNoNotification);
            p.retry_timer = RetryTimer::Start;
            p
        },
        FsmEvent::TcpConnectionFails => {
            let mut p = plan_end(true, PeerDownReason::RemoteNoNotification);
            if delayed {
                p.retry_timer = RetryTimer::Start;
            } else {
                p.retry_timer = RetryTimer::Stop;
                p.retry_counter = RetryCounter::Reset;
            }
            p
        },
        FsmEvent::ManualStop => {
            let mut p = plan_end(true, PeerDownReason::RemoteNoNotification);
            p.stop = true;
            p.retry_timer = RetryTimer::Stop;
            p.retry_counter = RetryCounter::Reset;
            p
        },
        FsmEvent::DelayOpenTimerExpires => {
            let mut p = plan_opening();
            p.undelay = true;
            p
        },
        _ => unconnected_plan(e, delayed),
    }
}

fn active_plan(e: &FsmEvent, delayed: bool, without_open: bool) -> (r: Plan)
    ensures
        r@ == plan_active(e@, delayed, without_open),
{
    match e {
        FsmEvent::ConnectRetryTimerExpires => {
            let mut p = plan_nothing();
            p.retry_timer = RetryTimer::Start;
            p
        },
        FsmEvent::TcpConnectionFails => {
            let mut p = plan_end(true, PeerDownReason::RemoteNoNotification);
            p.retry_timer = RetryTimer::Start;
            p.retry_counter = RetryCounter::Increment;
            p
        },
        FsmEvent::ManualStop => {
            let mut p = plan_end(true, PeerDownReason::RemoteNoNotification);
            p.stop = true;
            if delayed && without_open {
                p.notify = Some(bare(BgpError::Cease(CeaseSubcode::AdministrativeShutdown)));
            }
            p.retry_timer = RetryTimer::Stop;
            p.retry_counter = RetryCounter::Reset;
            p
        },
        FsmEvent::DelayOpenTimerExpires => {
            let mut p = plan_opening();
            p.retry_timer = RetryTimer::Stop;
            p.undelay = true;
            p
        },
        _ => unconnected_plan(e, delayed),
    }
}

fn open_sent_plan(e: &FsmEvent) -> (r: Plan)
    ensures
        r@ == plan_open_sent(e@),
{
    match e {
        FsmEvent::ManualStop => {
            let mut p = plan_failed_with(
                bare(BgpError::Cease(CeaseSubcode::AdministrativeShutdown)),
                PeerDownReason::RemoteNoNotification,
            );
            p.stop = true;
            p.retry_counter = RetryCounter::Reset;
            p
        },
        FsmEvent::AutomaticStop(c) => {
            let mut p = plan_failed_with(
                bare(BgpError::Cease(*c)),
                PeerDownReason::RemoteNoNotification,
            );
            p.admin = Some(admin_state_of(*c));
            p.error = Some(PeerError::AutomaticStop(*c));
            p
        },
        FsmEvent::HoldTimerExpires => plan_failed_with(
            bare(BgpError::HoldTimerExpired),
            PeerDownReason::RemoteNoNotification,
        ),
        FsmEvent::TcpConnectionFails => {
            let mut p = plan_end(true, PeerDownReason::RemoteNoNotification);
            p.retry_timer = RetryTimer::Start;
            p
        },
        FsmEvent::BgpHeaderErr(n) | FsmEvent::BgpOpenMsgErr(n) => plan_failed_with(
            n.clone(),
            PeerDownReason::RemoteNoNotification,
        ),
        FsmEvent::NotifMsgVerErr(n) => {
            let mut p = plan_end(false, PeerDownReason::RemoteNotification(n.clone()));
            p.retry_timer = RetryTimer::Stop;
            p
        },
        FsmEvent::NotifMsg(n) => plan_failed_with(
            bare(BgpError::FiniteStateMachineError),
            PeerDownReason::RemoteNotification(n.clone()),
        ),
        FsmEvent::ConnectRetryTimerExpires
        | FsmEvent::KeepaliveTimerExpires
        | FsmEvent::DelayOpenTimerExpires
        | FsmEvent::IdleHoldTimerExpires
        | FsmEvent::BgpKeepaliveReceived
        | FsmEvent::BgpUpdateReceived => {
            let mut p = plan_failed_with(
                bare(BgpError::FiniteStateMachineError),
                PeerDownReason::RemoteNoNotification,
            );
            p.error = Some(PeerError::FsmError);
            p
        },
        FsmEvent::BgpUpdateMsgErr(n) => {
            let mut p = plan_end(true, PeerDownReason::RemoteNoNotification);
            p.notify = Some(n.clone());
            p.error = Some(PeerError::UpdateError);
            p
        },
        FsmEvent::BgpOpenReceived(_) | FsmEvent::BgpOpenWithDelayOpenTimer(_) => {
            let mut p = plan_nothing();
            p.retry_timer = RetryTimer::Stop;
            p.undelay = true;
            p.sending = Sending::Confirm;
            p
        },
        _ => plan_nothing(),
    }
}

fn connected_plan(e: &FsmEvent) -> (r: Plan)
    ensures
        r@ == plan_connected(e@),
{
    match e {
        FsmEvent::ManualStop => {
            let mut p = plan_told(bare(BgpError::Cease(CeaseSubcode::AdministrativeShutdown)));
            p.stop = true;
            p.retry_counter = RetryCounter::Reset;
            p
        },
        FsmEvent::AutomaticStop(c) => {
            let mut p = plan_told(bare(BgpError::Cease(*c)));
            p.admin = Some(admin_state_of(*c));
            p.error = Some(PeerError::AutomaticStop(*c));
            p
        },
        FsmEvent::HoldTimerExpires => plan_told(bare(BgpError::HoldTimerExpired)),
        FsmEvent::TcpConnectionFails => plan_failed(PeerDownReason::RemoteNoNotification),
        FsmEvent::NotifMsg(n) => plan_failed(PeerDownReason::RemoteNotification(n.clone())),
        FsmEvent::KeepaliveTimerExpires => {
            let mut p = plan_nothing();
            p.sending = Sending::Keepalive;
            p
        },
        FsmEvent::ConnectRetryTimerExpires
        | FsmEvent::DelayOpenTimerExpires
        | FsmEvent::IdleHoldTimerExpires
        | FsmEvent::BgpOpenWithDelayOpenTimer(_) => {
            let mut p = plan_told(bare(BgpError::FiniteStateMachineError));
            p.error = Some(PeerError::FsmError);
            p
        },
        _ => plan_nothing(),
    }
}

fn open_confirm_plan(e: &FsmEvent) -> (r: Plan)
    ensures
        r@ == plan_open_confirm(e@),
{
    match e {
        FsmEvent::NotifMsgVerErr(n) => {
            let mut p = plan_end(false, PeerDownReason::RemoteNotification(n.clone()));
            p.retry_timer = RetryTimer::Stop;
            p
        },
        FsmEvent::BgpHeaderErr(n) | FsmEvent::BgpOpenMsgErr(n) => plan_told(n.clone()),
        FsmEvent::BgpKeepaliveReceived => {
            let mut p = plan_nothing();
            p.establish = true;
            p
        },
        FsmEvent::BgpUpdateReceived | FsmEvent::BgpUpdateMsgErr(_) => {
            let mut p = plan_told(bare(BgpError::FiniteStateMachineError));
            p.error = Some(PeerError::FsmError);
            p
        },
        _ => connected_plan(e),
    }
}

fn established_plan(e: &FsmEvent) -> (r: Plan)
    ensures
        r@ == plan_established(e@),
{
    match e {
        FsmEvent::NotifMsgVerErr(n) => plan_failed(PeerDownReason::RemoteNotification(n.clone())),
        FsmEvent::BgpUpdateMsgErr(n) => {
            let mut p = plan_told(n.clone());
            p.error = Some(PeerError::UpdateError);
            p
        },
        FsmEvent::BgpKeepaliveReceived | FsmEvent::BgpUpdateReceived => {
            let mut p = plan_nothing();
            p.heard = true;
            p
        },
        FsmEvent::BgpHeaderErr(_) | FsmEvent::BgpOpenMsgErr(_) => {
            let mut p = plan_told(bare(BgpError::FiniteStateMachineError));
            p.error = Some(PeerError::FsmError);
            p
        },
        _ => connected_plan(e),
    }
}

// ---------------------------------------------------------------------------
// Carrying plans out
// ---------------------------------------------------------------------------

impl PlanView {
    /// The timers after a plan, but for those that messages start.
    pub open spec fn timed(self, t: FsmTimers, now: u64) -> FsmTimers {
        FsmTimers {
            connect_retry_started: match self.retry_timer {
                RetryTimer::Keep => t.connect_retry_started,
                RetryTimer::Start => Some(now),
                RetryTimer::Stop => None,
            },
            delay_open_timer_started: if self.undelay {
                None
            } else {
                t.delay_open_timer_started
            },
            hold_time: if self.await_open {
                INITIAL_HOLD_TIME
            } else {
                t.hold_time
            },
            hold_timer_started: if self.await_open || self.establish || (self.heard && t.hold_time
                > 0) {
                Some(now)
            } else {
                t.hold_timer_started
            },
            ..t
        }
    }

    /// The count of failed attempts to connect after a plan.
    pub open spec fn counted(self, n: u32) -> u32 {
        match self.retry_counter {
            RetryCounter::Keep => n,
            RetryCounter::Reset => 0,
            RetryCounter::Increment => n.wrapping_add(1),
        }
    }
}

impl PeerView {
    /// A session that was stable for its hold time has no failures to its name.
    pub open spec fn stable(self, now: u64) -> bool {
        self.established_at matches Some(t) && fsm::seconds_between(t, now)
            >= self.fsm.timers.hold_time
    }

    /// The session after a plan, but for what ends a connection or is sent.
    pub open spec fn arranged(self, plan: PlanView, now: u64) -> PeerView {
        PeerView {
            fsm: Fsm {
                timers: plan.timed(self.fsm.timers, now),
                connect_retry_counter: plan.counted(self.fsm.connect_retry_counter),
                ..self.fsm
            },
            established_at: if plan.establish {
                Some(now)
            } else {
                self.established_at
            },
            consecutive_down_count: if plan.heard && self.stable(now) {
                0
            } else {
                self.consecutive_down_count
            },
            manually_stopped: self.manually_stopped || plan.stop,
            ..self
        }
    }
}

/// The result with its error as one of the session.
pub open spec fn as_peer_result(r: Result<(), IoError>) -> Result<(), PeerError> {
    match r {
        Ok(_) => Ok(()),
        Err(e) => Err(PeerError::IoError(e)),
    }
}

impl Stage {
    /// The peer is told why, if there is something to tell.
    #[verifier::opaque]
    pub open spec fn told(self, notify: Option<NotificationView>) -> Stage {
        match notify {
            Some(n) => self.notified(n),
            None => self,
        }
    }

    /// The connection ends, if it is to.
    #[verifier::opaque]
    pub open spec fn finished(self, end: Option<EndView>) -> Stage {
        match end {
            Some(e) => self.dropped(e.damp, e.reason),
            None => self,
        }
    }

    /// The peer is told why, the connection ends, and the rest is arranged.
    pub open spec fn prepared(self, plan: PlanView, now: u64) -> Stage {
        let ended = self.told(plan.notify).finished(plan.end);
        let arranged = Stage { peer: ended.peer.arranged(plan, now), ..ended };
        match plan.admin {
            Some(a) => arranged.said(EffectView::SetAdminState(a)),
            None => arranged,
        }
    }

    /// The messages of a plan are sent.
    pub open spec fn sent(self, sending: Sending, e: EventView, now: u64) -> (
        Stage,
        Result<(), IoError>,
    ) {
        match sending {
            Sending::Nothing => (self, Ok(())),
            Sending::Keepalive => (self.kept_alive(now), self.write_result()),
            Sending::Open => (self.opened(), self.write_result()),
            Sending::Confirm => self.answered(e, now),
            Sending::OpenAndConfirm => match self.write_result() {
                Err(x) => (self.opened(), Err(x)),
                Ok(_) => self.opened().answered(e, now),
            },
        }
    }

    /// The OPEN message that an event brings is answered.
    pub open spec fn answered(self, e: EventView, now: u64) -> (Stage, Result<(), IoError>) {
        match e {
            EventView::BgpOpenReceived(q) | EventView::BgpOpenWithDelayOpenTimer(q) =>
                self.confirmed(q, now),
            _ => (self, Ok(())),
        }
    }

    /// An established session is announced with the OPEN messages of both sides.
    pub open spec fn introduced(self) -> Stage {
        match (self.peer.sent_open, self.peer.received_open) {
            (Some(sent), Some(received)) => if self.peer.connected {
                self.said(
                    EffectView::ConnectionInfo {
                        sent_open: sent,
                        received_open: received,
                        capabilities: self.peer.capabilities,
                    },
                )
            } else {
                self
            },
            _ => self,
        }
    }

    /// A plan is carried out.
    pub open spec fn carried_out(self, plan: PlanView, e: EventView, now: u64) -> (
        Stage,
        Result<(), PeerError>,
    ) {
        let (s, r) = self.prepared(plan, now).sent(plan.sending, e, now);
        (
            if plan.establish {
                s.introduced()
            } else {
                s
            },
            match plan.error {
                Some(x) => Err(x),
                None => as_peer_result(r),
            },
        )
    }

    /// An event is processed: the state changes, the plan is carried out, and a
    /// new state is told if that went well.
    #[verifier::opaque]
    pub open spec fn processed(self, e: EventView, now: u64) -> (Stage, Result<(), PeerError>) {
        let old_state = self.peer.fsm.current;
        let new_state = self.peer.fsm.next(e);
        let moved = Stage {
            peer: PeerView { fsm: Fsm { current: new_state, ..self.peer.fsm }, ..self.peer },
            ..self
        };
        let (s, r) = moved.carried_out(self.peer.plan(e), e, now);
        (
            if r is Ok && old_state != new_state {
                s.said(EffectView::StateChanged(new_state))
            } else {
                s
            },
            r,
        )
    }
}

fn planned_timers(t: &FsmTimers, plan: &Plan, now: u64) -> (r: FsmTimers)
    ensures
        r == plan@.timed(*t, now),
{
    FsmTimers {
        connect_retry_started: match plan.retry_timer {
            RetryTimer::Keep => t.connect_retry_started,
            RetryTimer::Start => Some(now),
            RetryTimer::Stop => None,
        },
        delay_open_timer_started: if plan.undelay {
            None
        } else {
            t.delay_open_timer_started
        },
        hold_time: if plan.await_open {
            INITIAL_HOLD_TIME
        } else {
            t.hold_time
        },
        hold_timer_started: if plan.await_open || plan.establish || (plan.heard && t.hold_time
            > 0) {
            Some(now)
        } else {
            t.hold_timer_started
        },
        keepalive_timer_started: t.keepalive_timer_started,
        connect_retry_time: t.connect_retry_time,
        keepalive_time: t.keepalive_time,
        delay_open_time: t.delay_open_time,
    }
}

fn planned_count(n: u32, plan: &Plan) -> (r: u32)
    ensures
        r == plan@.counted(n),
{
    match plan.retry_counter {
        RetryCounter::Keep => n,
        RetryCounter::Reset => 0,
        RetryCounter::Increment => n.wrapping_add(1),
    }
}

/// How the rest is arranged does not depend on what is told or how a connection
/// ends.
proof fn lemma_arranged(p: PeerView, a: PlanView, b: PlanView, now: u64)
    requires
        a == (PlanView { notify: a.notify, end: a.end, ..b }),
    ensures
        p.arranged(a, now) == p.arranged(b, now),
{
}

impl Peer {
    /// What is done on an event that leads to `to`.
    fn plan_for(&self, event: &FsmEvent, old_state: BgpState, to: BgpState) -> (r: Plan)
        requires
            self@.fsm.current == to,
            (Fsm { current: old_state, ..self@.fsm }).next(event@) == to,
        ensures
            r@ == (PeerView { fsm: Fsm { current: old_state, ..self@.fsm }, ..self@ }).plan(
                event@,
            ),
    {
        let delayed = self.fsm.timers.delay_open_timer_running();
        match old_state {
            BgpState::Idle => idle_plan(to),
            BgpState::Connect => connect_plan(event, delayed),
            BgpState::Active => active_plan(
                event,
                delayed,
                self.config.send_notification_without_open,
            ),
            BgpState::OpenSent => open_sent_plan(event),
            BgpState::OpenConfirm => open_confirm_plan(event),
            BgpState::Established => established_plan(event),
        }
    }

    fn arrange(&mut self, plan: &Plan, now: u64)
        ensures
            final(self)@ == old(self)@.arranged(plan@, now),
    {
        let stable = match self.established_at {
            Some(t) => elapsed_seconds(t, now) >= self.fsm.timers.hold_time,
            None => false,
        };
        self.fsm.timers = planned_timers(&self.fsm.timers, plan, now);
        self.fsm.connect_retry_counter = planned_count(self.fsm.connect_retry_counter, plan);
        if plan.establish {
            self.established_at = Some(now);
        }
        if plan.heard && stable {
            self.consecutive_down_count = 0;
        }
        if plan.stop {
            self.manually_stopped = true;
        }
    }

    fn tell(&mut self, notify: Option<NotificationMessage>, turn: &mut Turn)
        ensures
            steps::at(*final(self), *final(turn)) == steps::at(*old(self), *old(turn)).told(
                crate::conf::opt_view(notify),
            ),
    {
        proof {
            reveal(Stage::told);
        }
        match notify {
            Some(n) => {
                let _ = self.send_notification(n, turn);
            },
            None => {},
        }
    }

    fn finish(&mut self, end: Option<End>, turn: &mut Turn)
        ensures
            steps::at(*final(self), *final(turn)) == steps::at(*old(self), *old(turn)).finished(
                crate::conf::opt_view(end),
            ),
    {
        proof {
            reveal(Stage::finished);
        }
        match end {
            Some(e) => {
                self.disconnect(e.damp, e.reason, turn);
            },
            None => {},
        }
    }

    fn prepare(&mut self, plan: Plan, now: u64, turn: &mut Turn)
        ensures
            steps::at(*final(self), *final(turn)) == steps::at(*old(self), *old(turn)).prepared(
                plan@,
                now,
            ),
    {
        let mut plan = plan;
        let ghost whole = plan@;
        let notify = plan.notify.take();
        let end = plan.end.take();
        proof {
            assert(crate::conf::opt_view(notify) == whole.notify);
            assert(crate::conf::opt_view(end) == whole.end);
        }
        self.tell(notify, turn);
        self.finish(end, turn);
        let ghost ended = steps::at(*self, *turn);
        self.arrange(&plan, now);
        proof {
            lemma_arranged(ended.peer, plan@, whole, now);
        }
        if let Some(a) = plan.admin {
            turn.push(Effect::SetAdminState(a));
        }
    }

    fn answer(&mut self, event: &FsmEvent, now: u64, turn: &mut Turn) -> (r: Result<(), IoError>)
        ensures
            (steps::at(*final(self), *final(turn)), r) == steps::at(
                *old(self),
                *old(turn),
            ).answered(event@, now),
    {
        match event {
            FsmEvent::BgpOpenReceived(q) | FsmEvent::BgpOpenWithDelayOpenTimer(q) =>
                self.enter_open_confirm(q, now, turn),
            _ => Ok(()),
        }
    }

    fn send_planned(&mut self, sending: Sending, event: &FsmEvent, now: u64, turn: &mut Turn) -> (r:
        Result<(), IoError>)
        ensures
            (steps::at(*final(self), *final(turn)), r) == steps::at(
                *old(self),
                *old(turn),
            ).sent(sending, event@, now),
    {
        match sending {
            Sending::Nothing => Ok(()),
            Sending::Keepalive => self.send_keepalive(now, turn),
            Sending::Open => self.send_open(turn),
            Sending::Confirm => self.answer(event, now, turn),
            Sending::OpenAndConfirm => match self.send_open(turn) {
                Err(x) => Err(x),
                Ok(_) => self.answer(event, now, turn),
            },
        }
    }

    fn introduce(&self, turn: &mut Turn)
        ensures
            steps::at(*self, *final(turn)) == steps::at(*self, *old(turn)).introduced(),
    {
        if !self.connected {
            return ;
        }
        if let (Some(sent), Some(received)) = (&self.sent_open, &self.received_open) {
            turn.push(
                Effect::ConnectionInfo {
                    sent_open: sent.clone(),
                    received_open: received.clone(),
                    capabilities: self.capabilities.clone(),
                },
            );
        }
    }

    fn carry_out(&mut self, plan: Plan, event: &FsmEvent, now: u64, turn: &mut Turn) -> (r: Result<
        (),
        PeerError,
    >)
        ensures
            (steps::at(*final(self), *final(turn)), r) == steps::at(
                *old(self),
                *old(turn),
            ).carried_out(plan@, event@, now),
    {
        let sending = plan.sending;
        let establish = plan.establish;
        let error = plan.error;
        self.prepare(plan, now, turn);
        let sent = self.send_planned(sending, event, now, turn);
        if establish {
            self.introduce(turn);
        }
        match error {
            Some(x) => Err(x),
            None => match sent {
                Err(x) => Err(PeerError::IoError(x)),
                Ok(_) => Ok(()),
            },
        }
    }

    /// Processes an event.
    pub fn process_event(&mut self, event: &FsmEvent, now: u64, turn: &mut Turn) -> (r: Result<
        (),
        PeerError,
    >)
        ensures
            (steps::at(*final(self), *final(turn)), r) == steps::at(
                *old(self),
                *old(turn),
            ).processed(event@, now),
    {
        proof {
            reveal(Stage::processed);
        }
        let ghost start = self@;
        let old_state = self.fsm.state();
        let new_state = self.fsm.handle_event(event);
        proof {
            assert(Fsm { current: old_state, ..self@.fsm } == start.fsm);
            assert((PeerView { fsm: start.fsm, ..self@ }) == start);
        }
        let plan = self.plan_for(event, old_state, new_state);
        let r = self.carry_out(plan, event, now, turn);
        if r.is_ok() && old_state != new_state {
            turn.push(Effect::StateChanged(new_state));
        }
        r
    }
}

// ---------------------------------------------------------------------------
// Laws
// ---------------------------------------------------------------------------

/// A session that falls back to Idle has no connection left, and none of the
/// timers of one runs.
#[verifier::spinoff_prover]
pub proof fn law_idle_is_disconnected(s: Stage, e: EventView, now: u64)
    requires
        !(s.peer.fsm.current is Idle),
        s.peer.fsm.next(e) is Idle,
    ensures
        ({
            let p = s.processed(e, now).0.peer;
            &&& !p.connected
            &&& p.established_at is None
            &&& p.fsm.current is Idle
            &&& p.fsm.timers.hold_timer_started is None
            &&& p.fsm.timers.keepalive_timer_started is None
            &&& p.fsm.timers.delay_open_timer_started is None
        }),
{
    lemma_falling_back_ends(s.peer, e);
    reveal(Stage::processed);
    reveal(Stage::told);
    reveal(Stage::finished);
}

proof fn lemma_falling_back_ends(p: PeerView, e: EventView)
    requires
        !(p.fsm.current is Idle),
        p.fsm.next(e) is Idle,
    ensures
        p.plan(e).end is Some,
        p.plan(e).sending is Nothing,
{
}

/// An UPDATE message outside of an established session is an error, and the peer
/// is told so if it may be and the connection takes it.
pub proof fn law_early_update_is_an_error(s: Stage, now: u64)
    requires
        !(s.peer.fsm.current is Established),
        !(s.peer.fsm.current is Idle),
    ensures
        s.processed(EventView::BgpUpdateReceived, now).1 == Err::<(), PeerError>(
            PeerError::FsmError,
        ),
        s.processed(EventView::BgpUpdateReceived, now).0.peer.fsm.current is Idle,
        s.peer.can_notify() && s.writes > 0 ==> {
            let p = s.processed(EventView::BgpUpdateReceived, now).0.peer;
            p.statistics.notification_sent == s.peer.statistics.notification_sent.wrapping_add(1)
        },
{
    reveal(Stage::processed);
    reveal(Stage::told);
    reveal(Stage::finished);
}

/// A session that is stopped by hand falls back to Idle, stays there by itself,
/// and forgets its failed attempts to connect.
pub proof fn law_manual_stop(s: Stage, now: u64)
    requires
        !(s.peer.fsm.current is Idle),
    ensures
        ({
            let p = s.processed(EventView::ManualStop, now).0.peer;
            &&& p.fsm.current is Idle
            &&& p.manually_stopped
            &&& !p.connected
            &&& p.fsm.connect_retry_counter == 0
            &&& p.fsm.timers.connect_retry_started is None
        }),
{
    reveal(Stage::processed);
    reveal(Stage::told);
    reveal(Stage::finished);
}

/// Starting a session that was started changes nothing.
pub proof fn law_later_starts_change_nothing(s: Stage, e: EventView, now: u64)
    requires
        fsm::is_start(e),
        !(s.peer.fsm.current is Idle),
    ensures
        s.processed(e, now) == (s, Ok::<(), PeerError>(())),
{
    reveal(Stage::processed);
    reveal(Stage::told);
    reveal(Stage::finished);
    let plan = s.peer.plan(e);
    assert(plan == nothing());
    assert(s.peer.arranged(plan, now) == s.peer);
}

/// No route outlives a session that a notification ended.
pub proof fn law_notifications_end_restart(s: Stage, damp: bool, n: NotificationView)
    requires
        s.peer.connected,
    ensures
        s.dropped(damp, DownView::RemoteNotification(n)).effects == s.effects.push(
            EffectView::PeerDisconnected {
                reason: DownView::RemoteNotification(n),
                gr_afi_safis: Seq::empty(),
            },
        ),
        s.dropped(damp, DownView::LocalNotification(n)).effects == s.effects.push(
            EffectView::PeerDisconnected {
                reason: DownView::LocalNotification(n),
                gr_afi_safis: Seq::empty(),
            },
        ),
{
}

proof fn lemma_push_prefix<T>(a: Seq<T>, b: Seq<T>, x: T)
    requires
        a.is_prefix_of(b),
    ensures
        a.is_prefix_of(b.push(x)),
{
    assert(b.push(x).take(a.len() as int) =~= b.take(a.len() as int));
}

proof fn lemma_steps_append(s: Stage, n: NotificationView, damp: bool, reason: DownView, now: u64)
    ensures
        s.effects.is_prefix_of(s.notified(n).effects),
        s.effects.is_prefix_of(s.opened().effects),
        s.effects.is_prefix_of(s.kept_alive(now).effects),
        s.effects.is_prefix_of(s.dropped(damp, reason).effects),
{
    let e = s.effects;
    assert forall|x: EffectView| e.is_prefix_of(#[trigger] e.push(x)) by {
        lemma_push_prefix(e, e, x);
    }
    assert forall|x: EffectView, y: EffectView| e.is_prefix_of(#[trigger] e.push(x).push(y)) by {
        lemma_push_prefix(e, e, x);
        lemma_push_prefix(e, e.push(x), y);
    }
    assert forall|x: EffectView, y: EffectView, z: EffectView|
        e.is_prefix_of(#[trigger] e.push(x).push(y).push(z)) by {
        lemma_push_prefix(e, e, x);
        lemma_push_prefix(e, e.push(x), y);
        lemma_push_prefix(e, e.push(x).push(y), z);
    }
}

proof fn lemma_prefix_chain<T>(a: Seq<T>, b: Seq<T>, c: Seq<T>)
    requires
        a.is_prefix_of(b),
        b.is_prefix_of(c),
    ensures
        a.is_prefix_of(c),
{
    assert(c.take(a.len() as int) =~= b.take(a.len() as int)) by {
        assert(c.take(b.len() as int) == b);
        assert forall|i: int| 0 <= i < a.len() implies c[i] == b[i] by {
            assert(c.take(b.len() as int)[i] == c[i]);
        }
    }
}

proof fn lemma_answer_appends(s: Stage, e: EventView, now: u64)
    ensures
        s.effects.is_prefix_of(s.answered(e, now).0.effects),
{
    assert(s.effects.take(s.effects.len() as int) =~= s.effects);
    match e {
        EventView::BgpOpenReceived(q) | EventView::BgpOpenWithDelayOpenTimer(q) => {
            match confirm::refusal(s.peer, q) {
                Some((why, notif)) => {
                    let noted = Stage {
                        peer: confirm::noted_at_refusal(s.peer, q, why),
                        ..s
                    };
                    lemma_steps_append(noted, notif, true, DownView::RemoteNoNotification, now);
                },
                None => {
                    let known = s.peer.identified(q).agreed(q.peer_capabilities);
                    let hold = confirm::agreed_hold_time(q.local_hold_time, q.peer_hold_time);
                    let timed = Stage {
                        peer: PeerView {
                            fsm: Fsm { timers: known.fsm.timers.agreed(hold), ..known.fsm },
                            ..known
                        },
                        ..s
                    };
                    lemma_steps_append(
                        timed,
                        unexpected(),
                        true,
                        DownView::RemoteNoNotification,
                        now,
                    );
                    lemma_push_prefix(
                        s.effects,
                        timed.kept_alive(now).effects,
                        EffectView::HandshakeComplete { asn: q.peer_asn },
                    );
                },
            }
        },
        _ => {},
    }
}

proof fn lemma_told_appends(s: Stage, notify: Option<NotificationView>, now: u64)
    ensures
        s.effects.is_prefix_of(s.told(notify).effects),
{
    reveal(Stage::told);
    assert(s.effects.take(s.effects.len() as int) =~= s.effects);
    match notify {
        Some(n) => {
            lemma_steps_append(s, n, true, DownView::RemoteNoNotification, now);
        },
        None => {},
    }
}

proof fn lemma_finished_appends(s: Stage, end: Option<EndView>, now: u64)
    ensures
        s.effects.is_prefix_of(s.finished(end).effects),
{
    reveal(Stage::finished);
    assert(s.effects.take(s.effects.len() as int) =~= s.effects);
    match end {
        Some(x) => {
            lemma_steps_append(s, unexpected(), x.damp, x.reason, now);
        },
        None => {},
    }
}

proof fn lemma_prepared_appends(s: Stage, plan: PlanView, now: u64)
    ensures
        s.effects.is_prefix_of(s.prepared(plan, now).effects),
{
    let told = s.told(plan.notify);
    let ended = told.finished(plan.end);
    lemma_told_appends(s, plan.notify, now);
    lemma_finished_appends(told, plan.end, now);
    lemma_prefix_chain(s.effects, told.effects, ended.effects);
    match plan.admin {
        Some(a) => {
            lemma_push_prefix(s.effects, ended.effects, EffectView::SetAdminState(a));
        },
        None => {},
    }
}

proof fn lemma_sent_appends(s: Stage, sending: Sending, e: EventView, now: u64)
    ensures
        s.effects.is_prefix_of(s.sent(sending, e, now).0.effects),
{
    assert(s.effects.take(s.effects.len() as int) =~= s.effects);
    lemma_steps_append(s, unexpected(), true, DownView::RemoteNoNotification, now);
    match sending {
        Sending::Confirm => {
            lemma_answer_appends(s, e, now);
        },
        Sending::OpenAndConfirm => {
            let o = s.opened();
            lemma_answer_appends(o, e, now);
            lemma_prefix_chain(s.effects, o.effects, o.answered(e, now).0.effects);
        },
        _ => {},
    }
}

proof fn lemma_introduced_appends(s: Stage)
    ensures
        s.effects.is_prefix_of(s.introduced().effects),
{
    assert(s.effects.take(s.effects.len() as int) =~= s.effects);
    match (s.peer.sent_open, s.peer.received_open) {
        (Some(a), Some(b)) => {
            lemma_push_prefix(
                s.effects,
                s.effects,
                EffectView::ConnectionInfo {
                    sent_open: a,
                    received_open: b,
                    capabilities: s.peer.capabilities,
                },
            );
        },
        _ => {},
    }
}

proof fn lemma_carried_out_appends(s: Stage, plan: PlanView, e: EventView, now: u64)
    ensures
        s.effects.is_prefix_of(s.carried_out(plan, e, now).0.effects),
{
    let ready = s.prepared(plan, now);
    let sent = ready.sent(plan.sending, e, now).0;
    lemma_prepared_appends(s, plan, now);
    lemma_sent_appends(ready, plan.sending, e, now);
    lemma_prefix_chain(s.effects, ready.effects, sent.effects);
    lemma_introduced_appends(sent);
    lemma_prefix_chain(s.effects, sent.effects, sent.introduced().effects);
}

/// Processing an event only adds to what is to be done.
pub proof fn law_effects_are_appended(s: Stage, e: EventView, now: u64)
    ensures
        s.effects.is_prefix_of(s.processed(e, now).0.effects),
{
    reveal(Stage::processed);
    let moved = Stage {
        peer: PeerView { fsm: Fsm { current: s.peer.fsm.next(e), ..s.peer.fsm }, ..s.peer },
        ..s
    };
    let plan = s.peer.plan(e);
    lemma_carried_out_appends(moved, plan, e, now);
    lemma_push_prefix(
        s.effects,
        moved.carried_out(plan, e, now).0.effects,
        EffectView::StateChanged(s.peer.fsm.next(e)),
    );
}

} // verus!
