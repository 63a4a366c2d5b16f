//! The states of a session, what happens in it, and its timers.

use crate::bgp::msg_notification::{CeaseSubcode, NotificationMessage, NotificationView};
use crate::peer::capabilities::{CapabilitiesView, PeerCapabilities};
use vstd::prelude::*;

verus! {

/// The states of a session.
#[derive(Debug, Clone, Copy, PartialEq, Eq, Hash, Structural)]
pub enum BgpState {
    Idle,
    Connect,
    Active,
    OpenSent,
    OpenConfirm,
    Established,
}

/// What an OPEN message of the peer says, beside what this side wants.
#[derive(Debug, PartialEq, Eq)]
pub struct BgpOpenParams {
    pub peer_asn: u32,
    pub peer_hold_time: u16,
    pub peer_bgp_id: u32,
    pub local_asn: u32,
    pub local_hold_time: u16,
    pub peer_capabilities: PeerCapabilities,
}

pub struct OpenParamsView {
    pub peer_asn: u32,
    pub peer_hold_time: u16,
    pub peer_bgp_id: u32,
    pub local_asn: u32,
    pub local_hold_time: u16,
    pub peer_capabilities: CapabilitiesView,
}

impl View for BgpOpenParams {
    type V = OpenParamsView;

    open spec fn view(&self) -> OpenParamsView {
        OpenParamsView {
            peer_asn: self.peer_asn,
            peer_hold_time: self.peer_hold_time,
            peer_bgp_id: self.peer_bgp_id,
            local_asn: self.local_asn,
            local_hold_time: self.local_hold_time,
            peer_capabilities: self.peer_capabilities@,
        }
    }
}

impl Clone for BgpOpenParams {
    fn clone(&self) -> (r: Self)
        ensures
            r@ == self@,
    {
        BgpOpenParams {
            peer_asn: self.peer_asn,
            peer_hold_time: self.peer_hold_time,
            peer_bgp_id: self.peer_bgp_id,
            local_asn: self.local_asn,
            local_hold_time: self.local_hold_time,
            peer_capabilities: self.peer_capabilities.clone(),
        }
    }
}

/// What happens in a session.
#[derive(Debug, PartialEq, Eq)]
pub enum FsmEvent {
    ManualStart,
    ManualStop,
    AutomaticStart,
    ManualStartPassive,
    AutomaticStartPassive,
    AutomaticStop(CeaseSubcode),
    ConnectRetryTimerExpires,
    HoldTimerExpires,
    KeepaliveTimerExpires,
    DelayOpenTimerExpires,
    IdleHoldTimerExpires,
    TcpConnectionConfirmed,
    TcpConnectionFails,
    BgpOpenReceived(BgpOpenParams),
    BgpOpenWithDelayOpenTimer(BgpOpenParams),
    BgpHeaderErr(NotificationMessage),
    BgpOpenMsgErr(NotificationMessage),
    NotifMsgVerErr(NotificationMessage),
    NotifMsg(NotificationMessage),
    BgpKeepaliveReceived,
    BgpUpdateReceived,
    BgpUpdateMsgErr(NotificationMessage),
}

pub enum EventView {
    ManualStart,
    ManualStop,
    AutomaticStart,
    ManualStartPassive,
    AutomaticStartPassive,
    AutomaticStop(CeaseSubcode),
    ConnectRetryTimerExpires,
    HoldTimerExpires,
    KeepaliveTimerExpires,
    DelayOpenTimerExpires,
    IdleHoldTimerExpires,
    TcpConnectionConfirmed,
    TcpConnectionFails,
    BgpOpenReceived(OpenParamsView),
    BgpOpenWithDelayOpenTimer(OpenParamsView),
    BgpHeaderErr(NotificationView),
    BgpOpenMsgErr(NotificationView),
    NotifMsgVerErr(NotificationView),
    NotifMsg(NotificationView),
    BgpKeepaliveReceived,
    BgpUpdateReceived,
    BgpUpdateMsgErr(NotificationView),
}

impl View for FsmEvent {
    type V = EventView;

    open spec fn view(&self) -> EventView {
        match self {
            FsmEvent::ManualStart => EventView::ManualStart,
            FsmEvent::ManualStop => EventView::ManualStop,
            FsmEvent::AutomaticStart => EventView::AutomaticStart,
            FsmEvent::ManualStartPassive => EventView::ManualStartPassive,
            FsmEvent::AutomaticStartPassive => EventView::AutomaticStartPassive,
            FsmEvent::AutomaticStop(c) => EventView::AutomaticStop(*c),
            FsmEvent::ConnectRetryTimerExpires => EventView::ConnectRetryTimerExpires,
            FsmEvent::HoldTimerExpires => EventView::HoldTimerExpires,
            FsmEvent::KeepaliveTimerExpires => EventView::KeepaliveTimerExpires,
            FsmEvent::DelayOpenTimerExpires => EventView::DelayOpenTimerExpires,
            FsmEvent::IdleHoldTimerExpires => EventView::IdleHoldTimerExpires,
            FsmEvent::TcpConnectionConfirmed => EventView::TcpConnectionConfirmed,
            FsmEvent::TcpConnectionFails => EventView::TcpConnectionFails,
            FsmEvent::BgpOpenReceived(p) => EventView::BgpOpenReceived(p@),
            FsmEvent::BgpOpenWithDelayOpenTimer(p) => EventView::BgpOpenWithDelayOpenTimer(p@),
            FsmEvent::BgpHeaderErr(n) => EventView::BgpHeaderErr(n@),
            FsmEvent::BgpOpenMsgErr(n) => EventView::BgpOpenMsgErr(n@),
            FsmEvent::NotifMsgVerErr(n) => EventView::NotifMsgVerErr(n@),
            FsmEvent::NotifMsg(n) => EventView::NotifMsg(n@),
            FsmEvent::BgpKeepaliveReceived => EventView::BgpKeepaliveReceived,
            FsmEvent::BgpUpdateReceived => EventView::BgpUpdateReceived,
            FsmEvent::BgpUpdateMsgErr(n) => EventView::BgpUpdateMsgErr(n@),
        }
    }
}

// ---------------------------------------------------------------------------
// Timers
// ---------------------------------------------------------------------------

/// The hold time while the peer's OPEN message is awaited, in seconds.
pub const INITIAL_HOLD_TIME: u64 = 240;

/// The hold time before one is agreed on, in seconds.
pub const DEFAULT_HOLD_TIME: u64 = 180;

/// How long to wait between attempts to connect, in seconds.
pub const DEFAULT_CONNECT_RETRY_TIME: u64 = 120;

/// The timers of a session: when each was started, in milliseconds, and how
/// long it runs, in seconds.
#[derive(Debug, Clone, Copy, PartialEq, Eq, Structural)]
pub struct FsmTimers {
    pub connect_retry_started: Option<u64>,
    pub hold_timer_started: Option<u64>,
    pub keepalive_timer_started: Option<u64>,
    pub delay_open_timer_started: Option<u64>,
    pub connect_retry_time: u64,
    pub hold_time: u64,
    pub keepalive_time: u64,
    pub delay_open_time: Option<u64>,
}

/// Whole seconds between two moments; none before the first.
pub open spec fn seconds_between(start: u64, now: u64) -> int {
    if now < start {
        0
    } else {
        (now - start) / 1000
    }
}

/// A timer was started and has run for its time.
pub open spec fn run_out(started: Option<u64>, time: u64, now: u64) -> bool {
    started matches Some(t) && seconds_between(t, now) >= time
}

/// Whole seconds between two moments; none before the first.
pub fn elapsed_seconds(start: u64, now: u64) -> (r: u64)
    ensures
        r == seconds_between(start, now),
{
    if now < start {
        0
    } else {
        (now - start) / 1000
    }
}

fn has_run_out(started: Option<u64>, time: u64, now: u64) -> (r: bool)
    ensures
        r == run_out(started, time, now),
{
    match started {
        Some(t) => elapsed_seconds(t, now) >= time,
        None => false,
    }
}

impl FsmTimers {
    /// No timer runs.
    pub open spec fn idle(delay_open_time: Option<u64>) -> FsmTimers {
        FsmTimers {
            connect_retry_started: None,
            hold_timer_started: None,
            keepalive_timer_started: None,
            delay_open_timer_started: None,
            connect_retry_time: DEFAULT_CONNECT_RETRY_TIME,
            hold_time: DEFAULT_HOLD_TIME,
            keepalive_time: (DEFAULT_HOLD_TIME / 3) as u64,
            delay_open_time,
        }
    }

    /// With the hold time that both sides agreed on; a third of it passes
    /// between keepalives.
    pub open spec fn agreed(self, hold_time: u16) -> FsmTimers {
        FsmTimers { hold_time: hold_time as u64, keepalive_time: (hold_time / 3) as u64, ..self }
    }

    /// Nothing was heard of the peer for the hold time; a hold time of zero never
    /// ends.
    pub open spec fn hold_over(self, now: u64) -> bool {
        self.hold_time > 0 && run_out(self.hold_timer_started, self.hold_time, now)
    }

    /// Without the timers of a connection.
    pub open spec fn disconnected(self) -> FsmTimers {
        FsmTimers {
            hold_timer_started: None,
            keepalive_timer_started: None,
            delay_open_timer_started: None,
            ..self
        }
    }

    pub fn new(delay_open_time: Option<u64>) -> (r: Self)
        ensures
            r == FsmTimers::idle(delay_open_time),
    {
        FsmTimers {
            connect_retry_started: None,
            hold_timer_started: None,
            keepalive_timer_started: None,
            delay_open_timer_started: None,
            connect_retry_time: DEFAULT_CONNECT_RETRY_TIME,
            hold_time: DEFAULT_HOLD_TIME,
            keepalive_time: DEFAULT_HOLD_TIME / 3,
            delay_open_time,
        }
    }

    pub fn start_connect_retry(&mut self, now: u64)
        ensures
            *final(self) == (FsmTimers { connect_retry_started: Some(now), ..*old(self) }),
    {
        self.connect_retry_started = Some(now);
    }

    pub fn stop_connect_retry(&mut self)
        ensures
            *final(self) == (FsmTimers { connect_retry_started: None, ..*old(self) }),
    {
        self.connect_retry_started = None;
    }

    pub fn connect_retry_expired(&self, now: u64) -> (r: bool)
        ensures
            r == run_out(self.connect_retry_started, self.connect_retry_time, now),
    {
        has_run_out(self.connect_retry_started, self.connect_retry_time, now)
    }

    pub fn start_hold_timer(&mut self, now: u64)
        ensures
            *final(self) == (FsmTimers { hold_timer_started: Some(now), ..*old(self) }),
    {
        self.hold_timer_started = Some(now);
    }

    pub fn stop_hold_timer(&mut self)
        ensures
            *final(self) == (FsmTimers { hold_timer_started: None, ..*old(self) }),
    {
        self.hold_timer_started = None;
    }

    /// Whether nothing was heard of the peer for the hold time; a hold time of
    /// zero never ends.
    pub fn hold_timer_expired(&self, now: u64) -> (r: bool)
        ensures
            r == self.hold_over(now),
    {
        self.hold_time > 0 && has_run_out(self.hold_timer_started, self.hold_time, now)
    }

    pub fn start_keepalive_timer(&mut self, now: u64)
        ensures
            *final(self) == (FsmTimers { keepalive_timer_started: Some(now), ..*old(self) }),
    {
        self.keepalive_timer_started = Some(now);
    }

    pub fn stop_keepalive_timer(&mut self)
        ensures
            *final(self) == (FsmTimers { keepalive_timer_started: None, ..*old(self) }),
    {
        self.keepalive_timer_started = None;
    }

    pub fn keepalive_timer_expired(&self, now: u64) -> (r: bool)
        ensures
            r == run_out(self.keepalive_timer_started, self.keepalive_time, now),
    {
        has_run_out(self.keepalive_timer_started, self.keepalive_time, now)
    }

    pub fn start_delay_open_timer(&mut self, now: u64)
        ensures
            *final(self) == (FsmTimers { delay_open_timer_started: Some(now), ..*old(self) }),
    {
        self.delay_open_timer_started = Some(now);
    }

    pub fn stop_delay_open_timer(&mut self)
        ensures
            *final(self) == (FsmTimers { delay_open_timer_started: None, ..*old(self) }),
    {
        self.delay_open_timer_started = None;
    }

    pub fn delay_open_timer_running(&self) -> (r: bool)
        ensures
            r == (self.delay_open_timer_started is Some),
    {
        self.delay_open_timer_started.is_some()
    }

    /// Whether the OPEN message was delayed for its time; a timer without a time
    /// has run out when it starts.
    pub fn delay_open_timer_expired(&self, now: u64) -> (r: bool)
        ensures
            r == run_out(
                self.delay_open_timer_started,
                match self.delay_open_time {
                    Some(t) => t,
                    None => 0,
                },
                now,
            ),
    {
        let time: u64 = match self.delay_open_time {
            Some(t) => t,
            None => 0,
        };
        has_run_out(self.delay_open_timer_started, time, now)
    }

    /// Sets the hold time that holds until one is agreed on.
    pub fn set_initial_hold_time(&mut self, hold_time: u64)
        ensures
            *final(self) == (FsmTimers { hold_time, ..*old(self) }),
    {
        self.hold_time = hold_time;
    }

    /// Sets the hold time that both sides agreed on.
    pub fn set_negotiated_hold_time(&mut self, hold_time: u16)
        ensures
            *final(self) == old(self).agreed(hold_time),
    {
        self.hold_time = hold_time as u64;
        self.keepalive_time = (hold_time / 3) as u64;
    }
}

// ---------------------------------------------------------------------------
// States
// ---------------------------------------------------------------------------

/// The state of a session, its timers and how often connecting failed.
#[derive(Debug, Clone, Copy, PartialEq, Eq, Structural)]
pub struct Fsm {
    pub current: BgpState,
    pub timers: FsmTimers,
    pub connect_retry_counter: u32,
    pub passive_mode: bool,
    pub graceful_restart_negotiated: bool,
}

/// The state after an event in Idle: starting leads out of it, as does the end
/// of the hold-off.
pub open spec fn after_idle(e: EventView, passive: bool) -> BgpState {
    match e {
        EventView::ManualStart | EventView::AutomaticStart => BgpState::Connect,
        EventView::ManualStartPassive | EventView::AutomaticStartPassive => BgpState::Active,
        EventView::IdleHoldTimerExpires => if passive {
            BgpState::Active
        } else {
            BgpState::Connect
        },
        _ => BgpState::Idle,
    }
}

/// The event starts a session.
pub open spec fn is_start(e: EventView) -> bool {
    e is ManualStart || e is AutomaticStart || e is ManualStartPassive || e is AutomaticStartPassive
}

/// The state after an event in Connect.
pub open spec fn after_connect(e: EventView, delayed: bool) -> BgpState {
    match e {
        EventView::ConnectRetryTimerExpires => BgpState::Connect,
        EventView::TcpConnectionFails => if delayed {
            BgpState::Active
        } else {
            BgpState::Idle
        },
        EventView::TcpConnectionConfirmed | EventView::DelayOpenTimerExpires => BgpState::OpenSent,
        EventView::BgpOpenWithDelayOpenTimer(_) => BgpState::OpenConfirm,
        _ => if is_start(e) {
            BgpState::Connect
        } else {
            BgpState::Idle
        },
    }
}

/// The state after an event in Active.
pub open spec fn after_active(e: EventView) -> BgpState {
    match e {
        EventView::ConnectRetryTimerExpires => BgpState::Connect,
        EventView::TcpConnectionConfirmed | EventView::DelayOpenTimerExpires => BgpState::OpenSent,
        EventView::BgpOpenWithDelayOpenTimer(_) => BgpState::OpenConfirm,
        _ => if is_start(e) {
            BgpState::Active
        } else {
            BgpState::Idle
        },
    }
}

/// The state after an event in OpenSent.
pub open spec fn after_open_sent(e: EventView) -> BgpState {
    match e {
        EventView::TcpConnectionFails => BgpState::Active,
        EventView::TcpConnectionConfirmed => BgpState::OpenSent,
        EventView::BgpOpenReceived(_) | EventView::BgpOpenWithDelayOpenTimer(_) =>
            BgpState::OpenConfirm,
        _ => if is_start(e) {
            BgpState::OpenSent
        } else {
            BgpState::Idle
        },
    }
}

/// The state after an event in OpenConfirm.
pub open spec fn after_open_confirm(e: EventView) -> BgpState {
    match e {
        EventView::KeepaliveTimerExpires => BgpState::OpenConfirm,
        EventView::TcpConnectionConfirmed => BgpState::OpenConfirm,
        EventView::BgpOpenReceived(_) => BgpState::OpenConfirm,
        EventView::BgpKeepaliveReceived => BgpState::Established,
        _ => if is_start(e) {
            BgpState::OpenConfirm
        } else {
            BgpState::Idle
        },
    }
}

/// The state after an event in Established.
pub open spec fn after_established(e: EventView) -> BgpState {
    match e {
        EventView::KeepaliveTimerExpires => BgpState::Established,
        EventView::TcpConnectionConfirmed => BgpState::Established,
        EventView::BgpOpenReceived(_) => BgpState::Established,
        EventView::BgpKeepaliveReceived | EventView::BgpUpdateReceived => BgpState::Established,
        _ => if is_start(e) {
            BgpState::Established
        } else {
            BgpState::Idle
        },
    }
}

impl Fsm {
    /// The state after an event.
    pub open spec fn next(self, e: EventView) -> BgpState {
        match self.current {
            BgpState::Idle => after_idle(e, self.passive_mode),
            BgpState::Connect => after_connect(e, self.timers.delay_open_timer_started is Some),
            BgpState::Active => after_active(e),
            BgpState::OpenSent => after_open_sent(e),
            BgpState::OpenConfirm => after_open_confirm(e),
            BgpState::Established => after_established(e),
        }
    }

    /// A session that was not started.
    pub fn new(delay_open_time: Option<u64>, passive_mode: bool) -> (r: Self)
        ensures
            r == (Fsm {
                current: BgpState::Idle,
                timers: FsmTimers::idle(delay_open_time),
                connect_retry_counter: 0,
                passive_mode,
                graceful_restart_negotiated: false,
            }),
    {
        Fsm {
            current: BgpState::Idle,
            timers: FsmTimers::new(delay_open_time),
            connect_retry_counter: 0,
            passive_mode,
            graceful_restart_negotiated: false,
        }
    }

    /// A session in a given state.
    pub fn with_state(state: BgpState, passive_mode: bool) -> (r: Self)
        ensures
            r == (Fsm {
                current: state,
                timers: FsmTimers::idle(None),
                connect_retry_counter: 0,
                passive_mode,
                graceful_restart_negotiated: false,
            }),
    {
        let mut r = Fsm::new(None, passive_mode);
        r.current = state;
        r
    }

    pub fn state(&self) -> (r: BgpState)
        ensures
            r == self.current,
    {
        self.current
    }

    /// Moves on to the state after an event.
    pub fn handle_event(&mut self, event: &FsmEvent) -> (r: BgpState)
        ensures
            r == old(self).next(event@),
            *final(self) == (Fsm { current: r, ..*old(self) }),
    {
        let start = match event {
            FsmEvent::ManualStart
            | FsmEvent::AutomaticStart
            | FsmEvent::ManualStartPassive
            | FsmEvent::AutomaticStartPassive => true,
            _ => false,
        };
        let old_state = self.current;
        let next = match old_state {
            BgpState::Idle => match event {
                FsmEvent::ManualStart | FsmEvent::AutomaticStart => BgpState::Connect,
                FsmEvent::ManualStartPassive | FsmEvent::AutomaticStartPassive => BgpState::Active,
                FsmEvent::IdleHoldTimerExpires => if self.passive_mode {
                    BgpState::Active
                } else {
                    BgpState::Connect
                },
                _ => BgpState::Idle,
            },
            BgpState::Connect => match event {
                FsmEvent::ConnectRetryTimerExpires => BgpState::Connect,
                FsmEvent::TcpConnectionFails => if self.timers.delay_open_timer_running() {
                    BgpState::Active
                } else {
                    BgpState::Idle
                },
                FsmEvent::TcpConnectionConfirmed | FsmEvent::DelayOpenTimerExpires =>
                    BgpState::OpenSent,
                FsmEvent::BgpOpenWithDelayOpenTimer(_) => BgpState::OpenConfirm,
                _ => if start {
                    BgpState::Connect
                } else {
                    BgpState::Idle
                },
            },
            BgpState::Active => match event {
                FsmEvent::ConnectRetryTimerExpires => BgpState::Connect,
                FsmEvent::TcpConnectionConfirmed | FsmEvent::DelayOpenTimerExpires =>
                    BgpState::OpenSent,
                FsmEvent::BgpOpenWithDelayOpenTimer(_) => BgpState::OpenConfirm,
                _ => if start {
                    BgpState::Active
                } else {
                    BgpState::Idle
                },
            },
            BgpState::OpenSent => match event {
                FsmEvent::TcpConnectionFails => BgpState::Active,
                FsmEvent::TcpConnectionConfirmed => BgpState::OpenSent,
                FsmEvent::BgpOpenReceived(_) | FsmEvent::BgpOpenWithDelayOpenTimer(_) =>
                    BgpState::OpenConfirm,
                _ => if start {
                    BgpState::OpenSent
                } else {
                    BgpState::Idle
                },
            },
            BgpState::OpenConfirm => match event {
                FsmEvent::KeepaliveTimerExpires => BgpState::OpenConfirm,
                FsmEvent::TcpConnectionConfirmed => BgpState::OpenConfirm,
                FsmEvent::BgpOpenReceived(_) => BgpState::OpenConfirm,
                FsmEvent::BgpKeepaliveReceived => BgpState::Established,
                _ => if start {
                    BgpState::OpenConfirm
                } else {
                    BgpState::Idle
                },
            },
            BgpState::Established => match event {
                FsmEvent::KeepaliveTimerExpires => BgpState::Established,
                FsmEvent::TcpConnectionConfirmed => BgpState::Established,
                FsmEvent::BgpOpenReceived(_) => BgpState::Established,
                FsmEvent::BgpKeepaliveReceived | FsmEvent::BgpUpdateReceived =>
                    BgpState::Established,
                _ => if start {
                    BgpState::Established
                } else {
                    BgpState::Idle
                },
            },
        };
        self.current = next;
        next
    }

    pub fn reset_connect_retry_counter(&mut self)
        ensures
            *final(self) == (Fsm { connect_retry_counter: 0, ..*old(self) }),
    {
        self.connect_retry_counter = 0;
    }

    /// Counts one more failure; the count wraps around.
    pub fn increment_connect_retry_counter(&mut self)
        ensures
            *final(self) == (Fsm {
                connect_retry_counter: old(self).connect_retry_counter.wrapping_add(1),
                ..*old(self)
            }),
    {
        self.connect_retry_counter = self.connect_retry_counter.wrapping_add(1);
    }

    /// Notes whether the peer restarts gracefully.
    pub fn set_graceful_restart_negotiated(&mut self, negotiated: bool)
        ensures
            *final(self) == (Fsm { graceful_restart_negotiated: negotiated, ..*old(self) }),
    {
        self.graceful_restart_negotiated = negotiated;
    }
}

/// A session is established only by a keepalive that answers an OPEN message.
pub proof fn law_only_keepalive_establishes(f: Fsm, e: EventView)
    requires
        !(f.current is Established),
        f.next(e) is Established,
    ensures
        f.current is OpenConfirm,
        e is BgpKeepaliveReceived,
{
}

/// An UPDATE message outside of an established session leads to Idle.
pub proof fn law_early_update_leads_to_idle(f: Fsm)
    requires
        !(f.current is Established),
    ensures
        f.next(EventView::BgpUpdateReceived) is Idle,
{
}

/// Stopping leads to Idle, whatever the state.
pub proof fn law_stop_leads_to_idle(f: Fsm, c: CeaseSubcode)
    ensures
        f.next(EventView::ManualStop) is Idle,
        f.next(EventView::AutomaticStop(c)) is Idle,
{
}

/// Starting a session that was started changes nothing of its state.
pub proof fn law_starts_are_ignored(f: Fsm, e: EventView)
    requires
        is_start(e),
        !(f.current is Idle),
    ensures
        f.next(e) == f.current,
{
}

} // verus!
