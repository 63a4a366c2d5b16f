//! How a session reacts while there is no connection, or one on which the OPEN
//! message is delayed.

use crate::bgp::open_message::OpenView;
use crate::peer::capabilities;
use crate::peer::capabilities::PeerCapabilities;
use crate::peer::fsm;
use crate::peer::fsm::{
    BgpOpenParams, BgpState, EventView, Fsm, FsmEvent, FsmTimers, OpenParamsView,
};
use crate::peer::messages;
use crate::peer::messages::{parse_error_to_fsm_event, BgpMessage, MessageView};
use crate::peer::reactions::{Next, OpView, PeerOp, Reading, ReadingView};
use crate::peer::session::{
    DownView, Effect, EffectView, Peer, PeerDownReason, PeerView, Turn,
};
use crate::peer::steps;
use crate::peer::steps::Stage;
use vstd::prelude::*;

verus! {

// ---------------------------------------------------------------------------
// Idle
// ---------------------------------------------------------------------------

/// What happens in Idle.
#[derive(Debug)]
pub enum IdleInput {
    Op(PeerOp),
    /// The hold-off is over.
    Expired,
    /// Nothing more will be asked of the session.
    Closed,
}

pub enum IdleView {
    Op(OpView),
    Expired,
    Closed,
}

impl View for IdleInput {
    type V = IdleView;

    open spec fn view(&self) -> IdleView {
        match self {
            IdleInput::Op(op) => IdleView::Op(op@),
            IdleInput::Expired => IdleView::Expired,
            IdleInput::Closed => IdleView::Closed,
        }
    }
}

impl PeerView {
    /// After how many seconds the session is started by itself; none where it is
    /// not.
    pub open spec fn restart_in(self) -> Option<int> {
        if self.manually_stopped {
            None
        } else {
            self.idle_hold_time()
        }
    }

    /// With a start by hand, the session starts by itself again.
    pub open spec fn restartable(self) -> PeerView {
        PeerView { manually_stopped: false, ..self }
    }
}

impl Stage {
    /// A reaction in Idle: a session that waits for connections and one that
    /// opens them heed different starts. Connections are refused.
    pub open spec fn reacted_idle(self, x: IdleView, now: u64) -> (Stage, Next) {
        let passive = self.peer.config.passive_mode;
        let again = Stage { peer: self.peer.restartable(), ..self };
        match x {
            IdleView::Op(OpView::ManualStart) => if !passive {
                (again.tried(EventView::ManualStart, now), Next::Leave)
            } else {
                (self, Next::Stay)
            },
            IdleView::Op(OpView::AutomaticStart) => if !passive {
                (self.tried(EventView::AutomaticStart, now), Next::Leave)
            } else {
                (self, Next::Stay)
            },
            IdleView::Op(OpView::ManualStartPassive) => if passive {
                (again.tried(EventView::ManualStartPassive, now), Next::Leave)
            } else {
                (self, Next::Stay)
            },
            IdleView::Op(OpView::AutomaticStartPassive) => if passive {
                (self.tried(EventView::AutomaticStartPassive, now), Next::Leave)
            } else {
                (self, Next::Stay)
            },
            IdleView::Op(OpView::Shutdown(_)) => (self, Next::Shutdown),
            IdleView::Op(OpView::GetStatistics) => (
                self.said(EffectView::ReplyStatistics(self.peer.statistics)),
                Next::Stay,
            ),
            IdleView::Op(_) => (self, Next::Stay),
            IdleView::Expired => if self.peer.restart_in() is Some {
                (self.tried(EventView::IdleHoldTimerExpires, now), Next::Leave)
            } else {
                (self, Next::Stay)
            },
            IdleView::Closed => (self, Next::Shutdown),
        }
    }
}

impl Peer {
    /// After how many seconds the session is started by itself; none where it is
    /// not.
    pub fn idle_restart(&self) -> (r: Option<u64>)
        requires
            self@.hold_off_fits(),
        ensures
            match r {
                Some(t) => self@.restart_in() == Some(t as int),
                None => self@.restart_in() is None,
            },
    {
        if self.manually_stopped {
            None
        } else {
            self.get_idle_hold_time()
        }
    }

    /// Reacts to what happens in Idle.
    pub fn handle_idle_state(&mut self, input: IdleInput, now: u64, turn: &mut Turn) -> (r: Next)
        ensures
            (steps::at(*final(self), *final(turn)), r) == steps::at(
                *old(self),
                *old(turn),
            ).reacted_idle(input@, now),
    {
        let passive = self.config.passive_mode;
        match input {
            IdleInput::Op(op) => match op {
                PeerOp::ManualStart => {
                    if passive {
                        return Next::Stay;
                    }
                    self.manually_stopped = false;
                    self.try_process_event(&FsmEvent::ManualStart, now, turn);
                    Next::Leave
                },
                PeerOp::AutomaticStart => {
                    if passive {
                        return Next::Stay;
                    }
                    self.try_process_event(&FsmEvent::AutomaticStart, now, turn);
                    Next::Leave
                },
                PeerOp::ManualStartPassive => {
                    if !passive {
                        return Next::Stay;
                    }
                    self.manually_stopped = false;
                    self.try_process_event(&FsmEvent::ManualStartPassive, now, turn);
                    Next::Leave
                },
                PeerOp::AutomaticStartPassive => {
                    if !passive {
                        return Next::Stay;
                    }
                    self.try_process_event(&FsmEvent::AutomaticStartPassive, now, turn);
                    Next::Leave
                },
                PeerOp::Shutdown(_) => Next::Shutdown,
                PeerOp::GetStatistics => {
                    turn.push(Effect::ReplyStatistics(self.statistics));
                    Next::Stay
                },
                _ => Next::Stay,
            },
            IdleInput::Expired => {
                if self.manually_stopped || self.config.idle_hold_time_secs.is_none() {
                    return Next::Stay;
                }
                self.try_process_event(&FsmEvent::IdleHoldTimerExpires, now, turn);
                Next::Leave
            },
            IdleInput::Closed => Next::Shutdown,
        }
    }
}

// ---------------------------------------------------------------------------
// A new connection
// ---------------------------------------------------------------------------

impl Stage {
    /// An event is processed; if that fails, the connection ends because of it.
    pub open spec fn begun(self, e: EventView, now: u64) -> Stage {
        self.pushed(e, now).0
    }

    /// The OPEN message is sent on a connection, or delayed where that is wanted.
    pub open spec fn started(self, now: u64) -> Stage {
        if self.peer.config.delay_open_time_secs is Some {
            Stage {
                peer: PeerView {
                    fsm: Fsm {
                        timers: FsmTimers {
                            delay_open_timer_started: Some(now),
                            ..self.peer.fsm.timers
                        },
                        ..self.peer.fsm
                    },
                    ..self.peer
                },
                ..self
            }
        } else {
            self.begun(EventView::TcpConnectionConfirmed, now)
        }
    }

    /// There is a new connection.
    pub open spec fn accepted(self, now: u64) -> Stage {
        (Stage {
            peer: PeerView {
                connected: true,
                fsm: Fsm {
                    timers: FsmTimers { connect_retry_started: None, ..self.peer.fsm.timers },
                    ..self.peer.fsm
                },
                ..self.peer
            },
            ..self
        }).started(now)
    }
}

impl Peer {
    fn start_open(&mut self, now: u64, turn: &mut Turn)
        ensures
            steps::at(*final(self), *final(turn)) == steps::at(*old(self), *old(turn)).started(
                now,
            ),
    {
        if self.config.delay_open_time_secs.is_some() {
            self.fsm.timers.start_delay_open_timer(now);
        } else {
            let _ = self.push_event(FsmEvent::TcpConnectionConfirmed, now, turn);
        }
    }

    /// Takes a new connection.
    pub fn accept_connection(&mut self, now: u64, turn: &mut Turn)
        ensures
            steps::at(*final(self), *final(turn)) == steps::at(*old(self), *old(turn)).accepted(
                now,
            ),
    {
        self.connected = true;
        self.fsm.timers.stop_connect_retry();
        self.start_open(now, turn);
    }
}

// ---------------------------------------------------------------------------
// While the OPEN message is delayed
// ---------------------------------------------------------------------------

impl PeerView {
    /// What an OPEN message says that comes while this side's is delayed: its
    /// capabilities do not count.
    pub open spec fn early_params(self, open: OpenView) -> OpenParamsView {
        OpenParamsView {
            peer_asn: open.asn,
            peer_hold_time: open.hold_time,
            peer_bgp_id: open.bgp_identifier,
            local_asn: self.local_config.asn,
            local_hold_time: self.local_config.hold_time,
            peer_capabilities: capabilities::no_capabilities(),
        }
    }

    /// The OPEN message is no longer delayed.
    pub open spec fn undelayed(self) -> PeerView {
        PeerView {
            fsm: Fsm {
                timers: FsmTimers { delay_open_timer_started: None, ..self.fsm.timers },
                ..self.fsm
            },
            ..self
        }
    }
}

impl Stage {
    /// What comes over a connection on which the OPEN message is delayed.
    pub open spec fn read_delayed(self, x: ReadingView, now: u64) -> Stage {
        match x {
            ReadingView::Message(MessageView::Open(open)) => (Stage {
                peer: self.peer.undelayed(),
                ..self
            }).begun(
                EventView::BgpOpenWithDelayOpenTimer(self.peer.early_params(open)),
                now,
            ),
            ReadingView::Message(MessageView::Notification(n)) => self.notified_by(n, now),
            ReadingView::Message(_) => self.dropped(true, DownView::RemoteNoNotification),
            ReadingView::Unreadable(n) => self.tried(messages::unreadable_event(n), now),
            ReadingView::Closed => self.tried(EventView::TcpConnectionFails, now),
        }
    }

    /// The timers are looked at while the OPEN message is delayed: in Connect the
    /// one between attempts to connect first.
    pub open spec fn ticked_delayed(self, now: u64) -> Stage {
        let t = self.peer.fsm.timers;
        let delay = match t.delay_open_time {
            Some(d) => d,
            None => 0,
        };
        if self.peer.fsm.current is Connect && fsm::run_out(
            t.connect_retry_started,
            t.connect_retry_time,
            now,
        ) {
            self.tried(EventView::ConnectRetryTimerExpires, now)
        } else if fsm::run_out(t.delay_open_timer_started, delay, now) {
            self.begun(EventView::DelayOpenTimerExpires, now)
        } else {
            self
        }
    }

    /// A request while there is a connection that is not open, or while one is
    /// being made: only stopping is heeded.
    pub open spec fn asked_to_stop(self, op: OpView, now: u64) -> Stage {
        if op is ManualStop {
            self.tried(EventView::ManualStop, now)
        } else {
            self
        }
    }

    /// A request while connections are awaited: one is taken, or the session
    /// stops.
    pub open spec fn asked_waiting(self, op: OpView, now: u64) -> Stage {
        match op {
            OpView::ManualStop => self.tried(EventView::ManualStop, now),
            OpView::TcpConnectionAccepted => self.accepted(now),
            _ => self,
        }
    }
}

impl Peer {
    /// Deals with what comes over a connection on which the OPEN message is
    /// delayed.
    pub fn handle_delay_open_message(&mut self, x: Reading, now: u64, turn: &mut Turn)
        ensures
            steps::at(*final(self), *final(turn)) == steps::at(
                *old(self),
                *old(turn),
            ).read_delayed(x@, now),
    {
        match x {
            Reading::Message(BgpMessage::Open(open)) => {
                self.fsm.timers.stop_delay_open_timer();
                let event = FsmEvent::BgpOpenWithDelayOpenTimer(
                    BgpOpenParams {
                        peer_asn: open.asn,
                        peer_hold_time: open.hold_time,
                        peer_bgp_id: open.bgp_identifier,
                        local_asn: self.local_config.asn,
                        local_hold_time: self.local_config.hold_time,
                        peer_capabilities: PeerCapabilities::default(),
                    },
                );
                let _ = self.push_event(event, now, turn);
            },
            Reading::Message(BgpMessage::Notification(n)) => {
                self.handle_notification_received(&n, now, turn);
            },
            Reading::Message(_) => {
                self.disconnect(true, PeerDownReason::RemoteNoNotification, turn);
            },
            Reading::Unreadable(n) => {
                let event = parse_error_to_fsm_event(n);
                self.try_process_event(&event, now, turn);
            },
            Reading::Closed => {
                self.try_process_event(&FsmEvent::TcpConnectionFails, now, turn);
            },
        }
    }

    fn tick_delayed(&mut self, now: u64, turn: &mut Turn)
        ensures
            steps::at(*final(self), *final(turn)) == steps::at(
                *old(self),
                *old(turn),
            ).ticked_delayed(now),
    {
        let connecting = match self.fsm.current {
            BgpState::Connect => true,
            _ => false,
        };
        if connecting && self.fsm.timers.connect_retry_expired(now) {
            self.try_process_event(&FsmEvent::ConnectRetryTimerExpires, now, turn);
        } else if self.fsm.timers.delay_open_timer_expired(now) {
            let _ = self.push_event(FsmEvent::DelayOpenTimerExpires, now, turn);
        }
    }

    fn ask_to_stop(&mut self, op: PeerOp, now: u64, turn: &mut Turn)
        ensures
            steps::at(*final(self), *final(turn)) == steps::at(
                *old(self),
                *old(turn),
            ).asked_to_stop(op@, now),
    {
        match op {
            PeerOp::ManualStop => {
                self.try_process_event(&FsmEvent::ManualStop, now, turn);
            },
            _ => {},
        }
    }

    fn ask_waiting(&mut self, op: PeerOp, now: u64, turn: &mut Turn)
        ensures
            steps::at(*final(self), *final(turn)) == steps::at(
                *old(self),
                *old(turn),
            ).asked_waiting(op@, now),
    {
        match op {
            PeerOp::ManualStop => {
                self.try_process_event(&FsmEvent::ManualStop, now, turn);
            },
            PeerOp::TcpConnectionAccepted => {
                self.accept_connection(now, turn);
            },
            _ => {},
        }
    }
}

// ---------------------------------------------------------------------------
// Connect and Active
// ---------------------------------------------------------------------------

/// What is to be waited for in Connect.
#[derive(Debug, Clone, Copy, PartialEq, Eq, Structural)]
pub enum ConnectStep {
    /// The OPEN message is delayed.
    AwaitDelay,
    /// There is a connection on which the OPEN message was neither sent nor
    /// delayed.
    Proceed,
    /// A connection is to be made.
    Dial,
}

/// What happens in Connect or Active.
#[derive(Debug)]
pub enum ConnectInput {
    /// What comes over a connection on which the OPEN message is delayed.
    Read(Reading),
    /// The timers are looked at.
    Tick,
    /// There is a connection already.
    Proceed,
    /// A request that was there before a connection was to be made.
    Queued(PeerOp),
    Op(PeerOp),
    /// A connection was made.
    Connected,
    /// No connection was made.
    Failed,
    /// No connection was made in time.
    RetryElapsed,
}

pub enum ConnectView {
    Read(ReadingView),
    Tick,
    Proceed,
    Queued(OpView),
    Op(OpView),
    Connected,
    Failed,
    RetryElapsed,
}

impl View for ConnectInput {
    type V = ConnectView;

    open spec fn view(&self) -> ConnectView {
        match self {
            ConnectInput::Read(x) => ConnectView::Read(x@),
            ConnectInput::Tick => ConnectView::Tick,
            ConnectInput::Proceed => ConnectView::Proceed,
            ConnectInput::Queued(op) => ConnectView::Queued(op@),
            ConnectInput::Op(op) => ConnectView::Op(op@),
            ConnectInput::Connected => ConnectView::Connected,
            ConnectInput::Failed => ConnectView::Failed,
            ConnectInput::RetryElapsed => ConnectView::RetryElapsed,
        }
    }
}

impl PeerView {
    /// The OPEN message is delayed.
    pub open spec fn delayed(self) -> bool {
        self.fsm.timers.delay_open_timer_started is Some
    }

    /// What is to be waited for in Connect.
    pub open spec fn connect_step(self) -> ConnectStep {
        if self.delayed() {
            ConnectStep::AwaitDelay
        } else if self.connected {
            ConnectStep::Proceed
        } else {
            ConnectStep::Dial
        }
    }
}

impl Stage {
    /// A reaction in Connect. While a connection is being made, others are not
    /// taken; one that was there before is.
    pub open spec fn reacted_connect(self, x: ConnectView, now: u64) -> Stage {
        match (self.peer.connect_step(), x) {
            (ConnectStep::AwaitDelay, ConnectView::Read(r)) => self.read_delayed(r, now),
            (ConnectStep::AwaitDelay, ConnectView::Tick) => self.ticked_delayed(now),
            (ConnectStep::Proceed, ConnectView::Proceed) => self.started(now),
            (ConnectStep::Dial, ConnectView::Queued(op)) => self.asked_waiting(op, now),
            (ConnectStep::Dial, ConnectView::Connected) => self.accepted(now),
            (ConnectStep::Dial, ConnectView::Failed) => self.tried(
                EventView::TcpConnectionFails,
                now,
            ),
            (ConnectStep::Dial, ConnectView::RetryElapsed) => self.tried(
                EventView::ConnectRetryTimerExpires,
                now,
            ),
            (ConnectStep::AwaitDelay, ConnectView::Op(op)) => self.asked_to_stop(op, now),
            (ConnectStep::Dial, ConnectView::Op(op)) => self.asked_to_stop(op, now),
            _ => self,
        }
    }

    /// A reaction in Active: connections are taken while none is there.
    pub open spec fn reacted_active(self, x: ConnectView, now: u64) -> Stage {
        if self.peer.delayed() {
            match x {
                ConnectView::Read(r) => self.read_delayed(r, now),
                ConnectView::Tick => self.ticked_delayed(now),
                ConnectView::Op(op) => self.asked_to_stop(op, now),
                _ => self,
            }
        } else {
            match x {
                ConnectView::RetryElapsed => self.tried(EventView::ConnectRetryTimerExpires, now),
                ConnectView::Op(op) => self.asked_waiting(op, now),
                _ => self,
            }
        }
    }
}

impl Peer {
    /// What is to be waited for in Connect.
    pub fn connect_step(&self) -> (r: ConnectStep)
        ensures
            r == self@.connect_step(),
    {
        if self.fsm.timers.delay_open_timer_running() {
            ConnectStep::AwaitDelay
        } else if self.connected {
            ConnectStep::Proceed
        } else {
            ConnectStep::Dial
        }
    }

    /// Reacts to what happens in Connect.
    pub fn handle_connect_state(&mut self, input: ConnectInput, now: u64, turn: &mut Turn)
        ensures
            steps::at(*final(self), *final(turn)) == steps::at(
                *old(self),
                *old(turn),
            ).reacted_connect(input@, now),
    {
        match self.connect_step() {
            ConnectStep::AwaitDelay => match input {
                ConnectInput::Read(x) => {
                    self.handle_delay_open_message(x, now, turn);
                },
                ConnectInput::Tick => {
                    self.tick_delayed(now, turn);
                },
                ConnectInput::Op(op) => {
                    self.ask_to_stop(op, now, turn);
                },
                _ => {},
            },
            ConnectStep::Proceed => match input {
                ConnectInput::Proceed => {
                    self.start_open(now, turn);
                },
                _ => {},
            },
            ConnectStep::Dial => match input {
                ConnectInput::Queued(op) => {
                    self.ask_waiting(op, now, turn);
                },
                ConnectInput::Connected => {
                    self.accept_connection(now, turn);
                },
                ConnectInput::Failed => {
                    self.try_process_event(&FsmEvent::TcpConnectionFails, now, turn);
                },
                ConnectInput::RetryElapsed => {
                    self.try_process_event(&FsmEvent::ConnectRetryTimerExpires, now, turn);
                },
                ConnectInput::Op(op) => {
                    self.ask_to_stop(op, now, turn);
                },
                _ => {},
            },
        }
    }

    /// Reacts to what happens in Active.
    pub fn handle_active_state(&mut self, input: ConnectInput, now: u64, turn: &mut Turn)
        ensures
            steps::at(*final(self), *final(turn)) == steps::at(
                *old(self),
                *old(turn),
            ).reacted_active(input@, now),
    {
        if self.fsm.timers.delay_open_timer_running() {
            match input {
                ConnectInput::Read(x) => {
                    self.handle_delay_open_message(x, now, turn);
                },
                ConnectInput::Tick => {
                    self.tick_delayed(now, turn);
                },
                ConnectInput::Op(op) => {
                    self.ask_to_stop(op, now, turn);
                },
                _ => {},
            }
        } else {
            match input {
                ConnectInput::RetryElapsed => {
                    self.try_process_event(&FsmEvent::ConnectRetryTimerExpires, now, turn);
                },
                ConnectInput::Op(op) => {
                    self.ask_waiting(op, now, turn);
                },
                _ => {},
            }
        }
    }
}

} // verus!
