//! How a session reacts, state by state, to messages, timers and requests.

use crate::bgp::msg_notification;
use crate::bgp::msg_notification::{BgpError, CeaseSubcode, NotificationMessage, NotificationView};
use crate::bgp::multiprotocol::AfiSafi;
use crate::peer::capabilities;
use crate::peer::capabilities::PeerCapabilities;
use crate::peer::fsm;
use crate::peer::fsm::{elapsed_seconds, BgpState, EventView, Fsm, FsmEvent, FsmTimers};
use crate::peer::messages;
use crate::peer::messages::{BgpMessage, MessageView};
use crate::peer::session::{
    DownView, Effect, EffectView, IoError, OutMessage, OutView, Peer, PeerDownReason,
    PeerStatistics, PeerView, RestartView, RouteRefreshSubtype, Turn,
};
use crate::peer::steps;
use crate::peer::steps::Stage;
use crate::seqs;
use vstd::prelude::*;

verus! {

// ---------------------------------------------------------------------------
// What reaches a session
// ---------------------------------------------------------------------------

/// What is asked of a session.
#[derive(Debug)]
pub enum PeerOp {
    /// An encoded UPDATE message is to be sent.
    SendUpdate(Vec<u8>),
    SendRouteRefresh { afi_safi: AfiSafi, subtype: RouteRefreshSubtype },
    GetStatistics,
    GetNegotiatedCapabilities,
    /// The session ends for good.
    Shutdown(CeaseSubcode),
    /// The session ends, and is started again.
    HardReset,
    ManualStart,
    ManualStop,
    AutomaticStart,
    ManualStartPassive,
    AutomaticStartPassive,
    /// The peer opened a connection.
    TcpConnectionAccepted,
    /// All routes of a family were sent.
    LocalRibSent { afi_safi: AfiSafi },
    /// Another connection with the peer stays.
    CollisionLost,
}

pub enum OpView {
    SendUpdate(Seq<u8>),
    SendRouteRefresh { afi_safi: AfiSafi, subtype: RouteRefreshSubtype },
    GetStatistics,
    GetNegotiatedCapabilities,
    Shutdown(CeaseSubcode),
    HardReset,
    ManualStart,
    ManualStop,
    AutomaticStart,
    ManualStartPassive,
    AutomaticStartPassive,
    TcpConnectionAccepted,
    LocalRibSent { afi_safi: AfiSafi },
    CollisionLost,
}

impl View for PeerOp {
    type V = OpView;

    open spec fn view(&self) -> OpView {
        match self {
            PeerOp::SendUpdate(b) => OpView::SendUpdate(b@),
            PeerOp::SendRouteRefresh { afi_safi, subtype } => OpView::SendRouteRefresh {
                afi_safi: *afi_safi,
                subtype: *subtype,
            },
            PeerOp::GetStatistics => OpView::GetStatistics,
            PeerOp::GetNegotiatedCapabilities => OpView::GetNegotiatedCapabilities,
            PeerOp::Shutdown(c) => OpView::Shutdown(*c),
            PeerOp::HardReset => OpView::HardReset,
            PeerOp::ManualStart => OpView::ManualStart,
            PeerOp::ManualStop => OpView::ManualStop,
            PeerOp::AutomaticStart => OpView::AutomaticStart,
            PeerOp::ManualStartPassive => OpView::ManualStartPassive,
            PeerOp::AutomaticStartPassive => OpView::AutomaticStartPassive,
            PeerOp::TcpConnectionAccepted => OpView::TcpConnectionAccepted,
            PeerOp::LocalRibSent { afi_safi } => OpView::LocalRibSent { afi_safi: *afi_safi },
            PeerOp::CollisionLost => OpView::CollisionLost,
        }
    }
}

/// What comes over the connection: a message, one that cannot be read with the
/// notification for it, if there is one, or its end.
#[derive(Debug)]
pub enum Reading {
    Message(BgpMessage),
    Unreadable(Option<NotificationMessage>),
    Closed,
}

pub enum ReadingView {
    Message(MessageView),
    Unreadable(Option<NotificationView>),
    Closed,
}

impl View for Reading {
    type V = ReadingView;

    open spec fn view(&self) -> ReadingView {
        match self {
            Reading::Message(m) => ReadingView::Message(m@),
            Reading::Unreadable(n) => ReadingView::Unreadable(crate::conf::opt_view(*n)),
            Reading::Closed => ReadingView::Closed,
        }
    }
}

/// What follows a reaction.
#[derive(Debug, Clone, Copy, PartialEq, Eq, Structural)]
pub enum Next {
    /// The session goes on in the state.
    Stay,
    /// The session goes on in the state that it is in now.
    Leave,
    /// The session is over.
    Shutdown,
}

/// How many route changes wait before they are handed on at once.
pub const ROUTE_FLUSH_WATERMARK: usize = 1000;

/// A notification that the session ends without an error.
pub open spec fn cease(c: CeaseSubcode) -> NotificationView {
    msg_notification::bare_notification(BgpError::Cease(c))
}

// ---------------------------------------------------------------------------
// Steps
// ---------------------------------------------------------------------------

impl Stage {
    /// An event is processed; if that fails, the connection ends because of it.
    pub open spec fn pushed(self, e: EventView, now: u64) -> (Stage, bool) {
        let (s, r) = self.processed(e, now);
        match r {
            Ok(_) => (s, true),
            Err(_) => (s.dropped(true, DownView::LocalNoNotification(e)), false),
        }
    }

    /// What comes over a connection that is not opened yet or established: an
    /// error ends it.
    pub open spec fn read(self, x: ReadingView, now: u64) -> (Stage, bool) {
        match x {
            ReadingView::Message(m) => {
                let (s, r) = self.received(m, now);
                match r {
                    Ok(_) => (s, true),
                    Err(_) => (s.dropped(true, DownView::RemoteNoNotification), false),
                }
            },
            ReadingView::Unreadable(Some(n)) => (
                self.notified(n).dropped(true, DownView::LocalNotification(n)),
                false,
            ),
            ReadingView::Unreadable(None) => (
                self.dropped(true, DownView::RemoteNoNotification),
                false,
            ),
            ReadingView::Closed => (self.dropped(true, DownView::RemoteNoNotification), false),
        }
    }

    /// The timers of an open connection are looked at: the hold timer first.
    pub open spec fn ticked(self, now: u64) -> (Stage, bool) {
        let t = self.peer.fsm.timers;
        if t.hold_over(now) {
            (self.tried(EventView::HoldTimerExpires, now), false)
        } else if fsm::run_out(t.keepalive_timer_started, t.keepalive_time, now) {
            self.pushed(EventView::KeepaliveTimerExpires, now)
        } else {
            (self, true)
        }
    }

    /// A notification is sent without further conditions, if the connection
    /// takes it.
    pub open spec fn notified_anyway(self, n: NotificationView) -> Stage {
        if self.can_write() {
            self.notice_sent(n)
        } else {
            self
        }
    }

    /// The session is reset.
    pub open spec fn reset(self, now: u64) -> Stage {
        let n = cease(CeaseSubcode::AdministrativeReset);
        self.notified_anyway(n).tried(EventView::NotifMsgVerErr(n), now)
    }

    /// An UPDATE message is sent; the next keepalive is due later.
    pub open spec fn updated(self, bytes: Seq<u8>, now: u64) -> Stage {
        if self.can_write() {
            let t = self.peer.fsm.timers;
            Stage {
                peer: PeerView {
                    statistics: PeerStatistics {
                        update_sent: self.peer.statistics.update_sent.wrapping_add(1),
                        ..self.peer.statistics
                    },
                    fsm: Fsm {
                        timers: if t.hold_time > 0 {
                            FsmTimers { keepalive_timer_started: Some(now), ..t }
                        } else {
                            t
                        },
                        ..self.peer.fsm
                    },
                    ..self.peer
                },
                effects: self.effects.push(EffectView::Send(OutView::Update(bytes))),
                writes: self.writes - 1,
            }
        } else {
            self
        }
    }

    /// UPDATE messages are sent one after the other; one that cannot be ends the
    /// connection.
    pub open spec fn all_updated(self, updates: Seq<Seq<u8>>, now: u64) -> (Stage, bool)
        decreases updates.len(),
    {
        if updates.len() == 0 {
            (self, true)
        } else {
            let (s, ok) = self.all_updated(updates.drop_last(), now);
            if !ok {
                (s, false)
            } else if s.can_write() {
                (s.updated(updates.last(), now), true)
            } else {
                (
                    s.dropped(true, DownView::LocalNoNotification(EventView::BgpUpdateReceived)),
                    false,
                )
            }
        }
    }

    /// The messages that wait for their time are sent.
    pub open spec fn due(self, now: u64) -> (Stage, bool) {
        let taken = Stage {
            peer: PeerView { pending_updates: Seq::empty(), ..self.peer },
            ..self
        };
        let (s, ok) = taken.all_updated(self.peer.pending_updates, now);
        if ok {
            (Stage { peer: PeerView { last_update_sent: Some(now), ..s.peer }, ..s }, true)
        } else {
            (s, false)
        }
    }

    /// An UPDATE message is sent if its time has come; else it waits.
    pub open spec fn offered(self, bytes: Seq<u8>, now: u64) -> (Stage, bool) {
        let p = self.peer;
        let free = p.mrai_interval == 0 || (match p.last_update_sent {
            Some(t) => fsm::seconds_between(t, now) >= p.mrai_interval,
            None => true,
        });
        if !free {
            (
                Stage {
                    peer: PeerView { pending_updates: p.pending_updates.push(bytes), ..p },
                    ..self
                },
                true,
            )
        } else if self.can_write() {
            let s = self.updated(bytes, now);
            (Stage { peer: PeerView { last_update_sent: Some(now), ..s.peer }, ..s }, true)
        } else {
            (
                self.dropped(true, DownView::LocalNoNotification(EventView::BgpUpdateReceived)),
                false,
            )
        }
    }

    /// A route refresh is sent, if that was agreed on for the family; marks only
    /// after the peer was told that it has all routes.
    pub open spec fn asked(self, f: AfiSafi, subtype: RouteRefreshSubtype) -> Stage {
        let c = self.peer.capabilities;
        let marked = subtype is BoRR || subtype is EoRR;
        let complete = match self.peer.gr_state {
            Some(g) => g.eor_sent.contains(f),
            None => true,
        };
        if c.route_refresh && c.multiprotocol.contains(f) && (!marked || complete)
            && self.can_write() {
            Stage {
                peer: PeerView {
                    statistics: PeerStatistics {
                        route_refresh_sent: self.peer.statistics.route_refresh_sent.wrapping_add(1),
                        ..self.peer.statistics
                    },
                    ..self.peer
                },
                effects: self.effects.push(
                    EffectView::Send(OutView::RouteRefresh { afi_safi: f, subtype }),
                ),
                writes: self.writes - 1,
            }
        } else {
            self
        }
    }

    /// The peer is told of families that it has all routes: once for each that it
    /// named. Sending stops when the connection takes no more.
    pub open spec fn marked(self, families: Seq<AfiSafi>) -> (Stage, Result<(), IoError>)
        decreases families.len(),
    {
        if families.len() == 0 {
            (self, Ok(()))
        } else {
            let (s, r) = self.marked(families.drop_last());
            let f = families.last();
            match (r, s.peer.gr_state) {
                (Ok(_), Some(g)) => if g.eor_sent.contains(f) || !g.afi_safis.contains(f) {
                    (s, Ok(()))
                } else if s.writes == 0 {
                    (s, Err(IoError::WriteFailed))
                } else {
                    (
                        Stage {
                            peer: PeerView {
                                gr_state: Some(
                                    RestartView { eor_sent: g.eor_sent.insert(f), ..g },
                                ),
                                ..s.peer
                            },
                            effects: s.effects.push(EffectView::Send(OutView::EndOfRib(f))),
                            writes: s.writes - 1,
                        },
                        Ok(()),
                    )
                },
                _ => (s, r),
            }
        }
    }

    /// As before, if there is a connection and the peer restarts.
    pub open spec fn eor_sent(self, families: Seq<AfiSafi>) -> (Stage, Result<(), IoError>) {
        if !self.peer.connected {
            (self, Err(IoError::NotConnected))
        } else if self.peer.gr_state is None {
            (self, Err(IoError::NoRestartState))
        } else {
            self.marked(families)
        }
    }

    /// All routes of a family were sent. When that is so for all families that
    /// the peer named, it is told.
    pub open spec fn rib_sent(self, f: AfiSafi) -> Stage {
        match self.peer.gr_state {
            None => self,
            Some(g) => {
                let done = g.loc_rib_received.insert(f);
                let noted = Stage {
                    peer: PeerView {
                        gr_state: Some(RestartView { loc_rib_received: done, ..g }),
                        ..self.peer
                    },
                    ..self
                };
                if forall|x: AfiSafi| g.afi_safis.contains(x) ==> done.contains(x) {
                    noted.eor_sent(g.afi_safis).0
                } else {
                    noted
                }
            },
        }
    }
}

/// What follows a step in a state: the session stays if the step says so and the
/// state is still one of those.
pub open spec fn follow(s: Stage, goes_on: bool, still: bool) -> (Stage, Next) {
    (
        s,
        if goes_on && still {
            Next::Stay
        } else {
            Next::Leave
        },
    )
}

/// The OPEN messages are being exchanged.
pub open spec fn opening(s: BgpState) -> bool {
    s is OpenSent || s is OpenConfirm
}

// ---------------------------------------------------------------------------
// While OPEN messages are exchanged
// ---------------------------------------------------------------------------

impl Stage {
    /// A request while OPEN messages are exchanged: routes are neither sent nor
    /// asked for, and nothing was agreed on yet.
    pub open spec fn asked_while_opening(self, op: OpView, now: u64) -> (Stage, Next) {
        match op {
            OpView::GetNegotiatedCapabilities => follow(
                self.said(EffectView::ReplyCapabilities(capabilities::no_capabilities())),
                true,
                opening(self.peer.fsm.current),
            ),
            OpView::GetStatistics => follow(
                self.said(EffectView::ReplyStatistics(self.peer.statistics)),
                true,
                opening(self.peer.fsm.current),
            ),
            OpView::HardReset => (self.reset(now), Next::Leave),
            OpView::Shutdown(c) => (self.notified(cease(c)), Next::Shutdown),
            OpView::ManualStop => (self.tried(EventView::ManualStop, now), Next::Leave),
            OpView::CollisionLost => {
                let n = cease(CeaseSubcode::ConnectionCollisionResolution);
                (
                    self.notified(n).dropped(true, DownView::LocalNotification(n)),
                    Next::Shutdown,
                )
            },
            _ => follow(self, true, opening(self.peer.fsm.current)),
        }
    }
}

// ---------------------------------------------------------------------------
// While the session is established
// ---------------------------------------------------------------------------

impl Stage {
    /// What comes over the connection of an established session: route changes
    /// are handed on at once when there are many.
    pub open spec fn read_established(self, x: ReadingView, now: u64) -> (Stage, Next) {
        let (s, ok) = self.read(x, now);
        let t = if ok && s.peer.pending_routes.len() >= ROUTE_FLUSH_WATERMARK {
            s.flushed()
        } else {
            s
        };
        follow(t, ok, t.peer.fsm.current is Established)
    }

    /// A request while the session is established.
    pub open spec fn asked_established(self, op: OpView, now: u64) -> (Stage, Next) {
        let still = self.peer.fsm.current is Established;
        match op {
            OpView::SendUpdate(bytes) => {
                let (s, ok) = self.offered(bytes, now);
                follow(s, ok, still)
            },
            OpView::GetStatistics => follow(
                self.said(EffectView::ReplyStatistics(self.peer.statistics)),
                true,
                still,
            ),
            OpView::SendRouteRefresh { afi_safi, subtype } => follow(
                self.asked(afi_safi, subtype),
                true,
                still,
            ),
            OpView::GetNegotiatedCapabilities => follow(
                self.said(EffectView::ReplyCapabilities(self.peer.capabilities)),
                true,
                still,
            ),
            OpView::HardReset => (self.reset(now), Next::Leave),
            OpView::Shutdown(c) => (self.notified(cease(c)), Next::Shutdown),
            OpView::ManualStop => (self.tried(EventView::ManualStop, now), Next::Leave),
            OpView::LocalRibSent { afi_safi } => follow(self.rib_sent(afi_safi), true, still),
            _ => follow(self, true, still),
        }
    }
}

impl Peer {
    /// Processes an event; if that fails, the connection ends because of it.
    pub fn push_event(&mut self, event: FsmEvent, now: u64, turn: &mut Turn) -> (r: bool)
        ensures
            (steps::at(*final(self), *final(turn)), r) == steps::at(
                *old(self),
                *old(turn),
            ).pushed(event@, now),
    {
        match self.process_event(&event, now, turn) {
            Ok(_) => true,
            Err(_) => {
                self.disconnect(true, PeerDownReason::LocalNoNotification(event), turn);
                false
            },
        }
    }

    fn read(&mut self, x: Reading, now: u64, turn: &mut Turn) -> (r: bool)
        ensures
            (steps::at(*final(self), *final(turn)), r) == steps::at(
                *old(self),
                *old(turn),
            ).read(x@, now),
    {
        match x {
            Reading::Message(m) => match self.handle_received_message(&m, now, turn) {
                Ok(_) => true,
                Err(_) => {
                    self.disconnect(true, PeerDownReason::RemoteNoNotification, turn);
                    false
                },
            },
            Reading::Unreadable(Some(n)) => {
                let _ = self.send_notification(n.clone(), turn);
                self.disconnect(true, PeerDownReason::LocalNotification(n), turn);
                false
            },
            Reading::Unreadable(None) => {
                self.disconnect(true, PeerDownReason::RemoteNoNotification, turn);
                false
            },
            Reading::Closed => {
                self.disconnect(true, PeerDownReason::RemoteNoNotification, turn);
                false
            },
        }
    }

    fn tick(&mut self, now: u64, turn: &mut Turn) -> (r: bool)
        ensures
            (steps::at(*final(self), *final(turn)), r) == steps::at(
                *old(self),
                *old(turn),
            ).ticked(now),
    {
        if self.fsm.timers.hold_timer_expired(now) {
            self.try_process_event(&FsmEvent::HoldTimerExpires, now, turn);
            return false;
        }
        if self.fsm.timers.keepalive_timer_expired(now) {
            return self.push_event(FsmEvent::KeepaliveTimerExpires, now, turn);
        }
        true
    }

    fn hard_reset(&mut self, now: u64, turn: &mut Turn)
        ensures
            steps::at(*final(self), *final(turn)) == steps::at(*old(self), *old(turn)).reset(now),
    {
        let notif = NotificationMessage::new(
            BgpError::Cease(CeaseSubcode::AdministrativeReset),
            Vec::new(),
        );
        if self.connected && turn.writes > 0 {
            self.write_notification(notif.clone(), turn);
        }
        self.try_process_event(&FsmEvent::NotifMsgVerErr(notif), now, turn);
    }

    /// Sends an encoded UPDATE message.
    pub fn send_update(&mut self, bytes: Vec<u8>, now: u64, turn: &mut Turn) -> (r: Result<
        (),
        IoError,
    >)
        ensures
            steps::at(*final(self), *final(turn)) == steps::at(*old(self), *old(turn)).updated(
                bytes@,
                now,
            ),
            r == steps::at(*old(self), *old(turn)).write_result(),
    {
        if !self.connected {
            return Err(IoError::NotConnected);
        }
        if turn.writes == 0 {
            return Err(IoError::WriteFailed);
        }
        turn.writes = turn.writes - 1;
        turn.push(Effect::Send(OutMessage::Update(bytes)));
        self.statistics.update_sent = self.statistics.update_sent.wrapping_add(1);
        if self.fsm.timers.hold_time > 0 {
            self.fsm.timers.start_keepalive_timer(now);
        }
        Ok(())
    }

    fn offer_update(&mut self, bytes: Vec<u8>, now: u64, turn: &mut Turn) -> (r: bool)
        ensures
            (steps::at(*final(self), *final(turn)), r) == steps::at(
                *old(self),
                *old(turn),
            ).offered(bytes@, now),
    {
        let free = self.mrai_interval == 0 || match self.last_update_sent {
            Some(t) => elapsed_seconds(t, now) >= self.mrai_interval,
            None => true,
        };
        if !free {
            proof {
                seqs::lemma_views_push(self.pending_updates@, bytes);
            }
            self.pending_updates.push(bytes);
            return true;
        }
        match self.send_update(bytes, now, turn) {
            Ok(_) => {
                self.last_update_sent = Some(now);
                true
            },
            Err(_) => {
                self.disconnect(
                    true,
                    PeerDownReason::LocalNoNotification(FsmEvent::BgpUpdateReceived),
                    turn,
                );
                false
            },
        }
    }

    fn send_all(&mut self, updates: Vec<Vec<u8>>, now: u64, turn: &mut Turn) -> (r: bool)
        ensures
            (steps::at(*final(self), *final(turn)), r) == steps::at(
                *old(self),
                *old(turn),
            ).all_updated(seqs::views(updates@), now),
    {
        let ghost all = seqs::views(updates@);
        let ghost start = steps::at(*self, *turn);
        let mut i: usize = 0;
        while i < updates.len()
            invariant
                i <= updates@.len(),
                all == seqs::views(updates@),
                start == steps::at(*old(self), *old(turn)),
                (steps::at(*self, *turn), true) == start.all_updated(all.take(i as int), now),
            decreases updates.len() - i,
        {
            proof {
                assert(all.take(i + 1).drop_last() =~= all.take(i as int));
                assert(all.take(i + 1).last() == updates@[i as int]@);
            }
            let bytes = seqs::copy_items(&updates[i]);
            match self.send_update(bytes, now, turn) {
                Ok(_) => {},
                Err(_) => {
                    self.disconnect(
                        true,
                        PeerDownReason::LocalNoNotification(FsmEvent::BgpUpdateReceived),
                        turn,
                    );
                    proof {
                        lemma_stopped_stays(start, all, i + 1, now);
                    }
                    return false;
                },
            }
            i = i + 1;
        }
        proof {
            seqs::lemma_take_all(all);
        }
        true
    }

    /// Sends the UPDATE messages that wait for their time.
    fn send_due(&mut self, now: u64, turn: &mut Turn) -> (r: bool)
        ensures
            (steps::at(*final(self), *final(turn)), r) == steps::at(*old(self), *old(turn)).due(
                now,
            ),
    {
        let mut updates: Vec<Vec<u8>> = Vec::new();
        updates.append(&mut self.pending_updates);
        proof {
            assert(updates@ =~= old(self).pending_updates@);
            assert(seqs::views(self.pending_updates@) =~= Seq::<Seq<u8>>::empty());
        }
        if self.send_all(updates, now, turn) {
            self.last_update_sent = Some(now);
            true
        } else {
            false
        }
    }

    fn request_refresh(&mut self, f: AfiSafi, subtype: RouteRefreshSubtype, turn: &mut Turn)
        ensures
            steps::at(*final(self), *final(turn)) == steps::at(*old(self), *old(turn)).asked(
                f,
                subtype,
            ),
    {
        if !self.capabilities.route_refresh {
            return ;
        }
        if !self.capabilities.supports_afi_safi(&f) {
            return ;
        }
        let marked = match subtype {
            RouteRefreshSubtype::BoRR | RouteRefreshSubtype::EoRR => true,
            _ => false,
        };
        if marked {
            let complete = match &self.gr_state {
                Some(g) => g.eor_sent.contains(&f),
                None => true,
            };
            if !complete {
                return ;
            }
        }
        if self.connected && turn.writes > 0 {
            turn.writes = turn.writes - 1;
            turn.push(Effect::Send(OutMessage::RouteRefresh { afi_safi: f, subtype }));
            self.statistics.route_refresh_sent = self.statistics.route_refresh_sent.wrapping_add(1);
        }
    }
}

/// Once sending stopped, nothing more is sent.
proof fn lemma_stopped_stays(s: Stage, updates: Seq<Seq<u8>>, n: int, now: u64)
    requires
        0 <= n <= updates.len(),
        !s.all_updated(updates.take(n), now).1,
    ensures
        s.all_updated(updates, now) == s.all_updated(updates.take(n), now),
    decreases updates.len() - n,
{
    if n == updates.len() {
        seqs::lemma_take_all(updates);
    } else {
        let next = updates.take(n + 1);
        assert(next.drop_last() =~= updates.take(n));
        lemma_stopped_stays(s, updates, n + 1, now);
    }
}

/// Once telling stopped, nothing more is told.
proof fn lemma_stopped_marking(s: Stage, families: Seq<AfiSafi>, n: int)
    requires
        0 <= n <= families.len(),
        s.marked(families.take(n)).1 is Err,
    ensures
        s.marked(families) == s.marked(families.take(n)),
    decreases families.len() - n,
{
    if n == families.len() {
        seqs::lemma_take_all(families);
    } else {
        let next = families.take(n + 1);
        assert(next.drop_last() =~= families.take(n));
        lemma_stopped_marking(s, families, n + 1);
    }
}

/// Telling a peer that it has all routes leaves what it named as it is.
proof fn lemma_marking_keeps(s: Stage, families: Seq<AfiSafi>)
    ensures
        s.marked(families).0.peer.connected == s.peer.connected,
        s.peer.gr_state is Some ==> s.marked(families).0.peer.gr_state is Some,
    decreases families.len(),
{
    if families.len() > 0 {
        lemma_marking_keeps(s, families.drop_last());
    }
}

impl Peer {
    /// Tells the peer of families that it has all routes.
    pub fn send_eor_markers(&mut self, afi_safis: &Vec<AfiSafi>, turn: &mut Turn) -> (r: Result<
        (),
        IoError,
    >)
        ensures
            (steps::at(*final(self), *final(turn)), r) == steps::at(
                *old(self),
                *old(turn),
            ).eor_sent(afi_safis@),
    {
        if !self.connected {
            return Err(IoError::NotConnected);
        }
        if self.gr_state.is_none() {
            return Err(IoError::NoRestartState);
        }
        let ghost all = afi_safis@;
        let ghost start = steps::at(*self, *turn);
        let mut i: usize = 0;
        while i < afi_safis.len()
            invariant
                i <= afi_safis@.len(),
                all == afi_safis@,
                start == steps::at(*old(self), *old(turn)),
                start.peer.connected,
                start.peer.gr_state is Some,
                (steps::at(*self, *turn), Ok::<(), IoError>(())) == start.marked(
                    all.take(i as int),
                ),
            decreases afi_safis.len() - i,
        {
            let f = afi_safis[i];
            proof {
                assert(all.take(i + 1).drop_last() =~= all.take(i as int));
                lemma_marking_keeps(start, all.take(i as int));
            }
            let mut state = match self.gr_state.take() {
                Some(g) => g,
                None => {
                    return Err(IoError::NoRestartState);
                },
            };
            proof {
                state.afi_safis.lemma_listed();
                assert(state.afi_safis@.contains(f) == state@.afi_safis.contains(f));
            }
            if state.eor_sent.contains(&f) || !state.afi_safis.contains(&f) {
                self.gr_state = Some(state);
            } else if turn.writes == 0 {
                self.gr_state = Some(state);
                proof {
                    lemma_stopped_marking(start, all, i + 1);
                }
                return Err(IoError::WriteFailed);
            } else {
                turn.writes = turn.writes - 1;
                turn.push(Effect::Send(OutMessage::EndOfRib(f)));
                let _ = state.eor_sent.insert(f);
                self.gr_state = Some(state);
            }
            i = i + 1;
        }
        proof {
            seqs::lemma_take_all(all);
        }
        Ok(())
    }

    /// Notes that all routes of a family were sent.
    fn local_rib_sent(&mut self, afi_safi: AfiSafi, turn: &mut Turn)
        ensures
            steps::at(*final(self), *final(turn)) == steps::at(*old(self), *old(turn)).rib_sent(
                afi_safi,
            ),
    {
        let mut state = match self.gr_state.take() {
            Some(g) => g,
            None => {
                return ;
            },
        };
        let _ = state.loc_rib_received.insert(afi_safi);
        let families = state.afi_safis.to_vec();
        let all = messages::all_listed(&families, &state.loc_rib_received);
        self.gr_state = Some(state);
        if all {
            let _ = self.send_eor_markers(&families, turn);
        }
    }

    fn after(&self, goes_on: bool, still: bool) -> (r: Next)
        ensures
            r == (if goes_on && still {
                Next::Stay
            } else {
                Next::Leave
            }),
    {
        if goes_on && still {
            Next::Stay
        } else {
            Next::Leave
        }
    }

    fn is_opening(&self) -> (r: bool)
        ensures
            r == opening(self@.fsm.current),
    {
        match self.fsm.current {
            BgpState::OpenSent | BgpState::OpenConfirm => true,
            _ => false,
        }
    }

    fn is_established(&self) -> (r: bool)
        ensures
            r == (self@.fsm.current is Established),
    {
        match self.fsm.current {
            BgpState::Established => true,
            _ => false,
        }
    }

    /// A request while OPEN messages are exchanged.
    pub fn ask_while_opening(&mut self, op: PeerOp, now: u64, turn: &mut Turn) -> (r: Next)
        ensures
            (steps::at(*final(self), *final(turn)), r) == steps::at(
                *old(self),
                *old(turn),
            ).asked_while_opening(op@, now),
    {
        match op {
            PeerOp::GetNegotiatedCapabilities => {
                turn.push(Effect::ReplyCapabilities(PeerCapabilities::default()));
                self.after(true, self.is_opening())
            },
            PeerOp::GetStatistics => {
                turn.push(Effect::ReplyStatistics(self.statistics));
                self.after(true, self.is_opening())
            },
            PeerOp::HardReset => {
                self.hard_reset(now, turn);
                Next::Leave
            },
            PeerOp::Shutdown(c) => {
                let _ = self.send_notification(
                    NotificationMessage::new(BgpError::Cease(c), Vec::new()),
                    turn,
                );
                Next::Shutdown
            },
            PeerOp::ManualStop => {
                self.try_process_event(&FsmEvent::ManualStop, now, turn);
                Next::Leave
            },
            PeerOp::CollisionLost => {
                let notif = NotificationMessage::new(
                    BgpError::Cease(CeaseSubcode::ConnectionCollisionResolution),
                    Vec::new(),
                );
                let _ = self.send_notification(notif.clone(), turn);
                self.disconnect(true, PeerDownReason::LocalNotification(notif), turn);
                Next::Shutdown
            },
            _ => self.after(true, self.is_opening()),
        }
    }

    /// A request while the session is established.
    pub fn ask_established(&mut self, op: PeerOp, now: u64, turn: &mut Turn) -> (r: Next)
        ensures
            (steps::at(*final(self), *final(turn)), r) == steps::at(
                *old(self),
                *old(turn),
            ).asked_established(op@, now),
    {
        let still = self.is_established();
        match op {
            PeerOp::SendUpdate(bytes) => {
                let ok = self.offer_update(bytes, now, turn);
                self.after(ok, still)
            },
            PeerOp::GetStatistics => {
                turn.push(Effect::ReplyStatistics(self.statistics));
                self.after(true, still)
            },
            PeerOp::SendRouteRefresh { afi_safi, subtype } => {
                self.request_refresh(afi_safi, subtype, turn);
                self.after(true, still)
            },
            PeerOp::GetNegotiatedCapabilities => {
                turn.push(Effect::ReplyCapabilities(self.capabilities.clone()));
                self.after(true, still)
            },
            PeerOp::HardReset => {
                self.hard_reset(now, turn);
                Next::Leave
            },
            PeerOp::Shutdown(c) => {
                let _ = self.send_notification(
                    NotificationMessage::new(BgpError::Cease(c), Vec::new()),
                    turn,
                );
                Next::Shutdown
            },
            PeerOp::ManualStop => {
                self.try_process_event(&FsmEvent::ManualStop, now, turn);
                Next::Leave
            },
            PeerOp::LocalRibSent { afi_safi } => {
                self.local_rib_sent(afi_safi, turn);
                self.after(true, still)
            },
            _ => self.after(true, still),
        }
    }

    /// What comes over the connection of an established session.
    pub fn read_established(&mut self, x: Reading, now: u64, turn: &mut Turn) -> (r: Next)
        ensures
            (steps::at(*final(self), *final(turn)), r) == steps::at(
                *old(self),
                *old(turn),
            ).read_established(x@, now),
    {
        let ok = self.read(x, now, turn);
        if ok && self.pending_routes.len() >= ROUTE_FLUSH_WATERMARK {
            self.flush_pending_routes(turn);
        }
        self.after(ok, self.is_established())
    }
}

// ---------------------------------------------------------------------------
// One reaction
// ---------------------------------------------------------------------------

/// What happens to an open connection.
#[derive(Debug)]
pub enum PeerInput {
    Read(Reading),
    Op(PeerOp),
    /// The timers are looked at.
    Tick,
    /// Route changes are handed on.
    Flush,
    /// The time between UPDATE messages is over.
    Due,
}

pub enum InputView {
    Read(ReadingView),
    Op(OpView),
    Tick,
    Flush,
    Due,
}

impl View for PeerInput {
    type V = InputView;

    open spec fn view(&self) -> InputView {
        match self {
            PeerInput::Read(x) => InputView::Read(x@),
            PeerInput::Op(x) => InputView::Op(x@),
            PeerInput::Tick => InputView::Tick,
            PeerInput::Flush => InputView::Flush,
            PeerInput::Due => InputView::Due,
        }
    }
}

impl Stage {
    /// A reaction while OPEN messages are exchanged. Without a connection the
    /// session falls back at once, whatever happens.
    pub open spec fn reacted_opening(self, x: InputView, now: u64) -> (Stage, Next) {
        if !self.peer.connected {
            (self.tried(EventView::TcpConnectionFails, now), Next::Leave)
        } else {
            match x {
                InputView::Read(r) => {
                    let (s, ok) = self.read(r, now);
                    follow(s, ok, opening(s.peer.fsm.current))
                },
                InputView::Op(op) => self.asked_while_opening(op, now),
                InputView::Tick => {
                    let (s, ok) = self.ticked(now);
                    follow(s, ok, opening(s.peer.fsm.current))
                },
                _ => follow(self, true, opening(self.peer.fsm.current)),
            }
        }
    }

    /// A reaction while the session is established. Without a connection the
    /// session falls back at once, whatever happens.
    pub open spec fn reacted_established(self, x: InputView, now: u64) -> (Stage, Next) {
        if !self.peer.connected {
            (self.tried(EventView::TcpConnectionFails, now), Next::Leave)
        } else {
            match x {
                InputView::Read(r) => self.read_established(r, now),
                InputView::Op(op) => self.asked_established(op, now),
                InputView::Tick => {
                    let (s, ok) = self.ticked(now);
                    follow(s, ok, s.peer.fsm.current is Established)
                },
                InputView::Flush => {
                    let s = if self.peer.pending_routes.len() > 0 {
                        self.flushed()
                    } else {
                        self
                    };
                    follow(s, true, s.peer.fsm.current is Established)
                },
                InputView::Due => if self.peer.pending_updates.len() > 0
                    && self.peer.last_update_sent is Some {
                    let (s, ok) = self.due(now);
                    follow(s, ok, s.peer.fsm.current is Established)
                } else {
                    follow(self, true, self.peer.fsm.current is Established)
                },
            }
        }
    }
}

impl PeerView {
    /// Since when and for how many seconds UPDATE messages wait; none where none
    /// waits.
    pub open spec fn next_send(self) -> Option<(u64, u64)> {
        match self.last_update_sent {
            Some(t) => if self.pending_updates.len() > 0 {
                Some((t, self.mrai_interval))
            } else {
                None
            },
            None => None,
        }
    }
}

impl Peer {
    /// Since when and for how many seconds UPDATE messages wait; none where none
    /// waits.
    pub fn next_send_time(&self) -> (r: Option<(u64, u64)>)
        ensures
            r == self@.next_send(),
    {
        if self.pending_updates.len() == 0 {
            return None;
        }
        match self.last_update_sent {
            Some(t) => Some((t, self.mrai_interval)),
            None => None,
        }
    }

    /// Reacts to what happens while OPEN messages are exchanged.
    pub fn handle_open_states(&mut self, input: PeerInput, now: u64, turn: &mut Turn) -> (r: Next)
        ensures
            (steps::at(*final(self), *final(turn)), r) == steps::at(
                *old(self),
                *old(turn),
            ).reacted_opening(input@, now),
    {
        if !self.connected {
            self.try_process_event(&FsmEvent::TcpConnectionFails, now, turn);
            return Next::Leave;
        }
        match input {
            PeerInput::Read(x) => {
                let ok = self.read(x, now, turn);
                self.after(ok, self.is_opening())
            },
            PeerInput::Op(op) => self.ask_while_opening(op, now, turn),
            PeerInput::Tick => {
                let ok = self.tick(now, turn);
                self.after(ok, self.is_opening())
            },
            _ => self.after(true, self.is_opening()),
        }
    }

    /// Reacts to what happens while the session is established.
    pub fn handle_established(&mut self, input: PeerInput, now: u64, turn: &mut Turn) -> (r: Next)
        ensures
            (steps::at(*final(self), *final(turn)), r) == steps::at(
                *old(self),
                *old(turn),
            ).reacted_established(input@, now),
    {
        if !self.connected {
            self.try_process_event(&FsmEvent::TcpConnectionFails, now, turn);
            return Next::Leave;
        }
        match input {
            PeerInput::Read(x) => self.read_established(x, now, turn),
            PeerInput::Op(op) => self.ask_established(op, now, turn),
            PeerInput::Tick => {
                let ok = self.tick(now, turn);
                self.after(ok, self.is_established())
            },
            PeerInput::Flush => {
                if self.pending_routes.len() > 0 {
                    self.flush_pending_routes(turn);
                }
                self.after(true, self.is_established())
            },
            PeerInput::Due => {
                if self.pending_updates.len() > 0 && self.last_update_sent.is_some() {
                    let ok = self.send_due(now, turn);
                    self.after(ok, self.is_established())
                } else {
                    self.after(true, self.is_established())
                }
            },
        }
    }
}

} // verus!
