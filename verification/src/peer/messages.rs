//! Messages of a peer, and what is done about them.

use crate::bgp::msg_notification::{NotificationMessage, NotificationView};
use crate::bgp::multiprotocol;
use crate::bgp::multiprotocol::{Afi, AfiSafi, Safi};
use crate::bgp::open_message;
use crate::bgp::open_message::{OpenMessage, OpenView};
use crate::metrics;
use crate::net::addr;
use crate::net::addr::Ipv4Addr;
use crate::peer::capabilities;
use crate::peer::fsm::{BgpOpenParams, EventView, Fsm, FsmEvent, FsmTimers, OpenParamsView};
use crate::peer::incoming;
use crate::peer::incoming::{ReceivedUpdate, UpdateIn};
use crate::peer::negotiation;
use crate::peer::negotiation::extract_capabilities;
use crate::peer::pending::{PendingRoute, PendingRouteView};
use crate::peer::session::{
    Effect, EffectView, IoError, Peer, PeerError, PeerStatistics, PeerView, RestartView,
    RouteRefreshSubtype, Turn,
};
use crate::peer::steps;
use crate::peer::steps::Stage;
use crate::rib;
use crate::rib::{RouteKeyView, RoutePath, RoutePathView, Withdrawal};
use crate::seqs;
use vstd::prelude::*;

verus! {

/// A message of the peer.
#[derive(Debug)]
pub enum BgpMessage {
    Open(OpenMessage),
    Update(ReceivedUpdate),
    Keepalive,
    Notification(NotificationMessage),
    RouteRefresh { afi: Afi, safi: Safi, subtype: RouteRefreshSubtype },
}

pub enum MessageView {
    Open(OpenView),
    Update(UpdateIn),
    Keepalive,
    Notification(NotificationView),
    RouteRefresh { afi: Afi, safi: Safi, subtype: RouteRefreshSubtype },
}

impl View for BgpMessage {
    type V = MessageView;

    open spec fn view(&self) -> MessageView {
        match self {
            BgpMessage::Open(m) => MessageView::Open(m@),
            BgpMessage::Update(m) => MessageView::Update(m@),
            BgpMessage::Keepalive => MessageView::Keepalive,
            BgpMessage::Notification(m) => MessageView::Notification(m@),
            BgpMessage::RouteRefresh { afi, safi, subtype } => MessageView::RouteRefresh {
                afi: *afi,
                safi: *safi,
                subtype: *subtype,
            },
        }
    }
}

/// Announcements and withdrawals.
pub type RouteChanges = (Vec<RoutePath>, Vec<Withdrawal>);

/// What route changes hold.
pub open spec fn changes_view(c: Option<RouteChanges>) -> Option<
    (Seq<RoutePathView>, Seq<(RouteKeyView, Option<u32>)>),
> {
    match c {
        Some((a, w)) => Some((seqs::views(a@), rib::withdrawal_views(w@))),
        None => None,
    }
}

// ---------------------------------------------------------------------------
// Counting
// ---------------------------------------------------------------------------

/// The counts with one more message of the peer.
pub open spec fn counted(s: PeerStatistics, m: MessageView) -> PeerStatistics {
    match m {
        MessageView::Open(_) => PeerStatistics {
            open_received: s.open_received.wrapping_add(1),
            ..s
        },
        MessageView::Update(_) => PeerStatistics {
            update_received: s.update_received.wrapping_add(1),
            ..s
        },
        MessageView::Keepalive => PeerStatistics {
            keepalive_received: s.keepalive_received.wrapping_add(1),
            ..s
        },
        MessageView::Notification(_) => PeerStatistics {
            notification_received: s.notification_received.wrapping_add(1),
            ..s
        },
        MessageView::RouteRefresh { afi: _, safi: _, subtype: _ } => PeerStatistics {
            route_refresh_received: s.route_refresh_received.wrapping_add(1),
            ..s
        },
    }
}

impl PeerView {
    /// A message is counted; a peer that rejects optional parameters does not
    /// get capabilities any more.
    pub open spec fn noticed(self, m: MessageView) -> PeerView {
        PeerView {
            statistics: counted(self.statistics, m),
            capabilities_suppressed: self.capabilities_suppressed || (m matches
                MessageView::Notification(n) && n.rejects_parameters()),
            ..self
        }
    }

    /// The OPEN message of the peer is noted.
    pub open spec fn introduced_by(self, open: OpenView) -> PeerView {
        PeerView {
            received_open: Some(open),
            bgp_id: Some(addr::ipv4_of_bits(open.bgp_identifier)),
            ..self
        }
    }

    /// What an OPEN message says, beside what this side wants.
    pub open spec fn params_of(self, open: OpenView) -> OpenParamsView {
        OpenParamsView {
            peer_asn: open.asn,
            peer_hold_time: open.hold_time,
            peer_bgp_id: open.bgp_identifier,
            local_asn: self.local_config.asn,
            local_hold_time: self.local_config.hold_time,
            peer_capabilities: negotiation::understood(
                open_message::all_capabilities(open.optional_params),
            ),
        }
    }

    /// The hold timer starts again, if the hold time is not zero.
    pub open spec fn heard(self, now: u64) -> PeerView {
        PeerView {
            fsm: Fsm {
                timers: if self.fsm.timers.hold_time > 0 {
                    FsmTimers { hold_timer_started: Some(now), ..self.fsm.timers }
                } else {
                    self.fsm.timers
                },
                ..self.fsm
            },
            ..self
        }
    }
}

/// The event that a notification is.
pub open spec fn notification_event(n: NotificationView) -> EventView {
    if n.version_error() {
        EventView::NotifMsgVerErr(n)
    } else {
        EventView::NotifMsg(n)
    }
}

impl Stage {
    /// An event is processed, whatever comes of it.
    pub open spec fn tried(self, e: EventView, now: u64) -> Stage {
        self.processed(e, now).0
    }

    /// A notification of the peer is dealt with.
    pub open spec fn notified_by(self, n: NotificationView, now: u64) -> Stage {
        (Stage {
            peer: PeerView {
                capabilities_suppressed: self.peer.capabilities_suppressed
                    || n.rejects_parameters(),
                ..self.peer
            },
            ..self
        }).tried(notification_event(n), now)
    }

    /// Route changes are handed on.
    pub open spec fn flushed(self) -> Stage {
        Stage {
            peer: PeerView { pending_routes: Seq::empty(), ..self.peer },
            effects: self.effects.push(EffectView::PeerUpdate(self.peer.pending_routes)),
            ..self
        }
    }

    /// A route refresh of the peer is dealt with: it is heeded only if it was
    /// agreed on, for families that were, and its marks only if those were.
    /// While the peer restarts, marks count only after all routes of the family
    /// were received.
    pub open spec fn refreshed(self, f: AfiSafi, subtype: RouteRefreshSubtype) -> Stage {
        let c = self.peer.capabilities;
        let told = EffectView::RouteRefresh { afi_safi: f, subtype };
        if !c.route_refresh || !c.multiprotocol.contains(f) {
            self
        } else {
            match subtype {
                RouteRefreshSubtype::Normal => self.said(told),
                RouteRefreshSubtype::BoRR => {
                    let complete = match self.peer.gr_state {
                        Some(g) => g.eor_received.contains(f),
                        None => true,
                    };
                    if c.enhanced_route_refresh && (c.graceful_restart is None || complete) {
                        self.said(told)
                    } else {
                        self
                    }
                },
                RouteRefreshSubtype::EoRR => if c.enhanced_route_refresh {
                    self.flushed().said(told)
                } else {
                    self
                },
                RouteRefreshSubtype::Unknown(_) => self,
            }
        }
    }

    /// All routes of a family were received: once for each family whose routes
    /// were kept. When that is so for all of them, the peer is no longer waited
    /// for.
    pub open spec fn completed(self, f: AfiSafi) -> Stage {
        match self.peer.gr_state {
            None => self,
            Some(g) => if !g.afi_safis.contains(f) || g.eor_received.contains(f) {
                self
            } else {
                let received = g.eor_received.insert(f);
                let all = forall|x: AfiSafi| g.afi_safis.contains(x) ==> received.contains(x);
                let noted = RestartView {
                    eor_received: received,
                    in_restart: g.in_restart.remove(f),
                    restart_timer: g.restart_timer && !all,
                    ..g
                };
                let before = if all && g.restart_timer {
                    self.said(EffectView::CancelRestartTimer)
                } else {
                    self
                };
                (Stage { peer: PeerView { gr_state: Some(noted), ..self.peer }, ..before }).flushed(
                ).said(EffectView::GracefulRestartComplete(f))
            },
        }
    }

    /// A message is counted, and a notification is measured.
    pub open spec fn message_counted(self, m: MessageView) -> Stage {
        let s = Stage { peer: self.peer.noticed(m), ..self };
        match m {
            MessageView::Notification(n) => s.said(
                EffectView::Emit(
                    metrics::notification_event(
                        metrics::NOTIFICATION_RECEIVED_COUNT@,
                        self.peer.addr,
                        n,
                    ),
                ),
            ),
            _ => s,
        }
    }

    /// A message is dealt with.
    pub open spec fn handled(self, m: MessageView, now: u64) -> (
        Stage,
        Result<Option<(Seq<RoutePathView>, Seq<(RouteKeyView, Option<u32>)>)>, PeerError>,
    ) {
        let s = self.message_counted(m);
        match m {
            MessageView::Open(open) => {
                let known = Stage { peer: s.peer.introduced_by(open), ..s };
                let (t, r) = known.processed(
                    EventView::BgpOpenReceived(known.peer.params_of(open)),
                    now,
                );
                (
                    t,
                    match r {
                        Ok(_) => Ok(None),
                        Err(e) => Err(e),
                    },
                )
            },
            MessageView::Keepalive => {
                let (t, r) = s.processed(EventView::BgpKeepaliveReceived, now);
                (
                    t,
                    match r {
                        Ok(_) => Ok(None),
                        Err(e) => Err(e),
                    },
                )
            },
            MessageView::Update(u) => {
                let (t, r) = s.processed(EventView::BgpUpdateReceived, now);
                match r {
                    Err(e) => (t, Err(e)),
                    Ok(_) => match u.eor_afi_safi {
                        Some(f) => (t.completed(f), Ok(None)),
                        None => (
                            t,
                            Ok(Some((t.peer.announced_in(u), incoming::withdrawn_in(u)))),
                        ),
                    },
                }
            },
            MessageView::Notification(n) => (s.notified_by(n, now), Ok(None)),
            MessageView::RouteRefresh { afi, safi, subtype } => (
                s.refreshed(AfiSafi { afi, safi }, subtype),
                Ok(None),
            ),
        }
    }

    /// A message is received: route changes wait to be handed on, withdrawals
    /// before announcements, and the peer was heard of.
    pub open spec fn received(self, m: MessageView, now: u64) -> (Stage, Result<(), PeerError>) {
        let (s, r) = self.handled(m, now);
        let heard = Stage { peer: s.peer.heard(now), ..s };
        match m {
            MessageView::Notification(_) => (
                s,
                Err(PeerError::IoError(IoError::NotificationReceived)),
            ),
            MessageView::Update(_) => match r {
                Err(e) => (s, Err(e)),
                Ok(None) => (heard, Ok(())),
                Ok(Some((a, w))) => (
                    Stage {
                        peer: PeerView {
                            pending_routes: heard.peer.pending_routes + as_withdrawals(w)
                                + as_announcements(a),
                            ..heard.peer
                        },
                        ..heard
                    },
                    Ok(()),
                ),
            },
            MessageView::Keepalive => (heard, Ok(())),
            MessageView::Open(_) => match r {
                Err(e) => (s, Err(e)),
                Ok(_) => (s, Ok(())),
            },
            MessageView::RouteRefresh { afi: _, safi: _, subtype: _ } => (s, Ok(())),
        }
    }
}

/// Withdrawals as route changes.
pub open spec fn as_withdrawals(w: Seq<(RouteKeyView, Option<u32>)>) -> Seq<PendingRouteView> {
    Seq::new(w.len(), |i: int| PendingRouteView::Withdraw(w[i]))
}

/// Announcements as route changes.
pub open spec fn as_announcements(a: Seq<RoutePathView>) -> Seq<PendingRouteView> {
    Seq::new(a.len(), |i: int| PendingRouteView::Announce(a[i]))
}

fn push_withdrawals(routes: &mut Vec<PendingRoute>, w: Vec<Withdrawal>)
    ensures
        seqs::views(final(routes)@) == seqs::views(old(routes)@) + as_withdrawals(
            rib::withdrawal_views(w@),
        ),
{
    let ghost start = seqs::views(routes@);
    let ghost all = as_withdrawals(rib::withdrawal_views(w@));
    assert(start + all.take(0) =~= start);
    for x in it: w
        invariant
            start == seqs::views(old(routes)@),
            all == as_withdrawals(rib::withdrawal_views(it.seq())),
            seqs::views(routes@) == start + all.take(it.index()),
    {
        let p = PendingRoute::Withdraw(x);
        proof {
            let i = it.index();
            assert(it.seq()[i] == x);
            seqs::lemma_views_push(routes@, p);
            seqs::lemma_take_next(all, i);
            assert(start + all.take(i).push(all[i]) =~= (start + all.take(i)).push(all[i]));
        }
        routes.push(p);
    }
    proof {
        seqs::lemma_take_all(all);
    }
}

fn push_announcements(routes: &mut Vec<PendingRoute>, a: Vec<RoutePath>)
    ensures
        seqs::views(final(routes)@) == seqs::views(old(routes)@) + as_announcements(
            seqs::views(a@),
        ),
{
    let ghost start = seqs::views(routes@);
    let ghost all = as_announcements(seqs::views(a@));
    assert(start + all.take(0) =~= start);
    for x in it: a
        invariant
            start == seqs::views(old(routes)@),
            all == as_announcements(seqs::views(it.seq())),
            seqs::views(routes@) == start + all.take(it.index()),
    {
        let p = PendingRoute::Announce(x);
        proof {
            let i = it.index();
            assert(it.seq()[i] == x);
            seqs::lemma_views_push(routes@, p);
            seqs::lemma_take_next(all, i);
            assert(start + all.take(i).push(all[i]) =~= (start + all.take(i)).push(all[i]));
        }
        routes.push(p);
    }
    proof {
        seqs::lemma_take_all(all);
    }
}

/// The event that an unreadable message is, given the notification for it, if
/// there is one.
pub open spec fn unreadable_event(n: Option<NotificationView>) -> EventView {
    match n {
        Some(n) => match n.error {
            crate::bgp::msg_notification::BgpError::MessageHeaderError(_) =>
                EventView::BgpHeaderErr(n),
            crate::bgp::msg_notification::BgpError::OpenMessageError(_) =>
                EventView::BgpOpenMsgErr(n),
            _ => EventView::TcpConnectionFails,
        },
        None => EventView::TcpConnectionFails,
    }
}

/// The event that an unreadable message is, given the notification for it, if
/// there is one.
pub fn parse_error_to_fsm_event(notif: Option<NotificationMessage>) -> (r: FsmEvent)
    ensures
        r@ == unreadable_event(crate::conf::opt_view(notif)),
{
    match notif {
        Some(n) => match n.error() {
            crate::bgp::msg_notification::BgpError::MessageHeaderError(_) =>
                FsmEvent::BgpHeaderErr(n),
            crate::bgp::msg_notification::BgpError::OpenMessageError(_) =>
                FsmEvent::BgpOpenMsgErr(n),
            _ => FsmEvent::TcpConnectionFails,
        },
        None => FsmEvent::TcpConnectionFails,
    }
}

/// Every listed family is in the set.
pub fn all_listed(l: &Vec<AfiSafi>, s: &multiprotocol::AfiSafiSet) -> (r: bool)
    ensures
        r == forall|x: AfiSafi| l@.contains(x) ==> s@.contains(x),
{
    let mut i: usize = 0;
    while i < l.len()
        invariant
            i <= l@.len(),
            forall|j: int| 0 <= j < i ==> s@.contains(#[trigger] l@[j]),
        decreases l.len() - i,
    {
        if !s.contains(&l[i]) {
            assert(l@.contains(l@[i as int]));
            return false;
        }
        i = i + 1;
    }
    assert forall|x: AfiSafi| l@.contains(x) implies s@.contains(x) by {
        let j = choose|j: int| 0 <= j < l@.len() && l@[j] == x;
        assert(s@.contains(l@[j]));
    }
    true
}

impl Peer {
    /// Counts a message, and measures a notification.
    pub fn track_received_message(&mut self, message: &BgpMessage, turn: &mut Turn)
        ensures
            steps::at(*final(self), *final(turn)) == steps::at(
                *old(self),
                *old(turn),
            ).message_counted(message@),
    {
        match message {
            BgpMessage::Open(_) => {
                self.statistics.open_received = self.statistics.open_received.wrapping_add(1);
            },
            BgpMessage::Update(_) => {
                self.statistics.update_received = self.statistics.update_received.wrapping_add(1);
            },
            BgpMessage::Keepalive => {
                self.statistics.keepalive_received =
                self.statistics.keepalive_received.wrapping_add(1);
            },
            BgpMessage::Notification(n) => {
                self.statistics.notification_received =
                self.statistics.notification_received.wrapping_add(1);
                turn.push(Effect::Emit(metrics::notification_received(self.addr, n)));
                if n.rejects_optional_parameters() {
                    self.capabilities_suppressed = true;
                }
            },
            BgpMessage::RouteRefresh { afi: _, safi: _, subtype: _ } => {
                self.statistics.route_refresh_received =
                self.statistics.route_refresh_received.wrapping_add(1);
            },
        }
    }

    /// Processes an event, whatever comes of it.
    pub fn try_process_event(&mut self, event: &FsmEvent, now: u64, turn: &mut Turn)
        ensures
            steps::at(*final(self), *final(turn)) == steps::at(*old(self), *old(turn)).tried(
                event@,
                now,
            ),
    {
        let _ = self.process_event(event, now, turn);
    }

    /// Deals with a notification of the peer.
    pub fn handle_notification_received(
        &mut self,
        notif: &NotificationMessage,
        now: u64,
        turn: &mut Turn,
    )
        ensures
            steps::at(*final(self), *final(turn)) == steps::at(
                *old(self),
                *old(turn),
            ).notified_by(notif@, now),
    {
        if notif.rejects_optional_parameters() {
            self.capabilities_suppressed = true;
        }
        let event = if notif.is_version_error() {
            FsmEvent::NotifMsgVerErr(notif.clone())
        } else {
            FsmEvent::NotifMsg(notif.clone())
        };
        self.try_process_event(&event, now, turn);
    }

    /// Hands route changes on.
    pub fn flush_pending_routes(&mut self, turn: &mut Turn)
        ensures
            steps::at(*final(self), *final(turn)) == steps::at(*old(self), *old(turn)).flushed(),
    {
        let mut routes: Vec<PendingRoute> = Vec::new();
        routes.append(&mut self.pending_routes);
        assert(routes@ =~= old(self).pending_routes@);
        assert(seqs::views(self.pending_routes@) =~= Seq::<PendingRouteView>::empty());
        turn.push(Effect::PeerUpdate(routes));
    }

    /// Deals with a route refresh of the peer.
    pub fn handle_route_refresh(
        &mut self,
        afi: Afi,
        safi: Safi,
        subtype: RouteRefreshSubtype,
        turn: &mut Turn,
    )
        ensures
            steps::at(*final(self), *final(turn)) == steps::at(*old(self), *old(turn)).refreshed(
                AfiSafi { afi, safi },
                subtype,
            ),
    {
        if !self.capabilities.route_refresh {
            return ;
        }
        let afi_safi = AfiSafi::new(afi, safi);
        if !self.capabilities.multiprotocol.contains(&afi_safi) {
            return ;
        }
        match subtype {
            RouteRefreshSubtype::Normal => {
                turn.push(Effect::RouteRefresh { afi_safi, subtype });
            },
            RouteRefreshSubtype::BoRR => {
                if !self.capabilities.enhanced_route_refresh {
                    return ;
                }
                let complete = match &self.gr_state {
                    Some(g) => g.eor_received.contains(&afi_safi),
                    None => true,
                };
                if self.capabilities.graceful_restart.is_some() && !complete {
                    return ;
                }
                turn.push(Effect::RouteRefresh { afi_safi, subtype });
            },
            RouteRefreshSubtype::EoRR => {
                if !self.capabilities.enhanced_route_refresh {
                    return ;
                }
                self.flush_pending_routes(turn);
                turn.push(Effect::RouteRefresh { afi_safi, subtype });
            },
            RouteRefreshSubtype::Unknown(_) => {},
        }
    }

    /// Notes that all routes of a family were received.
    pub fn handle_eor_received(&mut self, afi_safi: AfiSafi, turn: &mut Turn)
        ensures
            steps::at(*final(self), *final(turn)) == steps::at(*old(self), *old(turn)).completed(
                afi_safi,
            ),
    {
        let ghost before = self@;
        let mut state = match self.gr_state.take() {
            Some(g) => g,
            None => {
                return ;
            },
        };
        let ghost g = state@;
        assert(before.gr_state == Some(g));
        proof {
            state.afi_safis.lemma_listed();
            assert(state.afi_safis@.contains(afi_safi) == g.afi_safis.contains(afi_safi));
        }
        if !state.afi_safis.contains(&afi_safi) || state.eor_received.contains(&afi_safi) {
            self.gr_state = Some(state);
            return ;
        }
        let _ = state.eor_received.insert(afi_safi);
        state.in_restart.remove(&afi_safi);
        let families = state.afi_safis.to_vec();
        let all = all_listed(&families, &state.eor_received);
        if all && state.restart_timer {
            turn.push(Effect::CancelRestartTimer);
            state.restart_timer = false;
        }
        self.gr_state = Some(state);
        self.flush_pending_routes(turn);
        turn.push(Effect::GracefulRestartComplete(afi_safi));
    }

    /// Deals with a message; gives the route changes of an UPDATE message.
    pub fn handle_message(&mut self, message: &BgpMessage, now: u64, turn: &mut Turn) -> (r: Result<
        Option<RouteChanges>,
        PeerError,
    >)
        ensures
            (
                steps::at(*final(self), *final(turn)),
                match r {
                    Ok(c) => Ok(changes_view(c)),
                    Err(e) => Err(e),
                },
            ) == steps::at(*old(self), *old(turn)).handled(message@, now),
    {
        self.track_received_message(message, turn);
        match message {
            BgpMessage::Open(open) => {
                self.received_open = Some(open.clone());
                self.bgp_id = Some(Ipv4Addr::from_u32(open.bgp_identifier));
                let event = FsmEvent::BgpOpenReceived(
                    BgpOpenParams {
                        peer_asn: open.asn,
                        peer_hold_time: open.hold_time,
                        peer_bgp_id: open.bgp_identifier,
                        local_asn: self.local_config.asn,
                        local_hold_time: self.local_config.hold_time,
                        peer_capabilities: extract_capabilities(open),
                    },
                );
                match self.process_event(&event, now, turn) {
                    Ok(_) => Ok(None),
                    Err(e) => Err(e),
                }
            },
            BgpMessage::Keepalive => match self.process_event(
                &FsmEvent::BgpKeepaliveReceived,
                now,
                turn,
            ) {
                Ok(_) => Ok(None),
                Err(e) => Err(e),
            },
            BgpMessage::Update(update) => {
                match self.process_event(&FsmEvent::BgpUpdateReceived, now, turn) {
                    Ok(_) => {},
                    Err(e) => {
                        return Err(e);
                    },
                }
                if let Some(f) = update.eor_afi_safi {
                    self.handle_eor_received(f, turn);
                    return Ok(None);
                }
                Ok(Some(self.handle_update(update)))
            },
            BgpMessage::Notification(n) => {
                self.handle_notification_received(n, now, turn);
                Ok(None)
            },
            BgpMessage::RouteRefresh { afi, safi, subtype } => {
                self.handle_route_refresh(*afi, *safi, *subtype, turn);
                Ok(None)
            },
        }
    }

    fn restart_hold_timer(&mut self, now: u64)
        ensures
            final(self)@ == old(self)@.heard(now),
    {
        if self.fsm.timers.hold_time > 0 {
            self.fsm.timers.start_hold_timer(now);
        }
    }

    /// Receives a message. An error ends the connection.
    pub fn handle_received_message(&mut self, message: &BgpMessage, now: u64, turn: &mut Turn) -> (r:
        Result<(), PeerError>)
        ensures
            (steps::at(*final(self), *final(turn)), r) == steps::at(
                *old(self),
                *old(turn),
            ).received(message@, now),
    {
        let result = self.handle_message(message, now, turn);
        match message {
            BgpMessage::Notification(_) => Err(PeerError::IoError(IoError::NotificationReceived)),
            BgpMessage::Update(_) => match result {
                Err(e) => Err(e),
                Ok(changes) => {
                    self.restart_hold_timer(now);
                    if let Some((announced, withdrawn)) = changes {
                        push_withdrawals(&mut self.pending_routes, withdrawn);
                        push_announcements(&mut self.pending_routes, announced);
                    }
                    Ok(())
                },
            },
            BgpMessage::Keepalive => {
                self.restart_hold_timer(now);
                Ok(())
            },
            BgpMessage::Open(_) => match result {
                Err(e) => Err(e),
                Ok(_) => Ok(()),
            },
            BgpMessage::RouteRefresh { afi: _, safi: _, subtype: _ } => Ok(()),
        }
    }
}

} // verus!
