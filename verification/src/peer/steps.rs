//! The steps that the reactions of a session are made of: messages that are
//! sent, and the end of a connection.

use crate::bgp::msg_notification::{NotificationMessage, NotificationView};
use crate::bgp::msg_open;
use crate::bgp::msg_open::LlgrEntry;
use crate::bgp::multiprotocol;
use crate::bgp::multiprotocol::{AfiSafi, AfiSafiSet};
use crate::bgp::open_message;
use crate::bgp::open_message::{OpenMessage, OpenView};
use crate::metrics;
use crate::peer::fsm::{BgpState, Fsm, FsmTimers};
use crate::peer::negotiation;
use crate::peer::negotiation::{create_open_message, extract_capabilities};
use crate::peer::session::{
    DownView, Effect, EffectView, GracefulRestartState, IoError, OutMessage, OutView, Peer,
    PeerDownReason, PeerStatistics, PeerView, RestartView, Turn,
};
use crate::seqs;
use vstd::prelude::*;

verus! {

/// A session together with what is to be done for it.
pub struct Stage {
    pub peer: PeerView,
    pub effects: Seq<EffectView>,
    pub writes: int,
}

/// Where a session stands.
pub open spec fn at(peer: Peer, turn: Turn) -> Stage {
    Stage { peer: peer@, effects: seqs::views(turn.effects@), writes: turn.writes as int }
}

impl Stage {
    /// One more thing is to be done.
    pub open spec fn said(self, e: EffectView) -> Stage {
        Stage { effects: self.effects.push(e), ..self }
    }

    /// The connection takes a message.
    pub open spec fn can_write(self) -> bool {
        self.peer.connected && self.writes > 0
    }

    /// Why the connection does not take a message.
    pub open spec fn write_error(self) -> IoError {
        if self.peer.connected {
            IoError::WriteFailed
        } else {
            IoError::NotConnected
        }
    }

    /// A notification is sent, counted and measured.
    pub open spec fn notice_sent(self, n: NotificationView) -> Stage {
        let sent = Stage {
            peer: PeerView {
                statistics: PeerStatistics {
                    notification_sent: self.peer.statistics.notification_sent.wrapping_add(1),
                    ..self.peer.statistics
                },
                ..self.peer
            },
            writes: self.writes - 1,
            ..self
        };
        sent.said(EffectView::Send(OutView::Notification(n))).said(
            EffectView::Emit(
                metrics::notification_event(
                    metrics::NOTIFICATION_SENT_COUNT@,
                    self.peer.addr,
                    n,
                ),
            ),
        )
    }

    /// A notification is sent, if one may be and the connection takes it.
    pub open spec fn notified(self, n: NotificationView) -> Stage {
        if self.peer.can_notify() && self.writes > 0 {
            self.notice_sent(n)
        } else {
            self
        }
    }

    /// Whether sending a notification failed; one that may not be sent does not
    /// fail.
    pub open spec fn notify_result(self) -> Result<(), IoError> {
        if self.peer.can_notify() && self.writes == 0 {
            Err(IoError::WriteFailed)
        } else {
            Ok(())
        }
    }

    /// The OPEN message is sent.
    pub open spec fn opened(self) -> Stage {
        if self.can_write() {
            let m = self.peer.own_open();
            Stage {
                peer: PeerView {
                    sent_open: Some(m),
                    statistics: PeerStatistics {
                        open_sent: self.peer.statistics.open_sent.wrapping_add(1),
                        ..self.peer.statistics
                    },
                    ..self.peer
                },
                effects: self.effects.push(EffectView::Send(OutView::Open(m))),
                writes: self.writes - 1,
            }
        } else {
            self
        }
    }

    /// A keepalive is sent; the next is due later, if they are agreed on.
    pub open spec fn kept_alive(self, now: u64) -> Stage {
        if self.can_write() {
            let timers = self.peer.fsm.timers;
            Stage {
                peer: PeerView {
                    statistics: PeerStatistics {
                        keepalive_sent: self.peer.statistics.keepalive_sent.wrapping_add(1),
                        ..self.peer.statistics
                    },
                    fsm: Fsm {
                        timers: if timers.hold_time > 0 {
                            FsmTimers { keepalive_timer_started: Some(now), ..timers }
                        } else {
                            timers
                        },
                        ..self.peer.fsm
                    },
                    ..self.peer
                },
                effects: self.effects.push(EffectView::Send(OutView::Keepalive)),
                writes: self.writes - 1,
            }
        } else {
            self
        }
    }

    /// Whether a message that must be sent was sent.
    pub open spec fn write_result(self) -> Result<(), IoError> {
        if self.can_write() {
            Ok(())
        } else {
            Err(self.write_error())
        }
    }

    /// The peer is waited for: earlier waiting ends, and the families that it
    /// named are in restart.
    pub open spec fn awaited(self) -> Stage {
        match self.peer.capabilities.graceful_restart {
            None => self,
            Some(gr) => {
                let families = msg_open::families(gr.afi_safi_list);
                if families.len() == 0 {
                    self
                } else {
                    let waiting = self.peer.gr_state matches Some(g) && g.restart_timer;
                    let before = if waiting {
                        self.said(EffectView::CancelRestartTimer)
                    } else {
                        self
                    };
                    let started = before.said(
                        EffectView::StartRestartTimer {
                            seconds: gr.restart_time,
                            llgr_afi_safis: stale_times(self.peer.capabilities.llgr),
                        },
                    );
                    Stage {
                        peer: PeerView {
                            gr_state: Some(
                                RestartView {
                                    in_restart: families.to_set(),
                                    restart_timer: true,
                                    eor_received: Set::empty(),
                                    afi_safis: multiprotocol::distinct(families),
                                    eor_sent: Set::empty(),
                                    loc_rib_received: Set::empty(),
                                },
                            ),
                            ..self.peer
                        },
                        ..started
                    }
                }
            },
        }
    }

    /// The connection ends. If there was one, failures are counted where that is
    /// wanted, and the peer is waited for where its routes are kept.
    pub open spec fn dropped(self, damp: bool, reason: DownView) -> Stage {
        let kept = self.peer.kept_families(reason);
        let quiet = PeerView {
            connected: false,
            established_at: None,
            fsm: Fsm { timers: self.peer.fsm.timers.disconnected(), ..self.peer.fsm },
            ..self.peer
        };
        if self.peer.connected {
            let counted = Stage {
                peer: PeerView {
                    consecutive_down_count: if damp {
                        self.peer.consecutive_down_count.wrapping_add(1)
                    } else {
                        self.peer.consecutive_down_count
                    },
                    ..quiet
                },
                ..self
            };
            (if kept.len() > 0 {
                counted.awaited()
            } else {
                counted
            }).said(EffectView::PeerDisconnected { reason, gr_afi_safis: kept })
        } else {
            Stage { peer: quiet, ..self }
        }
    }
}

/// The families whose stale routes are kept long, with their seconds.
pub open spec fn stale_times(llgr: Option<Seq<LlgrEntry>>) -> Seq<(AfiSafi, u32)> {
    match llgr {
        Some(l) => Seq::new(l.len(), |i: int| (l[i].afi_safi, l[i].stale_time)),
        None => Seq::empty(),
    }
}

impl PeerView {
    /// The OPEN message of this side: without capabilities where the peer does
    /// not know them.
    pub open spec fn own_open(self) -> OpenView {
        let l = self.local_config;
        if self.capabilities_suppressed {
            open_message::bare_open(l.asn, l.hold_time, l.bgp_id.bits())
        } else {
            negotiation::offered_open(l.asn, l.hold_time, l.bgp_id, self.config, l.llgr)
        }
    }

    /// The routes of the peer outlive the connection: no notification ended it,
    /// the session was established, and the peer asked for some time.
    pub open spec fn keeps_routes(self, reason: DownView) -> bool {
        &&& !(reason is RemoteNotification || reason is LocalNotification)
        &&& self.fsm.current is Established
        &&& self.capabilities.graceful_restart matches Some(gr) && {
            &&& gr.afi_safi_list.len() > 0
            &&& gr.restart_time > 0 || (self.capabilities.llgr matches Some(l) && exists|i: int|
                0 <= i < l.len() && (#[trigger] l[i]).stale_time > 0)
        }
    }

    /// The families whose routes outlive the connection.
    pub open spec fn kept_families(self, reason: DownView) -> Seq<AfiSafi> {
        match self.capabilities.graceful_restart {
            Some(gr) => if self.keeps_routes(reason) {
                msg_open::families(gr.afi_safi_list)
            } else {
                Seq::empty()
            },
            None => Seq::empty(),
        }
    }

    /// The connection that this side opened stays when both sides opened one:
    /// the higher identifier wins, then the higher AS number.
    pub open spec fn wins_collision(self, open: OpenView) -> bool {
        let own = self.local_config.bgp_id.bits();
        if own != open.bgp_identifier {
            own > open.bgp_identifier
        } else {
            let caps = negotiation::understood(
                open_message::all_capabilities(open.optional_params),
            );
            self.local_config.asn > (match caps.four_octet_asn {
                Some(asn) => asn,
                None => open.asn,
            })
        }
    }
}

fn list_stale_times(l: &Vec<LlgrEntry>) -> (r: Vec<(AfiSafi, u32)>)
    ensures
        r@ == stale_times(Some(l@)),
{
    let mut r: Vec<(AfiSafi, u32)> = Vec::new();
    let mut i: usize = 0;
    while i < l.len()
        invariant
            i <= l@.len(),
            r@ == stale_times(Some(l@)).take(i as int),
        decreases l.len() - i,
    {
        r.push((l[i].afi_safi, l[i].stale_time));
        proof {
            seqs::lemma_take_next(stale_times(Some(l@)), i as int);
        }
        i = i + 1;
    }
    proof {
        seqs::lemma_take_all(stale_times(Some(l@)));
    }
    r
}

fn some_stale_time(l: &Vec<LlgrEntry>) -> (r: bool)
    ensures
        r == exists|i: int| 0 <= i < l@.len() && (#[trigger] l@[i]).stale_time > 0,
{
    let mut i: usize = 0;
    while i < l.len()
        invariant
            i <= l@.len(),
            forall|j: int| 0 <= j < i ==> (#[trigger] l@[j]).stale_time == 0,
        decreases l.len() - i,
    {
        if l[i].stale_time > 0 {
            return true;
        }
        i = i + 1;
    }
    false
}

impl Peer {
    /// Whether the connection that this side opened stays when both sides opened
    /// one.
    pub fn local_wins_collision(&self, open: &OpenMessage) -> (r: bool)
        ensures
            r == self@.wins_collision(open@),
    {
        let local_id: u32 = self.local_config.bgp_id.to_u32();
        if local_id != open.bgp_identifier {
            return local_id > open.bgp_identifier;
        }
        let remote_asn: u32 = match extract_capabilities(open).four_octet_asn {
            Some(asn) => asn,
            None => open.asn,
        };
        self.local_config.asn > remote_asn
    }

    /// The OPEN message of this side.
    pub fn build_open_message(&self) -> (r: OpenMessage)
        ensures
            r@ == self@.own_open(),
    {
        if self.capabilities_suppressed {
            OpenMessage::new(
                self.local_config.asn,
                self.local_config.hold_time,
                self.local_config.bgp_id.to_u32(),
            )
        } else {
            create_open_message(
                self.local_config.asn,
                self.local_config.hold_time,
                self.local_config.bgp_id,
                &self.config,
                &self.local_config.llgr,
            )
        }
    }

    /// Sends a notification, if one may be sent.
    pub fn send_notification(&mut self, notif: NotificationMessage, turn: &mut Turn) -> (r: Result<
        (),
        IoError,
    >)
        ensures
            at(*final(self), *final(turn)) == at(*old(self), *old(turn)).notified(notif@),
            r == at(*old(self), *old(turn)).notify_result(),
    {
        if !self.can_send_notification() {
            return Ok(());
        }
        if turn.writes == 0 {
            return Err(IoError::WriteFailed);
        }
        self.write_notification(notif, turn);
        Ok(())
    }

    /// Sends a notification over a connection that takes it.
    pub(crate) fn write_notification(&mut self, notif: NotificationMessage, turn: &mut Turn)
        requires
            old(turn).writes > 0,
        ensures
            at(*final(self), *final(turn)) == at(*old(self), *old(turn)).notice_sent(notif@),
    {
        let metric = metrics::notification_sent(self.addr, &notif);
        turn.writes = turn.writes - 1;
        turn.push(Effect::Send(OutMessage::Notification(notif)));
        turn.push(Effect::Emit(metric));
        self.statistics.notification_sent = self.statistics.notification_sent.wrapping_add(1);
    }

    /// Sends the OPEN message.
    pub fn send_open(&mut self, turn: &mut Turn) -> (r: Result<(), IoError>)
        ensures
            at(*final(self), *final(turn)) == at(*old(self), *old(turn)).opened(),
            r == at(*old(self), *old(turn)).write_result(),
    {
        let open_msg = self.build_open_message();
        if !self.connected {
            return Err(IoError::NotConnected);
        }
        if turn.writes == 0 {
            return Err(IoError::WriteFailed);
        }
        turn.writes = turn.writes - 1;
        turn.push(Effect::Send(OutMessage::Open(open_msg.clone())));
        self.sent_open = Some(open_msg);
        self.statistics.open_sent = self.statistics.open_sent.wrapping_add(1);
        Ok(())
    }

    /// Sends a keepalive.
    pub fn send_keepalive(&mut self, now: u64, turn: &mut Turn) -> (r: Result<(), IoError>)
        ensures
            at(*final(self), *final(turn)) == at(*old(self), *old(turn)).kept_alive(now),
            r == at(*old(self), *old(turn)).write_result(),
    {
        if !self.connected {
            return Err(IoError::NotConnected);
        }
        if turn.writes == 0 {
            return Err(IoError::WriteFailed);
        }
        turn.writes = turn.writes - 1;
        turn.push(Effect::Send(OutMessage::Keepalive));
        self.statistics.keepalive_sent = self.statistics.keepalive_sent.wrapping_add(1);
        if self.fsm.timers.hold_time > 0 {
            self.fsm.timers.start_keepalive_timer(now);
        }
        Ok(())
    }

    /// Whether the routes of the peer outlive the connection.
    pub fn should_preserve_routes_with_gr(&self, reason: &PeerDownReason) -> (r: bool)
        ensures
            r == self@.keeps_routes(reason@),
    {
        match reason {
            PeerDownReason::RemoteNotification(_) | PeerDownReason::LocalNotification(_) => {
                return false;
            },
            _ => {},
        }
        if self.fsm.current != BgpState::Established {
            return false;
        }
        match &self.capabilities.graceful_restart {
            Some(gr) => {
                if gr.afi_safi_list.len() == 0 {
                    return false;
                }
                if gr.restart_time > 0 {
                    return true;
                }
                match &self.capabilities.llgr {
                    Some(l) => some_stale_time(&l.entries),
                    None => false,
                }
            },
            None => false,
        }
    }

    /// Waits for the peer to come back.
    pub fn start_gr_restart_timer(&mut self, turn: &mut Turn)
        ensures
            at(*final(self), *final(turn)) == at(*old(self), *old(turn)).awaited(),
    {
        let (seconds, families) = match &self.capabilities.graceful_restart {
            Some(gr) => (gr.restart_time, gr.afi_safis()),
            None => {
                return ;
            },
        };
        if families.len() == 0 {
            return ;
        }
        let llgr_afi_safis = match &self.capabilities.llgr {
            Some(l) => list_stale_times(&l.entries),
            None => Vec::new(),
        };
        assert(llgr_afi_safis@ =~= stale_times(self@.capabilities.llgr));
        let waiting = match &self.gr_state {
            Some(g) => g.restart_timer,
            None => false,
        };
        if waiting {
            turn.push(Effect::CancelRestartTimer);
        }
        turn.push(Effect::StartRestartTimer { seconds, llgr_afi_safis });
        self.gr_state = Some(
            GracefulRestartState {
                in_restart: AfiSafiSet::from_vec(&families),
                restart_timer: true,
                eor_received: AfiSafiSet::new(),
                afi_safis: AfiSafiSet::from_vec(&families),
                eor_sent: AfiSafiSet::new(),
                loc_rib_received: AfiSafiSet::new(),
            },
        );
    }

    /// Ends the connection.
    pub fn disconnect(&mut self, apply_damping: bool, reason: PeerDownReason, turn: &mut Turn)
        ensures
            at(*final(self), *final(turn)) == at(*old(self), *old(turn)).dropped(
                apply_damping,
                reason@,
            ),
    {
        let had_connection = self.connected;
        let gr_afi_safis = if self.should_preserve_routes_with_gr(&reason) {
            self.capabilities.gr_afi_safis()
        } else {
            Vec::new()
        };
        assert(gr_afi_safis@ =~= self@.kept_families(reason@));
        self.connected = false;
        self.established_at = None;
        self.fsm.timers.stop_hold_timer();
        self.fsm.timers.stop_keepalive_timer();
        self.fsm.timers.stop_delay_open_timer();
        if had_connection {
            if apply_damping {
                self.consecutive_down_count = self.consecutive_down_count.wrapping_add(1);
            }
            if gr_afi_safis.len() > 0 {
                self.start_gr_restart_timer(turn);
            }
            turn.push(Effect::PeerDisconnected { reason, gr_afi_safis });
        }
    }
}

} // verus!
