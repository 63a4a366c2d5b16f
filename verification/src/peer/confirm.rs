//! Answering the OPEN message of a peer.

use crate::bgp::msg_notification;
use crate::bgp::msg_notification::{
    BgpError, NotificationMessage, NotificationView, OpenMessageError,
};
use crate::bgp::msg_open;
use crate::bgp::msg_open::Capability;
use crate::bgp::multiprotocol::{AfiSafi, AfiSafiSet};
use crate::bgp::open_message::MAX_2BYTE_ASN;
use crate::peer::capabilities::{CapabilitiesView, PeerCapabilities, SessionType};
use crate::peer::fsm::{BgpOpenParams, Fsm, FsmTimers, OpenParamsView};
use crate::peer::negotiation;
use crate::peer::negotiation::{
    advertised_afi_safis, negotiate_add_path, negotiate_multiprotocol,
};
use crate::peer::session::{Effect, EffectView, IoError, Peer, PeerView, Turn};
use crate::peer::steps;
use crate::peer::steps::Stage;
use crate::seqs;
use vstd::prelude::*;

verus! {

/// The families that are offered, as capabilities are encoded: code, length and
/// value of each.
pub open spec fn family_list_octets(l: Seq<AfiSafi>) -> Seq<u8>
    decreases l.len(),
{
    if l.len() == 0 {
        Seq::empty()
    } else {
        family_list_octets(l.drop_last()) + seq![1u8, 4u8] + msg_open::multiprotocol_octets(
            l.last(),
        )
    }
}

/// The shorter of two hold times.
pub open spec fn agreed_hold_time(a: u16, b: u16) -> u16 {
    if a < b {
        a
    } else {
        b
    }
}

impl PeerView {
    /// The families that both sides exchange.
    pub open spec fn common_families(self, peer: CapabilitiesView) -> Set<AfiSafi> {
        negotiation::offered_families(self.config).to_set().intersect(peer.multiprotocol)
    }

    /// With the peer's AS number, and whether it is that of this side.
    pub open spec fn identified(self, q: OpenParamsView) -> PeerView {
        PeerView {
            asn: Some(q.peer_asn),
            session_type: Some(
                if q.peer_asn == q.local_asn {
                    SessionType::Ibgp
                } else {
                    SessionType::Ebgp
                },
            ),
            ..self
        }
    }

    /// With what both sides agreed on.
    pub open spec fn agreed(self, peer: CapabilitiesView) -> PeerView {
        PeerView {
            capabilities: CapabilitiesView {
                multiprotocol: self.common_families(peer),
                add_path: negotiation::agreed_add_path(self.config, peer.add_path),
                ..peer
            },
            fsm: Fsm {
                graceful_restart_negotiated: peer.graceful_restart is Some,
                ..self.fsm
            },
            ..self
        }
    }
}

/// Why an OPEN message is refused, and the notification that says so: another
/// AS number than the one that is expected, no common family although the peer
/// named some, or no room for this side's AS number.
pub open spec fn refusal(p: PeerView, q: OpenParamsView) -> Option<(IoError, NotificationView)> {
    let caps = q.peer_capabilities;
    if p.config.asn matches Some(expected) && expected != q.peer_asn {
        Some(
            (
                IoError::AsnMismatch { expected: p.config.asn->0, received: q.peer_asn },
                msg_notification::bare_notification(
                    BgpError::OpenMessageError(OpenMessageError::BadPeerAs),
                ),
            ),
        )
    } else if p.common_families(caps) == Set::<AfiSafi>::empty() && caps.multiprotocol
        != Set::<AfiSafi>::empty() {
        Some(
            (
                IoError::NoCommonFamily,
                NotificationView {
                    error: BgpError::OpenMessageError(OpenMessageError::UnsupportedCapability),
                    data: family_list_octets(negotiation::offered_families(p.config)),
                },
            ),
        )
    } else if p.local_config.asn > MAX_2BYTE_ASN && caps.four_octet_asn is None {
        Some(
            (
                IoError::NoFourOctetAsn,
                msg_notification::bare_notification(
                    BgpError::OpenMessageError(OpenMessageError::UnsupportedOptionalParameter),
                ),
            ),
        )
    } else {
        None
    }
}

/// What is noted of a peer whose OPEN message is refused: nothing where its AS
/// number is wrong, else that number, and what was agreed on as far as it was.
pub open spec fn noted_at_refusal(p: PeerView, q: OpenParamsView, why: IoError) -> PeerView {
    match why {
        IoError::AsnMismatch { expected: _, received: _ } => p,
        IoError::NoCommonFamily => p.identified(q),
        _ => p.identified(q).agreed(q.peer_capabilities),
    }
}

impl Stage {
    /// The OPEN message of the peer is answered.
    pub open spec fn confirmed(self, q: OpenParamsView, now: u64) -> (Stage, Result<(), IoError>) {
        match refusal(self.peer, q) {
            Some((why, notif)) => {
                let noted = Stage { peer: noted_at_refusal(self.peer, q, why), ..self };
                (
                    noted.notified(notif),
                    match noted.notify_result() {
                        Ok(_) => Err(why),
                        Err(e) => Err(e),
                    },
                )
            },
            None => (Stage {
                peer: self.peer.identified(q).agreed(q.peer_capabilities),
                ..self
            }).settled(agreed_hold_time(q.local_hold_time, q.peer_hold_time), q.peer_asn, now),
        }
    }

    /// A keepalive is sent with the hold time that was agreed on; the timers run
    /// unless it is zero.
    pub open spec fn settled(self, hold_time: u16, asn: u32, now: u64) -> (
        Stage,
        Result<(), IoError>,
    ) {
        let timed = Stage {
            peer: PeerView {
                fsm: Fsm { timers: self.peer.fsm.timers.agreed(hold_time), ..self.peer.fsm },
                ..self.peer
            },
            ..self
        };
        let sent = timed.kept_alive(now);
        let timers = sent.peer.fsm.timers;
        match timed.write_result() {
            Err(e) => (sent, Err(e)),
            Ok(_) => (
                (Stage {
                    peer: PeerView {
                        fsm: Fsm {
                            timers: if hold_time != 0 {
                                FsmTimers { hold_timer_started: Some(now), ..timers }
                            } else {
                                FsmTimers {
                                    hold_timer_started: None,
                                    keepalive_timer_started: None,
                                    ..timers
                                }
                            },
                            ..sent.peer.fsm
                        },
                        ..sent.peer
                    },
                    ..sent
                }).said(EffectView::HandshakeComplete { asn }),
                Ok(()),
            ),
        }
    }
}

fn list_family_octets(l: &Vec<AfiSafi>) -> (r: Vec<u8>)
    ensures
        r@ == family_list_octets(l@),
{
    let ghost all = l@;
    let mut r: Vec<u8> = Vec::new();
    let mut i: usize = 0;
    while i < l.len()
        invariant
            i <= l@.len(),
            all == l@,
            r@ == family_list_octets(all.take(i as int)),
        decreases l.len() - i,
    {
        proof {
            assert(all.take(i + 1).drop_last() =~= all.take(i as int));
        }
        let c = Capability::new_multiprotocol(&l[i]);
        let ghost before = r@;
        r.push(1u8);
        r.push(4u8);
        let mut val = c.val;
        let ghost v = val@;
        r.append(&mut val);
        assert(r@ =~= before + seq![1u8, 4u8] + v);
        i = i + 1;
    }
    proof {
        seqs::lemma_take_all(all);
    }
    r
}

impl Peer {
    /// Refuses an OPEN message.
    fn refuse(&mut self, why: IoError, error: BgpError, data: Vec<u8>, turn: &mut Turn) -> (r: Result<
        (),
        IoError,
    >)
        ensures
            steps::at(*final(self), *final(turn)) == steps::at(*old(self), *old(turn)).notified(
                NotificationView { error, data: data@ },
            ),
            r == (match steps::at(*old(self), *old(turn)).notify_result() {
                Ok(_) => Err::<(), IoError>(why),
                Err(e) => Err(e),
            }),
    {
        match self.send_notification(NotificationMessage::new(error, data), turn) {
            Ok(_) => Err(why),
            Err(e) => Err(e),
        }
    }

    /// Notes who the peer is.
    fn note_identity(&mut self, params: &BgpOpenParams)
        ensures
            final(self)@ == old(self)@.identified(params@),
    {
        self.asn = Some(params.peer_asn);
        self.session_type = Some(
            if params.peer_asn == params.local_asn {
                SessionType::Ibgp
            } else {
                SessionType::Ebgp
            },
        );
    }

    /// Notes what both sides can do.
    fn note_agreement(&mut self, caps: &PeerCapabilities, common: AfiSafiSet)
        requires
            common@ == old(self)@.common_families(caps@),
        ensures
            final(self)@ == old(self)@.agreed(caps@),
    {
        let add_path = negotiate_add_path(&self.config, caps);
        let copy = caps.clone();
        self.capabilities = PeerCapabilities {
            multiprotocol: common,
            route_refresh: copy.route_refresh,
            enhanced_route_refresh: copy.enhanced_route_refresh,
            four_octet_asn: copy.four_octet_asn,
            graceful_restart: copy.graceful_restart,
            add_path,
            llgr: copy.llgr,
        };
        let restarts = self.capabilities.graceful_restart.is_some();
        self.fsm.set_graceful_restart_negotiated(restarts);
    }

    /// Sends a keepalive with the hold time that was agreed on.
    fn settle(&mut self, hold_time: u16, asn: u32, now: u64, turn: &mut Turn) -> (r: Result<
        (),
        IoError,
    >)
        ensures
            (steps::at(*final(self), *final(turn)), r) == steps::at(
                *old(self),
                *old(turn),
            ).settled(hold_time, asn, now),
    {
        self.fsm.timers.set_negotiated_hold_time(hold_time);
        match self.send_keepalive(now, turn) {
            Ok(_) => {},
            Err(e) => {
                return Err(e);
            },
        }
        if hold_time != 0 {
            self.fsm.timers.start_hold_timer(now);
        } else {
            self.fsm.timers.stop_keepalive_timer();
            self.fsm.timers.stop_hold_timer();
        }
        turn.push(Effect::HandshakeComplete { asn });
        Ok(())
    }

    /// Answers the OPEN message of the peer: refuses it, or agrees on what the
    /// session can do and sends a keepalive.
    pub fn enter_open_confirm(&mut self, params: &BgpOpenParams, now: u64, turn: &mut Turn) -> (r:
        Result<(), IoError>)
        ensures
            (steps::at(*final(self), *final(turn)), r) == steps::at(
                *old(self),
                *old(turn),
            ).confirmed(params@, now),
    {
        let peer_asn: u32 = params.peer_asn;
        if let Some(expected) = self.config.asn {
            if peer_asn != expected {
                return self.refuse(
                    IoError::AsnMismatch { expected, received: peer_asn },
                    BgpError::OpenMessageError(OpenMessageError::BadPeerAs),
                    Vec::new(),
                    turn,
                );
            }
        }
        self.note_identity(params);
        let caps = &params.peer_capabilities;
        let local_families = advertised_afi_safis(&self.config);
        let common = negotiate_multiprotocol(&local_families, &caps.multiprotocol);
        if common.is_empty() && !caps.multiprotocol.is_empty() {
            let data = list_family_octets(&local_families);
            return self.refuse(
                IoError::NoCommonFamily,
                BgpError::OpenMessageError(OpenMessageError::UnsupportedCapability),
                data,
                turn,
            );
        }
        self.note_agreement(caps, common);
        if self.local_config.asn > MAX_2BYTE_ASN && self.capabilities.four_octet_asn.is_none() {
            return self.refuse(
                IoError::NoFourOctetAsn,
                BgpError::OpenMessageError(OpenMessageError::UnsupportedOptionalParameter),
                Vec::new(),
                turn,
            );
        }
        let hold_time: u16 = if params.local_hold_time < params.peer_hold_time {
            params.local_hold_time
        } else {
            params.peer_hold_time
        };
        self.settle(hold_time, peer_asn, now, turn)
    }
}

/// A session that is agreed on uses the shorter hold time of both sides, and
/// sends keepalives only if that is not zero.
pub proof fn law_shorter_hold_time(s: Stage, q: OpenParamsView, now: u64)
    requires
        s.confirmed(q, now).1 is Ok,
    ensures
        ({
            let t = s.confirmed(q, now).0.peer.fsm.timers;
            &&& t.hold_time <= q.local_hold_time && t.hold_time <= q.peer_hold_time
            &&& t.hold_time == q.local_hold_time || t.hold_time == q.peer_hold_time
            &&& t.keepalive_time == t.hold_time / 3
            &&& t.hold_timer_started is Some <==> t.hold_time != 0
            &&& t.keepalive_timer_started is Some <==> t.hold_time != 0
        }),
{
}

/// Only families that this side offers and the peer named are agreed on, and
/// some family is, unless the peer named none.
pub proof fn law_agreed_families(s: Stage, q: OpenParamsView, now: u64)
    requires
        s.confirmed(q, now).1 is Ok,
    ensures
        ({
            let agreed = s.confirmed(q, now).0.peer.capabilities.multiprotocol;
            &&& agreed.subset_of(q.peer_capabilities.multiprotocol)
            &&& forall|f: AfiSafi| #[trigger]
                agreed.contains(f) ==> negotiation::offered_families(s.peer.config).contains(f)
            &&& agreed != Set::<AfiSafi>::empty() || q.peer_capabilities.multiprotocol
                == Set::<AfiSafi>::empty()
        }),
{
}

} // verus!
