//! What holds of sessions whatever happens in them.

use crate::bgp::msg_notification::NotificationView;
use crate::bgp::multiprotocol::AfiSafi;
use crate::metrics;
use crate::peer::connecting::IdleView;
use crate::peer::fsm;
use crate::peer::fsm::EventView;
use crate::peer::incoming;
use crate::peer::incoming::UpdateIn;
use crate::peer::messages::MessageView;
use crate::peer::reactions;
use crate::peer::reactions::{InputView, Next, OpView, ReadingView, ROUTE_FLUSH_WATERMARK};
use crate::peer::session::{EffectView, OutView, PeerView, RouteRefreshSubtype};
use crate::peer::steps::Stage;
use crate::peer::transitions;
use crate::rib::PathAttrsView;
use vstd::prelude::*;

verus! {

/// An UPDATE message that comes too soon after another is not sent, and not lost:
/// it waits behind those that wait already.
pub proof fn law_updates_wait(s: Stage, bytes: Seq<u8>, now: u64)
    requires
        s.peer.connected,
        s.peer.fsm.current is Established,
        s.peer.last_update_sent is Some,
        fsm::seconds_between(s.peer.last_update_sent->0, now) < s.peer.mrai_interval,
    ensures
        ({
            let (t, next) = s.reacted_established(InputView::Op(OpView::SendUpdate(bytes)), now);
            &&& next is Stay
            &&& t.effects == s.effects
            &&& t.peer.pending_updates == s.peer.pending_updates.push(bytes)
        }),
{
}

/// UPDATE messages as what is to be sent.
pub open spec fn update_effects(updates: Seq<Seq<u8>>) -> Seq<EffectView> {
    Seq::new(updates.len(), |i: int| EffectView::Send(OutView::Update(updates[i])))
}

proof fn lemma_all_sent(s: Stage, updates: Seq<Seq<u8>>, now: u64)
    requires
        s.peer.connected,
        s.writes >= updates.len(),
    ensures
        ({
            let (t, ok) = s.all_updated(updates, now);
            &&& ok
            &&& t.effects == s.effects + update_effects(updates)
            &&& t.writes == s.writes - updates.len()
            &&& t.peer.connected
            &&& t.peer.pending_updates == s.peer.pending_updates
            &&& t.peer.fsm.current == s.peer.fsm.current
        }),
    decreases updates.len(),
{
    if updates.len() == 0 {
        assert(s.effects + update_effects(updates) =~= s.effects);
    } else {
        lemma_all_sent(s, updates.drop_last(), now);
        assert(s.effects + update_effects(updates) =~= (s.effects + update_effects(
            updates.drop_last(),
        )).push(EffectView::Send(OutView::Update(updates.last()))));
    }
}

/// When their time has come, all UPDATE messages that wait are sent in their
/// order, and the next ones wait again.
pub proof fn law_waiting_updates_are_sent(s: Stage, now: u64)
    requires
        s.peer.connected,
        s.peer.fsm.current is Established,
        s.peer.last_update_sent is Some,
        s.writes >= s.peer.pending_updates.len(),
    ensures
        ({
            let (t, next) = s.reacted_established(InputView::Due, now);
            &&& next is Stay
            &&& t.effects == s.effects + update_effects(s.peer.pending_updates)
            &&& t.peer.pending_updates == Seq::<Seq<u8>>::empty()
            &&& s.peer.pending_updates.len() > 0 ==> t.peer.last_update_sent == Some(now)
        }),
{
    let taken = Stage { peer: PeerView { pending_updates: Seq::empty(), ..s.peer }, ..s };
    lemma_all_sent(taken, s.peer.pending_updates, now);
    if s.peer.pending_updates.len() == 0 {
        assert(s.peer.pending_updates =~= Seq::<Seq<u8>>::empty());
        assert(s.effects + update_effects(s.peer.pending_updates) =~= s.effects);
    }
}

/// A session never keeps as many route changes as are handed on at once.
pub proof fn law_waiting_routes_are_few(s: Stage, x: ReadingView, now: u64)
    ensures
        ({
            let (t, next) = s.read_established(x, now);
            next is Stay ==> t.peer.pending_routes.len() < ROUTE_FLUSH_WATERMARK
        }),
{
}

/// The peer is told of a family only once that it has all routes.
pub proof fn law_families_are_told_once(s: Stage, f: AfiSafi)
    requires
        s.peer.gr_state is Some,
        s.marked(seq![f]).1 is Ok,
    ensures
        ({
            let t = s.marked(seq![f]).0;
            t.marked(seq![f]) == (t, s.marked(seq![f]).1)
        }),
{
    let one = seq![f];
    assert(one.drop_last() =~= Seq::<AfiSafi>::empty());
    assert(one.last() == f);
    let t = s.marked(one).0;
    assert(s.marked(one.drop_last()) == (s, s.marked(one.drop_last()).1));
    assert(t.marked(one.drop_last()) == (t, t.marked(one.drop_last()).1));
}

/// That all routes of a family were received counts once.
pub proof fn law_families_complete_once(s: Stage, f: AfiSafi)
    ensures
        s.completed(f).completed(f) == s.completed(f),
{
}

/// Routes that are sent again are not marked before the peer was told that it has
/// all routes of the family, if it restarts.
pub proof fn law_marks_come_after_all_routes(s: Stage, f: AfiSafi, subtype: RouteRefreshSubtype)
    requires
        subtype is BoRR || subtype is EoRR,
        s.peer.gr_state is Some,
        !s.peer.gr_state->0.eor_sent.contains(f),
    ensures
        s.asked(f, subtype) == s,
{
}

/// A refresh that was not agreed on is neither sent nor heeded.
pub proof fn law_refreshes_need_agreement(s: Stage, f: AfiSafi, subtype: RouteRefreshSubtype)
    requires
        !s.peer.capabilities.route_refresh || !s.peer.capabilities.multiprotocol.contains(f),
    ensures
        s.asked(f, subtype) == s,
        s.refreshed(f, subtype) == s,
{
}

/// A session in Idle refuses connections.
pub proof fn law_idle_refuses_connections(s: Stage, now: u64)
    ensures
        s.reacted_idle(IdleView::Op(OpView::TcpConnectionAccepted), now) == (s, Next::Stay),
{
}

/// A session that was stopped by hand is not started by itself.
pub proof fn law_stopped_sessions_stay_down(s: Stage, now: u64)
    requires
        s.peer.manually_stopped,
    ensures
        s.reacted_idle(IdleView::Expired, now) == (s, Next::Stay),
{
}

/// Routes are neither sent nor asked for before a session is established.
pub proof fn law_no_routes_before_established(
    s: Stage,
    bytes: Seq<u8>,
    f: AfiSafi,
    subtype: RouteRefreshSubtype,
    now: u64,
)
    requires
        s.peer.connected,
    ensures
        s.reacted_opening(InputView::Op(OpView::SendUpdate(bytes)), now).0 == s,
        s.reacted_opening(
            InputView::Op(OpView::SendRouteRefresh { afi_safi: f, subtype }),
            now,
        ).0 == s,
{
}

/// When nothing was heard of the peer for the hold time, the connection ends, be
/// the session established or not yet.
pub proof fn law_silence_ends_sessions(s: Stage, now: u64)
    requires
        s.peer.connected,
        s.peer.fsm.timers.hold_over(now),
    ensures
        s.peer.fsm.current is Established ==> ({
            let (t, next) = s.reacted_established(InputView::Tick, now);
            next is Leave && t.peer.fsm.current is Idle && !t.peer.connected
        }),
        reactions::opening(s.peer.fsm.current) ==> ({
            let (t, next) = s.reacted_opening(InputView::Tick, now);
            next is Leave && t.peer.fsm.current is Idle && !t.peer.connected
        }),
{
    if s.peer.fsm.current is Established || reactions::opening(s.peer.fsm.current) {
        transitions::law_idle_is_disconnected(s, EventView::HoldTimerExpires, now);
    }
}

/// Every notification is measured: one that is sent, behind its message, and one
/// that is received.
pub proof fn law_notifications_are_measured(s: Stage, n: NotificationView)
    ensures
        ({
            let e = metrics::notification_event(metrics::NOTIFICATION_SENT_COUNT@, s.peer.addr, n);
            let sent = s.effects.push(EffectView::Send(OutView::Notification(n))).push(
                EffectView::Emit(e),
            );
            &&& s.peer.can_notify() && s.writes > 0 ==> s.notified(n).effects == sent
            &&& s.can_write() ==> s.notified_anyway(n).effects == sent
        }),
        s.message_counted(MessageView::Notification(n)).effects == s.effects.push(
            EffectView::Emit(
                metrics::notification_event(
                    metrics::NOTIFICATION_RECEIVED_COUNT@,
                    s.peer.addr,
                    n,
                ),
            ),
        ),
{
}

/// All routes of one UPDATE message have the same attributes, and come from the
/// peer of the session.
pub proof fn law_routes_of_a_message_share_attributes(p: PeerView, u: UpdateIn, i: int, j: int)
    requires
        0 <= i < p.announced_in(u).len(),
        0 <= j < p.announced_in(u).len(),
    ensures
        p.announced_in(u)[i].path.attrs == p.announced_in(u)[j].path.attrs,
        p.source() == Some(p.announced_in(u)[i].path.attrs.source),
{
}

/// What only old speakers may add to an AS path is ignored in messages of others.
pub proof fn law_corrections_of_new_speakers_are_ignored(
    p: PeerView,
    u: UpdateIn,
    corrected_attrs: Option<PathAttrsView>,
)
    requires
        p.capabilities.four_octet_asn is Some,
    ensures
        p.announced_in(UpdateIn { corrected_attrs, ..u }) == p.announced_in(u),
{
    let v = UpdateIn { corrected_attrs, ..u };
    if let (Some(source), Some(attrs)) = (p.source(), p.attrs_in(u)) {
        let a = PathAttrsView { source, ..attrs };
        assert(incoming::announced_with(v, a) =~= incoming::announced_with(u, a));
    }
}

} // verus!
