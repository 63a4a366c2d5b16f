//! Copies of sessions, so that a step can be taken again when the connection
//! fails in it.

use crate::bgp::open_message::OpenMessage;
use crate::conf;
use crate::peer::pending::PendingRoute;
use crate::peer::reactions::PeerOp;
use crate::peer::session::{GracefulRestartState, Peer};
use crate::rib::clone_withdrawal;
use crate::seqs;
use crate::seqs::copy_items;
use vstd::prelude::*;

verus! {

impl Clone for GracefulRestartState {
    fn clone(&self) -> (r: Self)
        ensures
            r@ == self@,
    {
        GracefulRestartState {
            in_restart: self.in_restart.clone(),
            restart_timer: self.restart_timer,
            eor_received: self.eor_received.clone(),
            afi_safis: self.afi_safis.clone(),
            eor_sent: self.eor_sent.clone(),
            loc_rib_received: self.loc_rib_received.clone(),
        }
    }
}

impl Clone for PendingRoute {
    fn clone(&self) -> (r: Self)
        ensures
            r@ == self@,
    {
        match self {
            PendingRoute::Announce(x) => PendingRoute::Announce(x.clone()),
            PendingRoute::Withdraw(w) => PendingRoute::Withdraw(clone_withdrawal(w)),
        }
    }
}

impl Clone for PeerOp {
    fn clone(&self) -> (r: Self)
        ensures
            r@ == self@,
    {
        match self {
            PeerOp::SendUpdate(b) => PeerOp::SendUpdate(copy_items(b)),
            PeerOp::SendRouteRefresh { afi_safi, subtype } => PeerOp::SendRouteRefresh {
                afi_safi: *afi_safi,
                subtype: *subtype,
            },
            PeerOp::GetStatistics => PeerOp::GetStatistics,
            PeerOp::GetNegotiatedCapabilities => PeerOp::GetNegotiatedCapabilities,
            PeerOp::Shutdown(c) => PeerOp::Shutdown(*c),
            PeerOp::HardReset => PeerOp::HardReset,
            PeerOp::ManualStart => PeerOp::ManualStart,
            PeerOp::ManualStop => PeerOp::ManualStop,
            PeerOp::AutomaticStart => PeerOp::AutomaticStart,
            PeerOp::ManualStartPassive => PeerOp::ManualStartPassive,
            PeerOp::AutomaticStartPassive => PeerOp::AutomaticStartPassive,
            PeerOp::TcpConnectionAccepted => PeerOp::TcpConnectionAccepted,
            PeerOp::LocalRibSent { afi_safi } => PeerOp::LocalRibSent { afi_safi: *afi_safi },
            PeerOp::CollisionLost => PeerOp::CollisionLost,
        }
    }
}

fn clone_updates(v: &Vec<Vec<u8>>) -> (r: Vec<Vec<u8>>)
    ensures
        seqs::views(r@) == seqs::views(v@),
{
    let ghost all = seqs::views(v@);
    let mut r: Vec<Vec<u8>> = Vec::new();
    assert(seqs::views(r@) =~= all.take(0));
    let mut i: usize = 0;
    while i < v.len()
        invariant
            i <= v@.len(),
            all == seqs::views(v@),
            seqs::views(r@) == all.take(i as int),
        decreases v.len() - i,
    {
        let x = copy_items(&v[i]);
        proof {
            seqs::lemma_views_push(r@, x);
            seqs::lemma_take_next(all, i as int);
        }
        r.push(x);
        i = i + 1;
    }
    proof {
        seqs::lemma_take_all(all);
    }
    r
}

fn clone_routes(v: &Vec<PendingRoute>) -> (r: Vec<PendingRoute>)
    ensures
        seqs::views(r@) == seqs::views(v@),
{
    let ghost all = seqs::views(v@);
    let mut r: Vec<PendingRoute> = Vec::new();
    assert(seqs::views(r@) =~= all.take(0));
    let mut i: usize = 0;
    while i < v.len()
        invariant
            i <= v@.len(),
            all == seqs::views(v@),
            seqs::views(r@) == all.take(i as int),
        decreases v.len() - i,
    {
        let x = v[i].clone();
        proof {
            seqs::lemma_views_push(r@, x);
            seqs::lemma_take_next(all, i as int);
        }
        r.push(x);
        i = i + 1;
    }
    proof {
        seqs::lemma_take_all(all);
    }
    r
}

fn clone_open(m: &Option<OpenMessage>) -> (r: Option<OpenMessage>)
    ensures
        conf::opt_view(r) == conf::opt_view(*m),
{
    match m {
        Some(x) => Some(x.clone()),
        None => None,
    }
}

impl Clone for Peer {
    fn clone(&self) -> (r: Self)
        ensures
            r@ == self@,
    {
        Peer {
            addr: self.addr,
            port: self.port,
            fsm: self.fsm,
            asn: self.asn,
            bgp_id: self.bgp_id,
            session_type: self.session_type,
            statistics: self.statistics,
            config: self.config.clone(),
            connected: self.connected,
            local_config: self.local_config.clone(),
            connect_retry_secs: self.connect_retry_secs,
            consecutive_down_count: self.consecutive_down_count,
            capabilities_suppressed: self.capabilities_suppressed,
            conn_type: self.conn_type,
            manually_stopped: self.manually_stopped,
            established_at: self.established_at,
            last_update_sent: self.last_update_sent,
            pending_updates: clone_updates(&self.pending_updates),
            mrai_interval: self.mrai_interval,
            sent_open: clone_open(&self.sent_open),
            received_open: clone_open(&self.received_open),
            capabilities: self.capabilities.clone(),
            gr_state: match &self.gr_state {
                Some(g) => Some(g.clone()),
                None => None,
            },
            pending_routes: clone_routes(&self.pending_routes),
        }
    }
}

} // verus!
