//! Route changes that wait to be handed on.

use crate::rib;
use crate::rib::{clone_withdrawal, RouteKey, RouteKeyView, RoutePath, RoutePathView, Withdrawal};
use crate::seqs;
use vstd::prelude::*;

verus! {

/// An announcement or a withdrawal.
#[derive(Debug, PartialEq, Eq)]
pub enum PendingRoute {
    Announce(RoutePath),
    Withdraw(Withdrawal),
}

pub enum PendingRouteView {
    Announce(RoutePathView),
    Withdraw((RouteKeyView, Option<u32>)),
}

impl View for PendingRoute {
    type V = PendingRouteView;

    open spec fn view(&self) -> PendingRouteView {
        match self {
            PendingRoute::Announce(r) => PendingRouteView::Announce(r@),
            PendingRoute::Withdraw(w) => PendingRouteView::Withdraw(rib::withdrawal_view(*w)),
        }
    }
}

/// The announcements in their order.
pub open spec fn announced(s: Seq<PendingRouteView>) -> Seq<RoutePathView>
    decreases s.len(),
{
    if s.len() == 0 {
        Seq::empty()
    } else {
        match s.last() {
            PendingRouteView::Announce(r) => announced(s.drop_last()).push(r),
            PendingRouteView::Withdraw(_) => announced(s.drop_last()),
        }
    }
}

/// The withdrawals in their order.
pub open spec fn withdrawn(s: Seq<PendingRouteView>) -> Seq<(RouteKeyView, Option<u32>)>
    decreases s.len(),
{
    if s.len() == 0 {
        Seq::empty()
    } else {
        match s.last() {
            PendingRouteView::Announce(_) => withdrawn(s.drop_last()),
            PendingRouteView::Withdraw(w) => withdrawn(s.drop_last()).push(w),
        }
    }
}

impl PendingRouteView {
    /// What the route leads to.
    pub open spec fn key(self) -> RouteKeyView {
        match self {
            PendingRouteView::Announce(x) => x.key,
            PendingRouteView::Withdraw(w) => w.0,
        }
    }
}

impl PendingRoute {
    /// What the route leads to.
    pub fn route_key(&self) -> (r: RouteKey)
        ensures
            r@ == self@.key(),
    {
        match self {
            PendingRoute::Announce(x) => x.key.clone(),
            PendingRoute::Withdraw(w) => w.0.clone(),
        }
    }

    /// The announcements and the withdrawals, each in their order.
    pub fn split(routes: &Vec<PendingRoute>) -> (r: (Vec<RoutePath>, Vec<Withdrawal>))
        ensures
            seqs::views(r.0@) == announced(seqs::views(routes@)),
            rib::withdrawal_views(r.1@) == withdrawn(seqs::views(routes@)),
    {
        let ghost all = seqs::views(routes@);
        let mut a: Vec<RoutePath> = Vec::new();
        let mut w: Vec<Withdrawal> = Vec::new();
        let mut i: usize = 0;
        assert(seqs::views(a@) =~= Seq::<RoutePathView>::empty());
        assert(rib::withdrawal_views(w@) =~= Seq::<(RouteKeyView, Option<u32>)>::empty());
        while i < routes.len()
            invariant
                i <= routes@.len(),
                all == seqs::views(routes@),
                seqs::views(a@) == announced(all.take(i as int)),
                rib::withdrawal_views(w@) == withdrawn(all.take(i as int)),
            decreases routes.len() - i,
        {
            proof {
                assert(all.take(i + 1).drop_last() =~= all.take(i as int));
                assert(all.take(i + 1).last() == routes@[i as int]@);
            }
            match &routes[i] {
                PendingRoute::Announce(x) => {
                    let y = x.clone();
                    proof {
                        seqs::lemma_views_push(a@, y);
                    }
                    a.push(y);
                },
                PendingRoute::Withdraw(x) => {
                    let y = clone_withdrawal(x);
                    let ghost before = w@;
                    w.push(y);
                    assert(rib::withdrawal_views(w@) =~= rib::withdrawal_views(before).push(
                        rib::withdrawal_view(y),
                    ));
                },
            }
            i = i + 1;
        }
        proof {
            seqs::lemma_take_all(all);
        }
        (a, w)
    }
}

/// Splitting loses and invents nothing: every change is an announcement or a
/// withdrawal and comes out exactly once.
pub proof fn law_split_is_complete(s: Seq<PendingRouteView>)
    ensures
        announced(s).len() + withdrawn(s).len() == s.len(),
        forall|r: RoutePathView| #[trigger]
            announced(s).contains(r) <==> s.contains(PendingRouteView::Announce(r)),
        forall|w: (RouteKeyView, Option<u32>)| #[trigger]
            withdrawn(s).contains(w) <==> s.contains(PendingRouteView::Withdraw(w)),
    decreases s.len(),
{
    if s.len() > 0 {
        let p = s.drop_last();
        law_split_is_complete(p);
        let last = s.last();
        assert(s =~= p.push(last));
        assert forall|x: PendingRouteView| #[trigger] s.contains(x) <==> p.contains(x) || x
            == last by {
            if p.contains(x) {
                let i = choose|i: int| 0 <= i < p.len() && p[i] == x;
                assert(s[i] == x);
            }
            assert(s[s.len() - 1] == last);
            if s.contains(x) && x != last {
                let i = choose|i: int| 0 <= i < s.len() && s[i] == x;
                assert(p[i] == x);
            }
        }
        match last {
            PendingRouteView::Announce(r) => {
                lemma_push_contains(announced(p), r);
            },
            PendingRouteView::Withdraw(w) => {
                lemma_push_contains(withdrawn(p), w);
            },
        }
    }
}

proof fn lemma_push_contains<T>(s: Seq<T>, y: T)
    ensures
        forall|x: T| #[trigger] s.push(y).contains(x) <==> s.contains(x) || x == y,
{
    let t = s.push(y);
    assert forall|x: T| #[trigger] t.contains(x) <==> s.contains(x) || x == y by {
        if s.contains(x) {
            let i = choose|i: int| 0 <= i < s.len() && s[i] == x;
            assert(t[i] == x);
        }
        assert(t[s.len() as int] == y);
        if t.contains(x) && x != y {
            let i = choose|i: int| 0 <= i < t.len() && t[i] == x;
            assert(s[i] == x);
        }
    }
}

} // verus!
