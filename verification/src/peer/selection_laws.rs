//! Which changes reach a peer: the paths that it is told of, what is withdrawn
//! from it, and what is noted of it.

use crate::bgp::msg::MessageFormat;
use crate::bgp::multiprotocol::{Afi, AfiSafi, Safi};
use crate::bgp::update_message::UpdateView;
use crate::net::network::IpNetwork;
use crate::peer::outgoing;
use crate::peer::outgoing::ExportView;
use crate::peer::propagate;
use crate::peer::propagate::BatchView;
use crate::peer::sending;
use crate::rib;
use crate::rib::{LocRib, PathView, Route, RouteDelta, RouteKeyView, RoutePathView};
use vstd::prelude::*;

verus! {

// ---------------------------------------------------------------------------
// Routes
// ---------------------------------------------------------------------------

/// The family of a route is that of its prefix, or of link-state objects with or
/// without a distinguisher.
pub proof fn law_family_of_a_route(key: RouteKeyView)
    ensures
        match key {
            RouteKeyView::Prefix(IpNetwork::V4(_)) => key.family().afi == Afi::Ipv4
                && key.family().safi == Safi::Unicast,
            RouteKeyView::Prefix(IpNetwork::V6(_)) => key.family().afi == Afi::Ipv6
                && key.family().safi == Safi::Unicast,
            RouteKeyView::LinkState(n) => key.family().afi == Afi::LinkState && (
            n.route_distinguisher is Some ==> key.family().safi == Safi::LinkStateVpn) && (
            n.route_distinguisher is None ==> key.family().safi == Safi::LinkState),
        },
{
}

/// The paths of a route are those of the first entry for it.
pub proof fn law_paths_of_a_route(routes: Seq<Route>, key: RouteKeyView, i: int)
    requires
        0 <= i < routes.len(),
        routes[i].key@ == key,
        forall|j: int| 0 <= j < i ==> (#[trigger] routes[j]).key@ != key,
    ensures
        rib::paths_of(routes, key).len() == routes[i].paths@.len(),
        forall|k: int|
            0 <= k < routes[i].paths@.len() ==> (#[trigger] rib::paths_of(routes, key)[k])
                == routes[i].paths@[k]@,
    decreases routes.len(),
{
    if i > 0 {
        let rest = routes.skip(1);
        assert(routes[0].key@ != key);
        assert(rest[i - 1] == routes[i]);
        assert forall|j: int| 0 <= j < i - 1 implies (#[trigger] rest[j]).key@ != key by {
            assert(rest[j] == routes[j + 1]);
        }
        law_paths_of_a_route(rest, key, i - 1);
    }
}

/// A route without an entry has no paths.
pub proof fn law_unknown_routes_have_no_paths(routes: Seq<Route>, key: RouteKeyView)
    requires
        forall|j: int| 0 <= j < routes.len() ==> (#[trigger] routes[j]).key@ != key,
    ensures
        rib::paths_of(routes, key).len() == 0,
    decreases routes.len(),
{
    if routes.len() > 0 {
        let rest = routes.skip(1);
        assert(routes[0].key@ != key);
        assert forall|j: int| 0 <= j < rest.len() implies (#[trigger] rest[j]).key@ != key by {
            assert(rest[j] == routes[j + 1]);
        }
        law_unknown_routes_have_no_paths(rest, key);
    }
}

// ---------------------------------------------------------------------------
// Selection
// ---------------------------------------------------------------------------

proof fn lemma_all_exported(key: RouteKeyView, paths: Seq<PathView>, c: ExportView)
    ensures
        propagate::all_exported(key, paths, c) == paths.filter(
            |p: PathView| outgoing::export_path(key, p, c) is Some,
        ).map_values(
            |p: PathView| RoutePathView { key, path: outgoing::export_path(key, p, c)->0 },
        ),
    decreases paths.len(),
{
    reveal(Seq::filter);
    let f = |p: PathView| outgoing::export_path(key, p, c) is Some;
    let g = |p: PathView| RoutePathView { key, path: outgoing::export_path(key, p, c)->0 };
    if paths.len() > 0 {
        lemma_all_exported(key, paths.drop_last(), c);
        let before = paths.drop_last().filter(f);
        if f(paths.last()) {
            assert(before.push(paths.last()).map_values(g) =~= before.map_values(g).push(
                g(paths.last()),
            ));
        }
    }
    assert(propagate::all_exported(key, paths, c) =~= paths.filter(f).map_values(g));
}

/// A peer that takes several paths of a route is told of each path that it may be
/// told of, as it is exported to it, and of no other: one for one, in the order of
/// preference.
pub proof fn law_every_path_is_told(key: RouteKeyView, paths: Seq<PathView>, c: ExportView)
    ensures
        ({
            let told = propagate::selected(key, true, paths, c);
            let may = paths.filter(|p: PathView| outgoing::export_path(key, p, c) is Some);
            &&& told.len() == may.len()
            &&& forall|j: int|
                0 <= j < told.len() ==> (#[trigger] told[j]).key == key && outgoing::export_path(
                    key,
                    may[j],
                    c,
                ) == Some(told[j].path)
        }),
        forall|i: int|
            0 <= i < paths.len() ==> match #[trigger] outgoing::export_path(key, paths[i], c) {
                Some(path) => propagate::selected(key, true, paths, c).contains(
                    (RoutePathView { key, path }),
                ),
                None => true,
            },
{
    lemma_all_exported(key, paths, c);
    let f = |p: PathView| outgoing::export_path(key, p, c) is Some;
    let told = propagate::selected(key, true, paths, c);
    let may = paths.filter(f);
    assert forall|j: int| 0 <= j < told.len() implies (#[trigger] told[j]).key == key
        && outgoing::export_path(key, may[j], c) == Some(told[j].path) by {
        paths.lemma_filter_pred(f, j);
    }
    assert forall|i: int| 0 <= i < paths.len() implies match #[trigger] outgoing::export_path(
        key,
        paths[i],
        c,
    ) {
        Some(path) => told.contains((RoutePathView { key, path })),
        None => true,
    } by {
        if f(paths[i]) {
            paths.lemma_filter_contains(f, i);
            let j = choose|j: int| 0 <= j < may.len() && may[j] == paths[i];
            assert(told[j].path == outgoing::export_path(key, paths[i], c)->0);
        }
    }
}

/// A peer that takes one path of a route is told of the preferred one, if it may be
/// told of that, and else of none.
pub proof fn law_preferred_path_is_told(key: RouteKeyView, paths: Seq<PathView>, c: ExportView)
    requires
        !c.rs_client,
    ensures
        paths.len() == 0 ==> propagate::selected(key, false, paths, c).len() == 0,
        paths.len() > 0 ==> match outgoing::export_path(key, paths[0], c) {
            Some(path) => propagate::selected(key, false, paths, c) == seq![
                (RoutePathView { key, path }),
            ],
            None => propagate::selected(key, false, paths, c).len() == 0,
        },
{
    if paths.len() > 0 {
        let t = paths.take(1);
        assert(t.drop_last() =~= Seq::<PathView>::empty());
        assert(propagate::all_exported(key, t.drop_last(), c) =~= Seq::<RoutePathView>::empty());
        assert(t.last() == paths[0]);
    }
}

/// A peer that routes are served to is told of the first path of a route that it may
/// be told of.
pub proof fn law_first_path_is_served(
    key: RouteKeyView,
    paths: Seq<PathView>,
    c: ExportView,
    i: int,
)
    requires
        c.rs_client,
        0 <= i < paths.len(),
        outgoing::export_path(key, paths[i], c) is Some,
        forall|j: int| 0 <= j < i ==> outgoing::export_path(key, #[trigger] paths[j], c) is None,
    ensures
        propagate::selected(key, false, paths, c) == seq![
            (RoutePathView { key, path: outgoing::export_path(key, paths[i], c)->0 }),
        ],
    decreases paths.len(),
{
    if i > 0 {
        let rest = paths.skip(1);
        assert(outgoing::export_path(key, paths[0], c) is None);
        assert(rest[i - 1] == paths[i]);
        assert forall|j: int| 0 <= j < i - 1 implies outgoing::export_path(
            key,
            #[trigger] rest[j],
            c,
        ) is None by {
            assert(rest[j] == paths[j + 1]);
        }
        law_first_path_is_served(key, rest, c, i - 1);
    }
}

/// A peer is told nothing of a route without a path that it may be told of.
pub proof fn law_nothing_to_tell(
    key: RouteKeyView,
    add_path: bool,
    paths: Seq<PathView>,
    c: ExportView,
)
    requires
        forall|j: int|
            0 <= j < paths.len() ==> outgoing::export_path(key, #[trigger] paths[j], c) is None,
    ensures
        propagate::selected(key, add_path, paths, c).len() == 0,
    decreases paths.len(),
{
    if paths.len() > 0 {
        assert(outgoing::export_path(key, paths[0], c) is None);
        if add_path {
            let p = paths.drop_last();
            assert forall|j: int| 0 <= j < p.len() implies outgoing::export_path(
                key,
                #[trigger] p[j],
                c,
            ) is None by {
                assert(p[j] == paths[j]);
            }
            law_nothing_to_tell(key, add_path, p, c);
            assert(outgoing::export_path(key, paths[paths.len() - 1], c) is None);
        } else if c.rs_client {
            let rest = paths.skip(1);
            assert forall|j: int| 0 <= j < rest.len() implies outgoing::export_path(
                key,
                #[trigger] rest[j],
                c,
            ) is None by {
                assert(rest[j] == paths[j + 1]);
            }
            law_nothing_to_tell(key, add_path, rest, c);
        } else {
            law_preferred_path_is_told(key, paths, c);
        }
    }
}

/// A peer that takes several paths, or that routes are served to, hears of every
/// route that changed; any other of those whose preferred path did.
pub proof fn law_changes_that_matter(delta: RouteDelta, family: AfiSafi, c: ExportView)
    ensures
        ({
            let keys = propagate::relevant_keys(delta, family, c);
            let all = c.send_format.add_path.has(family) || c.rs_client;
            &&& all ==> keys.len() == delta.changed@.len() && forall|i: int|
                0 <= i < keys.len() ==> #[trigger] keys[i] == delta.changed@[i]@
            &&& !all ==> keys.len() == delta.best_changed@.len() && forall|i: int|
                0 <= i < keys.len() ==> #[trigger] keys[i] == delta.best_changed@[i]@
        }),
{
}

// ---------------------------------------------------------------------------
// What is noted of a peer
// ---------------------------------------------------------------------------

/// What a peer was told of a route and is not to be told now: the paths under
/// identifiers that none of the current ones has, in their order.
pub proof fn law_stale_paths(
    sent: Seq<RoutePathView>,
    key: RouteKeyView,
    current: Seq<RoutePathView>,
)
    ensures
        rib::stale_of(sent, key, current) == sent.filter(
            |e: RoutePathView|
                e.key == key && forall|i: int|
                    0 <= i < current.len() ==> (#[trigger] current[i]).path.local_path_id
                        != e.path.local_path_id,
        ).map_values(|e: RoutePathView| e.path),
    decreases sent.len(),
{
    reveal(Seq::filter);
    let f = |e: RoutePathView|
        e.key == key && forall|i: int|
            0 <= i < current.len() ==> (#[trigger] current[i]).path.local_path_id
                != e.path.local_path_id;
    let g = |e: RoutePathView| e.path;
    if sent.len() > 0 {
        law_stale_paths(sent.drop_last(), key, current);
        let before = sent.drop_last().filter(f);
        assert(f(sent.last()) == (sent.last().key == key && !rib::has_path_id(
            current,
            sent.last().path.local_path_id,
        )));
        if f(sent.last()) {
            assert(before.push(sent.last()).map_values(g) =~= before.map_values(g).push(
                g(sent.last()),
            ));
        }
    }
    assert(rib::stale_of(sent, key, current) =~= sent.filter(f).map_values(g));
}

/// What is noted of a peer without a path of a route: all but that one, in the same
/// order.
pub proof fn law_forgotten_paths(sent: Seq<RoutePathView>, key: RouteKeyView, id: Option<u32>)
    ensures
        rib::without_path(sent, key, id) == sent.filter(
            |e: RoutePathView| !(e.key == key && e.path.local_path_id == id),
        ),
    decreases sent.len(),
{
    reveal(Seq::filter);
    if sent.len() > 0 {
        law_forgotten_paths(sent.drop_last(), key, id);
    }
}

/// What is noted of a peer that is told of routes one after the other: each takes
/// the place of what it was told under the same identifier, and stands last.
pub proof fn law_noted_paths(
    sent: Seq<RoutePathView>,
    routes: Seq<RoutePathView>,
    r: RoutePathView,
)
    ensures
        propagate::with_paths(sent, Seq::empty()) == sent,
        propagate::with_paths(sent, routes.push(r)) == propagate::with_paths(sent, routes).filter(
            |e: RoutePathView|
                !(e.key == r.key && e.path.local_path_id == r.path.local_path_id),
        ).push(r),
{
    assert(routes.push(r).drop_last() =~= routes);
    law_forgotten_paths(
        propagate::with_paths(sent, routes),
        r.key,
        r.path.local_path_id,
    );
}

// ---------------------------------------------------------------------------
// Withdrawals
// ---------------------------------------------------------------------------

/// From a peer that takes several paths each stale path with an identifier is
/// withdrawn by it, in their order.
pub proof fn law_paths_are_withdrawn_by_identifier(
    key: RouteKeyView,
    stale: Seq<PathView>,
    exported: Seq<RoutePathView>,
)
    ensures
        propagate::route_withdrawals(key, stale, exported, true) == stale.filter(
            |p: PathView| p.local_path_id is Some,
        ).map_values(|p: PathView| (key, p.local_path_id)),
    decreases stale.len(),
{
    reveal(Seq::filter);
    let f = |p: PathView| p.local_path_id is Some;
    let g = |p: PathView| (key, p.local_path_id);
    if stale.len() > 0 {
        law_paths_are_withdrawn_by_identifier(key, stale.drop_last(), exported);
        let before = stale.drop_last().filter(f);
        if f(stale.last()) {
            assert(before.push(stale.last()).map_values(g) =~= before.map_values(g).push(
                g(stale.last()),
            ));
        }
    }
    assert(propagate::path_withdrawals(key, stale) =~= stale.filter(f).map_values(g));
}

/// From a peer that takes one path of a route, the route is withdrawn exactly if it
/// was told of a path and is now told of none.
pub proof fn law_routes_are_withdrawn_whole(
    key: RouteKeyView,
    stale: Seq<PathView>,
    exported: Seq<RoutePathView>,
)
    ensures
        stale.len() > 0 && exported.len() == 0 ==> propagate::route_withdrawals(
            key,
            stale,
            exported,
            false,
        ) == seq![(key, None::<u32>)],
        stale.len() == 0 || exported.len() > 0 ==> propagate::route_withdrawals(
            key,
            stale,
            exported,
            false,
        ).len() == 0,
{
}

/// A message withdraws a route, in a message of its family.
pub open spec fn withdraws(
    m: UpdateView,
    key: RouteKeyView,
    id: Option<u32>,
    format: MessageFormat,
) -> bool {
    match (m, key) {
        (UpdateView::Withdraw { withdrawn, format: f }, RouteKeyView::Prefix(p)) => {
            f == format && withdrawn.contains((p, id))
        },
        (UpdateView::WithdrawLs { objects, afi_safi, format: f }, RouteKeyView::LinkState(n)) => {
            &&& f == format
            &&& afi_safi.afi == Afi::LinkState
            &&& n.route_distinguisher is Some ==> afi_safi.safi == Safi::LinkStateVpn
            &&& n.route_distinguisher is None ==> afi_safi.safi == Safi::LinkState
            &&& objects.contains((n, id))
        },
        _ => false,
    }
}

proof fn lemma_withdrawn_prefixes(w: Seq<(RouteKeyView, Option<u32>)>)
    ensures
        forall|k: int|
            0 <= k < w.len() ==> match (#[trigger] w[k]).0 {
                RouteKeyView::Prefix(p) => propagate::withdrawn_prefixes(w).contains((p, w[k].1)),
                RouteKeyView::LinkState(_) => true,
            },
        forall|j: int|
            0 <= j < propagate::withdrawn_prefixes(w).len() ==> w.contains(
                (
                    RouteKeyView::Prefix((#[trigger] propagate::withdrawn_prefixes(w)[j]).0),
                    propagate::withdrawn_prefixes(w)[j].1,
                ),
            ),
    decreases w.len(),
{
    if w.len() > 0 {
        let d = w.drop_last();
        let old = propagate::withdrawn_prefixes(d);
        let new = propagate::withdrawn_prefixes(w);
        lemma_withdrawn_prefixes(d);
        assert forall|k: int| 0 <= k < w.len() implies match (#[trigger] w[k]).0 {
            RouteKeyView::Prefix(p) => new.contains((p, w[k].1)),
            RouteKeyView::LinkState(_) => true,
        } by {
            if let RouteKeyView::Prefix(p) = w[k].0 {
                if k < d.len() {
                    assert(d[k] == w[k]);
                    let j = choose|j: int| 0 <= j < old.len() && old[j] == (p, w[k].1);
                    assert(new[j] == (p, w[k].1));
                } else {
                    assert(new[new.len() - 1] == (p, w[k].1));
                }
            }
        }
        assert forall|j: int| 0 <= j < new.len() implies w.contains(
            (RouteKeyView::Prefix((#[trigger] new[j]).0), new[j].1),
        ) by {
            if j < old.len() {
                assert(new[j] == old[j]);
                let k = choose|k: int|
                    0 <= k < d.len() && d[k] == (RouteKeyView::Prefix(old[j].0), old[j].1);
                assert(w[k] == d[k]);
            } else {
                assert(w[w.len() - 1] == (RouteKeyView::Prefix(new[j].0), new[j].1));
            }
        }
    }
}

proof fn lemma_withdrawn_ls(w: Seq<(RouteKeyView, Option<u32>)>, family: AfiSafi)
    ensures
        forall|k: int|
            0 <= k < w.len() && (#[trigger] w[k]).0.family() == family ==> match w[k].0 {
                RouteKeyView::LinkState(n) => propagate::withdrawn_ls(w, family).contains(
                    (n, w[k].1),
                ),
                RouteKeyView::Prefix(_) => true,
            },
        forall|j: int|
            0 <= j < propagate::withdrawn_ls(w, family).len() ==> {
                let x = #[trigger] propagate::withdrawn_ls(w, family)[j];
                &&& w.contains((RouteKeyView::LinkState(x.0), x.1))
                &&& RouteKeyView::LinkState(x.0).family() == family
            },
    decreases w.len(),
{
    if w.len() > 0 {
        let d = w.drop_last();
        let old = propagate::withdrawn_ls(d, family);
        let new = propagate::withdrawn_ls(w, family);
        lemma_withdrawn_ls(d, family);
        assert forall|k: int|
            0 <= k < w.len() && (#[trigger] w[k]).0.family() == family implies match w[k].0 {
            RouteKeyView::LinkState(n) => new.contains((n, w[k].1)),
            RouteKeyView::Prefix(_) => true,
        } by {
            if let RouteKeyView::LinkState(n) = w[k].0 {
                if k < d.len() {
                    assert(d[k] == w[k]);
                    let j = choose|j: int| 0 <= j < old.len() && old[j] == (n, w[k].1);
                    assert(new[j] == (n, w[k].1));
                } else {
                    assert(new[new.len() - 1] == (n, w[k].1));
                }
            }
        }
        assert forall|j: int| 0 <= j < new.len() implies {
            let x = #[trigger] new[j];
            &&& w.contains((RouteKeyView::LinkState(x.0), x.1))
            &&& RouteKeyView::LinkState(x.0).family() == family
        } by {
            if j < old.len() {
                assert(new[j] == old[j]);
                let k = choose|k: int|
                    0 <= k < d.len() && d[k] == (RouteKeyView::LinkState(old[j].0), old[j].1);
                assert(w[k] == d[k]);
            } else {
                assert(w[w.len() - 1] == (RouteKeyView::LinkState(new[j].0), new[j].1));
            }
        }
    }
}

/// What is withdrawn is what the messages withdraw: every withdrawal stands in a
/// message of its family, and every entry of a message is a withdrawal.
pub proof fn law_withdrawals_are_sent(
    w: Seq<(RouteKeyView, Option<u32>)>,
    format: MessageFormat,
    key: RouteKeyView,
    id: Option<u32>,
)
    ensures
        w.contains((key, id)) <==> exists|i: int|
            0 <= i < propagate::withdraw_messages(w, format).len() && #[trigger] withdraws(
                propagate::withdraw_messages(w, format)[i],
                key,
                id,
                format,
            ),
        forall|i: int|
            0 <= i < propagate::withdraw_messages(w, format).len() ==> match
            #[trigger] propagate::withdraw_messages(w, format)[i] {
                UpdateView::Withdraw { withdrawn, format: f } => withdrawn.len() > 0 && f == format,
                UpdateView::WithdrawLs { objects, afi_safi: _, format: f } => objects.len() > 0
                    && f == format,
                _ => false,
            },
{
    let plain = AfiSafi { afi: Afi::LinkState, safi: Safi::LinkState };
    let vpn = AfiSafi { afi: Afi::LinkState, safi: Safi::LinkStateVpn };
    lemma_withdrawn_prefixes(w);
    lemma_withdrawn_ls(w, plain);
    lemma_withdrawn_ls(w, vpn);
    let m = propagate::withdraw_messages(w, format);
    let a = propagate::withdrawn_prefixes(w);
    let b = propagate::withdrawn_ls(w, plain);
    let c = propagate::withdrawn_ls(w, vpn);
    let na: int = if a.len() == 0 { 0 } else { 1 };
    let nb: int = if b.len() == 0 { 0 } else { 1 };
    let nc: int = if c.len() == 0 { 0 } else { 1 };
    assert(m.len() == na + nb + nc);
    if a.len() > 0 {
        assert(m[0] == (UpdateView::Withdraw { withdrawn: a, format }));
    }
    if b.len() > 0 {
        assert(m[na] == (UpdateView::WithdrawLs { objects: b, afi_safi: plain, format }));
    }
    if c.len() > 0 {
        assert(m[na + nb] == (UpdateView::WithdrawLs { objects: c, afi_safi: vpn, format }));
    }
    if w.contains((key, id)) {
        let k = choose|k: int| 0 <= k < w.len() && w[k] == (key, id);
        match key {
            RouteKeyView::Prefix(p) => {
                assert(a.contains((p, w[k].1)));
                assert(withdraws(m[0], key, id, format));
            },
            RouteKeyView::LinkState(n) => {
                if n.route_distinguisher is Some {
                    assert(w[k].0.family() == vpn);
                    assert(c.contains((n, w[k].1)));
                    assert(withdraws(m[na + nb], key, id, format));
                } else {
                    assert(w[k].0.family() == plain);
                    assert(b.contains((n, w[k].1)));
                    assert(withdraws(m[na], key, id, format));
                }
            },
        }
    }
    if exists|i: int| 0 <= i < m.len() && #[trigger] withdraws(m[i], key, id, format) {
        let i = choose|i: int| 0 <= i < m.len() && #[trigger] withdraws(m[i], key, id, format);
        match key {
            RouteKeyView::Prefix(p) => {
                assert(i == 0 && a.len() > 0);
                let j = choose|j: int| 0 <= j < a.len() && a[j] == (p, id);
                assert(w.contains((RouteKeyView::Prefix(a[j].0), a[j].1)));
            },
            RouteKeyView::LinkState(n) => {
                if i < na + nb {
                    assert(i == na && b.len() > 0);
                    let j = choose|j: int| 0 <= j < b.len() && b[j] == (n, id);
                    assert(w.contains((RouteKeyView::LinkState(b[j].0), b[j].1)));
                } else {
                    assert(i == na + nb && c.len() > 0);
                    let j = choose|j: int| 0 <= j < c.len() && c[j] == (n, id);
                    assert(w.contains((RouteKeyView::LinkState(c[j].0), c[j].1)));
                }
            },
        }
    }
}

// ---------------------------------------------------------------------------
// Announcements
// ---------------------------------------------------------------------------

/// Routes share a message exactly if they are of one family, have the same
/// attributes, and go by the same path identifier.
pub proof fn law_routes_that_share_a_message(b: BatchView, r: RoutePathView)
    ensures
        b.takes(r) <==> b.afi_safi == r.key.family() && b.path.attrs == r.path.attrs
            && b.path.local_path_id == r.path.local_path_id,
{
}

/// The message of a batch names its path and its routes in their order.
pub proof fn law_messages_name_their_routes(b: BatchView, format: MessageFormat)
    requires
        forall|i: int| 0 <= i < b.keys.len() ==> (#[trigger] b.keys[i]).family() == b.afi_safi,
    ensures
        match b.update(format) {
            UpdateView::Announce { path, prefixes, format: f } => {
                &&& b.afi_safi.afi != Afi::LinkState
                &&& path == b.path
                &&& f == format
                &&& prefixes.len() == b.keys.len()
                &&& forall|i: int|
                    0 <= i < b.keys.len() ==> b.keys[i] == RouteKeyView::Prefix(
                        #[trigger] prefixes[i],
                    )
            },
            UpdateView::AnnounceLs { path, nlri, afi_safi, format: f } => {
                &&& b.afi_safi.afi == Afi::LinkState
                &&& afi_safi == b.afi_safi
                &&& path == b.path
                &&& f == format
                &&& nlri.len() == b.keys.len()
                &&& forall|i: int|
                    0 <= i < b.keys.len() ==> b.keys[i] == RouteKeyView::LinkState(
                        #[trigger] nlri[i],
                    )
            },
            _ => false,
        },
{
    lemma_one_kind(b.keys, b.afi_safi);
}

proof fn lemma_one_kind(keys: Seq<RouteKeyView>, family: AfiSafi)
    requires
        forall|i: int| 0 <= i < keys.len() ==> (#[trigger] keys[i]).family() == family,
    ensures
        family.afi != Afi::LinkState ==> propagate::prefixes_of(keys).len() == keys.len()
            && forall|i: int|
            0 <= i < keys.len() ==> keys[i] == RouteKeyView::Prefix(
                #[trigger] propagate::prefixes_of(keys)[i],
            ),
        family.afi == Afi::LinkState ==> propagate::ls_of(keys).len() == keys.len() && forall|
            i: int,
        |
            0 <= i < keys.len() ==> keys[i] == RouteKeyView::LinkState(
                #[trigger] propagate::ls_of(keys)[i],
            ),
    decreases keys.len(),
{
    if keys.len() > 0 {
        let d = keys.drop_last();
        assert forall|i: int| 0 <= i < d.len() implies (#[trigger] d[i]).family() == family by {
            assert(d[i] == keys[i]);
        }
        lemma_one_kind(d, family);
        assert(keys[keys.len() - 1].family() == family);
        if family.afi != Afi::LinkState {
            assert forall|i: int| 0 <= i < keys.len() implies keys[i] == RouteKeyView::Prefix(
                #[trigger] propagate::prefixes_of(keys)[i],
            ) by {
                if i < d.len() {
                    assert(propagate::prefixes_of(keys)[i] == propagate::prefixes_of(d)[i]);
                    assert(d[i] == keys[i]);
                }
            }
        } else {
            assert forall|i: int| 0 <= i < keys.len() implies keys[i] == RouteKeyView::LinkState(
                #[trigger] propagate::ls_of(keys)[i],
            ) by {
                if i < d.len() {
                    assert(propagate::ls_of(keys)[i] == propagate::ls_of(d)[i]);
                    assert(d[i] == keys[i]);
                }
            }
        }
    }
}

/// An announcement is sent if it takes at most 4096 octets; other messages are sent
/// whatever they take.
pub proof fn law_long_announcements_are_not_sent(m: UpdateView, size: int)
    ensures
        m is Announce || m is AnnounceLs ==> (m.sendable(size) <==> size <= 4096),
        !(m is Announce) && !(m is AnnounceLs) ==> m.sendable(size),
{
}

/// A message is sent as its size allows; one without a size is not.
pub proof fn law_messages_are_sent_by_size(
    messages: Seq<UpdateView>,
    m: UpdateView,
    sizes: Seq<usize>,
)
    ensures
        sending::sent_messages(Seq::empty(), sizes).len() == 0,
        sending::sent_messages(messages.push(m), sizes) == (if messages.len() < sizes.len() && (!(
        m is Announce || m is AnnounceLs) || sizes[messages.len() as int] <= 4096) {
            sending::sent_messages(messages, sizes).push(m)
        } else {
            sending::sent_messages(messages, sizes)
        }),
{
    assert(messages.push(m).drop_last() =~= messages);
}

// ---------------------------------------------------------------------------
// Changes
// ---------------------------------------------------------------------------

/// A path of one of the routes is selected for a peer.
pub open spec fn is_selected(
    keys: Seq<RouteKeyView>,
    family: AfiSafi,
    loc_rib: LocRib,
    c: ExportView,
    x: RoutePathView,
) -> bool {
    exists|k: int|
        0 <= k < keys.len() && (#[trigger] keys[k]).family() == family && propagate::selected(
            keys[k],
            c.send_format.add_path.has(family),
            loc_rib.paths(keys[k]),
            c,
        ).contains(x)
}

/// What a peer is told of changes in a family: the selected paths of each changed
/// route of the family, and nothing else.
pub proof fn law_changes_are_told(
    sent: Seq<RoutePathView>,
    keys: Seq<RouteKeyView>,
    family: AfiSafi,
    loc_rib: LocRib,
    c: ExportView,
    x: RoutePathView,
)
    ensures
        propagate::routes_steps(sent, keys, family, loc_rib, c).announcements.contains(x)
            <==> is_selected(keys, family, loc_rib, c, x),
    decreases keys.len(),
{
    if keys.len() > 0 {
        let d = keys.drop_last();
        let n = keys.len() - 1;
        law_changes_are_told(sent, d, family, loc_rib, c, x);
        let old = propagate::routes_steps(sent, d, family, loc_rib, c).announcements;
        let new = propagate::routes_steps(sent, keys, family, loc_rib, c).announcements;
        let own = propagate::selected(
            keys[n],
            c.send_format.add_path.has(family),
            loc_rib.paths(keys[n]),
            c,
        );
        if is_selected(d, family, loc_rib, c, x) {
            let k = choose|k: int|
                0 <= k < d.len() && (#[trigger] d[k]).family() == family && propagate::selected(
                    d[k],
                    c.send_format.add_path.has(family),
                    loc_rib.paths(d[k]),
                    c,
                ).contains(x);
            assert(keys[k] == d[k]);
            assert(is_selected(keys, family, loc_rib, c, x));
            lemma_contains_more(old, new, x);
        } else if keys[n].family() == family && own.contains(x) {
            assert(is_selected(keys, family, loc_rib, c, x));
            let j = choose|j: int| 0 <= j < own.len() && own[j] == x;
            assert(new[old.len() + j] == x);
        } else {
            if is_selected(keys, family, loc_rib, c, x) {
                let k = choose|k: int|
                    0 <= k < keys.len() && (#[trigger] keys[k]).family() == family
                        && propagate::selected(
                        keys[k],
                        c.send_format.add_path.has(family),
                        loc_rib.paths(keys[k]),
                        c,
                    ).contains(x);
                assert(k < d.len());
                assert(d[k] == keys[k]);
            }
            if new.contains(x) {
                let j = choose|j: int| 0 <= j < new.len() && new[j] == x;
                if j < old.len() {
                    assert(old[j] == x);
                } else {
                    assert(own[j - old.len()] == x);
                }
            }
        }
    }
}

proof fn lemma_stale_have_the_key(
    sent: Seq<RoutePathView>,
    key: RouteKeyView,
    stale: Seq<PathView>,
    e: RoutePathView,
)
    requires
        sent.contains(e),
        e.key != key,
    ensures
        propagate::without_stale(sent, key, stale).contains(e),
    decreases stale.len(),
{
    if stale.len() > 0 {
        lemma_stale_have_the_key(sent, key, stale.drop_last(), e);
        let before = propagate::without_stale(sent, key, stale.drop_last());
        if let Some(id) = stale.last().local_path_id {
            law_forgotten_paths(before, key, Some(id));
            let f = |x: RoutePathView| !(x.key == key && x.path.local_path_id == Some(id));
            let i = choose|i: int| 0 <= i < before.len() && before[i] == e;
            before.lemma_filter_contains(f, i);
        }
    }
}

proof fn lemma_other_routes_stay_noted(
    sent: Seq<RoutePathView>,
    keys: Seq<RouteKeyView>,
    family: AfiSafi,
    loc_rib: LocRib,
    c: ExportView,
    e: RoutePathView,
)
    requires
        sent.contains(e),
        forall|j: int| 0 <= j < keys.len() ==> #[trigger] keys[j] != e.key,
    ensures
        propagate::routes_steps(sent, keys, family, loc_rib, c).sent.contains(e),
    decreases keys.len(),
{
    if keys.len() > 0 {
        let d = keys.drop_last();
        assert forall|j: int| 0 <= j < d.len() implies #[trigger] d[j] != e.key by {
            assert(d[j] == keys[j]);
        }
        lemma_other_routes_stay_noted(sent, d, family, loc_rib, c, e);
        let key = keys.last();
        assert(keys[keys.len() - 1] != e.key);
        if key.family() == family {
            let before = propagate::routes_steps(sent, d, family, loc_rib, c);
            let own = propagate::selected(
                key,
                c.send_format.add_path.has(family),
                loc_rib.paths(key),
                c,
            );
            lemma_stale_have_the_key(before.sent, key, rib::stale_of(before.sent, key, own), e);
        }
    }
}

/// What a peer was told of a route that changed, and is not told now, is withdrawn
/// from it: by its identifier from a peer that takes several paths, and with the
/// route, if nothing is left to tell of it, from any other.
pub proof fn law_lost_paths_are_withdrawn(
    sent: Seq<RoutePathView>,
    keys: Seq<RouteKeyView>,
    family: AfiSafi,
    loc_rib: LocRib,
    c: ExportView,
    e: RoutePathView,
    k: int,
)
    requires
        sent.contains(e),
        0 <= k < keys.len(),
        keys[k] == e.key,
        forall|j: int| 0 <= j < k ==> #[trigger] keys[j] != e.key,
        e.key.family() == family,
    ensures
        ({
            let lost = propagate::routes_steps(sent, keys, family, loc_rib, c).withdrawals;
            let several = c.send_format.add_path.has(family);
            let now = propagate::selected(e.key, several, loc_rib.paths(e.key), c);
            &&& several && e.path.local_path_id is Some && (forall|i: int|
                0 <= i < now.len() ==> (#[trigger] now[i]).path.local_path_id
                    != e.path.local_path_id) ==> lost.contains((e.key, e.path.local_path_id))
            &&& !several && now.len() == 0 ==> lost.contains((e.key, None::<u32>))
        }),
    decreases keys.len(),
{
    let d = keys.drop_last();
    let several = c.send_format.add_path.has(family);
    let now = propagate::selected(e.key, several, loc_rib.paths(e.key), c);
    let before = propagate::routes_steps(sent, d, family, loc_rib, c);
    let after = propagate::routes_steps(sent, keys, family, loc_rib, c);
    if k < d.len() {
        assert forall|j: int| 0 <= j < k implies #[trigger] d[j] != e.key by {
            assert(d[j] == keys[j]);
        }
        law_lost_paths_are_withdrawn(sent, d, family, loc_rib, c, e, k);
        if before.withdrawals.contains((e.key, e.path.local_path_id)) {
            lemma_contains_more(
                before.withdrawals,
                after.withdrawals,
                (e.key, e.path.local_path_id),
            );
        }
        if before.withdrawals.contains((e.key, None::<u32>)) {
            lemma_contains_more(before.withdrawals, after.withdrawals, (e.key, None::<u32>));
        }
    } else {
        assert forall|j: int| 0 <= j < d.len() implies #[trigger] d[j] != e.key by {
            assert(d[j] == keys[j]);
        }
        lemma_other_routes_stay_noted(sent, d, family, loc_rib, c, e);
        let stale = rib::stale_of(before.sent, e.key, now);
        let own = propagate::route_withdrawals(e.key, stale, now, several);
        let f = |x: RoutePathView|
            x.key == e.key && forall|i: int|
                0 <= i < now.len() ==> (#[trigger] now[i]).path.local_path_id
                    != x.path.local_path_id;
        law_stale_paths(before.sent, e.key, now);
        let i = choose|i: int| 0 <= i < before.sent.len() && before.sent[i] == e;
        if f(e) {
            before.sent.lemma_filter_contains(f, i);
            let kept = before.sent.filter(f);
            let j = choose|j: int| 0 <= j < kept.len() && kept[j] == e;
            assert(stale[j] == e.path);
            if several && e.path.local_path_id is Some {
                let g = |p: PathView| p.local_path_id is Some;
                law_paths_are_withdrawn_by_identifier(e.key, stale, now);
                stale.lemma_filter_contains(g, j);
                let named = stale.filter(g);
                let l = choose|l: int| 0 <= l < named.len() && named[l] == stale[j];
                assert(own[l] == (e.key, e.path.local_path_id));
                assert(after.withdrawals[before.withdrawals.len() + l] == own[l]);
            }
            if !several && now.len() == 0 {
                assert(own[0] == (e.key, None::<u32>));
                assert(after.withdrawals[before.withdrawals.len() as int] == own[0]);
            }
        }
    }
}

proof fn lemma_contains_more<T>(a: Seq<T>, b: Seq<T>, x: T)
    requires
        a.contains(x),
        b.len() >= a.len(),
        forall|i: int| 0 <= i < a.len() ==> #[trigger] b[i] == a[i],
    ensures
        b.contains(x),
{
    let i = choose|i: int| 0 <= i < a.len() && a[i] == x;
    assert(b[i] == x);
}

/// The messages to a peer about a family withdraw what it loses and carry what it is
/// told; what it was told is noted.
pub proof fn law_changes_are_sent(
    sent: Seq<RoutePathView>,
    delta: RouteDelta,
    family: AfiSafi,
    loc_rib: LocRib,
    c: ExportView,
)
    ensures
        ({
            let keys = propagate::relevant_keys(delta, family, c);
            let steps = propagate::routes_steps(sent, keys, family, loc_rib, c);
            let (messages, noted) = propagate::family_update(sent, delta, family, loc_rib, c);
            &&& forall|k: int|
                0 <= k < steps.announcements.len() ==> sending::carried(
                    messages,
                    #[trigger] steps.announcements[k],
                )
            &&& forall|k: int|
                0 <= k < steps.withdrawals.len() ==> withdrawn_by(
                    messages,
                    #[trigger] steps.withdrawals[k],
                    c.send_format,
                )
            &&& noted == propagate::with_paths(steps.sent, steps.announcements)
        }),
{
    let keys = propagate::relevant_keys(delta, family, c);
    let steps = propagate::routes_steps(sent, keys, family, loc_rib, c);
    let (messages, noted) = propagate::family_update(sent, delta, family, loc_rib, c);
    let w = propagate::withdraw_messages(steps.withdrawals, c.send_format);
    let a = propagate::announce_messages(propagate::batched(steps.announcements), c.send_format);
    assert(messages == w + a);
    assert forall|k: int| 0 <= k < steps.announcements.len() implies sending::carried(
        messages,
        #[trigger] steps.announcements[k],
    ) by {
        let r = steps.announcements[k];
        sending::lemma_batch_carries(steps.announcements, k, c.send_format);
        let i = choose|i: int| 0 <= i < a.len() && #[trigger] sending::carries(a[i], r);
        assert(messages[w.len() + i] == a[i]);
        assert(sending::carries(messages[w.len() + i], r));
    }
    assert forall|k: int| 0 <= k < steps.withdrawals.len() implies withdrawn_by(
        messages,
        #[trigger] steps.withdrawals[k],
        c.send_format,
    ) by {
        let x = steps.withdrawals[k];
        law_withdrawals_are_sent(steps.withdrawals, c.send_format, x.0, x.1);
        assert(steps.withdrawals.contains((x.0, x.1)));
        let i = choose|i: int|
            0 <= i < w.len() && #[trigger] withdraws(w[i], x.0, x.1, c.send_format);
        assert(messages[i] == w[i]);
        assert(withdraws(messages[i], x.0, x.1, c.send_format));
    }
}

/// One of the messages withdraws a route.
pub open spec fn withdrawn_by(
    messages: Seq<UpdateView>,
    w: (RouteKeyView, Option<u32>),
    format: MessageFormat,
) -> bool {
    exists|i: int| 0 <= i < messages.len() && #[trigger] withdraws(messages[i], w.0, w.1, format)
}

/// The messages to a peer are those about each of its families, one family after
/// the other; what is noted of it after one is where the next begins.
pub proof fn law_families_follow_each_other(
    sent: Seq<RoutePathView>,
    delta: RouteDelta,
    families: Seq<AfiSafi>,
    family: AfiSafi,
    loc_rib: LocRib,
    c: ExportView,
)
    ensures
        propagate::families_update(sent, delta, Seq::empty(), loc_rib, c) == (
            Seq::<UpdateView>::empty(),
            sent,
        ),
        ({
            let (before, noted) = propagate::families_update(sent, delta, families, loc_rib, c);
            let (own, end) = propagate::family_update(noted, delta, family, loc_rib, c);
            propagate::families_update(sent, delta, families.push(family), loc_rib, c) == (
                before + own,
                end,
            )
        }),
{
    assert(families.push(family).drop_last() =~= families);
}

/// Of the messages about changes those are sent that are short enough, in their order;
/// what is noted of the peer does not depend on that. Of all routes those count as sent
/// that a peer is told and one of the messages that are sent carries.
pub proof fn law_what_is_sent(
    sent: Seq<RoutePathView>,
    delta: RouteDelta,
    families: Seq<AfiSafi>,
    loc_rib: LocRib,
    c: ExportView,
    sizes: Seq<usize>,
    routes: Seq<RoutePathView>,
    format: MessageFormat,
    r: RoutePathView,
)
    ensures
        ({
            let (messages, noted) = propagate::families_update(sent, delta, families, loc_rib, c);
            propagate::changes_sent(sent, delta, families, loc_rib, c, sizes) == (
                sending::sent_messages(messages, sizes),
                noted,
            )
        }),
        ({
            let (told, messages) = sending::all_sent(routes, c, format, sizes);
            &&& messages == sending::sent_messages(
                sending::chunk_messages(routes, c, format),
                sizes,
            )
            &&& told.contains(r) <==> outgoing::export_routes(routes, c).contains(r)
                && sending::carried(messages, r)
        }),
{
    let (told, messages) = sending::all_sent(routes, c, format, sizes);
    let all = outgoing::export_routes(routes, c);
    let f = |x: RoutePathView| sending::carried(messages, x);
    if all.contains(r) && f(r) {
        let i = choose|i: int| 0 <= i < all.len() && all[i] == r;
        all.lemma_filter_contains(f, i);
    }
    if told.contains(r) {
        let j = choose|j: int| 0 <= j < told.len() && told[j] == r;
        all.lemma_filter_pred(f, j);
        all.lemma_filter_contains_rev(f, r);
    }
}

} // verus!
