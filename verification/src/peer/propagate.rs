//! Passing route changes on to a peer: which paths it gets, how announcements
//! share messages, and what is withdrawn.

use crate::bgp::bgpls::{LsNlri, LsNlriView};
use crate::bgp::msg::MessageFormat;
use crate::bgp::multiprotocol;
use crate::bgp::multiprotocol::{Afi, AfiSafi, Safi};
use crate::bgp::update_message;
use crate::bgp::update_message::{UpdateMessage, UpdateView};
use crate::net::network::IpNetwork;
use crate::peer::outgoing;
use crate::peer::outgoing::{compute_export_path, ExportView, PeerExportContext};
use crate::peer::sending;
use crate::peer::sending::keep_sendable;
use crate::rib;
use crate::rib::{
    share, AdjRibOut, LocRib, Path, PathView, RouteDelta, RouteKey, RouteKeyView, RoutePath,
    RoutePathView, Withdrawal,
};
use crate::seqs;
use std::sync::Arc;
use vstd::prelude::*;

verus! {

// ---------------------------------------------------------------------------
// Batches
// ---------------------------------------------------------------------------

/// Routes of one family that share their attributes and their local path
/// identifier.
#[derive(Debug, PartialEq)]
pub struct AnnouncementBatch {
    pub afi_safi: AfiSafi,
    pub path: Arc<Path>,
    pub keys: Vec<RouteKey>,
}

pub struct BatchView {
    pub afi_safi: AfiSafi,
    pub path: PathView,
    pub keys: Seq<RouteKeyView>,
}

impl View for AnnouncementBatch {
    type V = BatchView;

    open spec fn view(&self) -> BatchView {
        BatchView { afi_safi: self.afi_safi, path: self.path@, keys: seqs::views(self.keys@) }
    }
}

impl Clone for AnnouncementBatch {
    fn clone(&self) -> (r: Self)
        ensures
            r@ == self@,
    {
        let ghost all = seqs::views(self.keys@);
        let mut keys: Vec<RouteKey> = Vec::new();
        let mut i: usize = 0;
        assert(seqs::views(keys@) =~= all.take(0));
        while i < self.keys.len()
            invariant
                i <= self.keys@.len(),
                all == seqs::views(self.keys@),
                seqs::views(keys@) == all.take(i as int),
            decreases self.keys.len() - i,
        {
            let x = self.keys[i].clone();
            proof {
                seqs::lemma_views_push(keys@, x);
                seqs::lemma_take_next(all, i as int);
            }
            keys.push(x);
            i = i + 1;
        }
        proof {
            seqs::lemma_take_all(all);
        }
        AnnouncementBatch { afi_safi: self.afi_safi, path: share(&self.path), keys }
    }
}

/// The prefixes among keys.
pub open spec fn prefixes_of(keys: Seq<RouteKeyView>) -> Seq<IpNetwork>
    decreases keys.len(),
{
    if keys.len() == 0 {
        Seq::empty()
    } else {
        match keys.last() {
            RouteKeyView::Prefix(p) => prefixes_of(keys.drop_last()).push(p),
            RouteKeyView::LinkState(_) => prefixes_of(keys.drop_last()),
        }
    }
}

/// The link-state objects among keys.
pub open spec fn ls_of(keys: Seq<RouteKeyView>) -> Seq<LsNlriView>
    decreases keys.len(),
{
    if keys.len() == 0 {
        Seq::empty()
    } else {
        match keys.last() {
            RouteKeyView::Prefix(_) => ls_of(keys.drop_last()),
            RouteKeyView::LinkState(n) => ls_of(keys.drop_last()).push(n),
        }
    }
}

impl BatchView {
    /// A route belongs into the batch.
    pub open spec fn takes(self, r: RoutePathView) -> bool {
        &&& self.afi_safi == r.key.family()
        &&& self.path.attrs == r.path.attrs
        &&& self.path.local_path_id == r.path.local_path_id
    }

    /// The message that announces the batch.
    pub open spec fn update(self, format: MessageFormat) -> UpdateView {
        match self.afi_safi.afi {
            Afi::LinkState => UpdateView::AnnounceLs {
                path: self.path,
                nlri: ls_of(self.keys),
                afi_safi: self.afi_safi,
                format,
            },
            _ => UpdateView::Announce { path: self.path, prefixes: prefixes_of(self.keys), format },
        }
    }
}

impl AnnouncementBatch {
    /// The message that announces the batch.
    pub fn to_update(&self, format: MessageFormat) -> (r: UpdateMessage)
        ensures
            r@ == self@.update(format),
    {
        let ghost all = seqs::views(self.keys@);
        let mut prefixes: Vec<IpNetwork> = Vec::new();
        let mut nlri: Vec<LsNlri> = Vec::new();
        let mut i: usize = 0;
        assert(seqs::views(nlri@) =~= Seq::<LsNlriView>::empty());
        while i < self.keys.len()
            invariant
                i <= self.keys@.len(),
                all == seqs::views(self.keys@),
                prefixes@ == prefixes_of(all.take(i as int)),
                seqs::views(nlri@) == ls_of(all.take(i as int)),
            decreases self.keys.len() - i,
        {
            proof {
                assert(all.take(i + 1).drop_last() =~= all.take(i as int));
                assert(all.take(i + 1).last() == self.keys@[i as int]@);
            }
            match &self.keys[i] {
                RouteKey::Prefix(p) => {
                    prefixes.push(*p);
                },
                RouteKey::LinkState(n) => {
                    let x: LsNlri = (**n).clone();
                    proof {
                        seqs::lemma_views_push(nlri@, x);
                    }
                    nlri.push(x);
                },
            }
            i = i + 1;
        }
        proof {
            seqs::lemma_take_all(all);
        }
        match self.afi_safi.afi {
            Afi::Ipv4 | Afi::Ipv6 => UpdateMessage::Announce {
                path: share(&self.path),
                prefixes,
                format,
            },
            Afi::LinkState => UpdateMessage::AnnounceLs {
                path: share(&self.path),
                nlri,
                afi_safi: self.afi_safi,
                format,
            },
        }
    }
}

/// The place of the first batch that takes a route; the number of batches where
/// none does.
pub open spec fn slot(batches: Seq<BatchView>, r: RoutePathView) -> int
    decreases batches.len(),
{
    if batches.len() == 0 {
        0
    } else if batches[0].takes(r) {
        0
    } else {
        1 + slot(batches.skip(1), r)
    }
}

/// The batches with one more route.
pub open spec fn with_route(batches: Seq<BatchView>, r: RoutePathView) -> Seq<BatchView> {
    let i = slot(batches, r);
    if i < batches.len() {
        batches.update(i, BatchView { keys: batches[i].keys.push(r.key), ..batches[i] })
    } else {
        batches.push(BatchView { afi_safi: r.key.family(), path: r.path, keys: seq![r.key] })
    }
}

/// Routes in batches, in the order in which the batches were opened.
pub open spec fn batched(routes: Seq<RoutePathView>) -> Seq<BatchView>
    decreases routes.len(),
{
    if routes.len() == 0 {
        Seq::empty()
    } else {
        with_route(batched(routes.drop_last()), routes.last())
    }
}

/// The keys of the routes that a batch takes, in their order.
pub open spec fn keys_taken(b: BatchView, routes: Seq<RoutePathView>) -> Seq<RouteKeyView>
    decreases routes.len(),
{
    if routes.len() == 0 {
        Seq::empty()
    } else if b.takes(routes.last()) {
        keys_taken(b, routes.drop_last()).push(routes.last().key)
    } else {
        keys_taken(b, routes.drop_last())
    }
}

/// A batch takes the route.
pub open spec fn taken(batches: Seq<BatchView>, r: RoutePathView) -> bool {
    exists|i: int| 0 <= i < batches.len() && #[trigger] batches[i].takes(r)
}

pub(crate) proof fn lemma_slot(batches: Seq<BatchView>, r: RoutePathView)
    ensures
        0 <= slot(batches, r) <= batches.len(),
        slot(batches, r) < batches.len() ==> batches[slot(batches, r)].takes(r),
        forall|j: int| 0 <= j < slot(batches, r) ==> !(#[trigger] batches[j]).takes(r),
    decreases batches.len(),
{
    if batches.len() > 0 && !batches[0].takes(r) {
        let rest = batches.skip(1);
        lemma_slot(rest, r);
        assert forall|j: int| 0 <= j < slot(batches, r) implies !(#[trigger] batches[j]).takes(
            r,
        ) by {
            if j > 0 {
                assert(batches[j] == rest[j - 1]);
            }
        }
    }
}

/// A batch holds the keys of exactly those routes that belong into it, in their
/// order; every route belongs into a batch; no two batches take one route.
pub proof fn law_batches_partition_routes(routes: Seq<RoutePathView>)
    ensures
        forall|i: int|
            0 <= i < batched(routes).len() ==> (#[trigger] batched(routes)[i]).keys == keys_taken(
                batched(routes)[i],
                routes,
            ),
        forall|k: int| 0 <= k < routes.len() ==> taken(batched(routes), #[trigger] routes[k]),
        forall|i: int, j: int, r: RoutePathView|
            0 <= i < batched(routes).len() && 0 <= j < batched(routes).len()
                && #[trigger] batched(routes)[i].takes(r) && #[trigger] batched(routes)[j].takes(r)
                ==> i == j,
    decreases routes.len(),
{
    if routes.len() > 0 {
        let p = routes.drop_last();
        let r = routes.last();
        law_batches_partition_routes(p);
        let b = batched(p);
        let c = batched(routes);
        let s = slot(b, r);
        lemma_slot(b, r);
        assert(c == with_route(b, r));
        assert forall|i: int| 0 <= i < c.len() implies (#[trigger] c[i]).keys == keys_taken(
            c[i],
            routes,
        ) by {
            lemma_keys_taken_ignores_keys(c[i], if i < b.len() {
                b[i]
            } else {
                c[i]
            }, p);
            if i == s {
                assert(c[i].takes(r));
                if s == b.len() {
                    assert forall|k: int| 0 <= k < p.len() implies !c[i].takes(#[trigger] p[k]) by {
                        if c[i].takes(p[k]) {
                            assert(taken(b, p[k]));
                            let j = choose|j: int|
                                0 <= j < b.len() && #[trigger] b[j].takes(p[k]);
                            assert(b[j].takes(r));
                        }
                    }
                    lemma_none_taken(c[i], p);
                    assert(c[i].keys =~= keys_taken(c[i], routes));
                }
            } else {
                assert(c[i] == b[i]);
                if b[i].takes(r) {
                    assert(s < b.len());
                    assert(b[s].takes(r));
                }
            }
        }
        assert forall|k: int| 0 <= k < routes.len() implies taken(c, #[trigger] routes[k]) by {
            if k < p.len() {
                assert(routes[k] == p[k]);
                let i = choose|i: int| 0 <= i < b.len() && #[trigger] b[i].takes(p[k]);
                assert(c[i].takes(routes[k]));
            } else {
                assert(c[s].takes(routes[k]));
            }
        }
        assert forall|i: int, j: int, x: RoutePathView|
            0 <= i < c.len() && 0 <= j < c.len() && #[trigger] c[i].takes(x)
                && #[trigger] c[j].takes(x) implies i == j by {
            if i < b.len() && j < b.len() {
                assert(b[i].takes(x) && b[j].takes(x));
            } else if i < b.len() {
                assert(b[i].takes(r));
            } else if j < b.len() {
                assert(b[j].takes(r));
            }
        }
    }
}

proof fn lemma_keys_taken_ignores_keys(a: BatchView, b: BatchView, routes: Seq<RoutePathView>)
    requires
        a.afi_safi == b.afi_safi,
        a.path == b.path,
    ensures
        keys_taken(a, routes) == keys_taken(b, routes),
    decreases routes.len(),
{
    if routes.len() > 0 {
        lemma_keys_taken_ignores_keys(a, b, routes.drop_last());
    }
}

proof fn lemma_none_taken(b: BatchView, routes: Seq<RoutePathView>)
    requires
        forall|k: int| 0 <= k < routes.len() ==> !b.takes(#[trigger] routes[k]),
    ensures
        keys_taken(b, routes).len() == 0,
    decreases routes.len(),
{
    if routes.len() > 0 {
        let p = routes.drop_last();
        assert forall|k: int| 0 <= k < p.len() implies !b.takes(#[trigger] p[k]) by {
            assert(p[k] == routes[k]);
        }
        lemma_none_taken(b, p);
        assert(!b.takes(routes[routes.len() - 1]));
    }
}

fn batch_takes(b: &AnnouncementBatch, afi_safi: &AfiSafi, path: &Path) -> (r: bool)
    ensures
        r == (b.afi_safi == *afi_safi && b.path@.attrs == path@.attrs && b.path@.local_path_id
            == path@.local_path_id),
{
    b.afi_safi == *afi_safi && b.path.local_path_id == path.local_path_id && b.path.attrs.same(
        &path.attrs,
    )
}

/// The place of the first batch that takes a route.
pub fn batch_of(batches: &Vec<AnnouncementBatch>, route: &RoutePath) -> (r: usize)
    ensures
        r == slot(seqs::views(batches@), route@),
        r <= batches@.len(),
{
    let ghost all = seqs::views(batches@);
    let afi_safi = route.key.afi_safi();
    let mut i: usize = 0;
    assert(all.skip(0) =~= all);
    while i < batches.len() && !batch_takes(&batches[i], &afi_safi, &route.path)
        invariant
            i <= batches@.len(),
            all == seqs::views(batches@),
            afi_safi == route@.key.family(),
            slot(all, route@) == i + slot(all.skip(i as int), route@),
        decreases batches.len() - i,
    {
        proof {
            assert(all.skip(i as int)[0] == batches@[i as int]@);
            assert(all.skip(i as int).skip(1) =~= all.skip(i + 1));
        }
        i = i + 1;
    }
    proof {
        if i < batches.len() {
            assert(all.skip(i as int)[0] == batches@[i as int]@);
        }
    }
    i
}

/// Puts a route into its batch, a new one where there is none for it.
fn add_to_batch(batches: &mut Vec<AnnouncementBatch>, route: &RoutePath)
    ensures
        seqs::views(final(batches)@) == with_route(seqs::views(old(batches)@), route@),
{
    let ghost all = seqs::views(batches@);
    let i: usize = batch_of(batches, route);
    if i < batches.len() {
        let mut b = batches.remove(i);
        let key = route.key.clone();
        proof {
            seqs::lemma_views_push(b.keys@, key);
        }
        b.keys.push(key);
        batches.insert(i, b);
        assert(seqs::views(batches@) =~= with_route(all, route@));
    } else {
        let keys: Vec<RouteKey> = vec![route.key.clone()];
        assert(seqs::views(keys@) =~= seq![route@.key]);
        let b = AnnouncementBatch {
            afi_safi: route.key.afi_safi(),
            path: share(&route.path),
            keys,
        };
        proof {
            seqs::lemma_views_push(batches@, b);
        }
        batches.push(b);
    }
}

/// Puts routes into batches, each to be announced by one message.
pub fn batch_announcements(to_announce: &Vec<RoutePath>) -> (r: Vec<AnnouncementBatch>)
    ensures
        seqs::views(r@) == batched(seqs::views(to_announce@)),
{
    let ghost all = seqs::views(to_announce@);
    let mut r: Vec<AnnouncementBatch> = Vec::new();
    let mut i: usize = 0;
    assert(seqs::views(r@) =~= Seq::<BatchView>::empty());
    while i < to_announce.len()
        invariant
            i <= to_announce@.len(),
            all == seqs::views(to_announce@),
            seqs::views(r@) == batched(all.take(i as int)),
        decreases to_announce.len() - i,
    {
        proof {
            assert(all.take(i + 1).drop_last() =~= all.take(i as int));
            assert(all.take(i + 1).last() == to_announce@[i as int]@);
        }
        add_to_batch(&mut r, &to_announce[i]);
        i = i + 1;
    }
    proof {
        seqs::lemma_take_all(all);
    }
    r
}

// ---------------------------------------------------------------------------
// Selection
// ---------------------------------------------------------------------------

/// Every path of a route that the peer is told, in their order.
pub open spec fn all_exported(key: RouteKeyView, paths: Seq<PathView>, c: ExportView) -> Seq<
    RoutePathView,
>
    decreases paths.len(),
{
    if paths.len() == 0 {
        Seq::empty()
    } else {
        let before = all_exported(key, paths.drop_last(), c);
        match outgoing::export_path(key, paths.last(), c) {
            Some(path) => before.push(RoutePathView { key, path }),
            None => before,
        }
    }
}

/// The first path of a route that the peer is told.
pub open spec fn first_exported(key: RouteKeyView, paths: Seq<PathView>, c: ExportView) -> Seq<
    RoutePathView,
>
    decreases paths.len(),
{
    if paths.len() == 0 {
        Seq::empty()
    } else {
        match outgoing::export_path(key, paths[0], c) {
            Some(path) => seq![RoutePathView { key, path }],
            None => first_exported(key, paths.skip(1), c),
        }
    }
}

/// The paths of a route that a peer gets: all that it is told where it takes
/// several, the first that it is told where routes are only served to it, else
/// the preferred one or none.
pub open spec fn selected(
    key: RouteKeyView,
    add_path: bool,
    paths: Seq<PathView>,
    c: ExportView,
) -> Seq<RoutePathView> {
    if add_path {
        all_exported(key, paths, c)
    } else if c.rs_client {
        first_exported(key, paths, c)
    } else {
        all_exported(key, paths.take(if paths.len() == 0 {
            0
        } else {
            1
        }), c)
    }
}

fn export_paths(key: &RouteKey, paths: &Vec<Arc<Path>>, n: usize, ctx: &PeerExportContext) -> (r:
    Vec<RoutePath>)
    requires
        n <= paths@.len(),
    ensures
        seqs::views(r@) == all_exported(key@, rib::path_views(paths@).take(n as int), ctx@),
{
    let ghost all = rib::path_views(paths@);
    let mut r: Vec<RoutePath> = Vec::new();
    let mut i: usize = 0;
    assert(seqs::views(r@) =~= Seq::<RoutePathView>::empty());
    while i < n
        invariant
            i <= n <= paths@.len(),
            all == rib::path_views(paths@),
            seqs::views(r@) == all_exported(key@, all.take(i as int), ctx@),
        decreases n - i,
    {
        proof {
            assert(all.take(i + 1).drop_last() =~= all.take(i as int));
            assert(all.take(i + 1).last() == paths@[i as int]@);
        }
        if let Some(path) = compute_export_path(key, &paths[i], ctx) {
            let y = RoutePath::new(key.clone(), path);
            proof {
                seqs::lemma_views_push(r@, y);
            }
            r.push(y);
        }
        i = i + 1;
    }
    r
}

fn export_first(key: &RouteKey, paths: &Vec<Arc<Path>>, ctx: &PeerExportContext) -> (r: Vec<
    RoutePath,
>)
    ensures
        seqs::views(r@) == first_exported(key@, rib::path_views(paths@), ctx@),
{
    let ghost all = rib::path_views(paths@);
    let mut i: usize = 0;
    assert(all.skip(0) =~= all);
    while i < paths.len()
        invariant
            i <= paths@.len(),
            all == rib::path_views(paths@),
            first_exported(key@, all, ctx@) == first_exported(key@, all.skip(i as int), ctx@),
        decreases paths.len() - i,
    {
        proof {
            assert(all.skip(i as int)[0] == paths@[i as int]@);
            assert(all.skip(i as int).skip(1) =~= all.skip(i + 1));
        }
        if let Some(path) = compute_export_path(key, &paths[i], ctx) {
            let r: Vec<RoutePath> = vec![RoutePath::new(key.clone(), path)];
            assert(seqs::views(r@) =~= first_exported(key@, all.skip(i as int), ctx@));
            return r;
        }
        i = i + 1;
    }
    let r: Vec<RoutePath> = Vec::new();
    assert(seqs::views(r@) =~= Seq::<RoutePathView>::empty());
    r
}

/// The paths of a route that a peer gets.
pub fn select_paths_for_export(
    route_key: &RouteKey,
    send_add_path: bool,
    loc_rib: &LocRib,
    ctx: &PeerExportContext,
) -> (r: Vec<RoutePath>)
    ensures
        seqs::views(r@) == selected(
            route_key@,
            send_add_path,
            loc_rib.paths(route_key@),
            ctx@,
        ),
{
    let paths = loc_rib.get_all_paths(route_key);
    proof {
        seqs::lemma_take_all(rib::path_views(paths@));
    }
    if send_add_path {
        let n: usize = paths.len();
        export_paths(route_key, &paths, n, ctx)
    } else if ctx.rs_client {
        export_first(route_key, &paths, ctx)
    } else {
        let n: usize = if paths.len() == 0 {
            0
        } else {
            1
        };
        export_paths(route_key, &paths, n, ctx)
    }
}

// ---------------------------------------------------------------------------
// Withdrawals
// ---------------------------------------------------------------------------

/// A withdrawal for each path with a local identifier.
pub open spec fn path_withdrawals(key: RouteKeyView, stale: Seq<PathView>) -> Seq<
    (RouteKeyView, Option<u32>),
>
    decreases stale.len(),
{
    if stale.len() == 0 {
        Seq::empty()
    } else {
        let before = path_withdrawals(key, stale.drop_last());
        match stale.last().local_path_id {
            Some(id) => before.push((key, Some(id))),
            None => before,
        }
    }
}

/// What is withdrawn of a route: each stale path by its identifier where the
/// peer takes several, else the route once, if paths are stale and the peer gets
/// no other.
pub open spec fn route_withdrawals(
    key: RouteKeyView,
    stale: Seq<PathView>,
    exported: Seq<RoutePathView>,
    add_path: bool,
) -> Seq<(RouteKeyView, Option<u32>)> {
    if add_path {
        path_withdrawals(key, stale)
    } else if exported.len() == 0 && stale.len() > 0 {
        seq![(key, None::<u32>)]
    } else {
        Seq::empty()
    }
}

/// What is withdrawn of a route.
pub fn build_withdrawals_for_route(
    route_key: &RouteKey,
    stale_paths: &Vec<Arc<Path>>,
    export_paths: &Vec<RoutePath>,
    send_add_path: bool,
) -> (r: Vec<Withdrawal>)
    ensures
        rib::withdrawal_views(r@) == route_withdrawals(
            route_key@,
            rib::path_views(stale_paths@),
            seqs::views(export_paths@),
            send_add_path,
        ),
{
    let ghost all = rib::path_views(stale_paths@);
    let mut r: Vec<Withdrawal> = Vec::new();
    assert(rib::withdrawal_views(r@) =~= Seq::<(RouteKeyView, Option<u32>)>::empty());
    if send_add_path {
        let mut i: usize = 0;
        while i < stale_paths.len()
            invariant
                i <= stale_paths@.len(),
                all == rib::path_views(stale_paths@),
                rib::withdrawal_views(r@) == path_withdrawals(route_key@, all.take(i as int)),
            decreases stale_paths.len() - i,
        {
            proof {
                assert(all.take(i + 1).drop_last() =~= all.take(i as int));
                assert(all.take(i + 1).last() == stale_paths@[i as int]@);
            }
            if let Some(id) = stale_paths[i].local_path_id {
                let ghost before = r@;
                r.push((route_key.clone(), Some(id)));
                assert(rib::withdrawal_views(r@) =~= rib::withdrawal_views(before).push(
                    (route_key@, Some(id)),
                ));
            }
            i = i + 1;
        }
        proof {
            seqs::lemma_take_all(all);
        }
    } else if export_paths.len() == 0 && stale_paths.len() > 0 {
        r.push((route_key.clone(), None));
        assert(rib::withdrawal_views(r@) =~= seq![(route_key@, None::<u32>)]);
    }
    r
}

/// The withdrawn prefixes.
pub open spec fn withdrawn_prefixes(w: Seq<(RouteKeyView, Option<u32>)>) -> Seq<
    (IpNetwork, Option<u32>),
>
    decreases w.len(),
{
    if w.len() == 0 {
        Seq::empty()
    } else {
        match w.last().0 {
            RouteKeyView::Prefix(p) => withdrawn_prefixes(w.drop_last()).push((p, w.last().1)),
            RouteKeyView::LinkState(_) => withdrawn_prefixes(w.drop_last()),
        }
    }
}

/// The withdrawn link-state objects of a family.
pub open spec fn withdrawn_ls(w: Seq<(RouteKeyView, Option<u32>)>, family: AfiSafi) -> Seq<
    (LsNlriView, Option<u32>),
>
    decreases w.len(),
{
    if w.len() == 0 {
        Seq::empty()
    } else {
        let before = withdrawn_ls(w.drop_last(), family);
        match w.last().0 {
            RouteKeyView::LinkState(n) => if w.last().0.family() == family {
                before.push((n, w.last().1))
            } else {
                before
            },
            RouteKeyView::Prefix(_) => before,
        }
    }
}

/// The withdrawn prefixes, link-state objects, and link-state objects of virtual
/// networks, each in their order.
pub fn split_withdrawals(withdrawn: &Vec<Withdrawal>) -> (r: (
    Vec<(IpNetwork, Option<u32>)>,
    Vec<(LsNlri, Option<u32>)>,
    Vec<(LsNlri, Option<u32>)>,
))
    ensures
        r.0@ == withdrawn_prefixes(rib::withdrawal_views(withdrawn@)),
        update_message::ls_withdrawal_views(r.1@) == withdrawn_ls(
            rib::withdrawal_views(withdrawn@),
            multiprotocol::link_state(),
        ),
        update_message::ls_withdrawal_views(r.2@) == withdrawn_ls(
            rib::withdrawal_views(withdrawn@),
            multiprotocol::link_state_vpn(),
        ),
{
    let ghost all = rib::withdrawal_views(withdrawn@);
    let mut ip: Vec<(IpNetwork, Option<u32>)> = Vec::new();
    let mut ls: Vec<(LsNlri, Option<u32>)> = Vec::new();
    let mut vpn: Vec<(LsNlri, Option<u32>)> = Vec::new();
    let mut i: usize = 0;
    assert(update_message::ls_withdrawal_views(ls@) =~= Seq::<(LsNlriView, Option<u32>)>::empty());
    assert(update_message::ls_withdrawal_views(vpn@) =~= Seq::<(LsNlriView, Option<u32>)>::empty());
    while i < withdrawn.len()
        invariant
            i <= withdrawn@.len(),
            all == rib::withdrawal_views(withdrawn@),
            ip@ == withdrawn_prefixes(all.take(i as int)),
            update_message::ls_withdrawal_views(ls@) == withdrawn_ls(
                all.take(i as int),
                multiprotocol::link_state(),
            ),
            update_message::ls_withdrawal_views(vpn@) == withdrawn_ls(
                all.take(i as int),
                multiprotocol::link_state_vpn(),
            ),
        decreases withdrawn.len() - i,
    {
        proof {
            assert(all.take(i + 1).drop_last() =~= all.take(i as int));
            assert(all.take(i + 1).last() == rib::withdrawal_view(withdrawn@[i as int]));
        }
        let id = withdrawn[i].1;
        match &withdrawn[i].0 {
            RouteKey::Prefix(p) => {
                ip.push((*p, id));
            },
            RouteKey::LinkState(n) => {
                let x: LsNlri = (**n).clone();
                if n.route_distinguisher.is_some() {
                    let ghost before = vpn@;
                    vpn.push((x, id));
                    assert(update_message::ls_withdrawal_views(vpn@)
                        =~= update_message::ls_withdrawal_views(before).push((x@, id)));
                } else {
                    let ghost before = ls@;
                    ls.push((x, id));
                    assert(update_message::ls_withdrawal_views(ls@)
                        =~= update_message::ls_withdrawal_views(before).push((x@, id)));
                }
            },
        }
        i = i + 1;
    }
    proof {
        seqs::lemma_take_all(all);
    }
    (ip, ls, vpn)
}

/// The message that withdraws link-state objects of a family; none where there
/// are none.
pub open spec fn ls_withdraw_messages(
    objects: Seq<(LsNlriView, Option<u32>)>,
    afi_safi: AfiSafi,
    format: MessageFormat,
) -> Seq<UpdateView> {
    if objects.len() == 0 {
        Seq::empty()
    } else {
        seq![UpdateView::WithdrawLs { objects, afi_safi, format }]
    }
}

/// The messages for withdrawals: one for prefixes, one for link-state objects
/// and one for those of virtual networks, as far as there are any.
pub open spec fn withdraw_messages(
    w: Seq<(RouteKeyView, Option<u32>)>,
    format: MessageFormat,
) -> Seq<UpdateView> {
    let ip = withdrawn_prefixes(w);
    (if ip.len() == 0 {
        Seq::empty()
    } else {
        seq![UpdateView::Withdraw { withdrawn: ip, format }]
    }) + ls_withdraw_messages(
        withdrawn_ls(w, multiprotocol::link_state()),
        multiprotocol::link_state(),
        format,
    ) + ls_withdraw_messages(
        withdrawn_ls(w, multiprotocol::link_state_vpn()),
        multiprotocol::link_state_vpn(),
        format,
    )
}

/// The messages for withdrawals.
pub fn build_withdraw_messages(withdrawn: &Vec<Withdrawal>, format: MessageFormat) -> (r: Vec<
    UpdateMessage,
>)
    ensures
        seqs::views(r@) == withdraw_messages(rib::withdrawal_views(withdrawn@), format),
{
    let ghost w = rib::withdrawal_views(withdrawn@);
    let (ip, ls, vpn) = split_withdrawals(withdrawn);
    let mut r: Vec<UpdateMessage> = Vec::new();
    if ip.len() > 0 {
        r.push(UpdateMessage::Withdraw { withdrawn: ip, format });
    }
    let ghost first = seqs::views(r@);
    if ls.len() > 0 {
        let m = UpdateMessage::WithdrawLs {
            objects: ls,
            afi_safi: AfiSafi::new(Afi::LinkState, Safi::LinkState),
            format,
        };
        proof {
            seqs::lemma_views_push(r@, m);
        }
        r.push(m);
    }
    let ghost second = seqs::views(r@);
    if vpn.len() > 0 {
        let m = UpdateMessage::WithdrawLs {
            objects: vpn,
            afi_safi: AfiSafi::new(Afi::LinkState, Safi::LinkStateVpn),
            format,
        };
        proof {
            seqs::lemma_views_push(r@, m);
        }
        r.push(m);
    }
    proof {
        let ls_list = withdrawn_ls(w, multiprotocol::link_state());
        let vpn_list = withdrawn_ls(w, multiprotocol::link_state_vpn());
        assert(update_message::ls_withdrawal_views(ls@).len() == ls@.len());
        assert(update_message::ls_withdrawal_views(vpn@).len() == vpn@.len());
        assert(second =~= first + ls_withdraw_messages(
            ls_list,
            multiprotocol::link_state(),
            format,
        ));
        assert(seqs::views(r@) =~= second + ls_withdraw_messages(
            vpn_list,
            multiprotocol::link_state_vpn(),
            format,
        ));
        assert(seqs::views(r@) =~= withdraw_messages(w, format));
    }
    r
}

/// The messages that announce routes, one for each batch.
pub open spec fn announce_messages(batches: Seq<BatchView>, format: MessageFormat) -> Seq<
    UpdateView,
> {
    Seq::new(batches.len(), |i: int| batches[i].update(format))
}

/// The messages that announce routes, one for each batch.
pub fn build_announce_messages(routes: &Vec<RoutePath>, format: MessageFormat) -> (r: Vec<
    UpdateMessage,
>)
    ensures
        seqs::views(r@) == announce_messages(batched(seqs::views(routes@)), format),
{
    let batches = batch_announcements(routes);
    let ghost all = seqs::views(batches@);
    let mut r: Vec<UpdateMessage> = Vec::new();
    let mut i: usize = 0;
    while i < batches.len()
        invariant
            i <= batches@.len(),
            all == seqs::views(batches@),
            r@.len() == i,
            forall|j: int| 0 <= j < i ==> (#[trigger] r@[j])@ == all[j].update(format),
        decreases batches.len() - i,
    {
        let m = batches[i].to_update(format);
        r.push(m);
        i = i + 1;
    }
    assert(seqs::views(r@) =~= announce_messages(all, format));
    r
}

// ---------------------------------------------------------------------------
// Propagation
// ---------------------------------------------------------------------------

/// What a peer was sent, and what it is to be told.
pub struct Progress {
    pub sent: Seq<RoutePathView>,
    pub announcements: Seq<RoutePathView>,
    pub withdrawals: Seq<(RouteKeyView, Option<u32>)>,
}

/// The entries without the stale paths of a route; those without a local
/// identifier stay.
pub open spec fn without_stale(
    sent: Seq<RoutePathView>,
    key: RouteKeyView,
    stale: Seq<PathView>,
) -> Seq<RoutePathView>
    decreases stale.len(),
{
    if stale.len() == 0 {
        sent
    } else {
        let before = without_stale(sent, key, stale.drop_last());
        match stale.last().local_path_id {
            Some(id) => rib::without_path(before, key, Some(id)),
            None => before,
        }
    }
}

/// One route is brought up to date.
pub open spec fn route_step(
    p: Progress,
    key: RouteKeyView,
    add_path: bool,
    paths: Seq<PathView>,
    c: ExportView,
) -> Progress {
    let exported = selected(key, add_path, paths, c);
    let stale = rib::stale_of(p.sent, key, exported);
    Progress {
        sent: without_stale(p.sent, key, stale),
        announcements: p.announcements + exported,
        withdrawals: p.withdrawals + route_withdrawals(key, stale, exported, add_path),
    }
}

/// The routes of a family among `keys` are brought up to date, one after the
/// other.
pub open spec fn routes_steps(
    sent: Seq<RoutePathView>,
    keys: Seq<RouteKeyView>,
    family: AfiSafi,
    loc_rib: LocRib,
    c: ExportView,
) -> Progress
    decreases keys.len(),
{
    if keys.len() == 0 {
        Progress { sent, announcements: Seq::empty(), withdrawals: Seq::empty() }
    } else {
        let before = routes_steps(sent, keys.drop_last(), family, loc_rib, c);
        let key = keys.last();
        if key.family() != family {
            before
        } else {
            route_step(before, key, c.send_format.add_path.has(family), loc_rib.paths(key), c)
        }
    }
}

/// The entries with paths put in, one after the other.
pub open spec fn with_paths(sent: Seq<RoutePathView>, routes: Seq<RoutePathView>) -> Seq<
    RoutePathView,
>
    decreases routes.len(),
{
    if routes.len() == 0 {
        sent
    } else {
        rib::with_path(with_paths(sent, routes.drop_last()), routes.last())
    }
}

/// The routes that matter to a peer: those that changed where it takes several
/// paths or where routes are only served to it, else those whose preferred path
/// changed.
pub open spec fn relevant_keys(delta: RouteDelta, family: AfiSafi, c: ExportView) -> Seq<
    RouteKeyView,
> {
    if c.send_format.add_path.has(family) || c.rs_client {
        seqs::views(delta.changed@)
    } else {
        seqs::views(delta.best_changed@)
    }
}

/// The messages for a peer of a family, and what it is told afterwards.
pub open spec fn family_update(
    sent: Seq<RoutePathView>,
    delta: RouteDelta,
    family: AfiSafi,
    loc_rib: LocRib,
    c: ExportView,
) -> (Seq<UpdateView>, Seq<RoutePathView>) {
    let p = routes_steps(sent, relevant_keys(delta, family, c), family, loc_rib, c);
    (
        withdraw_messages(p.withdrawals, c.send_format) + announce_messages(
            batched(p.announcements),
            c.send_format,
        ),
        with_paths(p.sent, p.announcements),
    )
}

/// The messages for a peer of families, one after the other, and what it is told
/// afterwards.
pub open spec fn families_update(
    sent: Seq<RoutePathView>,
    delta: RouteDelta,
    families: Seq<AfiSafi>,
    loc_rib: LocRib,
    c: ExportView,
) -> (Seq<UpdateView>, Seq<RoutePathView>)
    decreases families.len(),
{
    if families.len() == 0 {
        (Seq::empty(), sent)
    } else {
        let before = families_update(sent, delta, families.drop_last(), loc_rib, c);
        let now = family_update(before.1, delta, families.last(), loc_rib, c);
        (before.0 + now.0, now.1)
    }
}

/// The messages about changes that are sent, of which the one in place `i` takes
/// `sizes[i]` octets, and what is noted of the peer.
pub open spec fn changes_sent(
    sent: Seq<RoutePathView>,
    delta: RouteDelta,
    families: Seq<AfiSafi>,
    loc_rib: LocRib,
    c: ExportView,
    sizes: Seq<usize>,
) -> (Seq<UpdateView>, Seq<RoutePathView>) {
    let all = families_update(sent, delta, families, loc_rib, c);
    (sending::sent_messages(all.0, sizes), all.1)
}

fn forget_stale(adj_rib_out: &mut AdjRibOut, key: &RouteKey, stale: &Vec<Arc<Path>>)
    ensures
        final(adj_rib_out)@ == without_stale(
            old(adj_rib_out)@,
            key@,
            rib::path_views(stale@),
        ),
{
    let ghost all = rib::path_views(stale@);
    let ghost start = adj_rib_out@;
    let mut i: usize = 0;
    while i < stale.len()
        invariant
            i <= stale@.len(),
            all == rib::path_views(stale@),
            start == old(adj_rib_out)@,
            adj_rib_out@ == without_stale(start, key@, all.take(i as int)),
        decreases stale.len() - i,
    {
        proof {
            assert(all.take(i + 1).drop_last() =~= all.take(i as int));
            assert(all.take(i + 1).last() == stale@[i as int]@);
        }
        if let Some(id) = stale[i].local_path_id {
            adj_rib_out.remove_path(key, id);
        }
        i = i + 1;
    }
    proof {
        seqs::lemma_take_all(all);
    }
}

fn remember(adj_rib_out: &mut AdjRibOut, routes: &Vec<RoutePath>)
    ensures
        final(adj_rib_out)@ == with_paths(old(adj_rib_out)@, seqs::views(routes@)),
{
    let ghost all = seqs::views(routes@);
    let ghost start = adj_rib_out@;
    let mut i: usize = 0;
    while i < routes.len()
        invariant
            i <= routes@.len(),
            all == seqs::views(routes@),
            start == old(adj_rib_out)@,
            adj_rib_out@ == with_paths(start, all.take(i as int)),
        decreases routes.len() - i,
    {
        proof {
            assert(all.take(i + 1).drop_last() =~= all.take(i as int));
            assert(all.take(i + 1).last() == routes@[i as int]@);
        }
        adj_rib_out.insert(routes[i].clone());
        i = i + 1;
    }
    proof {
        seqs::lemma_take_all(all);
    }
}

fn propagate_family(
    ctx: &PeerExportContext,
    delta: &RouteDelta,
    family: &AfiSafi,
    loc_rib: &LocRib,
    adj_rib_out: &mut AdjRibOut,
) -> (r: Vec<UpdateMessage>)
    ensures
        (seqs::views(r@), final(adj_rib_out)@) == family_update(
            old(adj_rib_out)@,
            *delta,
            *family,
            *loc_rib,
            ctx@,
        ),
{
    let ghost c = ctx@;
    let ghost start = adj_rib_out@;
    let send_add_path = ctx.send_format.add_path.contains(family);
    let route_keys = if send_add_path || ctx.rs_client {
        &delta.changed
    } else {
        &delta.best_changed
    };
    let ghost keys = seqs::views(route_keys@);
    let mut announcements: Vec<RoutePath> = Vec::new();
    let mut withdrawals: Vec<Withdrawal> = Vec::new();
    let mut i: usize = 0;
    assert(seqs::views(announcements@) =~= Seq::<RoutePathView>::empty());
    assert(rib::withdrawal_views(withdrawals@) =~= Seq::<(RouteKeyView, Option<u32>)>::empty());
    while i < route_keys.len()
        invariant
            i <= route_keys@.len(),
            keys == seqs::views(route_keys@),
            c == ctx@,
            send_add_path == c.send_format.add_path.has(*family),
            start == old(adj_rib_out)@,
            (Progress {
                sent: adj_rib_out@,
                announcements: seqs::views(announcements@),
                withdrawals: rib::withdrawal_views(withdrawals@),
            }) == routes_steps(start, keys.take(i as int), *family, *loc_rib, c),
        decreases route_keys.len() - i,
    {
        proof {
            assert(keys.take(i + 1).drop_last() =~= keys.take(i as int));
            assert(keys.take(i + 1).last() == route_keys@[i as int]@);
        }
        let route_key = &route_keys[i];
        if route_key.afi_safi() == *family {
            let mut exported = select_paths_for_export(route_key, send_add_path, loc_rib, ctx);
            let stale = adj_rib_out.stale_paths(route_key, &exported);
            let mut w = build_withdrawals_for_route(route_key, &stale, &exported, send_add_path);
            let ghost w_before = withdrawals@;
            let ghost a_before = announcements@;
            let ghost w_new = w@;
            let ghost a_new = exported@;
            withdrawals.append(&mut w);
            announcements.append(&mut exported);
            proof {
                assert(rib::withdrawal_views(withdrawals@) =~= rib::withdrawal_views(w_before)
                    + rib::withdrawal_views(w_new));
                assert(seqs::views(announcements@) =~= seqs::views(a_before) + seqs::views(a_new));
            }
            forget_stale(adj_rib_out, route_key, &stale);
        }
        i = i + 1;
    }
    proof {
        seqs::lemma_take_all(keys);
    }
    let mut r = build_withdraw_messages(&withdrawals, ctx.send_format);
    let mut a = build_announce_messages(&announcements, ctx.send_format);
    let ghost r_before = r@;
    let ghost a_before = a@;
    r.append(&mut a);
    assert(seqs::views(r@) =~= seqs::views(r_before) + seqs::views(a_before));
    remember(adj_rib_out, &announcements);
    r
}

/// Composes the messages that bring a peer up to date with changed routes, for
/// each family those that withdraw and those that announce, and notes what the
/// peer is told.
fn compose_updates(
    ctx: &PeerExportContext,
    delta: &RouteDelta,
    loc_rib: &LocRib,
    adj_rib_out: &mut AdjRibOut,
) -> (r: Vec<UpdateMessage>)
    ensures
        (seqs::views(r@), final(adj_rib_out)@) == families_update(
            old(adj_rib_out)@,
            *delta,
            ctx.told_families(),
            *loc_rib,
            ctx@,
        ),
{
    let ghost start = adj_rib_out@;
    let families = ctx.afi_safis();
    let ghost all = families@;
    let mut r: Vec<UpdateMessage> = Vec::new();
    let mut i: usize = 0;
    assert(seqs::views(r@) =~= Seq::<UpdateView>::empty());
    while i < families.len()
        invariant
            i <= families@.len(),
            all == families@,
            all == ctx.told_families(),
            start == old(adj_rib_out)@,
            (seqs::views(r@), adj_rib_out@) == families_update(
                start,
                *delta,
                all.take(i as int),
                *loc_rib,
                ctx@,
            ),
        decreases families.len() - i,
    {
        proof {
            assert(all.take(i + 1).drop_last() =~= all.take(i as int));
        }
        let ghost r_before = r@;
        let mut m = propagate_family(ctx, delta, &families[i], loc_rib, adj_rib_out);
        let ghost m_before = m@;
        r.append(&mut m);
        assert(seqs::views(r@) =~= seqs::views(r_before) + seqs::views(m_before));
        i = i + 1;
    }
    proof {
        seqs::lemma_take_all(all);
    }
    r
}

/// The messages that would bring a peer up to date with changed routes, whatever
/// their sizes: those that `propagate_routes_to_peer` takes the sizes of.
pub fn updates_for_peer(
    ctx: &PeerExportContext,
    delta: &RouteDelta,
    loc_rib: &LocRib,
    adj_rib_out: &AdjRibOut,
) -> (r: Vec<UpdateMessage>)
    ensures
        seqs::views(r@) == families_update(
            adj_rib_out@,
            *delta,
            ctx.told_families(),
            *loc_rib,
            ctx@,
        ).0,
{
    let mut noted = adj_rib_out.clone();
    compose_updates(ctx, delta, loc_rib, &mut noted)
}

/// Brings a peer up to date with changed routes: gives the messages that are sent,
/// and notes what the peer is told, also where the message that says it is too
/// long to be sent. The message in place `i` of `updates_for_peer` takes
/// `sizes[i]` octets.
pub fn propagate_routes_to_peer(
    ctx: &PeerExportContext,
    delta: &RouteDelta,
    loc_rib: &LocRib,
    adj_rib_out: &mut AdjRibOut,
    sizes: &Vec<usize>,
) -> (r: Vec<UpdateMessage>)
    ensures
        (seqs::views(r@), final(adj_rib_out)@) == changes_sent(
            old(adj_rib_out)@,
            *delta,
            ctx.told_families(),
            *loc_rib,
            ctx@,
            sizes@,
        ),
{
    let messages = compose_updates(ctx, delta, loc_rib, adj_rib_out);
    keep_sendable(messages, sizes)
}

// ---------------------------------------------------------------------------
// Laws
// ---------------------------------------------------------------------------

/// A route of which a peer without several paths gets none is withdrawn, once,
/// if and only if something of it was sent.
pub proof fn law_unexported_routes_are_withdrawn(sent: Seq<RoutePathView>, key: RouteKeyView)
    ensures
        ({
            let none = Seq::<RoutePathView>::empty();
            let w = route_withdrawals(key, rib::stale_of(sent, key, none), none, false);
            if exists|i: int| 0 <= i < sent.len() && (#[trigger] sent[i]).key == key {
                w == seq![(key, None::<u32>)]
            } else {
                w.len() == 0
            }
        }),
    decreases sent.len(),
{
    let none = Seq::<RoutePathView>::empty();
    if sent.len() > 0 {
        let p = sent.drop_last();
        law_unexported_routes_are_withdrawn(p, key);
        if exists|i: int| 0 <= i < p.len() && (#[trigger] p[i]).key == key {
            let i = choose|i: int| 0 <= i < p.len() && (#[trigger] p[i]).key == key;
            assert(sent[i].key == key);
        } else if sent.last().key != key {
            assert forall|i: int| 0 <= i < sent.len() implies (#[trigger] sent[i]).key != key by {
                if i < p.len() {
                    assert(p[i].key != key);
                }
            }
        } else {
            assert(sent[sent.len() - 1].key == key);
        }
        assert(!rib::has_path_id(none, sent.last().path.local_path_id));
    }
}

/// A peer without several paths gets at most one path of a route.
pub proof fn law_one_path_per_route(key: RouteKeyView, paths: Seq<PathView>, c: ExportView)
    ensures
        selected(key, false, paths, c).len() <= 1,
    decreases paths.len(),
{
    if c.rs_client {
        if paths.len() > 0 && outgoing::export_path(key, paths[0], c) is None {
            law_one_path_per_route(key, paths.skip(1), c);
        }
    } else {
        let t = paths.take(if paths.len() == 0 {
            0
        } else {
            1
        });
        if t.len() > 0 {
            assert(t.drop_last() =~= Seq::<PathView>::empty());
            assert(all_exported(key, t.drop_last(), c).len() == 0);
        }
    }
}

/// A peer to which routes are only served gets a path of a route whenever one of
/// its paths may be told: no path hides another.
pub proof fn law_no_path_is_hidden(
    key: RouteKeyView,
    paths: Seq<PathView>,
    c: ExportView,
    add_path: bool,
    i: int,
)
    requires
        c.rs_client || add_path,
        0 <= i < paths.len(),
        outgoing::export_path(key, paths[i], c) is Some,
    ensures
        selected(key, add_path, paths, c).len() > 0,
    decreases paths.len(),
{
    if add_path {
        let p = paths.drop_last();
        if i < p.len() {
            assert(p[i] == paths[i]);
            law_no_path_is_hidden(key, p, c, add_path, i);
        }
    } else if i > 0 {
        assert(paths.skip(1)[i - 1] == paths[i]);
        law_no_path_is_hidden(key, paths.skip(1), c, add_path, i - 1);
    }
}

} // verus!
