//! Sending routes to a peer: which of the messages composed for it are short
//! enough to be sent, and which routes they carry.

use crate::bgp::bgpls::{LsNlri, LsNlriView};
use crate::bgp::msg::MessageFormat;
use crate::bgp::update_message::{UpdateMessage, UpdateView};
use crate::net::network::IpNetwork;
use crate::peer::outgoing;
use crate::peer::outgoing::{compute_routes_for_peer, ExportView, PeerExportContext};
use crate::peer::propagate;
use crate::peer::propagate::{
    announce_messages, batch_announcements, batch_of, batched, build_announce_messages,
    AnnouncementBatch, BatchView,
};
use crate::rib::{Path, PathView, RouteKey, RouteKeyView, RoutePath, RoutePathView};
use crate::seqs;
use vstd::prelude::*;

verus! {

// ---------------------------------------------------------------------------
// Sizes
// ---------------------------------------------------------------------------

/// The message in place `i`, which takes `sizes[i]` octets, is sent; one without
/// a size was not encoded and is not.
pub open spec fn is_sent(messages: Seq<UpdateView>, sizes: Seq<usize>, i: int) -> bool {
    i < sizes.len() && messages[i].sendable(sizes[i] as int)
}

/// The messages that are sent, in their order.
pub open spec fn sent_messages(messages: Seq<UpdateView>, sizes: Seq<usize>) -> Seq<UpdateView>
    decreases messages.len(),
{
    if messages.len() == 0 {
        Seq::empty()
    } else {
        let before = sent_messages(messages.drop_last(), sizes);
        if is_sent(messages, sizes, messages.len() - 1) {
            before.push(messages.last())
        } else {
            before
        }
    }
}

/// The messages that are sent; the one in place `i` takes `sizes[i]` octets.
pub fn keep_sendable(messages: Vec<UpdateMessage>, sizes: &Vec<usize>) -> (r: Vec<UpdateMessage>)
    ensures
        seqs::views(r@) == sent_messages(seqs::views(messages@), sizes@),
{
    let n: usize = messages.len();
    let ghost all = seqs::views(messages@);
    let mut r: Vec<UpdateMessage> = Vec::new();
    let mut i: usize = 0;
    assert(seqs::views(r@) =~= Seq::<UpdateView>::empty());
    for m in it: messages
        invariant
            it.seq() == messages@,
            n == messages@.len(),
            i == it.index(),
            all == seqs::views(messages@),
            seqs::views(r@) == sent_messages(all.take(i as int), sizes@),
    {
        proof {
            assert(all.take(i + 1).drop_last() =~= all.take(i as int));
            assert(all.take(i + 1).last() == m@);
        }
        if i < sizes.len() && m.is_sendable(sizes[i]) {
            proof {
                seqs::lemma_views_push(r@, m);
            }
            r.push(m);
        }
        i = i + 1;
    }
    proof {
        seqs::lemma_take_all(all);
    }
    r
}

/// The sizes that follow the first `n`.
pub open spec fn sizes_after(sizes: Seq<usize>, n: nat) -> Seq<usize> {
    if n <= sizes.len() {
        sizes.skip(n as int)
    } else {
        Seq::empty()
    }
}

proof fn lemma_sent_concat(a: Seq<UpdateView>, b: Seq<UpdateView>, sizes: Seq<usize>)
    ensures
        sent_messages(a + b, sizes) == sent_messages(a, sizes) + sent_messages(
            b,
            sizes_after(sizes, a.len()),
        ),
    decreases b.len(),
{
    if b.len() == 0 {
        assert(a + b =~= a);
        assert(sent_messages(a, sizes) + Seq::<UpdateView>::empty() =~= sent_messages(a, sizes));
    } else {
        let rest = sizes_after(sizes, a.len());
        lemma_sent_concat(a, b.drop_last(), sizes);
        assert((a + b).drop_last() =~= a + b.drop_last());
        assert((a + b).last() == b.last());
        assert(is_sent(a + b, sizes, (a + b).len() - 1) == is_sent(b, rest, b.len() - 1));
        assert(sent_messages(a + b, sizes) =~= sent_messages(a, sizes) + sent_messages(b, rest));
    }
}

/// A message is one of those that are sent.
pub open spec fn is_one_sent(messages: Seq<UpdateView>, sizes: Seq<usize>, m: UpdateView) -> bool {
    exists|k: int|
        0 <= k < messages.len() && #[trigger] is_sent(messages, sizes, k) && m == messages[k]
}

/// What is sent are messages that are short enough, and all of these: an
/// announcement that is longer than a message may be is not sent.
pub proof fn law_only_sendable_messages_are_sent(messages: Seq<UpdateView>, sizes: Seq<usize>)
    ensures
        forall|j: int|
            0 <= j < sent_messages(messages, sizes).len() ==> is_one_sent(
                messages,
                sizes,
                #[trigger] sent_messages(messages, sizes)[j],
            ),
        forall|k: int|
            0 <= k < messages.len() && #[trigger] is_sent(messages, sizes, k) ==> sent_messages(
                messages,
                sizes,
            ).contains(messages[k]),
    decreases messages.len(),
{
    if messages.len() > 0 {
        let p = messages.drop_last();
        let n = messages.len() - 1;
        let before = sent_messages(p, sizes);
        let now = sent_messages(messages, sizes);
        law_only_sendable_messages_are_sent(p, sizes);
        assert forall|j: int| 0 <= j < now.len() implies is_one_sent(
            messages,
            sizes,
            #[trigger] now[j],
        ) by {
            if j < before.len() {
                assert(is_one_sent(p, sizes, before[j]));
                let k = choose|k: int|
                    0 <= k < p.len() && #[trigger] is_sent(p, sizes, k) && before[j] == p[k];
                assert(is_sent(messages, sizes, k) && now[j] == messages[k]);
            } else {
                assert(is_sent(messages, sizes, n) && now[j] == messages[n]);
            }
        }
        assert forall|k: int|
            0 <= k < messages.len() && #[trigger] is_sent(messages, sizes, k) implies now.contains(
            messages[k],
        ) by {
            if k < p.len() {
                assert(is_sent(p, sizes, k));
                assert(before.contains(p[k]));
                let j = choose|j: int| 0 <= j < before.len() && before[j] == p[k];
                assert(now[j] == messages[k]);
            } else {
                assert(now[now.len() - 1] == messages[k]);
            }
        }
    }
}

// ---------------------------------------------------------------------------
// Routes
// ---------------------------------------------------------------------------

/// Messages say the same of two paths.
pub open spec fn same_said(a: PathView, b: PathView) -> bool {
    a.attrs == b.attrs && a.local_path_id == b.local_path_id
}

/// A message announces a route by its path.
pub open spec fn carries(m: UpdateView, r: RoutePathView) -> bool {
    match (m, r.key) {
        (UpdateView::Announce { path, prefixes, format: _ }, RouteKeyView::Prefix(p)) => {
            prefixes.contains(p) && same_said(path, r.path)
        },
        (
            UpdateView::AnnounceLs { path, nlri, afi_safi: _, format: _ },
            RouteKeyView::LinkState(n),
        ) => { nlri.contains(n) && same_said(path, r.path) },
        _ => false,
    }
}

/// One of the messages announces a route.
pub open spec fn carried(messages: Seq<UpdateView>, r: RoutePathView) -> bool {
    exists|i: int| 0 <= i < messages.len() && #[trigger] carries(messages[i], r)
}

/// Those of the routes that the messages announce, in their order.
pub open spec fn carried_routes(
    routes: Seq<RoutePathView>,
    messages: Seq<UpdateView>,
) -> Seq<RoutePathView> {
    routes.filter(|r: RoutePathView| carried(messages, r))
}

fn names_prefix(prefixes: &Vec<IpNetwork>, p: &IpNetwork) -> (r: bool)
    ensures
        r == prefixes@.contains(*p),
{
    let mut i: usize = 0;
    while i < prefixes.len()
        invariant
            i <= prefixes@.len(),
            forall|j: int| 0 <= j < i ==> prefixes@[j] != *p,
        decreases prefixes.len() - i,
    {
        if prefixes[i] == *p {
            assert(prefixes@[i as int] == *p);
            return true;
        }
        i = i + 1;
    }
    false
}

fn names_object(nlri: &Vec<LsNlri>, n: &LsNlri) -> (r: bool)
    ensures
        r == seqs::views(nlri@).contains(n@),
{
    let mut i: usize = 0;
    while i < nlri.len()
        invariant
            i <= nlri@.len(),
            forall|j: int| 0 <= j < i ==> seqs::views(nlri@)[j] != n@,
        decreases nlri.len() - i,
    {
        if nlri[i].same(n) {
            assert(seqs::views(nlri@)[i as int] == n@);
            return true;
        }
        i = i + 1;
    }
    false
}

fn says_same(a: &Path, b: &Path) -> (r: bool)
    ensures
        r == same_said(a@, b@),
{
    a.local_path_id == b.local_path_id && a.attrs.same(&b.attrs)
}

fn message_carries(m: &UpdateMessage, r: &RoutePath) -> (b: bool)
    ensures
        b == carries(m@, r@),
{
    match (m, &r.key) {
        (UpdateMessage::Announce { path, prefixes, format: _ }, RouteKey::Prefix(p)) => {
            says_same(path, &r.path) && names_prefix(prefixes, p)
        },
        (
            UpdateMessage::AnnounceLs { path, nlri, afi_safi: _, format: _ },
            RouteKey::LinkState(n),
        ) => { says_same(path, &r.path) && names_object(nlri, n) },
        _ => false,
    }
}

fn is_carried(messages: &Vec<UpdateMessage>, r: &RoutePath) -> (b: bool)
    ensures
        b == carried(seqs::views(messages@), r@),
{
    let ghost all = seqs::views(messages@);
    let mut i: usize = 0;
    while i < messages.len()
        invariant
            i <= messages@.len(),
            all == seqs::views(messages@),
            forall|j: int| 0 <= j < i ==> !#[trigger] carries(all[j], r@),
        decreases messages.len() - i,
    {
        if message_carries(&messages[i], r) {
            assert(carries(all[i as int], r@));
            return true;
        }
        i = i + 1;
    }
    false
}

// ---------------------------------------------------------------------------
// Batches
// ---------------------------------------------------------------------------

proof fn lemma_keys_taken_hold(b: BatchView, routes: Seq<RoutePathView>, k: int)
    requires
        0 <= k < routes.len(),
        b.takes(routes[k]),
    ensures
        propagate::keys_taken(b, routes).contains(routes[k].key),
    decreases routes.len(),
{
    let p = routes.drop_last();
    let before = propagate::keys_taken(b, p);
    let now = propagate::keys_taken(b, routes);
    if k < p.len() {
        assert(p[k] == routes[k]);
        lemma_keys_taken_hold(b, p, k);
        let j = choose|j: int| 0 <= j < before.len() && before[j] == routes[k].key;
        assert(now[j] == routes[k].key);
    } else {
        assert(now[now.len() - 1] == routes[k].key);
    }
}

proof fn lemma_keys_are_named(keys: Seq<RouteKeyView>, key: RouteKeyView)
    requires
        keys.contains(key),
    ensures
        match key {
            RouteKeyView::Prefix(p) => propagate::prefixes_of(keys).contains(p),
            RouteKeyView::LinkState(n) => propagate::ls_of(keys).contains(n),
        },
    decreases keys.len(),
{
    let i = choose|i: int| 0 <= i < keys.len() && keys[i] == key;
    let rest = keys.drop_last();
    if i < rest.len() {
        assert(rest[i] == key);
        lemma_keys_are_named(rest, key);
    }
    match key {
        RouteKeyView::Prefix(p) => {
            let now = propagate::prefixes_of(keys);
            if i < rest.len() {
                let before = propagate::prefixes_of(rest);
                let j = choose|j: int| 0 <= j < before.len() && before[j] == p;
                assert(now[j] == p);
            } else {
                assert(now[now.len() - 1] == p);
            }
        },
        RouteKeyView::LinkState(n) => {
            let now = propagate::ls_of(keys);
            if i < rest.len() {
                let before = propagate::ls_of(rest);
                let j = choose|j: int| 0 <= j < before.len() && before[j] == n;
                assert(now[j] == n);
            } else {
                assert(now[now.len() - 1] == n);
            }
        },
    }
}

/// The message of the batch that a route is in announces the route.
pub(crate) proof fn lemma_batch_carries(routes: Seq<RoutePathView>, k: int, format: MessageFormat)
    requires
        0 <= k < routes.len(),
    ensures
        0 <= propagate::slot(batched(routes), routes[k]) < batched(routes).len(),
        carries(
            announce_messages(batched(routes), format)[propagate::slot(
                batched(routes),
                routes[k],
            )],
            routes[k],
        ),
{
    let b = batched(routes);
    let r = routes[k];
    let i = propagate::slot(b, r);
    propagate::law_batches_partition_routes(routes);
    propagate::lemma_slot(b, r);
    assert(propagate::taken(b, r));
    let t = choose|t: int| 0 <= t < b.len() && #[trigger] b[t].takes(r);
    assert(i <= t);
    assert(b[i].takes(r));
    assert(b[i].keys == propagate::keys_taken(b[i], routes));
    lemma_keys_taken_hold(b[i], routes, k);
    lemma_keys_are_named(b[i].keys, r.key);
}

/// The messages of batches that are sent, and for each batch whether its message
/// is. The message of the batch in place `i` takes `sizes[from + i]` octets.
fn send_batches(
    batches: &Vec<AnnouncementBatch>,
    format: MessageFormat,
    sizes: &Vec<usize>,
    from: usize,
) -> (r: (Vec<UpdateMessage>, Vec<bool>))
    requires
        from <= sizes@.len(),
    ensures
        seqs::views(r.0@) == sent_messages(
            announce_messages(seqs::views(batches@), format),
            sizes@.skip(from as int),
        ),
        r.1@.len() == batches@.len(),
        forall|i: int|
            0 <= i < batches@.len() ==> #[trigger] r.1@[i] == is_sent(
                announce_messages(seqs::views(batches@), format),
                sizes@.skip(from as int),
                i,
            ),
{
    let ghost all = announce_messages(seqs::views(batches@), format);
    let ghost rest = sizes@.skip(from as int);
    let mut messages: Vec<UpdateMessage> = Vec::new();
    let mut fits: Vec<bool> = Vec::new();
    let mut i: usize = 0;
    assert(seqs::views(messages@) =~= Seq::<UpdateView>::empty());
    while i < batches.len()
        invariant
            i <= batches@.len(),
            from <= sizes@.len(),
            all == announce_messages(seqs::views(batches@), format),
            rest == sizes@.skip(from as int),
            seqs::views(messages@) == sent_messages(all.take(i as int), rest),
            fits@.len() == i,
            forall|j: int| 0 <= j < i ==> #[trigger] fits@[j] == is_sent(all, rest, j),
        decreases batches.len() - i,
    {
        let m = batches[i].to_update(format);
        proof {
            assert(all.take(i + 1).drop_last() =~= all.take(i as int));
            assert(all.take(i + 1).last() == m@);
            assert(is_sent(all.take(i + 1), rest, i as int) == is_sent(all, rest, i as int));
        }
        let fit = i < sizes.len() - from && m.is_sendable(sizes[from + i]);
        if fit {
            proof {
                seqs::lemma_views_push(messages@, m);
            }
            messages.push(m);
        }
        fits.push(fit);
        i = i + 1;
    }
    proof {
        seqs::lemma_take_all(all);
    }
    (messages, fits)
}

/// For each route whether its batch is sent.
fn mark_sent(
    routes: &Vec<RoutePath>,
    batches: &Vec<AnnouncementBatch>,
    fits: &Vec<bool>,
    Ghost(format): Ghost<MessageFormat>,
    Ghost(sizes): Ghost<Seq<usize>>,
) -> (r: Vec<bool>)
    requires
        seqs::views(batches@) == batched(seqs::views(routes@)),
        fits@.len() == batches@.len(),
        forall|i: int|
            0 <= i < fits@.len() ==> #[trigger] fits@[i] == is_sent(
                announce_messages(seqs::views(batches@), format),
                sizes,
                i,
            ),
    ensures
        r@.len() == routes@.len(),
        forall|j: int|
            0 <= j < r@.len() && #[trigger] r@[j] ==> carried(
                sent_messages(announce_messages(seqs::views(batches@), format), sizes),
                routes@[j]@,
            ),
{
    let ghost all = seqs::views(routes@);
    let ghost composed = announce_messages(seqs::views(batches@), format);
    let ghost sent = sent_messages(composed, sizes);
    let mut r: Vec<bool> = Vec::new();
    let mut i: usize = 0;
    while i < routes.len()
        invariant
            i <= routes@.len(),
            all == seqs::views(routes@),
            seqs::views(batches@) == batched(all),
            composed == announce_messages(batched(all), format),
            sent == sent_messages(composed, sizes),
            fits@.len() == batches@.len(),
            forall|k: int|
                0 <= k < fits@.len() ==> #[trigger] fits@[k] == is_sent(composed, sizes, k),
            r@.len() == i,
            forall|j: int| 0 <= j < i && #[trigger] r@[j] ==> carried(sent, routes@[j]@),
        decreases routes.len() - i,
    {
        let b: usize = batch_of(batches, &routes[i]);
        proof {
            lemma_batch_carries(all, i as int, format);
            assert(all[i as int] == routes@[i as int]@);
            if fits@[b as int] {
                law_only_sendable_messages_are_sent(composed, sizes);
                assert(is_sent(composed, sizes, b as int));
                let j = choose|j: int| 0 <= j < sent.len() && sent[j] == composed[b as int];
                assert(carries(sent[j], all[i as int]));
            }
        }
        r.push(fits[b]);
        i = i + 1;
    }
    r
}

// ---------------------------------------------------------------------------
// All routes
// ---------------------------------------------------------------------------

/// How many routes are handled at a time when all are sent.
pub const CHUNK_SIZE: usize = 10_000;

/// The messages that announce routes to a peer, `CHUNK_SIZE` at a time.
pub open spec fn chunk_messages(
    routes: Seq<RoutePathView>,
    c: ExportView,
    format: MessageFormat,
) -> Seq<UpdateView>
    decreases routes.len(),
{
    if routes.len() <= CHUNK_SIZE {
        announce_messages(batched(outgoing::export_routes(routes, c)), format)
    } else {
        announce_messages(
            batched(outgoing::export_routes(routes.take(CHUNK_SIZE as int), c)),
            format,
        ) + chunk_messages(routes.skip(CHUNK_SIZE as int), c, format)
    }
}

proof fn lemma_export_routes_concat(a: Seq<RoutePathView>, b: Seq<RoutePathView>, c: ExportView)
    ensures
        outgoing::export_routes(a + b, c) == outgoing::export_routes(a, c)
            + outgoing::export_routes(b, c),
    decreases b.len(),
{
    if b.len() == 0 {
        assert(a + b =~= a);
        assert(outgoing::export_routes(a, c) + outgoing::export_routes(b, c)
            =~= outgoing::export_routes(a, c));
    } else {
        lemma_export_routes_concat(a, b.drop_last(), c);
        assert((a + b).drop_last() =~= a + b.drop_last());
        assert((a + b).last() == b.last());
        assert(outgoing::export_routes(a + b, c) =~= outgoing::export_routes(a, c)
            + outgoing::export_routes(b, c));
    }
}

fn copy_routes(routes: &Vec<RoutePath>, from: usize, to: usize) -> (r: Vec<RoutePath>)
    requires
        from <= to <= routes@.len(),
    ensures
        seqs::views(r@) == seqs::views(routes@).subrange(from as int, to as int),
{
    let mut r: Vec<RoutePath> = Vec::new();
    let mut i: usize = from;
    while i < to
        invariant
            from <= i <= to <= routes@.len(),
            seqs::views(r@) == seqs::views(routes@).subrange(from as int, i as int),
        decreases to - i,
    {
        let x = routes[i].clone();
        proof {
            seqs::lemma_views_push(r@, x);
            let all = seqs::views(routes@);
            assert(all.subrange(from as int, i + 1) =~= all.subrange(from as int, i as int).push(
                all[i as int],
            ));
        }
        r.push(x);
        i = i + 1;
    }
    r
}

/// The messages that would announce all routes that a peer is told, whatever their
/// sizes: those that `export_all_routes_to_peer` takes the sizes of.
pub fn announcements_for_peer(
    routes: &Vec<RoutePath>,
    ctx: &PeerExportContext,
    format: MessageFormat,
) -> (r: Vec<UpdateMessage>)
    ensures
        seqs::views(r@) == chunk_messages(seqs::views(routes@), ctx@, format),
{
    let ghost all = seqs::views(routes@);
    let ghost c = ctx@;
    let mut messages: Vec<UpdateMessage> = Vec::new();
    let mut from: usize = 0;
    proof {
        assert(seqs::views(messages@) =~= Seq::<UpdateView>::empty());
        assert(all.skip(0) =~= all);
        assert(seqs::views(messages@) + chunk_messages(all, c, format) =~= chunk_messages(
            all,
            c,
            format,
        ));
    }
    while from < routes.len()
        invariant
            from <= routes@.len(),
            all == seqs::views(routes@),
            c == ctx@,
            seqs::views(messages@) + chunk_messages(all.skip(from as int), c, format)
                == chunk_messages(all, c, format),
        decreases routes.len() - from,
    {
        let left: usize = routes.len() - from;
        let to: usize = if left <= CHUNK_SIZE {
            routes.len()
        } else {
            from + CHUNK_SIZE
        };
        let ghost rest = all.skip(from as int);
        let ghost part = all.subrange(from as int, to as int);
        let chunk = copy_routes(routes, from, to);
        let filtered = compute_routes_for_peer(&chunk, ctx);
        let mut m = build_announce_messages(&filtered, format);
        let ghost m_old = messages@;
        let ghost m_new = m@;
        messages.append(&mut m);
        proof {
            assert(seqs::views(messages@) =~= seqs::views(m_old) + seqs::views(m_new));
            let tail = chunk_messages(all.skip(to as int), c, format);
            if left <= CHUNK_SIZE {
                assert(part =~= rest);
                assert(all.skip(to as int) =~= Seq::<RoutePathView>::empty());
                lemma_no_routes_no_messages(c, format);
                assert(seqs::views(messages@) + tail =~= seqs::views(m_old) + chunk_messages(
                    rest,
                    c,
                    format,
                ));
            } else {
                assert(part =~= rest.take(CHUNK_SIZE as int));
                assert(all.skip(to as int) =~= rest.skip(CHUNK_SIZE as int));
                assert(seqs::views(messages@) + tail =~= seqs::views(m_old) + (seqs::views(m_new)
                    + tail));
            }
        }
        from = to;
    }
    proof {
        assert(all.skip(from as int) =~= Seq::<RoutePathView>::empty());
        lemma_no_routes_no_messages(c, format);
        assert(seqs::views(messages@) + Seq::<UpdateView>::empty() =~= seqs::views(messages@));
    }
    messages
}

/// What is sent of routes is what is sent of the first of them and what is sent of
/// the others.
proof fn lemma_chunk_sent(
    routes: Seq<RoutePathView>,
    n: int,
    c: ExportView,
    format: MessageFormat,
    sizes: Seq<usize>,
)
    requires
        n == (if routes.len() <= CHUNK_SIZE {
            routes.len() as int
        } else {
            CHUNK_SIZE as int
        }),
    ensures
        ({
            let batches = batched(outgoing::export_routes(routes.take(n), c));
            sent_messages(chunk_messages(routes, c, format), sizes) == sent_messages(
                announce_messages(batches, format),
                sizes,
            ) + sent_messages(
                chunk_messages(routes.skip(n), c, format),
                sizes_after(sizes, batches.len()),
            )
        }),
{
    let composed = announce_messages(
        batched(outgoing::export_routes(routes.take(n), c)),
        format,
    );
    let later = chunk_messages(routes.skip(n), c, format);
    lemma_sent_concat(composed, later, sizes);
    if routes.len() <= CHUNK_SIZE {
        assert(routes.take(n) =~= routes);
        assert(routes.skip(n) =~= Seq::<RoutePathView>::empty());
        lemma_no_routes_no_messages(c, format);
    }
    assert(composed + later =~= chunk_messages(routes, c, format));
}

/// The routes that a peer is told and that the messages carry which are short enough
/// to be sent, and those messages.
pub open spec fn all_sent(
    routes: Seq<RoutePathView>,
    c: ExportView,
    format: MessageFormat,
    sizes: Seq<usize>,
) -> (Seq<RoutePathView>, Seq<UpdateView>) {
    let messages = sent_messages(chunk_messages(routes, c, format), sizes);
    (carried_routes(outgoing::export_routes(routes, c), messages), messages)
}

/// Sends all routes that a peer is told, as far as the messages that announce them
/// are short enough: gives the routes that are sent and the messages that carry
/// them. The message in place `i` of `announcements_for_peer` takes `sizes[i]`
/// octets.
pub fn export_all_routes_to_peer(
    routes: &Vec<RoutePath>,
    ctx: &PeerExportContext,
    format: MessageFormat,
    sizes: &Vec<usize>,
) -> (r: (Vec<RoutePath>, Vec<UpdateMessage>))
    ensures
        (seqs::views(r.0@), seqs::views(r.1@)) == all_sent(
            seqs::views(routes@),
            ctx@,
            format,
            sizes@,
        ),
{
    let ghost all = seqs::views(routes@);
    let ghost c = ctx@;
    let ghost goal = sent_messages(chunk_messages(all, c, format), sizes@);
    let mut told: Vec<RoutePath> = Vec::new();
    let mut marked: Vec<bool> = Vec::new();
    let mut messages: Vec<UpdateMessage> = Vec::new();
    let mut from: usize = 0;
    let mut next: usize = 0;
    proof {
        assert(seqs::views(told@) =~= Seq::<RoutePathView>::empty());
        assert(all.skip(0) =~= all);
        assert(sizes@.skip(0) =~= sizes@);
        assert(seqs::views(messages@) + goal =~= goal);
    }
    while from < routes.len()
        invariant
            from <= routes@.len(),
            next <= sizes@.len(),
            all == seqs::views(routes@),
            c == ctx@,
            goal == sent_messages(chunk_messages(all, c, format), sizes@),
            seqs::views(told@) == outgoing::export_routes(all.take(from as int), c),
            marked@.len() == told@.len(),
            forall|j: int|
                0 <= j < marked@.len() && #[trigger] marked@[j] ==> carried(
                    seqs::views(messages@),
                    told@[j]@,
                ),
            seqs::views(messages@) + sent_messages(
                chunk_messages(all.skip(from as int), c, format),
                sizes@.skip(next as int),
            ) == goal,
        decreases routes.len() - from,
    {
        let left: usize = routes.len() - from;
        let to: usize = if left <= CHUNK_SIZE {
            routes.len()
        } else {
            from + CHUNK_SIZE
        };
        let ghost rest = all.skip(from as int);
        let ghost part = all.subrange(from as int, to as int);
        let ghost rest_sizes = sizes@.skip(next as int);
        let chunk = copy_routes(routes, from, to);
        let mut filtered = compute_routes_for_peer(&chunk, ctx);
        let batches = batch_announcements(&filtered);
        let (mut m, fits) = send_batches(&batches, format, sizes, next);
        let mut marks = mark_sent(&filtered, &batches, &fits, Ghost(format), Ghost(rest_sizes));
        let ghost m_old = messages@;
        let ghost m_new = m@;
        let ghost told_old = told@;
        let ghost told_new = filtered@;
        let ghost marked_old = marked@;
        let ghost marks_new = marks@;
        messages.append(&mut m);
        told.append(&mut filtered);
        marked.append(&mut marks);
        let room: usize = sizes.len() - next;
        next = if batches.len() <= room {
            next + batches.len()
        } else {
            sizes.len()
        };
        proof {
            let sent = seqs::views(messages@);
            let old_sent = seqs::views(m_old);
            let new_sent = seqs::views(m_new);
            assert(sent =~= old_sent + new_sent);
            assert(seqs::views(told@) =~= seqs::views(told_old) + seqs::views(told_new));
            assert(all.take(to as int) =~= all.take(from as int) + part);
            lemma_export_routes_concat(all.take(from as int), part, c);
            assert forall|j: int| 0 <= j < marked@.len() && #[trigger] marked@[j] implies carried(
                sent,
                told@[j]@,
            ) by {
                if j < marked_old.len() {
                    assert(marked_old[j]);
                } else {
                    assert(marks_new[j - marked_old.len()]);
                }
                lemma_carried_among_more(old_sent, new_sent, told@[j]@);
            }
            assert(part =~= rest.take(to - from));
            assert(all.skip(to as int) =~= rest.skip(to - from));
            lemma_chunk_sent(rest, to - from, c, format, rest_sizes);
            assert(sizes_after(rest_sizes, batches@.len()) =~= sizes@.skip(next as int));
            let tail = sent_messages(
                chunk_messages(all.skip(to as int), c, format),
                sizes@.skip(next as int),
            );
            assert(sent + tail =~= old_sent + (new_sent + tail));
        }
        from = to;
    }
    proof {
        seqs::lemma_take_all(all);
        assert(all.skip(from as int) =~= Seq::<RoutePathView>::empty());
        lemma_no_routes_no_messages(c, format);
        assert(seqs::views(messages@) + Seq::<UpdateView>::empty() =~= seqs::views(messages@));
    }
    let sent = keep_carried(told, &marked, &messages);
    (sent, messages)
}

/// Those of the routes that the messages announce; of a marked route this is
/// known.
fn keep_carried(told: Vec<RoutePath>, marked: &Vec<bool>, messages: &Vec<UpdateMessage>) -> (r: Vec<
    RoutePath,
>)
    requires
        marked@.len() == told@.len(),
        forall|j: int|
            0 <= j < marked@.len() && #[trigger] marked@[j] ==> carried(
                seqs::views(messages@),
                told@[j]@,
            ),
    ensures
        seqs::views(r@) == carried_routes(seqs::views(told@), seqs::views(messages@)),
{
    let n: usize = told.len();
    let ghost all = seqs::views(told@);
    let ghost sent = seqs::views(messages@);
    let mut r: Vec<RoutePath> = Vec::new();
    let mut i: usize = 0;
    proof {
        reveal(Seq::filter);
        assert(seqs::views(r@) =~= Seq::<RoutePathView>::empty());
    }
    for x in it: told
        invariant
            it.seq() == told@,
            n == told@.len(),
            i == it.index(),
            marked@.len() == told@.len(),
            all == seqs::views(told@),
            sent == seqs::views(messages@),
            forall|j: int|
                0 <= j < marked@.len() && #[trigger] marked@[j] ==> carried(sent, told@[j]@),
            seqs::views(r@) == carried_routes(all.take(i as int), sent),
    {
        proof {
            reveal(Seq::filter);
            assert(all.take(i + 1).drop_last() =~= all.take(i as int));
            assert(all.take(i + 1).last() == x@);
        }
        if marked[i] || is_carried(messages, &x) {
            proof {
                seqs::lemma_views_push(r@, x);
            }
            r.push(x);
        }
        i = i + 1;
    }
    proof {
        seqs::lemma_take_all(all);
    }
    r
}

proof fn lemma_carried_among_more(a: Seq<UpdateView>, b: Seq<UpdateView>, r: RoutePathView)
    requires
        carried(a, r) || carried(b, r),
    ensures
        carried(a + b, r),
{
    if carried(a, r) {
        let i = choose|i: int| 0 <= i < a.len() && #[trigger] carries(a[i], r);
        assert(carries((a + b)[i], r));
    } else {
        let i = choose|i: int| 0 <= i < b.len() && #[trigger] carries(b[i], r);
        assert(carries((a + b)[a.len() + i], r));
    }
}

proof fn lemma_no_routes_no_messages(c: ExportView, format: MessageFormat)
    ensures
        chunk_messages(Seq::<RoutePathView>::empty(), c, format) == Seq::<UpdateView>::empty(),
{
    assert(announce_messages(Seq::<BatchView>::empty(), format) =~= Seq::<UpdateView>::empty());
}

// ---------------------------------------------------------------------------
// Laws
// ---------------------------------------------------------------------------

/// Every route that a peer is told is announced by one of the messages composed
/// for it.
pub proof fn law_every_told_route_has_a_message(
    routes: Seq<RoutePathView>,
    c: ExportView,
    format: MessageFormat,
)
    ensures
        forall|k: int|
            0 <= k < outgoing::export_routes(routes, c).len() ==> carried(
                chunk_messages(routes, c, format),
                #[trigger] outgoing::export_routes(routes, c)[k],
            ),
    decreases routes.len(),
{
    let told = outgoing::export_routes(routes, c);
    let all = chunk_messages(routes, c, format);
    let first = if routes.len() <= CHUNK_SIZE {
        routes
    } else {
        routes.take(CHUNK_SIZE as int)
    };
    let first_told = outgoing::export_routes(first, c);
    let composed = announce_messages(batched(first_told), format);
    if routes.len() > CHUNK_SIZE {
        let later = routes.skip(CHUNK_SIZE as int);
        law_every_told_route_has_a_message(later, c, format);
        assert(first + later =~= routes);
        lemma_export_routes_concat(first, later, c);
        assert(all == composed + chunk_messages(later, c, format));
    }
    assert forall|k: int| 0 <= k < told.len() implies carried(all, #[trigger] told[k]) by {
        if k < first_told.len() {
            assert(told[k] == first_told[k]);
            lemma_batch_carries(first_told, k, format);
            let i = propagate::slot(batched(first_told), first_told[k]);
            assert(carries(composed[i], told[k]));
            assert(all[i] == composed[i]);
        } else {
            let later = routes.skip(CHUNK_SIZE as int);
            let later_told = outgoing::export_routes(later, c);
            assert(told[k] == later_told[k - first_told.len()]);
            lemma_carried_among_more(composed, chunk_messages(later, c, format), told[k]);
        }
    }
}

/// Where every message is short enough, all routes that a peer is told are sent.
pub proof fn law_short_messages_lose_no_route(
    routes: Seq<RoutePathView>,
    c: ExportView,
    format: MessageFormat,
    sizes: Seq<usize>,
)
    requires
        forall|i: int|
            0 <= i < chunk_messages(routes, c, format).len() ==> #[trigger] is_sent(
                chunk_messages(routes, c, format),
                sizes,
                i,
            ),
    ensures
        sent_messages(chunk_messages(routes, c, format), sizes) == chunk_messages(
            routes,
            c,
            format,
        ),
        carried_routes(
            outgoing::export_routes(routes, c),
            sent_messages(chunk_messages(routes, c, format), sizes),
        ) == outgoing::export_routes(routes, c),
{
    let all = chunk_messages(routes, c, format);
    let told = outgoing::export_routes(routes, c);
    lemma_all_sent(all, sizes);
    law_every_told_route_has_a_message(routes, c, format);
    lemma_all_kept(told, |r: RoutePathView| carried(all, r));
}

/// One of the routes has the key and is announced by the message.
pub open spec fn told_by(told: Seq<RoutePathView>, key: RouteKeyView, m: UpdateView) -> bool {
    exists|k: int| 0 <= k < told.len() && #[trigger] carries(m, told[k]) && told[k].key == key
}

/// All that the message announces are routes among those told.
pub open spec fn announces_only(m: UpdateView, told: Seq<RoutePathView>) -> bool {
    match m {
        UpdateView::Announce { path: _, prefixes, format: _ } => forall|p: IpNetwork| #[trigger]
            prefixes.contains(p) ==> told_by(told, RouteKeyView::Prefix(p), m),
        UpdateView::AnnounceLs { path: _, nlri, afi_safi: _, format: _ } => forall|n: LsNlriView|
         #[trigger]
            nlri.contains(n) ==> told_by(told, RouteKeyView::LinkState(n), m),
        _ => false,
    }
}

/// The messages composed for a peer announce nothing but routes that it is told.
pub proof fn law_messages_announce_told_routes(
    routes: Seq<RoutePathView>,
    c: ExportView,
    format: MessageFormat,
)
    ensures
        forall|i: int|
            0 <= i < chunk_messages(routes, c, format).len() ==> announces_only(
                #[trigger] chunk_messages(routes, c, format)[i],
                outgoing::export_routes(routes, c),
            ),
    decreases routes.len(),
{
    let told = outgoing::export_routes(routes, c);
    let all = chunk_messages(routes, c, format);
    let first = if routes.len() <= CHUNK_SIZE {
        routes
    } else {
        routes.take(CHUNK_SIZE as int)
    };
    let first_told = outgoing::export_routes(first, c);
    let composed = announce_messages(batched(first_told), format);
    let later = routes.skip(first.len() as int);
    let later_told = outgoing::export_routes(later, c);
    assert(first + later =~= routes);
    lemma_export_routes_concat(first, later, c);
    if routes.len() > CHUNK_SIZE {
        law_messages_announce_told_routes(later, c, format);
        assert(all == composed + chunk_messages(later, c, format));
    }
    assert forall|i: int| 0 <= i < all.len() implies announces_only(#[trigger] all[i], told) by {
        if i < composed.len() {
            assert(all[i] == composed[i]);
            lemma_batch_announces_only(first_told, i, format);
            lemma_announces_among_more(all[i], Seq::empty(), first_told, later_told);
        } else {
            let m = chunk_messages(later, c, format)[i - composed.len()];
            assert(all[i] == m);
            lemma_announces_among_more(m, first_told, later_told, Seq::empty());
            assert(first_told + later_told + Seq::empty() =~= told);
        }
        assert(Seq::<RoutePathView>::empty() + first_told + later_told =~= told);
    }
}

proof fn lemma_announces_among_more(
    m: UpdateView,
    before: Seq<RoutePathView>,
    told: Seq<RoutePathView>,
    after: Seq<RoutePathView>,
)
    requires
        announces_only(m, told),
    ensures
        announces_only(m, before + told + after),
{
    let more = before + told + after;
    assert forall|key: RouteKeyView| told_by(told, key, m) implies #[trigger] told_by(
        more,
        key,
        m,
    ) by {
        let k = choose|k: int|
            0 <= k < told.len() && #[trigger] carries(m, told[k]) && told[k].key == key;
        assert(more[before.len() + k] == told[k]);
        assert(carries(m, more[before.len() + k]));
    }
}

proof fn lemma_named_keys(keys: Seq<RouteKeyView>)
    ensures
        forall|p: IpNetwork| #[trigger]
            propagate::prefixes_of(keys).contains(p) ==> keys.contains(RouteKeyView::Prefix(p)),
        forall|n: LsNlriView| #[trigger]
            propagate::ls_of(keys).contains(n) ==> keys.contains(RouteKeyView::LinkState(n)),
    decreases keys.len(),
{
    if keys.len() > 0 {
        let rest = keys.drop_last();
        lemma_named_keys(rest);
        assert forall|p: IpNetwork| #[trigger]
            propagate::prefixes_of(keys).contains(p) implies keys.contains(
            RouteKeyView::Prefix(p),
        ) by {
            let now = propagate::prefixes_of(keys);
            let before = propagate::prefixes_of(rest);
            let j = choose|j: int| 0 <= j < now.len() && now[j] == p;
            if j < before.len() {
                assert(before[j] == p);
                assert(before.contains(p));
                let i = choose|i: int| 0 <= i < rest.len() && rest[i] == RouteKeyView::Prefix(p);
                assert(keys[i] == RouteKeyView::Prefix(p));
            } else {
                assert(keys[keys.len() - 1] == RouteKeyView::Prefix(p));
            }
        }
        assert forall|n: LsNlriView| #[trigger]
            propagate::ls_of(keys).contains(n) implies keys.contains(
            RouteKeyView::LinkState(n),
        ) by {
            let now = propagate::ls_of(keys);
            let before = propagate::ls_of(rest);
            let j = choose|j: int| 0 <= j < now.len() && now[j] == n;
            if j < before.len() {
                assert(before[j] == n);
                assert(before.contains(n));
                let i = choose|i: int|
                    0 <= i < rest.len() && rest[i] == RouteKeyView::LinkState(n);
                assert(keys[i] == RouteKeyView::LinkState(n));
            } else {
                assert(keys[keys.len() - 1] == RouteKeyView::LinkState(n));
            }
        }
    }
}

proof fn lemma_taken_key_is_of_a_route(
    b: BatchView,
    routes: Seq<RoutePathView>,
    key: RouteKeyView,
) -> (k: int)
    requires
        propagate::keys_taken(b, routes).contains(key),
    ensures
        0 <= k < routes.len(),
        b.takes(routes[k]),
        routes[k].key == key,
    decreases routes.len(),
{
    let p = routes.drop_last();
    let before = propagate::keys_taken(b, p);
    let now = propagate::keys_taken(b, routes);
    let j = choose|j: int| 0 <= j < now.len() && now[j] == key;
    if j < before.len() {
        assert(before[j] == key);
        lemma_taken_key_is_of_a_route(b, p, key)
    } else {
        routes.len() - 1
    }
}

proof fn lemma_batch_announces_only(routes: Seq<RoutePathView>, i: int, format: MessageFormat)
    requires
        0 <= i < batched(routes).len(),
    ensures
        announces_only(announce_messages(batched(routes), format)[i], routes),
{
    let b = batched(routes)[i];
    let m = b.update(format);
    propagate::law_batches_partition_routes(routes);
    assert(b.keys == propagate::keys_taken(b, routes));
    lemma_named_keys(b.keys);
    let says = |key: RouteKeyView|
        b.keys.contains(key) && (b.afi_safi.afi is LinkState <==> key is LinkState);
    assert forall|key: RouteKeyView| says(key) implies #[trigger] told_by(routes, key, m) by {
        let k = lemma_taken_key_is_of_a_route(b, routes, key);
        lemma_keys_are_named(b.keys, key);
        assert(carries(m, routes[k]));
    }
}

/// Where no message is sent, no route is.
pub proof fn law_no_message_no_route(told: Seq<RoutePathView>)
    ensures
        carried_routes(told, Seq::empty()) == Seq::<RoutePathView>::empty(),
    decreases told.len(),
{
    reveal(Seq::filter);
    if told.len() > 0 {
        law_no_message_no_route(told.drop_last());
    }
}

proof fn lemma_all_sent(messages: Seq<UpdateView>, sizes: Seq<usize>)
    requires
        forall|i: int| 0 <= i < messages.len() ==> #[trigger] is_sent(messages, sizes, i),
    ensures
        sent_messages(messages, sizes) == messages,
    decreases messages.len(),
{
    if messages.len() > 0 {
        let p = messages.drop_last();
        assert forall|i: int| 0 <= i < p.len() implies #[trigger] is_sent(p, sizes, i) by {
            assert(is_sent(messages, sizes, i));
        }
        lemma_all_sent(p, sizes);
        assert(is_sent(messages, sizes, messages.len() - 1));
        assert(p.push(messages.last()) =~= messages);
    } else {
        assert(messages =~= Seq::<UpdateView>::empty());
    }
}

proof fn lemma_all_kept(s: Seq<RoutePathView>, keep: spec_fn(RoutePathView) -> bool)
    requires
        forall|k: int| 0 <= k < s.len() ==> keep(#[trigger] s[k]),
    ensures
        s.filter(keep) == s,
    decreases s.len(),
{
    reveal(Seq::filter);
    if s.len() > 0 {
        let p = s.drop_last();
        assert forall|k: int| 0 <= k < p.len() implies keep(#[trigger] p[k]) by {
            assert(p[k] == s[k]);
        }
        lemma_all_kept(p, keep);
        assert(p.push(s[s.len() - 1]) =~= s);
    } else {
        assert(s.filter(keep) =~= s);
    }
}

} // verus!
