//! Routes: their keys, their paths and the tables that hold them.

use crate::bgp::bgpls::{LsAttr, LsAttrTlvView, LsNlri, LsNlriView};
use crate::bgp::bgpls;
use crate::bgp::community::LargeCommunity;
use crate::bgp::msg_update::{
    as_paths_eq, attributes_eq, clone_as_path, clone_attributes, Aggregator,
    AsPathSegment, AsPathSegmentView, NextHopAddr, Origin, PathAttribute, PathAttributeView,
};
use crate::bgp::multiprotocol::{Afi, AfiSafi, Safi};
use crate::bgp::multiprotocol;
use crate::net::addr::{IpAddr, Ipv4Addr};
use crate::net::network::IpNetwork;
use crate::rpki::RpkiValidation;
use crate::seqs;
use std::sync::Arc;
use crate::seqs::{copy_items, items_eq};
use vstd::prelude::*;

verus! {

/// `Arc::clone`: another handle to the same value.
#[verifier::external_body]
pub(crate) fn share<T>(x: &Arc<T>) -> (r: Arc<T>)
    ensures
        r == *x,
{
    Arc::clone(x)
}

// ---------------------------------------------------------------------------
// Sources and keys
// ---------------------------------------------------------------------------

/// Where a path was learned.
#[derive(Debug, Clone, Copy, PartialEq, Eq, Hash, Structural)]
pub enum RouteSource {
    Ebgp { peer_ip: IpAddr, bgp_id: Ipv4Addr },
    Ibgp { peer_ip: IpAddr, bgp_id: Ipv4Addr, rr_client: bool },
    Local,
}

impl RouteSource {
    pub open spec fn peer_ip_spec(self) -> Option<IpAddr> {
        match self {
            RouteSource::Ebgp { peer_ip, bgp_id: _ } => Some(peer_ip),
            RouteSource::Ibgp { peer_ip, bgp_id: _, rr_client: _ } => Some(peer_ip),
            RouteSource::Local => None,
        }
    }

    pub open spec fn bgp_id_spec(self) -> Option<Ipv4Addr> {
        match self {
            RouteSource::Ebgp { peer_ip: _, bgp_id } => Some(bgp_id),
            RouteSource::Ibgp { peer_ip: _, bgp_id, rr_client: _ } => Some(bgp_id),
            RouteSource::Local => None,
        }
    }

    pub open spec fn rr_client_spec(self) -> bool {
        match self {
            RouteSource::Ibgp { peer_ip: _, bgp_id: _, rr_client } => rr_client,
            _ => false,
        }
    }

    /// The address of the peer that sent the path.
    pub fn peer_ip(&self) -> (r: Option<IpAddr>)
        ensures
            r == self.peer_ip_spec(),
    {
        match self {
            RouteSource::Ebgp { peer_ip, bgp_id: _ } => Some(*peer_ip),
            RouteSource::Ibgp { peer_ip, bgp_id: _, rr_client: _ } => Some(*peer_ip),
            RouteSource::Local => None,
        }
    }

    /// The router identifier of the peer that sent the path.
    pub fn bgp_id(&self) -> (r: Option<Ipv4Addr>)
        ensures
            r == self.bgp_id_spec(),
    {
        match self {
            RouteSource::Ebgp { peer_ip: _, bgp_id } => Some(*bgp_id),
            RouteSource::Ibgp { peer_ip: _, bgp_id, rr_client: _ } => Some(*bgp_id),
            RouteSource::Local => None,
        }
    }

    pub fn is_ibgp(&self) -> (r: bool)
        ensures
            r == (self is Ibgp),
    {
        match self {
            RouteSource::Ibgp { peer_ip: _, bgp_id: _, rr_client: _ } => true,
            _ => false,
        }
    }

    pub fn is_ebgp(&self) -> (r: bool)
        ensures
            r == (self is Ebgp),
    {
        match self {
            RouteSource::Ebgp { peer_ip: _, bgp_id: _ } => true,
            _ => false,
        }
    }

    pub fn is_local(&self) -> (r: bool)
        ensures
            r == (self is Local),
    {
        match self {
            RouteSource::Local => true,
            _ => false,
        }
    }

    /// Whether the peer is a client of this route reflector.
    pub fn is_rr_client(&self) -> (r: bool)
        ensures
            r == self.rr_client_spec(),
    {
        match self {
            RouteSource::Ibgp { peer_ip: _, bgp_id: _, rr_client } => *rr_client,
            _ => false,
        }
    }
}

/// What a route leads to.
#[derive(Debug, PartialEq, Eq)]
pub enum RouteKey {
    Prefix(IpNetwork),
    LinkState(Box<LsNlri>),
}

pub enum RouteKeyView {
    Prefix(IpNetwork),
    LinkState(LsNlriView),
}

impl View for RouteKey {
    type V = RouteKeyView;

    open spec fn view(&self) -> RouteKeyView {
        match self {
            RouteKey::Prefix(p) => RouteKeyView::Prefix(*p),
            RouteKey::LinkState(n) => RouteKeyView::LinkState(n@),
        }
    }
}

impl RouteKeyView {
    /// The family of a route.
    pub open spec fn family(self) -> AfiSafi {
        match self {
            RouteKeyView::Prefix(IpNetwork::V4(_)) => multiprotocol::ipv4_unicast(),
            RouteKeyView::Prefix(IpNetwork::V6(_)) => multiprotocol::ipv6_unicast(),
            RouteKeyView::LinkState(n) => if n.route_distinguisher is Some {
                multiprotocol::link_state_vpn()
            } else {
                multiprotocol::link_state()
            },
        }
    }
}

impl RouteKey {
    pub fn afi_safi(&self) -> (r: AfiSafi)
        ensures
            r == self@.family(),
    {
        match self {
            RouteKey::Prefix(IpNetwork::V4(_)) => AfiSafi::new(Afi::Ipv4, Safi::Unicast),
            RouteKey::Prefix(IpNetwork::V6(_)) => AfiSafi::new(Afi::Ipv6, Safi::Unicast),
            RouteKey::LinkState(n) => if n.route_distinguisher.is_some() {
                AfiSafi::new(Afi::LinkState, Safi::LinkStateVpn)
            } else {
                AfiSafi::new(Afi::LinkState, Safi::LinkState)
            },
        }
    }

    /// Whether two keys are the same.
    pub fn same(&self, other: &RouteKey) -> (r: bool)
        ensures
            r == (self@ == other@),
    {
        match (self, other) {
            (RouteKey::Prefix(a), RouteKey::Prefix(b)) => *a == *b,
            (RouteKey::LinkState(a), RouteKey::LinkState(b)) => a.same(b),
            _ => false,
        }
    }
}

impl Clone for RouteKey {
    fn clone(&self) -> (r: Self)
        ensures
            r@ == self@,
    {
        match self {
            RouteKey::Prefix(p) => RouteKey::Prefix(*p),
            RouteKey::LinkState(n) => {
                let copy: LsNlri = (**n).clone();
                RouteKey::LinkState(Box::new(copy))
            },
        }
    }
}

// ---------------------------------------------------------------------------
// Paths
// ---------------------------------------------------------------------------

/// The attributes of a path.
#[derive(Debug, PartialEq, Eq)]
pub struct PathAttrs {
    pub origin: Origin,
    pub as_path: Vec<AsPathSegment>,
    pub next_hop: NextHopAddr,
    pub source: RouteSource,
    pub local_pref: Option<u32>,
    pub med: Option<u32>,
    pub atomic_aggregate: bool,
    pub aggregator: Option<Aggregator>,
    pub communities: Vec<u32>,
    pub extended_communities: Vec<u64>,
    pub large_communities: Vec<LargeCommunity>,
    pub unknown_attrs: Vec<PathAttribute>,
    pub originator_id: Option<Ipv4Addr>,
    pub cluster_list: Vec<Ipv4Addr>,
    pub ls_attr: Option<LsAttr>,
}

pub struct PathAttrsView {
    pub origin: Origin,
    pub as_path: Seq<AsPathSegmentView>,
    pub next_hop: NextHopAddr,
    pub source: RouteSource,
    pub local_pref: Option<u32>,
    pub med: Option<u32>,
    pub atomic_aggregate: bool,
    pub aggregator: Option<Aggregator>,
    pub communities: Seq<u32>,
    pub extended_communities: Seq<u64>,
    pub large_communities: Seq<LargeCommunity>,
    pub unknown_attrs: Seq<PathAttributeView>,
    pub originator_id: Option<Ipv4Addr>,
    pub cluster_list: Seq<Ipv4Addr>,
    pub ls_attr: Option<Seq<LsAttrTlvView>>,
}

impl View for PathAttrs {
    type V = PathAttrsView;

    open spec fn view(&self) -> PathAttrsView {
        PathAttrsView {
            origin: self.origin,
            as_path: seqs::views(self.as_path@),
            next_hop: self.next_hop,
            source: self.source,
            local_pref: self.local_pref,
            med: self.med,
            atomic_aggregate: self.atomic_aggregate,
            aggregator: self.aggregator,
            communities: self.communities@,
            extended_communities: self.extended_communities@,
            large_communities: self.large_communities@,
            unknown_attrs: seqs::views(self.unknown_attrs@),
            originator_id: self.originator_id,
            cluster_list: self.cluster_list@,
            ls_attr: bgpls::opt_ls_attr(self.ls_attr),
        }
    }
}

fn opt_addr_eq(a: &Option<Ipv4Addr>, b: &Option<Ipv4Addr>) -> (r: bool)
    ensures
        r == (*a == *b),
{
    match (a, b) {
        (Some(x), Some(y)) => *x == *y,
        (None, None) => true,
        _ => false,
    }
}

fn opt_aggregator_eq(a: &Option<Aggregator>, b: &Option<Aggregator>) -> (r: bool)
    ensures
        r == (*a == *b),
{
    match (a, b) {
        (Some(x), Some(y)) => *x == *y,
        (None, None) => true,
        _ => false,
    }
}

/// A copy of an optional link-state attribute.
pub fn clone_opt_ls_attr(v: &Option<LsAttr>) -> (r: Option<LsAttr>)
    ensures
        bgpls::opt_ls_attr(r) == bgpls::opt_ls_attr(*v),
{
    match v {
        Some(a) => Some(a.clone()),
        None => None,
    }
}

impl Clone for PathAttrs {
    fn clone(&self) -> (r: Self)
        ensures
            r@ == self@,
    {
        PathAttrs {
            origin: self.origin,
            as_path: clone_as_path(&self.as_path),
            next_hop: self.next_hop,
            source: self.source,
            local_pref: self.local_pref,
            med: self.med,
            atomic_aggregate: self.atomic_aggregate,
            aggregator: self.aggregator,
            communities: copy_items(&self.communities),
            extended_communities: copy_items(&self.extended_communities),
            large_communities: copy_items(&self.large_communities),
            unknown_attrs: clone_attributes(&self.unknown_attrs),
            originator_id: self.originator_id,
            cluster_list: copy_items(&self.cluster_list),
            ls_attr: clone_opt_ls_attr(&self.ls_attr),
        }
    }
}

impl PathAttrs {
    /// Whether two sets of attributes are the same.
    pub fn same(&self, other: &PathAttrs) -> (r: bool)
        ensures
            r == (self@ == other@),
    {
        let ls = match (&self.ls_attr, &other.ls_attr) {
            (Some(a), Some(b)) => a.same(b),
            (None, None) => true,
            _ => false,
        };
        self.origin == other.origin && as_paths_eq(&self.as_path, &other.as_path) && self.next_hop
            == other.next_hop && self.source == other.source && self.local_pref == other.local_pref
            && self.med == other.med && self.atomic_aggregate == other.atomic_aggregate
            && opt_aggregator_eq(&self.aggregator, &other.aggregator) && items_eq(
            &self.communities,
            &other.communities,
        ) && items_eq(&self.extended_communities, &other.extended_communities) && items_eq(
            &self.large_communities,
            &other.large_communities,
        ) && attributes_eq(&self.unknown_attrs, &other.unknown_attrs) && opt_addr_eq(
            &self.originator_id,
            &other.originator_id,
        ) && items_eq(&self.cluster_list, &other.cluster_list) && ls
    }
}

/// A path to a destination.
#[derive(Debug, PartialEq, Eq)]
pub struct Path {
    pub local_path_id: Option<u32>,
    pub remote_path_id: Option<u32>,
    pub attrs: Arc<PathAttrs>,
    pub stale: bool,
    pub rpki_state: RpkiValidation,
}

pub struct PathView {
    pub local_path_id: Option<u32>,
    pub remote_path_id: Option<u32>,
    pub attrs: PathAttrsView,
    pub stale: bool,
    pub rpki_state: RpkiValidation,
}

impl View for Path {
    type V = PathView;

    open spec fn view(&self) -> PathView {
        PathView {
            local_path_id: self.local_path_id,
            remote_path_id: self.remote_path_id,
            attrs: self.attrs@,
            stale: self.stale,
            rpki_state: self.rpki_state,
        }
    }
}

impl Clone for Path {
    fn clone(&self) -> (r: Self)
        ensures
            r == *self,
    {
        Path {
            local_path_id: self.local_path_id,
            remote_path_id: self.remote_path_id,
            attrs: share(&self.attrs),
            stale: self.stale,
            rpki_state: self.rpki_state,
        }
    }
}

impl Path {
    pub fn source(&self) -> (r: RouteSource)
        ensures
            r == self@.attrs.source,
    {
        self.attrs.source
    }

    pub fn next_hop(&self) -> (r: NextHopAddr)
        ensures
            r == self@.attrs.next_hop,
    {
        self.attrs.next_hop
    }

    pub fn local_pref(&self) -> (r: Option<u32>)
        ensures
            r == self@.attrs.local_pref,
    {
        self.attrs.local_pref
    }

    pub fn med(&self) -> (r: Option<u32>)
        ensures
            r == self@.attrs.med,
    {
        self.attrs.med
    }

    pub fn as_path(&self) -> (r: &Vec<AsPathSegment>)
        ensures
            seqs::views(r@) == self@.attrs.as_path,
    {
        &self.attrs.as_path
    }

    pub fn communities(&self) -> (r: &Vec<u32>)
        ensures
            r@ == self@.attrs.communities,
    {
        &self.attrs.communities
    }

    pub fn extended_communities(&self) -> (r: &Vec<u64>)
        ensures
            r@ == self@.attrs.extended_communities,
    {
        &self.attrs.extended_communities
    }

    pub fn large_communities(&self) -> (r: &Vec<LargeCommunity>)
        ensures
            r@ == self@.attrs.large_communities,
    {
        &self.attrs.large_communities
    }

    /// The attributes are replaced by `attrs`.
    pub fn set_attrs(&mut self, attrs: PathAttrs)
        ensures
            final(self)@ == (PathView { attrs: attrs@, ..old(self)@ }),
    {
        self.attrs = Arc::new(attrs);
    }
}

/// A path together with what it leads to.
#[derive(Debug, PartialEq, Eq)]
pub struct RoutePath {
    pub key: RouteKey,
    pub path: Arc<Path>,
}

pub struct RoutePathView {
    pub key: RouteKeyView,
    pub path: PathView,
}

impl View for RoutePath {
    type V = RoutePathView;

    open spec fn view(&self) -> RoutePathView {
        RoutePathView { key: self.key@, path: self.path@ }
    }
}

impl RoutePath {
    pub fn new(key: RouteKey, path: Path) -> (r: Self)
        ensures
            r.key == key,
            *r.path == path,
    {
        RoutePath { key, path: Arc::new(path) }
    }
}

impl Clone for RoutePath {
    fn clone(&self) -> (r: Self)
        ensures
            r@ == self@,
    {
        RoutePath { key: self.key.clone(), path: share(&self.path) }
    }
}

/// A route that is withdrawn, and the identifier of the path where only that
/// one is.
pub type Withdrawal = (RouteKey, Option<u32>);

/// What a withdrawal holds.
pub open spec fn withdrawal_view(w: Withdrawal) -> (RouteKeyView, Option<u32>) {
    (w.0@, w.1)
}

/// What withdrawals hold.
pub open spec fn withdrawal_views(s: Seq<Withdrawal>) -> Seq<(RouteKeyView, Option<u32>)> {
    Seq::new(s.len(), |i: int| withdrawal_view(s[i]))
}

/// A copy of a withdrawal.
pub fn clone_withdrawal(w: &Withdrawal) -> (r: Withdrawal)
    ensures
        withdrawal_view(r) == withdrawal_view(*w),
{
    (w.0.clone(), w.1)
}

// ---------------------------------------------------------------------------
// Tables
// ---------------------------------------------------------------------------

/// The paths of a route, the preferred one first.
#[derive(Debug)]
pub struct Route {
    pub key: RouteKey,
    pub paths: Vec<Arc<Path>>,
}

/// What paths hold.
pub open spec fn path_views(s: Seq<Arc<Path>>) -> Seq<PathView> {
    Seq::new(s.len(), |i: int| s[i]@)
}

/// The routes that are known, each with its paths in the order of preference.
#[derive(Debug)]
pub struct LocRib {
    pub routes: Vec<Route>,
}

/// The paths of the first route with the given key; none where there is none.
pub open spec fn paths_of(routes: Seq<Route>, key: RouteKeyView) -> Seq<PathView>
    decreases routes.len(),
{
    if routes.len() == 0 {
        Seq::empty()
    } else if routes[0].key@ == key {
        path_views(routes[0].paths@)
    } else {
        paths_of(routes.skip(1), key)
    }
}

impl LocRib {
    pub open spec fn paths(self, key: RouteKeyView) -> Seq<PathView> {
        paths_of(self.routes@, key)
    }

    /// The paths of a route in the order of preference.
    pub fn get_all_paths(&self, key: &RouteKey) -> (r: Vec<Arc<Path>>)
        ensures
            path_views(r@) == self.paths(key@),
    {
        let mut i: usize = 0;
        assert(self.routes@.skip(0) =~= self.routes@);
        while i < self.routes.len()
            invariant
                i <= self.routes@.len(),
                self.paths(key@) == paths_of(self.routes@.skip(i as int), key@),
            decreases self.routes.len() - i,
        {
            proof {
                assert(self.routes@.skip(i as int)[0] == self.routes@[i as int]);
                assert(self.routes@.skip(i as int).skip(1) =~= self.routes@.skip(i + 1));
            }
            if self.routes[i].key.same(key) {
                return share_all(&self.routes[i].paths);
            }
            i = i + 1;
        }
        let none: Vec<Arc<Path>> = Vec::new();
        assert(path_views(none@) =~= Seq::<PathView>::empty());
        none
    }
}

/// More handles to the same paths.
pub fn share_all(v: &Vec<Arc<Path>>) -> (r: Vec<Arc<Path>>)
    ensures
        r@ == v@,
{
    let mut r: Vec<Arc<Path>> = Vec::new();
    let mut i: usize = 0;
    while i < v.len()
        invariant
            i <= v@.len(),
            r@ == v@.take(i as int),
        decreases v.len() - i,
    {
        r.push(share(&v[i]));
        proof {
            seqs::lemma_take_next(v@, i as int);
        }
        i = i + 1;
    }
    proof {
        seqs::lemma_take_all(v@);
    }
    r
}

/// The routes that changed, and those of them whose preferred path changed.
#[derive(Debug)]
pub struct RouteDelta {
    pub changed: Vec<RouteKey>,
    pub best_changed: Vec<RouteKey>,
}

/// What a peer was last told: at most one path per route and local path
/// identifier.
#[derive(Debug)]
pub struct AdjRibOut {
    entries: Vec<RoutePath>,
}

/// The identifier of one of the paths.
pub open spec fn has_path_id(paths: Seq<RoutePathView>, id: Option<u32>) -> bool {
    exists|i: int| 0 <= i < paths.len() && (#[trigger] paths[i]).path.local_path_id == id
}

/// The paths of a route that were told and are not among `current`.
pub open spec fn stale_of(
    entries: Seq<RoutePathView>,
    key: RouteKeyView,
    current: Seq<RoutePathView>,
) -> Seq<PathView>
    decreases entries.len(),
{
    if entries.len() == 0 {
        Seq::empty()
    } else {
        let before = stale_of(entries.drop_last(), key, current);
        let e = entries.last();
        if e.key == key && !has_path_id(current, e.path.local_path_id) {
            before.push(e.path)
        } else {
            before
        }
    }
}

/// The entries without those of a route with a local path identifier.
pub open spec fn without_path(
    entries: Seq<RoutePathView>,
    key: RouteKeyView,
    id: Option<u32>,
) -> Seq<RoutePathView>
    decreases entries.len(),
{
    if entries.len() == 0 {
        Seq::empty()
    } else {
        let before = without_path(entries.drop_last(), key, id);
        let e = entries.last();
        if e.key == key && e.path.local_path_id == id {
            before
        } else {
            before.push(e)
        }
    }
}

/// The entries with a path, in the place of the one with its identifier.
pub open spec fn with_path(entries: Seq<RoutePathView>, r: RoutePathView) -> Seq<RoutePathView> {
    without_path(entries, r.key, r.path.local_path_id).push(r)
}

impl View for AdjRibOut {
    type V = Seq<RoutePathView>;

    closed spec fn view(&self) -> Seq<RoutePathView> {
        seqs::views(self.entries@)
    }
}

impl Clone for AdjRibOut {
    fn clone(&self) -> (r: Self)
        ensures
            r@ == self@,
    {
        let ghost all = self@;
        let mut entries: Vec<RoutePath> = Vec::new();
        let mut i: usize = 0;
        assert(seqs::views(entries@) =~= all.take(0));
        while i < self.entries.len()
            invariant
                i <= self.entries@.len(),
                all == seqs::views(self.entries@),
                seqs::views(entries@) == all.take(i as int),
            decreases self.entries.len() - i,
        {
            let x = self.entries[i].clone();
            proof {
                seqs::lemma_views_push(entries@, x);
                seqs::lemma_take_next(all, i as int);
            }
            entries.push(x);
            i = i + 1;
        }
        proof {
            seqs::lemma_take_all(all);
        }
        AdjRibOut { entries }
    }
}

fn is_current(current: &Vec<RoutePath>, id: Option<u32>) -> (r: bool)
    ensures
        r == has_path_id(seqs::views(current@), id),
{
    let mut i: usize = 0;
    while i < current.len()
        invariant
            i <= current@.len(),
            forall|j: int|
                0 <= j < i ==> (#[trigger] seqs::views(current@)[j]).path.local_path_id != id,
        decreases current.len() - i,
    {
        if current[i].path.local_path_id == id {
            assert(seqs::views(current@)[i as int].path.local_path_id == id);
            return true;
        }
        i = i + 1;
    }
    false
}

impl AdjRibOut {
    pub fn new() -> (r: Self)
        ensures
            r@ == Seq::<RoutePathView>::empty(),
    {
        let r = AdjRibOut { entries: Vec::new() };
        assert(r@ =~= Seq::<RoutePathView>::empty());
        r
    }

    /// The paths of a route that were told and are not among `current`.
    pub fn stale_paths(&self, key: &RouteKey, current: &Vec<RoutePath>) -> (r: Vec<Arc<Path>>)
        ensures
            path_views(r@) == stale_of(self@, key@, seqs::views(current@)),
    {
        let ghost all = self@;
        let ghost cur = seqs::views(current@);
        let mut r: Vec<Arc<Path>> = Vec::new();
        let mut i: usize = 0;
        assert(path_views(r@) =~= Seq::<PathView>::empty());
        while i < self.entries.len()
            invariant
                i <= self.entries@.len(),
                all == seqs::views(self.entries@),
                cur == seqs::views(current@),
                path_views(r@) == stale_of(all.take(i as int), key@, cur),
            decreases self.entries.len() - i,
        {
            proof {
                assert(all.take(i + 1).drop_last() =~= all.take(i as int));
                assert(all.take(i + 1).last() == self.entries@[i as int]@);
            }
            let e = &self.entries[i];
            if e.key.same(key) && !is_current(current, e.path.local_path_id) {
                let ghost before = r@;
                r.push(share(&e.path));
                assert(path_views(r@) =~= path_views(before).push(e.path@));
            }
            i = i + 1;
        }
        proof {
            seqs::lemma_take_all(all);
        }
        r
    }

    fn drop_path(&mut self, key: &RouteKey, id: Option<u32>)
        ensures
            final(self)@ == without_path(old(self)@, key@, id),
    {
        let ghost all = self@;
        let mut kept: Vec<RoutePath> = Vec::new();
        let mut i: usize = 0;
        assert(seqs::views(kept@) =~= Seq::<RoutePathView>::empty());
        while i < self.entries.len()
            invariant
                i <= self.entries@.len(),
                all == seqs::views(self.entries@),
                seqs::views(kept@) == without_path(all.take(i as int), key@, id),
            decreases self.entries.len() - i,
        {
            proof {
                assert(all.take(i + 1).drop_last() =~= all.take(i as int));
                assert(all.take(i + 1).last() == self.entries@[i as int]@);
            }
            let e = &self.entries[i];
            if !(e.key.same(key) && e.path.local_path_id == id) {
                let x = e.clone();
                proof {
                    seqs::lemma_views_push(kept@, x);
                }
                kept.push(x);
            }
            i = i + 1;
        }
        proof {
            seqs::lemma_take_all(all);
        }
        self.entries = kept;
    }

    /// Forgets the path of a route with a local path identifier.
    pub fn remove_path(&mut self, key: &RouteKey, id: u32)
        ensures
            final(self)@ == without_path(old(self)@, key@, Some(id)),
    {
        self.drop_path(key, Some(id));
    }

    /// Notes that a path is told.
    pub fn insert(&mut self, r: RoutePath)
        ensures
            final(self)@ == with_path(old(self)@, r@),
    {
        let id = r.path.local_path_id;
        self.drop_path(&r.key, id);
        proof {
            seqs::lemma_views_push(self.entries@, r);
        }
        self.entries.push(r);
    }
}

} // verus!
