//! What a peer is told of a route: whether it is told at all, and with which
//! attributes.

use crate::bgp::community::{
    GRACEFUL_SHUTDOWN, LLGR_STALE, NO_ADVERTISE, NO_EXPORT, NO_EXPORT_SUBCONFED,
};
use crate::bgp::ext_community;
use crate::bgp::ext_community::{
    from_rpki_state_community, is_rpki_state_community, is_transitive,
};
use crate::bgp::msg::MessageFormat;
use crate::bgp::msg_update;
use crate::bgp::msg_update::{
    clone_as_path, clone_attributes, AsPathSegment, AsPathSegmentType, AsPathSegmentView,
    NextHopAddr, PathAttribute, PathAttributeView,
};
use crate::bgp::multiprotocol;
use crate::bgp::multiprotocol::{Afi, AfiSafi, AfiSafiSet, Safi};
use crate::net::addr::{IpAddr, Ipv4Addr, Ipv6Addr};
use crate::peer::capabilities::PeerCapabilities;
use crate::peer::fsm::BgpState;
use crate::policy;
use crate::policy::{AfiSafiPolicies, Policy, PolicyResult, PolicyView};
use crate::rib::{
    clone_opt_ls_attr, Path, PathAttrs, PathAttrsView, PathView, RouteKey, RouteKeyView, RoutePath,
    RoutePathView,
};
use crate::rpki::RpkiValidation;
use crate::seqs;
use crate::seqs::{contains_item, copy_items};
use std::sync::Arc;
use vstd::prelude::*;

verus! {

/// What the export of routes to a peer depends on.
pub struct PeerExportContext<'a> {
    pub peer_addr: IpAddr,
    pub local_asn: u32,
    pub peer_asn: u32,
    pub local_next_hop: IpAddr,
    /// The address of this speaker on the link to the peer.
    pub local_link_local: Option<Ipv6Addr>,
    pub export_policies: &'a AfiSafiPolicies,
    pub rr_client: bool,
    pub rs_client: bool,
    pub cluster_id: Ipv4Addr,
    pub send_format: MessageFormat,
    pub negotiated_afi_safis: &'a AfiSafiSet,
    pub next_hop_self: bool,
    /// Routes are marked because the session is about to be shut down.
    pub graceful_shutdown: bool,
    pub capabilities: &'a PeerCapabilities,
    /// The outcome of origin validation is told to the peer.
    pub send_rpki_community: bool,
}

pub struct ExportView {
    pub peer_addr: IpAddr,
    pub local_asn: u32,
    pub peer_asn: u32,
    pub local_next_hop: IpAddr,
    pub local_link_local: Option<Ipv6Addr>,
    pub policies: Seq<(AfiSafi, Seq<PolicyView>)>,
    pub rr_client: bool,
    pub rs_client: bool,
    pub cluster_id: Ipv4Addr,
    pub send_format: MessageFormat,
    pub families: Set<AfiSafi>,
    pub next_hop_self: bool,
    pub graceful_shutdown: bool,
    pub peer_keeps_stale: bool,
    pub send_rpki_community: bool,
}

/// What policies per family hold.
pub open spec fn policies_view(p: Seq<(AfiSafi, Vec<Arc<Policy>>)>) -> Seq<
    (AfiSafi, Seq<PolicyView>),
> {
    Seq::new(p.len(), |i: int| (p[i].0, policy::policy_views(p[i].1@)))
}

impl<'a> View for PeerExportContext<'a> {
    type V = ExportView;

    open spec fn view(&self) -> ExportView {
        ExportView {
            peer_addr: self.peer_addr,
            local_asn: self.local_asn,
            peer_asn: self.peer_asn,
            local_next_hop: self.local_next_hop,
            local_link_local: self.local_link_local,
            policies: policies_view(self.export_policies@),
            rr_client: self.rr_client,
            rs_client: self.rs_client,
            cluster_id: self.cluster_id,
            send_format: self.send_format,
            families: self.negotiated_afi_safis@,
            next_hop_self: self.next_hop_self,
            graceful_shutdown: self.graceful_shutdown,
            peer_keeps_stale: self.capabilities@.llgr is Some,
            send_rpki_community: self.send_rpki_community,
        }
    }
}

impl ExportView {
    /// The peer belongs to another autonomous system.
    pub open spec fn external(self) -> bool {
        self.local_asn != self.peer_asn
    }
}

impl<'a> PeerExportContext<'a> {
    /// The families whose routes are sent, in the order in which they are.
    pub open spec fn told_families(&self) -> Seq<AfiSafi> {
        if self.negotiated_afi_safis@ == Set::<AfiSafi>::empty() {
            seq![multiprotocol::ipv4_unicast()]
        } else {
            self.negotiated_afi_safis.listed()
        }
    }

    pub fn is_ebgp(&self) -> (r: bool)
        ensures
            r == self@.external(),
    {
        self.local_asn != self.peer_asn
    }

    pub fn is_ibgp(&self) -> (r: bool)
        ensures
            r == !self@.external(),
    {
        self.local_asn == self.peer_asn
    }

    /// The families whose routes are sent; where none was agreed on, IPv4
    /// unicast.
    pub fn afi_safis(&self) -> (r: Vec<AfiSafi>)
        ensures
            r@ == self.told_families(),
            r@.no_duplicates(),
            self@.families == Set::<AfiSafi>::empty() ==> r@ == seq![multiprotocol::ipv4_unicast()],
            self@.families != Set::<AfiSafi>::empty() ==> r@.to_set() == self@.families,
    {
        if self.negotiated_afi_safis.is_empty() {
            let r: Vec<AfiSafi> = vec![AfiSafi::new(Afi::Ipv4, Safi::Unicast)];
            assert(r@ =~= seq![multiprotocol::ipv4_unicast()]);
            r
        } else {
            self.negotiated_afi_safis.to_vec()
        }
    }
}

// ---------------------------------------------------------------------------
// Which routes are told
// ---------------------------------------------------------------------------

/// A well-known community keeps a route from a peer.
pub open spec fn community_blocks(communities: Seq<u32>, local_asn: u32, peer_asn: u32) -> bool {
    communities.contains(NO_ADVERTISE) || (local_asn != peer_asn && (communities.contains(NO_EXPORT)
        || communities.contains(NO_EXPORT_SUBCONFED)))
}

/// Whether a well-known community keeps a route from a peer.
pub fn should_filter_by_community(communities: &Vec<u32>, local_asn: u32, peer_asn: u32) -> (r:
    bool)
    ensures
        r == community_blocks(communities@, local_asn, peer_asn),
{
    if contains_item(communities, &NO_ADVERTISE) {
        return true;
    }
    let is_ebgp = local_asn != peer_asn;
    is_ebgp && (contains_item(communities, &NO_EXPORT) || contains_item(
        communities,
        &NO_EXPORT_SUBCONFED,
    ))
}

/// A path may be told to a peer, before its policies are asked: internal paths
/// are passed on to internal peers only from or to a client, no path goes back
/// to where it came from, communities are respected, and stale paths go only to
/// peers that know what they are.
pub open spec fn exportable(p: PathView, c: ExportView) -> bool {
    let source = p.attrs.source;
    &&& !(!c.external() && source is Ibgp && !source.rr_client_spec() && !c.rr_client)
    &&& source.peer_ip_spec() != Some(c.peer_addr)
    &&& !community_blocks(p.attrs.communities, c.local_asn, c.peer_asn)
    &&& !(p.attrs.communities.contains(LLGR_STALE) && !c.peer_keeps_stale)
}

/// Whether a path may be told to a peer, before its policies are asked.
pub fn should_export_to_peer(path: &Path, ctx: &PeerExportContext) -> (r: bool)
    ensures
        r == exportable(path@, ctx@),
{
    let source = path.source();
    if ctx.is_ibgp() && source.is_ibgp() && !source.is_rr_client() && !ctx.rr_client {
        return false;
    }
    if let Some(ip) = source.peer_ip() {
        if ip == ctx.peer_addr {
            return false;
        }
    }
    if should_filter_by_community(path.communities(), ctx.local_asn, ctx.peer_asn) {
        return false;
    }
    if contains_item(path.communities(), &LLGR_STALE) && ctx.capabilities.llgr.is_none() {
        return false;
    }
    true
}

/// A change is passed on to a peer: to every peer with an established session but
/// the one that it came from.
pub open spec fn is_passed_on_to(
    peer_addr: IpAddr,
    peer_state: BgpState,
    originating_peer: Option<IpAddr>,
) -> bool {
    originating_peer != Some(peer_addr) && peer_state == BgpState::Established
}

/// Whether a change is passed on to a peer: to every peer with an established
/// session but the one that it came from.
pub fn should_propagate_to_peer(
    peer_addr: IpAddr,
    peer_state: BgpState,
    originating_peer: Option<IpAddr>,
) -> (r: bool)
    ensures
        r == is_passed_on_to(peer_addr, peer_state, originating_peer),
{
    if let Some(orig) = originating_peer {
        if peer_addr == orig {
            return false;
        }
    }
    peer_state == BgpState::Established
}

// ---------------------------------------------------------------------------
// Attributes
// ---------------------------------------------------------------------------

/// A segment of one AS number.
pub open spec fn single_segment(asn: u32) -> AsPathSegmentView {
    AsPathSegmentView {
        segment_type: AsPathSegmentType::AsSequence,
        segment_len: 1,
        asn_list: seq![asn],
    }
}

/// The path with an AS number in front: in its first segment where that is a
/// sequence, else in a segment of its own.
pub open spec fn prepended(path: Seq<AsPathSegmentView>, asn: u32) -> Seq<AsPathSegmentView> {
    if path.len() > 0 && path[0].segment_type is AsSequence {
        let list = seq![asn] + path[0].asn_list;
        seq![
            AsPathSegmentView {
                segment_type: AsPathSegmentType::AsSequence,
                segment_len: list.len() as u8,
                asn_list: list,
            },
        ] + path.skip(1)
    } else {
        seq![single_segment(asn)] + path
    }
}

/// The AS path for a peer: external peers see this system in front, unless this
/// speaker only serves routes to them.
pub open spec fn export_as_path(p: PathView, c: ExportView) -> Seq<AsPathSegmentView> {
    if c.rs_client || !c.external() {
        p.attrs.as_path
    } else {
        prepended(p.attrs.as_path, c.local_asn)
    }
}

/// The path with an AS number in front.
pub fn prepend_local_asn(as_path: &Vec<AsPathSegment>, local_asn: u32) -> (r: Vec<AsPathSegment>)
    ensures
        seqs::views(r@) == prepended(seqs::views(as_path@), local_asn),
{
    let ghost all = seqs::views(as_path@);
    let mut r: Vec<AsPathSegment> = Vec::new();
    let mut from: usize = 0;
    if as_path.len() > 0 && as_path[0].segment_type == AsPathSegmentType::AsSequence {
        let mut list: Vec<u32> = vec![local_asn];
        let mut rest = copy_items(&as_path[0].asn_list);
        list.append(&mut rest);
        assert(list@ =~= seq![local_asn] + all[0].asn_list);
        r.push(
            AsPathSegment {
                segment_type: AsPathSegmentType::AsSequence,
                segment_len: list.len() as u8,
                asn_list: list,
            },
        );
        from = 1;
    } else {
        let list: Vec<u32> = vec![local_asn];
        assert(list@ =~= seq![local_asn]);
        r.push(
            AsPathSegment {
                segment_type: AsPathSegmentType::AsSequence,
                segment_len: 1,
                asn_list: list,
            },
        );
    }
    let ghost head = seqs::views(r@);
    let mut i: usize = from;
    assert(head =~= head + all.subrange(from as int, i as int));
    while i < as_path.len()
        invariant
            from <= i <= as_path@.len(),
            all == seqs::views(as_path@),
            seqs::views(r@) == head + all.subrange(from as int, i as int),
        decreases as_path.len() - i,
    {
        let x = as_path[i].clone();
        proof {
            seqs::lemma_views_push(r@, x);
            assert(all.subrange(from as int, i + 1) =~= all.subrange(from as int, i as int).push(
                all[i as int],
            ));
        }
        r.push(x);
        assert(seqs::views(r@) =~= head + all.subrange(from as int, i + 1));
        i = i + 1;
    }
    proof {
        if from == 1 {
            assert(all.subrange(1, all.len() as int) =~= all.skip(1));
        } else {
            assert(all.subrange(0, all.len() as int) =~= all);
        }
        assert(seqs::views(r@) =~= prepended(all, local_asn));
    }
    r
}

/// The AS path for a peer.
pub fn build_export_as_path(path: &Path, ctx: &PeerExportContext) -> (r: Vec<AsPathSegment>)
    ensures
        seqs::views(r@) == export_as_path(path@, ctx@),
{
    if ctx.rs_client || ctx.is_ibgp() {
        clone_as_path(path.as_path())
    } else {
        prepend_local_asn(path.as_path(), ctx.local_asn)
    }
}

/// The local preference for a peer: internal peers see it, others do not.
pub fn build_export_local_pref(path: &Path, ctx: &PeerExportContext) -> (r: Option<u32>)
    ensures
        r == (if ctx@.external() {
            None
        } else {
            path@.attrs.local_pref
        }),
{
    if ctx.local_asn == ctx.peer_asn {
        path.local_pref()
    } else {
        None
    }
}

/// The route comes from this system: it was made here, its AS path is empty, or
/// the path begins with this system outside of a set.
pub open spec fn from_own_system(p: PathView, local_asn: u32) -> bool {
    ||| p.attrs.source is Local
    ||| p.attrs.as_path.len() == 0
    ||| {
        let first = p.attrs.as_path[0];
        &&& first.asn_list.len() > 0
        &&& first.asn_list[0] == local_asn
        &&& !(first.segment_type is AsSet)
    }
}

/// The multi-exit discriminator for a peer: external peers see it on routes of
/// this system alone, unless this speaker only serves routes to them.
pub open spec fn export_med(p: PathView, c: ExportView) -> Option<u32> {
    if c.rs_client || !c.external() || from_own_system(p, c.local_asn) {
        p.attrs.med
    } else {
        None
    }
}

pub fn build_export_med(path: &Path, ctx: &PeerExportContext) -> (r: Option<u32>)
    ensures
        r == export_med(path@, ctx@),
{
    if ctx.rs_client || ctx.is_ibgp() || path.source().is_local() {
        return path.med();
    }
    let as_path = path.as_path();
    assert(as_path@.len() == path@.attrs.as_path.len());
    if as_path.len() == 0 {
        return path.med();
    }
    let first = &as_path[0];
    assert(first@ == path@.attrs.as_path[0]) by {
        assert(seqs::views(as_path@)[0] == first@);
    }
    if first.asn_list.len() == 0 || first.asn_list[0] != ctx.local_asn {
        return None;
    }
    if first.segment_type == AsPathSegmentType::AsSet {
        return None;
    }
    path.med()
}

/// The communities that may leave the system.
pub open spec fn transitive_only(l: Seq<u64>) -> Seq<u64> {
    l.filter(|c: u64| ext_community::transitive_spec(c))
}

/// The communities but those of a validation outcome.
pub open spec fn without_rpki(l: Seq<u64>) -> Seq<u64> {
    l.filter(|c: u64| !ext_community::is_rpki_community(c))
}

/// The extended communities for a peer: external peers see the transitive ones,
/// internal ones all, and the outcome of validation where it is wanted; peers
/// that routes are only served to see them as they are.
pub open spec fn export_ext_communities(p: PathView, c: ExportView) -> Seq<u64> {
    let l = p.attrs.extended_communities;
    if c.rs_client {
        l
    } else if c.external() {
        transitive_only(l)
    } else if c.send_rpki_community {
        without_rpki(l).push(ext_community::rpki_community(p.rpki_state.code_spec()))
    } else {
        l
    }
}

fn keep_transitive(l: &Vec<u64>) -> (r: Vec<u64>)
    ensures
        r@ == transitive_only(l@),
{
    let ghost keep = |c: u64| ext_community::transitive_spec(c);
    let mut r: Vec<u64> = Vec::new();
    let mut i: usize = 0;
    assert(l@.take(0).filter(keep) =~= Seq::<u64>::empty()) by {
        reveal(Seq::filter);
    }
    while i < l.len()
        invariant
            i <= l@.len(),
            keep == (|c: u64| ext_community::transitive_spec(c)),
            r@ == l@.take(i as int).filter(keep),
        decreases l.len() - i,
    {
        proof {
            seqs::lemma_take_next(l@, i as int);
            l@.take(i as int).lemma_filter_push(l@[i as int], keep);
        }
        if is_transitive(l[i]) {
            r.push(l[i]);
        }
        i = i + 1;
    }
    proof {
        seqs::lemma_take_all(l@);
    }
    r
}

fn drop_rpki(l: &Vec<u64>) -> (r: Vec<u64>)
    ensures
        r@ == without_rpki(l@),
{
    let ghost keep = |c: u64| !ext_community::is_rpki_community(c);
    let mut r: Vec<u64> = Vec::new();
    let mut i: usize = 0;
    assert(l@.take(0).filter(keep) =~= Seq::<u64>::empty()) by {
        reveal(Seq::filter);
    }
    while i < l.len()
        invariant
            i <= l@.len(),
            keep == (|c: u64| !ext_community::is_rpki_community(c)),
            r@ == l@.take(i as int).filter(keep),
        decreases l.len() - i,
    {
        proof {
            seqs::lemma_take_next(l@, i as int);
            l@.take(i as int).lemma_filter_push(l@[i as int], keep);
        }
        if !is_rpki_state_community(l[i]) {
            r.push(l[i]);
        }
        i = i + 1;
    }
    proof {
        seqs::lemma_take_all(l@);
    }
    r
}

pub fn build_export_extended_communities(path: &Path, ctx: &PeerExportContext) -> (r: Vec<u64>)
    ensures
        r@ == export_ext_communities(path@, ctx@),
{
    if ctx.rs_client {
        return copy_items(path.extended_communities());
    }
    if ctx.is_ebgp() {
        return keep_transitive(path.extended_communities());
    }
    if ctx.send_rpki_community {
        let mut r = drop_rpki(path.extended_communities());
        r.push(from_rpki_state_community(path.rpki_state.to_u8()));
        return r;
    }
    copy_items(path.extended_communities())
}

/// The communities for a peer: where the session is about to be shut down, the
/// community that says so is among them.
pub open spec fn export_communities(p: PathView, c: ExportView) -> Seq<u32> {
    let l = p.attrs.communities;
    if c.graceful_shutdown && !l.contains(GRACEFUL_SHUTDOWN) {
        l.push(GRACEFUL_SHUTDOWN)
    } else {
        l
    }
}

pub fn build_export_communities(path: &Path, ctx: &PeerExportContext) -> (r: Vec<u32>)
    ensures
        r@ == export_communities(path@, ctx@),
{
    let mut r = copy_items(path.communities());
    if ctx.graceful_shutdown && !contains_item(&r, &GRACEFUL_SHUTDOWN) {
        r.push(GRACEFUL_SHUTDOWN);
    }
    r
}

/// The attributes of unknown types that are passed on.
pub open spec fn passed_on(l: Seq<PathAttributeView>) -> Seq<PathAttributeView>
    decreases l.len(),
{
    if l.len() == 0 {
        Seq::empty()
    } else if l.last().unknown_transitive() {
        passed_on(l.drop_last()).push(l.last())
    } else {
        passed_on(l.drop_last())
    }
}

/// The attributes of unknown types for a peer: external peers see the optional
/// transitive ones, others all.
pub open spec fn export_unknown_attrs(p: PathView, c: ExportView) -> Seq<PathAttributeView> {
    if c.rs_client || !c.external() {
        p.attrs.unknown_attrs
    } else {
        passed_on(p.attrs.unknown_attrs)
    }
}

pub fn build_export_unknown_attrs(path: &Path, ctx: &PeerExportContext) -> (r: Vec<PathAttribute>)
    ensures
        seqs::views(r@) == export_unknown_attrs(path@, ctx@),
{
    let l = &path.attrs.unknown_attrs;
    if ctx.rs_client || ctx.is_ibgp() {
        return clone_attributes(l);
    }
    let ghost all = seqs::views(l@);
    let mut r: Vec<PathAttribute> = Vec::new();
    let mut i: usize = 0;
    assert(seqs::views(r@) =~= Seq::<PathAttributeView>::empty());
    while i < l.len()
        invariant
            i <= l@.len(),
            all == seqs::views(l@),
            seqs::views(r@) == passed_on(all.take(i as int)),
        decreases l.len() - i,
    {
        proof {
            assert(all.take(i + 1).drop_last() =~= all.take(i as int));
            assert(all.take(i + 1).last() == l@[i as int]@);
        }
        if l[i].is_unknown_transitive() {
            let x = l[i].clone();
            proof {
                seqs::lemma_views_push(r@, x);
            }
            r.push(x);
        }
        i = i + 1;
    }
    proof {
        seqs::lemma_take_all(all);
    }
    r
}

// ---------------------------------------------------------------------------
// Next hop
// ---------------------------------------------------------------------------

/// A next hop and an address are of one family.
pub open spec fn same_family(n: NextHopAddr, ip: IpAddr) -> bool {
    (n is Ipv4) == (ip is V4)
}

fn address_families_match(n: &NextHopAddr, ip: &IpAddr) -> (r: bool)
    ensures
        r == same_family(*n, *ip),
{
    match (n, ip) {
        (NextHopAddr::Ipv4(_), IpAddr::V4(_)) => true,
        (NextHopAddr::Ipv6(_), IpAddr::V6(_)) => true,
        (NextHopAddr::Ipv6WithLinkLocal(_, _), IpAddr::V6(_)) => true,
        _ => false,
    }
}

/// The next hop for an external peer: this speaker, if it has an address of the
/// family; else the one that the path has, if it has one.
pub open spec fn ebgp_next_hop(n: NextHopAddr, local: IpAddr) -> Option<NextHopAddr> {
    if same_family(n, local) {
        Some(msg_update::next_hop_of(local))
    } else if !n.unspecified_spec() {
        Some(n)
    } else {
        None
    }
}

/// The next hop for an internal peer: the one that the path has; a route of this
/// speaker without one gets this speaker, if it has an address of the family.
pub open spec fn ibgp_next_hop(p: PathView, local: IpAddr) -> Option<NextHopAddr> {
    let n = p.attrs.next_hop;
    if !(p.attrs.source is Local) || !n.unspecified_spec() {
        Some(n)
    } else if same_family(n, local) {
        Some(msg_update::next_hop_of(local))
    } else {
        None
    }
}

/// Adds the address on the link where external peers get an IPv6 next hop.
pub open spec fn with_link_local(n: Option<NextHopAddr>, c: ExportView) -> Option<NextHopAddr> {
    match (n, c.local_link_local) {
        (Some(NextHopAddr::Ipv6(global)), Some(link_local)) => if c.external() {
            Some(NextHopAddr::Ipv6WithLinkLocal(global, link_local))
        } else {
            n
        },
        _ => n,
    }
}

/// The next hop for a peer; none where there is no address to give.
pub open spec fn export_next_hop(p: PathView, c: ExportView, key: RouteKeyView) -> Option<
    NextHopAddr,
> {
    if c.rs_client {
        Some(p.attrs.next_hop)
    } else {
        match key {
            RouteKeyView::LinkState(_) => if c.external() || c.next_hop_self {
                Some(msg_update::next_hop_of(c.local_next_hop))
            } else {
                Some(p.attrs.next_hop)
            },
            RouteKeyView::Prefix(_) => with_link_local(
                if c.external() {
                    ebgp_next_hop(p.attrs.next_hop, c.local_next_hop)
                } else if c.next_hop_self {
                    Some(msg_update::next_hop_of(c.local_next_hop))
                } else {
                    ibgp_next_hop(p, c.local_next_hop)
                },
                c,
            ),
        }
    }
}

fn build_ebgp_next_hop(path: &Path, local: IpAddr) -> (r: Option<NextHopAddr>)
    ensures
        r == ebgp_next_hop(path@.attrs.next_hop, local),
{
    let n = path.next_hop();
    if address_families_match(&n, &local) {
        Some(NextHopAddr::from_ip(local))
    } else if !n.is_unspecified() {
        Some(n)
    } else {
        None
    }
}

fn build_ibgp_next_hop(path: &Path, local: IpAddr) -> (r: Option<NextHopAddr>)
    ensures
        r == ibgp_next_hop(path@, local),
{
    let n = path.next_hop();
    if !path.source().is_local() || !n.is_unspecified() {
        Some(n)
    } else if address_families_match(&n, &local) {
        Some(NextHopAddr::from_ip(local))
    } else {
        None
    }
}

/// The next hop for a peer; none where there is no address to give.
pub fn build_export_next_hop(path: &Path, ctx: &PeerExportContext, route_key: &RouteKey) -> (r:
    Option<NextHopAddr>)
    ensures
        r == export_next_hop(path@, ctx@, route_key@),
{
    if ctx.rs_client {
        return Some(path.next_hop());
    }
    match route_key {
        RouteKey::LinkState(_) => {
            if ctx.is_ebgp() || ctx.next_hop_self {
                Some(NextHopAddr::from_ip(ctx.local_next_hop))
            } else {
                Some(path.next_hop())
            }
        },
        RouteKey::Prefix(_) => {
            let next_hop = if ctx.is_ebgp() {
                build_ebgp_next_hop(path, ctx.local_next_hop)
            } else if ctx.next_hop_self {
                Some(NextHopAddr::from_ip(ctx.local_next_hop))
            } else {
                build_ibgp_next_hop(path, ctx.local_next_hop)
            };
            match (next_hop, ctx.local_link_local) {
                (Some(NextHopAddr::Ipv6(global)), Some(link_local)) => {
                    if ctx.is_ebgp() {
                        Some(NextHopAddr::Ipv6WithLinkLocal(global, link_local))
                    } else {
                        next_hop
                    }
                },
                _ => next_hop,
            }
        },
    }
}

// ---------------------------------------------------------------------------
// Reflection
// ---------------------------------------------------------------------------

/// The speaker that a route entered the system at, and the clusters that it
/// passed, for a peer. Only internal peers see them; where a path is passed on
/// from one internal peer to another, this cluster is in front.
pub open spec fn export_rr_attrs(p: PathView, c: ExportView, internal: bool) -> (
    Option<Ipv4Addr>,
    Seq<Ipv4Addr>,
) {
    if internal && p.attrs.source is Ibgp {
        (
            match p.attrs.originator_id {
                Some(x) => Some(x),
                None => p.attrs.source.bgp_id_spec(),
            },
            seq![c.cluster_id] + p.attrs.cluster_list,
        )
    } else if internal && p.attrs.originator_id is Some {
        (p.attrs.originator_id, p.attrs.cluster_list)
    } else {
        (None, Seq::empty())
    }
}

pub fn build_export_rr_attrs(path: &Path, ctx: &PeerExportContext, is_ibgp: bool) -> (r: (
    Option<Ipv4Addr>,
    Vec<Ipv4Addr>,
))
    ensures
        (r.0, r.1@) == export_rr_attrs(path@, ctx@, is_ibgp),
{
    let from_internal = path.source().is_ibgp();
    if is_ibgp && from_internal {
        let originator = match path.attrs.originator_id {
            Some(x) => Some(x),
            None => path.attrs.source.bgp_id(),
        };
        let mut list: Vec<Ipv4Addr> = vec![ctx.cluster_id];
        let mut rest = copy_items(&path.attrs.cluster_list);
        list.append(&mut rest);
        assert(list@ =~= seq![ctx@.cluster_id] + path@.attrs.cluster_list);
        (originator, list)
    } else if is_ibgp && path.attrs.originator_id.is_some() {
        (path.attrs.originator_id, copy_items(&path.attrs.cluster_list))
    } else {
        (None, Vec::new())
    }
}

/// The attributes of a path for a peer, after its policies changed the path.
pub open spec fn export_attrs(p: PathView, c: ExportView, key: RouteKeyView) -> Option<
    PathAttrsView,
> {
    match export_next_hop(p, c, key) {
        None => None,
        Some(next_hop) => {
            let rr = export_rr_attrs(p, c, !c.external() && !c.rs_client);
            Some(
                PathAttrsView {
                    origin: p.attrs.origin,
                    as_path: export_as_path(p, c),
                    next_hop,
                    source: p.attrs.source,
                    local_pref: if c.external() {
                        None
                    } else {
                        p.attrs.local_pref
                    },
                    med: export_med(p, c),
                    atomic_aggregate: p.attrs.atomic_aggregate,
                    aggregator: p.attrs.aggregator,
                    communities: export_communities(p, c),
                    extended_communities: export_ext_communities(p, c),
                    large_communities: p.attrs.large_communities,
                    unknown_attrs: export_unknown_attrs(p, c),
                    originator_id: rr.0,
                    cluster_list: rr.1,
                    ls_attr: p.attrs.ls_attr,
                },
            )
        },
    }
}

/// The attributes of a path for a peer; none where there is no next hop.
pub fn build_export_attrs(path: &Path, ctx: &PeerExportContext, route_key: &RouteKey) -> (r: Option<
    PathAttrs,
>)
    ensures
        crate::conf::opt_view(r) == export_attrs(path@, ctx@, route_key@),
{
    let next_hop = match build_export_next_hop(path, ctx, route_key) {
        Some(n) => n,
        None => {
            return None;
        },
    };
    let rr = build_export_rr_attrs(path, ctx, ctx.is_ibgp() && !ctx.rs_client);
    Some(
        PathAttrs {
            origin: path.attrs.origin,
            as_path: build_export_as_path(path, ctx),
            next_hop,
            source: path.attrs.source,
            local_pref: build_export_local_pref(path, ctx),
            med: build_export_med(path, ctx),
            atomic_aggregate: path.attrs.atomic_aggregate,
            aggregator: path.attrs.aggregator,
            communities: build_export_communities(path, ctx),
            extended_communities: build_export_extended_communities(path, ctx),
            large_communities: copy_items(&path.attrs.large_communities),
            unknown_attrs: build_export_unknown_attrs(path, ctx),
            originator_id: rr.0,
            cluster_list: rr.1,
            ls_attr: clone_opt_ls_attr(&path.attrs.ls_attr),
        },
    )
}

// ---------------------------------------------------------------------------
// Policies
// ---------------------------------------------------------------------------

/// What policies say of a route, one after the other: the first that accepts or
/// rejects it decides; a route that none decides on is rejected. Beside it what
/// they make of the path.
pub open spec fn policies_accept(
    policies: Seq<PolicyView>,
    key: RouteKeyView,
    path: PathView,
) -> (bool, PathView)
    decreases policies.len(),
{
    if policies.len() == 0 {
        (false, path)
    } else {
        let after = policies[0].effect(key, path);
        match policies[0].result(key, path) {
            PolicyResult::Accept => (true, after),
            PolicyResult::Reject => (false, after),
            PolicyResult::Continue => policies_accept(policies.skip(1), key, after),
        }
    }
}

/// The policies for a family: those of the first entry for it.
pub open spec fn family_policies(p: Seq<(AfiSafi, Seq<PolicyView>)>, f: AfiSafi) -> Seq<PolicyView>
    decreases p.len(),
{
    if p.len() == 0 {
        Seq::empty()
    } else if p[0].0 == f {
        p[0].1
    } else {
        family_policies(p.skip(1), f)
    }
}

/// Asks policies one after the other; says whether the route is accepted.
pub fn evaluate_export_policy(
    policies: &Vec<Arc<Policy>>,
    route_key: &RouteKey,
    path: &mut Path,
) -> (r: bool)
    ensures
        (r, final(path)@) == policies_accept(
            policy::policy_views(policies@),
            route_key@,
            old(path)@,
        ),
{
    let ghost all = policy::policy_views(policies@);
    let ghost start = path@;
    let mut i: usize = 0;
    assert(all.skip(0) =~= all);
    while i < policies.len()
        invariant
            i <= policies@.len(),
            all == policy::policy_views(policies@),
            start == old(path)@,
            policies_accept(all, route_key@, start) == policies_accept(
                all.skip(i as int),
                route_key@,
                path@,
            ),
        decreases policies.len() - i,
    {
        proof {
            assert(all.skip(i as int)[0] == policies@[i as int]@);
            assert(all.skip(i as int).skip(1) =~= all.skip(i + 1));
        }
        match policies[i].evaluate(route_key, path) {
            PolicyResult::Accept => {
                return true;
            },
            PolicyResult::Reject => {
                return false;
            },
            PolicyResult::Continue => {},
        }
        i = i + 1;
    }
    false
}

/// Asks the policies for a family; without an entry for it none.
fn evaluate_family_policies(
    policies: &AfiSafiPolicies,
    family: &AfiSafi,
    route_key: &RouteKey,
    path: &mut Path,
) -> (r: bool)
    ensures
        (r, final(path)@) == policies_accept(
            family_policies(policies_view(policies@), *family),
            route_key@,
            old(path)@,
        ),
{
    let ghost all = policies_view(policies@);
    let mut i: usize = 0;
    assert(all.skip(0) =~= all);
    while i < policies.len()
        invariant
            i <= policies@.len(),
            all == policies_view(policies@),
            path@ == old(path)@,
            family_policies(all, *family) == family_policies(all.skip(i as int), *family),
        decreases policies.len() - i,
    {
        proof {
            assert(all.skip(i as int)[0] == all[i as int]);
            assert(all.skip(i as int).skip(1) =~= all.skip(i + 1));
        }
        if policies[i].0 == *family {
            return evaluate_export_policy(&policies[i].1, route_key, path);
        }
        i = i + 1;
    }
    false
}

// ---------------------------------------------------------------------------
// Paths
// ---------------------------------------------------------------------------

/// The path that a peer is told; none where it is told nothing of it.
pub open spec fn export_path(key: RouteKeyView, p: PathView, c: ExportView) -> Option<PathView> {
    if !exportable(p, c) {
        None
    } else {
        let verdict = policies_accept(family_policies(c.policies, key.family()), key, p);
        if !verdict.0 {
            None
        } else {
            match export_attrs(verdict.1, c, key) {
                None => None,
                Some(attrs) => Some(
                    PathView {
                        local_path_id: verdict.1.local_path_id,
                        remote_path_id: verdict.1.remote_path_id,
                        attrs,
                        stale: false,
                        rpki_state: RpkiValidation::NotFound,
                    },
                ),
            }
        }
    }
}

/// The path that a peer is told; none where it is told nothing of it.
pub fn compute_export_path(route_key: &RouteKey, path: &Path, ctx: &PeerExportContext) -> (r:
    Option<Path>)
    ensures
        crate::conf::opt_view(r) == export_path(route_key@, path@, ctx@),
{
    if !should_export_to_peer(path, ctx) {
        return None;
    }
    let mut exported = path.clone();
    let family = route_key.afi_safi();
    if !evaluate_family_policies(ctx.export_policies, &family, route_key, &mut exported) {
        return None;
    }
    match build_export_attrs(&exported, ctx, route_key) {
        None => None,
        Some(attrs) => Some(
            Path {
                local_path_id: exported.local_path_id,
                remote_path_id: exported.remote_path_id,
                attrs: Arc::new(attrs),
                stale: false,
                rpki_state: RpkiValidation::NotFound,
            },
        ),
    }
}

/// What a peer is told of routes, in their order.
pub open spec fn export_routes(routes: Seq<RoutePathView>, c: ExportView) -> Seq<RoutePathView>
    decreases routes.len(),
{
    if routes.len() == 0 {
        Seq::empty()
    } else {
        let before = export_routes(routes.drop_last(), c);
        let r = routes.last();
        match export_path(r.key, r.path, c) {
            Some(path) => before.push(RoutePathView { key: r.key, path }),
            None => before,
        }
    }
}

/// What a peer is told of routes, in their order.
pub fn compute_routes_for_peer(to_announce: &Vec<RoutePath>, ctx: &PeerExportContext) -> (r: Vec<
    RoutePath,
>)
    ensures
        seqs::views(r@) == export_routes(seqs::views(to_announce@), ctx@),
{
    let ghost all = seqs::views(to_announce@);
    let mut r: Vec<RoutePath> = Vec::new();
    let mut i: usize = 0;
    assert(seqs::views(r@) =~= Seq::<RoutePathView>::empty());
    while i < to_announce.len()
        invariant
            i <= to_announce@.len(),
            all == seqs::views(to_announce@),
            seqs::views(r@) == export_routes(all.take(i as int), ctx@),
        decreases to_announce.len() - i,
    {
        proof {
            assert(all.take(i + 1).drop_last() =~= all.take(i as int));
            assert(all.take(i + 1).last() == to_announce@[i as int]@);
        }
        let x = &to_announce[i];
        if let Some(path) = compute_export_path(&x.key, &x.path, ctx) {
            let y = RoutePath::new(x.key.clone(), path);
            proof {
                seqs::lemma_views_push(r@, y);
            }
            r.push(y);
        }
        i = i + 1;
    }
    proof {
        seqs::lemma_take_all(all);
    }
    r
}

// ---------------------------------------------------------------------------
// Laws
// ---------------------------------------------------------------------------

/// A path is told to a peer only if it did not come from it, no community
/// forbids it, the peer knows stale paths where it is one, and a reflector's
/// client stands at one end where it goes from one internal peer to another.
pub proof fn law_told_paths_are_allowed(key: RouteKeyView, p: PathView, c: ExportView)
    requires
        export_path(key, p, c) is Some,
    ensures
        p.attrs.source.peer_ip_spec() != Some(c.peer_addr),
        !p.attrs.communities.contains(NO_ADVERTISE),
        c.external() ==> !p.attrs.communities.contains(NO_EXPORT)
            && !p.attrs.communities.contains(NO_EXPORT_SUBCONFED),
        p.attrs.communities.contains(LLGR_STALE) ==> c.peer_keeps_stale,
        !c.external() && p.attrs.source is Ibgp ==> c.rr_client || p.attrs.source.rr_client_spec(),
{
}

/// Without policies for its family no route is told.
pub proof fn law_no_policy_no_route(key: RouteKeyView, p: PathView, c: ExportView)
    requires
        forall|i: int| 0 <= i < c.policies.len() ==> (#[trigger] c.policies[i]).0 != key.family(),
    ensures
        export_path(key, p, c) is None,
{
    lemma_no_family_policies(c.policies, key.family());
}

proof fn lemma_no_family_policies(p: Seq<(AfiSafi, Seq<PolicyView>)>, f: AfiSafi)
    requires
        forall|i: int| 0 <= i < p.len() ==> (#[trigger] p[i]).0 != f,
    ensures
        family_policies(p, f).len() == 0,
    decreases p.len(),
{
    if p.len() > 0 {
        let rest = p.skip(1);
        assert forall|i: int| 0 <= i < rest.len() implies (#[trigger] rest[i]).0 != f by {
            assert(rest[i] == p[i + 1]);
        }
        assert(p[0].0 != f);
        lemma_no_family_policies(rest, f);
    }
}

/// External peers see no local preference and nothing of reflection. Unless
/// routes are only served to them, they see this system first in the path, no
/// community that may not leave the system, and no attribute of an unknown type
/// that is not passed on.
pub proof fn law_external_peers_see_no_internals(key: RouteKeyView, p: PathView, c: ExportView)
    requires
        c.external(),
        export_path(key, p, c) is Some,
    ensures
        ({
            let a = export_path(key, p, c)->0.attrs;
            &&& a.local_pref is None
            &&& a.originator_id is None
            &&& a.cluster_list.len() == 0
            &&& !c.rs_client ==> {
                &&& a.as_path.len() > 0
                &&& a.as_path[0].segment_type is AsSequence
                &&& a.as_path[0].asn_list.len() > 0
                &&& a.as_path[0].asn_list[0] == c.local_asn
                &&& forall|i: int|
                    0 <= i < a.extended_communities.len() ==> ext_community::transitive_spec(
                        #[trigger] a.extended_communities[i],
                    )
                &&& forall|i: int|
                    0 <= i < a.unknown_attrs.len() ==> (
                    #[trigger] a.unknown_attrs[i]).unknown_transitive()
            }
        }),
{
    let verdict = policies_accept(family_policies(c.policies, key.family()), key, p);
    let l = verdict.1.attrs.extended_communities;
    let keep = |x: u64| ext_community::transitive_spec(x);
    let a = export_path(key, p, c)->0.attrs;
    if !c.rs_client {
        assert forall|i: int| 0 <= i < a.extended_communities.len() implies
            ext_community::transitive_spec(#[trigger] a.extended_communities[i]) by {
            l.lemma_filter_pred(keep, i);
        }
        lemma_passed_on(verdict.1.attrs.unknown_attrs);
    }
}

proof fn lemma_passed_on(l: Seq<PathAttributeView>)
    ensures
        forall|i: int|
            0 <= i < passed_on(l).len() ==> (#[trigger] passed_on(l)[i]).unknown_transitive(),
    decreases l.len(),
{
    if l.len() > 0 {
        let before = passed_on(l.drop_last());
        lemma_passed_on(l.drop_last());
        assert forall|i: int| 0 <= i < passed_on(l).len() implies (
        #[trigger] passed_on(l)[i]).unknown_transitive() by {
            if i < before.len() {
                assert(before[i].unknown_transitive());
                assert(passed_on(l)[i] == before[i]);
            }
        }
    }
}

/// A peer that routes are only served to sees a path as the policies leave it:
/// the AS path, next hop, discriminator, extended communities and attributes of
/// unknown types do not change.
pub proof fn law_served_paths_are_unchanged(key: RouteKeyView, p: PathView, c: ExportView)
    requires
        c.rs_client,
    ensures
        export_attrs(p, c, key) is Some,
        export_attrs(p, c, key)->0.as_path == p.attrs.as_path,
        export_attrs(p, c, key)->0.next_hop == p.attrs.next_hop,
        export_attrs(p, c, key)->0.med == p.attrs.med,
        export_attrs(p, c, key)->0.extended_communities == p.attrs.extended_communities,
        export_attrs(p, c, key)->0.large_communities == p.attrs.large_communities,
        export_attrs(p, c, key)->0.unknown_attrs == p.attrs.unknown_attrs,
{
}

/// A path that is passed on from one internal peer to another names the speaker
/// that it entered the system at, and this cluster first.
pub proof fn law_reflected_paths_are_marked(key: RouteKeyView, p: PathView, c: ExportView)
    requires
        !c.external(),
        !c.rs_client,
        p.attrs.source is Ibgp,
        export_attrs(p, c, key) is Some,
    ensures
        export_attrs(p, c, key)->0.originator_id is Some,
        p.attrs.originator_id is Some ==> export_attrs(p, c, key)->0.originator_id
            == p.attrs.originator_id,
        export_attrs(p, c, key)->0.cluster_list == seq![c.cluster_id] + p.attrs.cluster_list,
{
}

/// While the session is about to be shut down every path says so.
pub proof fn law_shutdown_is_announced(key: RouteKeyView, p: PathView, c: ExportView)
    requires
        c.graceful_shutdown,
        export_path(key, p, c) is Some,
    ensures
        export_path(key, p, c)->0.attrs.communities.contains(GRACEFUL_SHUTDOWN),
{
    let verdict = policies_accept(family_policies(c.policies, key.family()), key, p);
    let l = verdict.1.attrs.communities;
    if !l.contains(GRACEFUL_SHUTDOWN) {
        assert(l.push(GRACEFUL_SHUTDOWN)[l.len() as int] == GRACEFUL_SHUTDOWN);
    }
}

} // verus!
