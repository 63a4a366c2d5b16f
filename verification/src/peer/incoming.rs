//! Routes that a peer sends.

use crate::bgp::bgpls::{LsNlri, LsNlriView};
use crate::bgp::multiprotocol::AfiSafi;
use crate::net::addr::{IpAddr, Ipv4Addr};
use crate::net::network::IpNetwork;
use crate::peer::capabilities::SessionType;
use crate::peer::session::{Peer, PeerView};
use crate::rib;
use crate::rib::{
    Path, PathAttrs, PathAttrsView, PathView, RouteKey, RouteKeyView, RoutePath, RoutePathView,
    RouteSource, Withdrawal,
};
use crate::rpki::RpkiValidation;
use crate::seqs;
use std::sync::Arc;
use vstd::prelude::*;

verus! {

/// A prefix, and the identifier of one path to it where paths are told apart.
#[derive(Debug, Clone, Copy, PartialEq, Eq, Structural)]
pub struct NlriEntry {
    pub prefix: IpNetwork,
    pub path_id: Option<u32>,
}

/// What an UPDATE message of a peer holds. The attributes are there if all that
/// are required are; they stand in it twice, as the AS path of two-octet
/// numbers gives them, and corrected by what old speakers add to it.
#[derive(Debug)]
pub struct ReceivedUpdate {
    pub withdrawn_routes: Vec<NlriEntry>,
    pub ls_withdrawn_list: Vec<LsNlri>,
    pub nlri_list: Vec<NlriEntry>,
    pub ls_nlri_list: Vec<LsNlri>,
    pub attrs: Option<PathAttrs>,
    pub corrected_attrs: Option<PathAttrs>,
    /// The family of which all routes were sent, where the message says just that.
    pub eor_afi_safi: Option<AfiSafi>,
}

pub struct UpdateIn {
    pub withdrawn_routes: Seq<NlriEntry>,
    pub ls_withdrawn_list: Seq<LsNlriView>,
    pub nlri_list: Seq<NlriEntry>,
    pub ls_nlri_list: Seq<LsNlriView>,
    pub attrs: Option<PathAttrsView>,
    pub corrected_attrs: Option<PathAttrsView>,
    pub eor_afi_safi: Option<AfiSafi>,
}

impl View for ReceivedUpdate {
    type V = UpdateIn;

    open spec fn view(&self) -> UpdateIn {
        UpdateIn {
            withdrawn_routes: self.withdrawn_routes@,
            ls_withdrawn_list: seqs::views(self.ls_withdrawn_list@),
            nlri_list: self.nlri_list@,
            ls_nlri_list: seqs::views(self.ls_nlri_list@),
            attrs: crate::conf::opt_view(self.attrs),
            corrected_attrs: crate::conf::opt_view(self.corrected_attrs),
            eor_afi_safi: self.eor_afi_safi,
        }
    }
}

/// What an UPDATE message withdraws: prefixes, then link-state objects.
pub open spec fn withdrawn_in(u: UpdateIn) -> Seq<(RouteKeyView, Option<u32>)> {
    Seq::new(
        u.withdrawn_routes.len(),
        |i: int| (RouteKeyView::Prefix(u.withdrawn_routes[i].prefix), u.withdrawn_routes[i].path_id),
    ) + Seq::new(
        u.ls_withdrawn_list.len(),
        |i: int| (RouteKeyView::LinkState(u.ls_withdrawn_list[i]), None::<u32>),
    )
}

/// Where routes of a session come from.
pub open spec fn session_source(
    session: SessionType,
    peer_ip: IpAddr,
    bgp_id: Ipv4Addr,
    rr_client: bool,
) -> RouteSource {
    match session {
        SessionType::Ebgp => RouteSource::Ebgp { peer_ip, bgp_id },
        SessionType::Ibgp => RouteSource::Ibgp { peer_ip, bgp_id, rr_client },
    }
}

/// A path as it is received.
pub open spec fn received_path(attrs: PathAttrsView, id: Option<u32>) -> PathView {
    PathView {
        local_path_id: None,
        remote_path_id: id,
        attrs,
        stale: false,
        rpki_state: RpkiValidation::NotFound,
    }
}

/// What an UPDATE message announces with given attributes: prefixes with their
/// path identifiers, then link-state objects.
pub open spec fn announced_with(u: UpdateIn, attrs: PathAttrsView) -> Seq<RoutePathView> {
    Seq::new(
        u.nlri_list.len(),
        |i: int|
            RoutePathView {
                key: RouteKeyView::Prefix(u.nlri_list[i].prefix),
                path: received_path(attrs, u.nlri_list[i].path_id),
            },
    ) + Seq::new(
        u.ls_nlri_list.len(),
        |i: int|
            RoutePathView {
                key: RouteKeyView::LinkState(u.ls_nlri_list[i]),
                path: received_path(attrs, None),
            },
    )
}

impl PeerView {
    /// Where routes of this session come from, once the peer is known.
    pub open spec fn source(self) -> Option<RouteSource> {
        match self.bgp_id {
            None => None,
            Some(id) => Some(
                session_source(
                    match self.session_type {
                        Some(t) => t,
                        None => SessionType::Ebgp,
                    },
                    self.addr,
                    id,
                    self.config.rr_client,
                ),
            ),
        }
    }

    /// The attributes that count: corrections come from old speakers alone, those
    /// of others are ignored.
    pub open spec fn attrs_in(self, u: UpdateIn) -> Option<PathAttrsView> {
        if self.capabilities.four_octet_asn is Some {
            u.attrs
        } else {
            u.corrected_attrs
        }
    }

    /// What an UPDATE message announces: nothing while the peer is unknown or
    /// where required attributes are missing.
    pub open spec fn announced_in(self, u: UpdateIn) -> Seq<RoutePathView> {
        match (self.source(), self.attrs_in(u)) {
            (Some(source), Some(attrs)) => announced_with(u, PathAttrsView { source, ..attrs }),
            _ => Seq::empty(),
        }
    }
}

impl RouteSource {
    /// Where routes of a session come from.
    pub fn from_session(
        session: SessionType,
        peer_ip: IpAddr,
        bgp_id: Ipv4Addr,
        rr_client: bool,
    ) -> (r: RouteSource)
        ensures
            r == session_source(session, peer_ip, bgp_id, rr_client),
    {
        match session {
            SessionType::Ebgp => RouteSource::Ebgp { peer_ip, bgp_id },
            SessionType::Ibgp => RouteSource::Ibgp { peer_ip, bgp_id, rr_client },
        }
    }
}

/// What an UPDATE message withdraws.
pub fn process_withdrawals(update: &ReceivedUpdate) -> (r: Vec<Withdrawal>)
    ensures
        rib::withdrawal_views(r@) == withdrawn_in(update@),
{
    let ghost all = withdrawn_in(update@);
    let n: usize = update.withdrawn_routes.len();
    let mut r: Vec<Withdrawal> = Vec::new();
    let mut i: usize = 0;
    while i < n
        invariant
            i <= n,
            n == update.withdrawn_routes@.len(),
            all == withdrawn_in(update@),
            rib::withdrawal_views(r@) =~= all.take(i as int),
        decreases n - i,
    {
        let e = update.withdrawn_routes[i];
        let ghost before = r@;
        r.push((RouteKey::Prefix(e.prefix), e.path_id));
        assert(rib::withdrawal_views(r@) =~= rib::withdrawal_views(before).push(all[i as int]));
        i = i + 1;
    }
    let m: usize = update.ls_withdrawn_list.len();
    let mut j: usize = 0;
    while j < m
        invariant
            j <= m,
            n == update.withdrawn_routes@.len(),
            m == update.ls_withdrawn_list@.len(),
            all == withdrawn_in(update@),
            rib::withdrawal_views(r@) =~= all.take(n + j),
        decreases m - j,
    {
        let x: LsNlri = update.ls_withdrawn_list[j].clone();
        let ghost before = r@;
        r.push((RouteKey::LinkState(Box::new(x)), None));
        assert(rib::withdrawal_views(r@) =~= rib::withdrawal_views(before).push(all[n + j]));
        j = j + 1;
    }
    assert(all.take(n + m) =~= all);
    r
}

fn announce(update: &ReceivedUpdate, attrs: PathAttrs) -> (r: Vec<RoutePath>)
    ensures
        seqs::views(r@) == announced_with(update@, attrs@),
{
    let ghost all = announced_with(update@, attrs@);
    let ghost a = attrs@;
    let path = Path {
        local_path_id: None,
        remote_path_id: None,
        attrs: Arc::new(attrs),
        stale: false,
        rpki_state: RpkiValidation::NotFound,
    };
    let n: usize = update.nlri_list.len();
    let mut r: Vec<RoutePath> = Vec::new();
    let mut i: usize = 0;
    while i < n
        invariant
            i <= n,
            n == update.nlri_list@.len(),
            all == announced_with(update@, a),
            path@ == received_path(a, None),
            seqs::views(r@) =~= all.take(i as int),
        decreases n - i,
    {
        let e = update.nlri_list[i];
        let mut p = path.clone();
        p.remote_path_id = e.path_id;
        let x = RoutePath::new(RouteKey::Prefix(e.prefix), p);
        proof {
            seqs::lemma_views_push(r@, x);
            assert(x@ == all[i as int]);
        }
        r.push(x);
        i = i + 1;
    }
    let m: usize = update.ls_nlri_list.len();
    let mut j: usize = 0;
    while j < m
        invariant
            j <= m,
            n == update.nlri_list@.len(),
            m == update.ls_nlri_list@.len(),
            all == announced_with(update@, a),
            path@ == received_path(a, None),
            seqs::views(r@) =~= all.take(n + j),
        decreases m - j,
    {
        let nlri: LsNlri = update.ls_nlri_list[j].clone();
        let x = RoutePath::new(RouteKey::LinkState(Box::new(nlri)), path.clone());
        proof {
            seqs::lemma_views_push(r@, x);
            assert(x@ == all[n + j]);
        }
        r.push(x);
        j = j + 1;
    }
    assert(all.take(n + m) =~= all);
    r
}

impl Peer {
    /// What an UPDATE message announces.
    pub fn process_announcements(&self, update: &ReceivedUpdate) -> (r: Vec<RoutePath>)
        ensures
            seqs::views(r@) == self@.announced_in(update@),
    {
        let none: Vec<RoutePath> = Vec::new();
        assert(seqs::views(none@) =~= Seq::<RoutePathView>::empty());
        let bgp_id = match self.bgp_id {
            Some(id) => id,
            None => {
                return none;
            },
        };
        let session = match self.session_type {
            Some(t) => t,
            None => SessionType::Ebgp,
        };
        let source = RouteSource::from_session(session, self.addr, bgp_id, self.config.rr_client);
        let attrs = if self.capabilities.supports_four_octet_asn() {
            &update.attrs
        } else {
            &update.corrected_attrs
        };
        match attrs {
            Some(a) => {
                let mut own = a.clone();
                own.source = source;
                announce(update, own)
            },
            None => none,
        }
    }

    /// The announcements and the withdrawals of an UPDATE message.
    pub fn handle_update(&self, update: &ReceivedUpdate) -> (r: (Vec<RoutePath>, Vec<Withdrawal>))
        ensures
            seqs::views(r.0@) == self@.announced_in(update@),
            rib::withdrawal_views(r.1@) == withdrawn_in(update@),
    {
        (self.process_announcements(update), process_withdrawals(update))
    }
}

} // verus!
