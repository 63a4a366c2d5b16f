//! Routes in messages.

use crate::conf;
use crate::grpc::proto::extended_community::{CommunityView, ExtendedCommunity, LargeCommunity};
use crate::grpc::proto::ls::{LsAttribute, LsAttributeView, LsNlri, LsNlriView};
use crate::seqs;
use vstd::prelude::*;

verus! {

/// A segment of an AS path: a set has number 0, a sequence number 1.
#[derive(Debug, PartialEq, Eq)]
pub struct AsPathSegment {
    pub segment_type: i32,
    pub asns: Vec<u32>,
}

pub struct AsPathSegmentView {
    pub segment_type: i32,
    pub asns: Seq<u32>,
}

impl View for AsPathSegment {
    type V = AsPathSegmentView;

    open spec fn view(&self) -> AsPathSegmentView {
        AsPathSegmentView {
            segment_type: self.segment_type,
            asns: self.asns@,
        }
    }
}

/// An attribute of a type that is not known.
#[derive(Debug, PartialEq, Eq)]
pub struct UnknownAttribute {
    pub attr_type: u32,
    pub flags: u32,
    pub value: Vec<u8>,
}

pub struct UnknownAttributeView {
    pub attr_type: u32,
    pub flags: u32,
    pub value: Seq<u8>,
}

impl View for UnknownAttribute {
    type V = UnknownAttributeView;

    open spec fn view(&self) -> UnknownAttributeView {
        UnknownAttributeView {
            attr_type: self.attr_type,
            flags: self.flags,
            value: self.value@,
        }
    }
}

/// The speaker that aggregated a route.
#[derive(Debug, PartialEq, Eq)]
pub struct Aggregator {
    pub asn: u32,
    pub ip_address: String,
}

pub struct AggregatorView {
    pub asn: u32,
    pub ip_address: Seq<char>,
}

impl View for Aggregator {
    type V = AggregatorView;

    open spec fn view(&self) -> AggregatorView {
        AggregatorView {
            asn: self.asn,
            ip_address: self.ip_address@,
        }
    }
}

/// A path to a destination.
#[derive(Debug, PartialEq, Eq)]
pub struct Path {
    pub origin: i32,
    pub as_path: Vec<AsPathSegment>,
    pub next_hop: String,
    pub link_local_next_hop: Option<String>,
    pub peer_address: String,
    pub local_pref: Option<u32>,
    pub med: Option<u32>,
    pub atomic_aggregate: bool,
    pub unknown_attributes: Vec<UnknownAttribute>,
    pub communities: Vec<u32>,
    pub extended_communities: Vec<ExtendedCommunity>,
    pub large_communities: Vec<LargeCommunity>,
    pub originator_id: Option<String>,
    pub cluster_list: Vec<String>,
    pub local_path_id: Option<u32>,
    pub remote_path_id: Option<u32>,
    pub aggregator: Option<Aggregator>,
    pub rpki_validation: i32,
    pub ls_attribute: Option<LsAttribute>,
}

pub struct PathView {
    pub origin: i32,
    pub as_path: Seq<AsPathSegmentView>,
    pub next_hop: Seq<char>,
    pub link_local_next_hop: Option<Seq<char>>,
    pub peer_address: Seq<char>,
    pub local_pref: Option<u32>,
    pub med: Option<u32>,
    pub atomic_aggregate: bool,
    pub unknown_attributes: Seq<UnknownAttributeView>,
    pub communities: Seq<u32>,
    pub extended_communities: Seq<Option<CommunityView>>,
    pub large_communities: Seq<LargeCommunity>,
    pub originator_id: Option<Seq<char>>,
    pub cluster_list: Seq<Seq<char>>,
    pub local_path_id: Option<u32>,
    pub remote_path_id: Option<u32>,
    pub aggregator: Option<AggregatorView>,
    pub rpki_validation: i32,
    pub ls_attribute: Option<LsAttributeView>,
}

impl View for Path {
    type V = PathView;

    open spec fn view(&self) -> PathView {
        PathView {
            origin: self.origin,
            as_path: seqs::views(self.as_path@),
            next_hop: self.next_hop@,
            link_local_next_hop: seqs::opt_text(self.link_local_next_hop),
            peer_address: self.peer_address@,
            local_pref: self.local_pref,
            med: self.med,
            atomic_aggregate: self.atomic_aggregate,
            unknown_attributes: seqs::views(self.unknown_attributes@),
            communities: self.communities@,
            extended_communities: seqs::views(self.extended_communities@),
            large_communities: self.large_communities@,
            originator_id: seqs::opt_text(self.originator_id),
            cluster_list: seqs::views(self.cluster_list@),
            local_path_id: self.local_path_id,
            remote_path_id: self.remote_path_id,
            aggregator: conf::opt_view(self.aggregator),
            rpki_validation: self.rpki_validation,
            ls_attribute: conf::opt_view(self.ls_attribute),
        }
    }
}

/// What a route leads to.
#[derive(Debug, PartialEq, Eq)]
pub enum Key {
    Prefix(String),
    LsNlri(Box<LsNlri>),
}

pub enum KeyView {
    Prefix(Seq<char>),
    LsNlri(LsNlriView),
}

impl View for Key {
    type V = KeyView;

    open spec fn view(&self) -> KeyView {
        match self {
            Key::Prefix(s) => KeyView::Prefix(s@),
            Key::LsNlri(n) => KeyView::LsNlri(n@),
        }
    }
}

/// A route with its paths.
#[derive(Debug, PartialEq, Eq)]
pub struct Route {
    pub paths: Vec<Path>,
    pub key: Option<Key>,
}

pub struct RouteView {
    pub paths: Seq<PathView>,
    pub key: Option<KeyView>,
}

impl View for Route {
    type V = RouteView;

    open spec fn view(&self) -> RouteView {
        RouteView {
            paths: seqs::views(self.paths@),
            key: conf::opt_view(self.key),
        }
    }
}

/// A route to a prefix that is to be added.
#[derive(Debug, PartialEq, Eq)]
pub struct AddIpRouteRequest {
    pub prefix: String,
    pub next_hop: String,
    pub origin: i32,
    pub as_path: Vec<AsPathSegment>,
    pub local_pref: Option<u32>,
    pub med: Option<u32>,
    pub atomic_aggregate: bool,
    pub communities: Vec<u32>,
    pub extended_communities: Vec<ExtendedCommunity>,
    pub large_communities: Vec<LargeCommunity>,
    pub originator_id: Option<String>,
    pub cluster_list: Vec<String>,
}

pub struct AddIpRouteRequestView {
    pub prefix: Seq<char>,
    pub next_hop: Seq<char>,
    pub origin: i32,
    pub as_path: Seq<AsPathSegmentView>,
    pub local_pref: Option<u32>,
    pub med: Option<u32>,
    pub atomic_aggregate: bool,
    pub communities: Seq<u32>,
    pub extended_communities: Seq<Option<CommunityView>>,
    pub large_communities: Seq<LargeCommunity>,
    pub originator_id: Option<Seq<char>>,
    pub cluster_list: Seq<Seq<char>>,
}

impl View for AddIpRouteRequest {
    type V = AddIpRouteRequestView;

    open spec fn view(&self) -> AddIpRouteRequestView {
        AddIpRouteRequestView {
            prefix: self.prefix@,
            next_hop: self.next_hop@,
            origin: self.origin,
            as_path: seqs::views(self.as_path@),
            local_pref: self.local_pref,
            med: self.med,
            atomic_aggregate: self.atomic_aggregate,
            communities: self.communities@,
            extended_communities: seqs::views(self.extended_communities@),
            large_communities: self.large_communities@,
            originator_id: seqs::opt_text(self.originator_id),
            cluster_list: seqs::views(self.cluster_list@),
        }
    }
}

/// A link-state route that is to be added.
#[derive(Debug, PartialEq, Eq)]
pub struct AddLsRouteRequest {
    pub nlri: Option<LsNlri>,
    pub attribute: Option<LsAttribute>,
    pub next_hop: Option<String>,
}

pub struct AddLsRouteRequestView {
    pub nlri: Option<LsNlriView>,
    pub attribute: Option<LsAttributeView>,
    pub next_hop: Option<Seq<char>>,
}

impl View for AddLsRouteRequest {
    type V = AddLsRouteRequestView;

    open spec fn view(&self) -> AddLsRouteRequestView {
        AddLsRouteRequestView {
            nlri: conf::opt_view(self.nlri),
            attribute: conf::opt_view(self.attribute),
            next_hop: seqs::opt_text(self.next_hop),
        }
    }
}

/// A route that is to be added.
#[derive(Debug, PartialEq, Eq)]
pub enum NewRoute {
    Ip(AddIpRouteRequest),
    Ls(AddLsRouteRequest),
}

pub enum NewRouteView {
    Ip(AddIpRouteRequestView),
    Ls(AddLsRouteRequestView),
}

impl View for NewRoute {
    type V = NewRouteView;

    open spec fn view(&self) -> NewRouteView {
        match self {
            NewRoute::Ip(r) => NewRouteView::Ip(r@),
            NewRoute::Ls(r) => NewRouteView::Ls(r@),
        }
    }
}

#[derive(Debug, PartialEq, Eq)]
pub struct AddRouteRequest {
    pub route: Option<NewRoute>,
}

pub struct AddRouteRequestView {
    pub route: Option<NewRouteView>,
}

impl View for AddRouteRequest {
    type V = AddRouteRequestView;

    open spec fn view(&self) -> AddRouteRequestView {
        AddRouteRequestView {
            route: conf::opt_view(self.route),
        }
    }
}

#[derive(Debug, PartialEq, Eq)]
pub struct RemoveRouteRequest {
    pub key: Option<Key>,
}

pub struct RemoveRouteRequestView {
    pub key: Option<KeyView>,
}

impl View for RemoveRouteRequest {
    type V = RemoveRouteRequestView;

    open spec fn view(&self) -> RemoveRouteRequestView {
        RemoveRouteRequestView {
            key: conf::opt_view(self.key),
        }
    }
}

} // verus!
