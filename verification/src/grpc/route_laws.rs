//! What messages say of routes, and what routes are made of messages.

use crate::bgp::ext_community;
use crate::bgp::ext_community_laws;
use crate::bgp::msg_update::{
    AsPathSegmentType, AsPathSegmentView, NextHopAddr, Origin, PathAttrValueView, PathAttributeView,
};
use crate::conf;
use crate::grpc::ls_attr;
use crate::grpc::proto::extended_community::CommunityView;
use crate::grpc::proto::route as messages;
use crate::grpc::proto_community;
use crate::grpc::proto_ls;
use crate::grpc::routes;
use crate::grpc::routes::RefusalView;
use crate::net::addr::{IpAddr, Ipv4Addr};
use crate::net::addr_text;
use crate::net::network::IpNetwork;
use crate::rib::{PathView, Route, RouteKeyView, RouteSource};
use crate::rpki::RpkiValidation;
use crate::text;
use vstd::prelude::*;

verus! {

// ---------------------------------------------------------------------------
// Listed routes
// ---------------------------------------------------------------------------

/// A listed route has the paths of the route, one for one and in their order, and
/// its key.
pub proof fn law_listed_routes(route: Route)
    ensures
        routes::route_message(route).paths.len() == route.paths@.len(),
        forall|i: int|
            0 <= i < route.paths@.len() ==> (#[trigger] routes::route_message(route).paths[i])
                == routes::path_message(route.paths@[i]@),
        routes::route_message(route).key == routes::key_message(route.key@),
{
}

/// The key of a listed route is the notation of its prefix, or what is said of its
/// link-state object, where something is.
pub proof fn law_listed_keys(p: IpNetwork, k: RouteKeyView)
    ensures
        routes::key_message(RouteKeyView::Prefix(p)) == Some(messages::KeyView::Prefix(p.text())),
        match k {
            RouteKeyView::Prefix(_) => routes::key_message(k) is Some,
            RouteKeyView::LinkState(n) => routes::key_message(k) == (match proto_ls::nlri_message(
                n,
            ) {
                Some(m) => Some(messages::KeyView::LsNlri(m)),
                None => None,
            }),
        },
{
}

/// A listed path has the attributes of the path: what is a number or a list of
/// numbers there is the same number or list in the message.
pub proof fn law_listed_attributes(p: PathView)
    ensures
        routes::path_message(p).med == p.attrs.med,
        routes::path_message(p).local_pref == p.attrs.local_pref,
        routes::path_message(p).atomic_aggregate == p.attrs.atomic_aggregate,
        routes::path_message(p).communities == p.attrs.communities,
        routes::path_message(p).local_path_id == p.local_path_id,
        routes::path_message(p).remote_path_id == p.remote_path_id,
        p.attrs.origin == Origin::IGP ==> routes::path_message(p).origin == 0,
        p.attrs.origin == Origin::EGP ==> routes::path_message(p).origin == 1,
        p.attrs.origin == Origin::INCOMPLETE ==> routes::path_message(p).origin == 2,
        p.rpki_state == RpkiValidation::NotFound ==> routes::path_message(p).rpki_validation == 0,
        p.rpki_state == RpkiValidation::Valid ==> routes::path_message(p).rpki_validation == 1,
        p.rpki_state == RpkiValidation::Invalid ==> routes::path_message(p).rpki_validation == 2,
{
}

/// A listed path shows addresses in their notation: the next hop, the address on the
/// link where there is one, the peer that sent the path, or this host where none
/// did, the marks of reflection, and the aggregator.
pub proof fn law_listed_addresses(p: PathView)
    ensures
        match p.attrs.next_hop {
            NextHopAddr::Ipv4(x) => routes::path_message(p).next_hop == x.text()
                && routes::path_message(p).link_local_next_hop is None,
            NextHopAddr::Ipv6(x) => routes::path_message(p).next_hop == x.text()
                && routes::path_message(p).link_local_next_hop is None,
            NextHopAddr::Ipv6WithLinkLocal(x, l) => routes::path_message(p).next_hop == x.text()
                && routes::path_message(p).link_local_next_hop == Some(l.text()),
        },
        match p.attrs.source {
            RouteSource::Ebgp { peer_ip, bgp_id: _ } => routes::path_message(p).peer_address
                == peer_ip.text(),
            RouteSource::Ibgp { peer_ip, bgp_id: _, rr_client: _ } => routes::path_message(
                p,
            ).peer_address == peer_ip.text(),
            RouteSource::Local => routes::path_message(p).peer_address == "127.0.0.1"@,
        },
        match p.attrs.originator_id {
            Some(x) => routes::path_message(p).originator_id == Some(x.text()),
            None => routes::path_message(p).originator_id is None,
        },
        routes::path_message(p).cluster_list.len() == p.attrs.cluster_list.len(),
        forall|i: int|
            0 <= i < p.attrs.cluster_list.len() ==> (#[trigger] routes::path_message(
                p,
            ).cluster_list[i]) == p.attrs.cluster_list[i].text(),
        match p.attrs.aggregator {
            Some(x) => routes::path_message(p).aggregator == Some(
                (messages::AggregatorView { asn: x.asn, ip_address: x.ip_addr.text() }),
            ),
            None => routes::path_message(p).aggregator is None,
        },
{
}

/// The notation of an address is that of the address it holds.
pub proof fn law_notation_by_family(x: IpAddr)
    ensures
        match x {
            IpAddr::V4(a) => x.text() == a.text(),
            IpAddr::V6(a) => x.text() == a.text(),
        },
{
}

/// A listed path shows its large communities number by number, and each extended
/// community by what it says.
pub proof fn law_listed_communities(p: PathView)
    ensures
        routes::path_message(p).large_communities.len() == p.attrs.large_communities.len(),
        forall|i: int|
            0 <= i < p.attrs.large_communities.len() ==> {
                let m = #[trigger] routes::path_message(p).large_communities[i];
                let c = p.attrs.large_communities[i];
                &&& m.global_admin == c.global_admin
                &&& m.local_data_1 == c.local_data_1
                &&& m.local_data_2 == c.local_data_2
            },
        routes::path_message(p).extended_communities.len() == p.attrs.extended_communities.len(),
        forall|i: int|
            0 <= i < p.attrs.extended_communities.len() ==> (#[trigger] routes::path_message(
                p,
            ).extended_communities[i]) == Some(
                proto_community::extcomm_message(p.attrs.extended_communities[i]),
            ),
{
}

/// A listed path shows the sets and the sequences of its AS path, under the numbers 0
/// and 1, with the same systems in the same order.
pub proof fn law_listed_as_path(p: PathView)
    ensures
        ({
            let shown = p.attrs.as_path.filter(
                |x: AsPathSegmentView|
                    x.segment_type == AsPathSegmentType::AsSet || x.segment_type
                        == AsPathSegmentType::AsSequence,
            );
            let m = routes::path_message(p).as_path;
            &&& m.len() == shown.len()
            &&& forall|i: int|
                0 <= i < m.len() ==> (#[trigger] m[i]).asns == shown[i].asn_list && (
                m[i].segment_type == 0 <==> shown[i].segment_type == AsPathSegmentType::AsSet) && (
                m[i].segment_type == 1 <==> shown[i].segment_type == AsPathSegmentType::AsSequence)
        }),
{
    let f = |x: AsPathSegmentView|
        x.segment_type == AsPathSegmentType::AsSet || x.segment_type
            == AsPathSegmentType::AsSequence;
    lemma_listed_as_path(p.attrs.as_path, f);
}

proof fn lemma_listed_as_path(
    s: Seq<AsPathSegmentView>,
    f: spec_fn(AsPathSegmentView) -> bool,
)
    requires
        forall|x: AsPathSegmentView| #[trigger]
            f(x) == (x.segment_type == AsPathSegmentType::AsSet || x.segment_type
                == AsPathSegmentType::AsSequence),
    ensures
        routes::as_path_message(s).len() == s.filter(f).len(),
        forall|i: int|
            0 <= i < s.filter(f).len() ==> {
                let m = #[trigger] routes::as_path_message(s)[i];
                let x = s.filter(f)[i];
                &&& m.asns == x.asn_list
                &&& m.segment_type == 0 <==> x.segment_type == AsPathSegmentType::AsSet
                &&& m.segment_type == 1 <==> x.segment_type == AsPathSegmentType::AsSequence
            },
    decreases s.len(),
{
    reveal(Seq::filter);
    if s.len() > 0 {
        lemma_listed_as_path(s.drop_last(), f);
    }
}

/// A listed path shows its attributes of unknown types by type, flags and value, in
/// their order.
pub proof fn law_listed_unknown_attributes(p: PathView)
    ensures
        ({
            let shown = p.attrs.unknown_attrs.filter(
                |x: PathAttributeView| x.value is Unknown,
            );
            let m = routes::path_message(p).unknown_attributes;
            &&& m.len() == shown.len()
            &&& forall|i: int|
                0 <= i < m.len() ==> match shown[i].value {
                    PathAttrValueView::Unknown { type_code, flags, data } => (
                    #[trigger] m[i]).attr_type == type_code && m[i].flags == flags && m[i].value
                        == data,
                    _ => false,
                }
        }),
{
    lemma_listed_unknowns(
        p.attrs.unknown_attrs,
        |x: PathAttributeView| x.value is Unknown,
    );
}

proof fn lemma_listed_unknowns(
    s: Seq<PathAttributeView>,
    f: spec_fn(PathAttributeView) -> bool,
)
    requires
        forall|x: PathAttributeView| #[trigger] f(x) == (x.value is Unknown),
    ensures
        routes::unknowns_message(s).len() == s.filter(f).len(),
        forall|i: int|
            0 <= i < s.filter(f).len() ==> match s.filter(f)[i].value {
                PathAttrValueView::Unknown { type_code, flags, data } => {
                    let m = #[trigger] routes::unknowns_message(s)[i];
                    m.attr_type == type_code && m.flags == flags && m.value == data
                },
                _ => false,
            },
    decreases s.len(),
{
    reveal(Seq::filter);
    if s.len() > 0 {
        lemma_listed_unknowns(s.drop_last(), f);
    }
}

/// The link-state attribute of a path is shown where there is one.
pub proof fn law_listed_link_state(p: PathView)
    ensures
        match p.attrs.ls_attr {
            Some(x) => routes::path_message(p).ls_attribute == Some(ls_attr::attr_message(x)),
            None => routes::path_message(p).ls_attribute is None,
        },
{
}

// ---------------------------------------------------------------------------
// Extended communities
// ---------------------------------------------------------------------------

/// What a message says of an extended community follows its octets: the second bit
/// of the first says whether it stays in the system, the rest of it the kind; then
/// come a subtype and six octets of a kind's own.
pub proof fn law_listed_extended_community(ec: u64)
    ensures
        ({
            let stays = (ec >> 56) as u8 & 0x40 != 0;
            let kind = (ec >> 56) as u8 & !0x40u8;
            let sub = (ec >> 48) as u8;
            match proto_community::extcomm_message(ec) {
                CommunityView::TwoOctetAs(x) => {
                    &&& kind == 0 && sub != 4
                    &&& x.is_transitive == !stays
                    &&& x.sub_type == sub
                    &&& x.asn == (ec >> 32) as u16
                    &&& x.local_admin == ec as u32
                },
                CommunityView::LinkBandwidth(x) => {
                    &&& kind == 0 && sub == 4
                    &&& x.is_transitive == !stays
                    &&& x.asn == (ec >> 32) as u16
                    &&& x.bandwidth_bits == ec as u32
                },
                CommunityView::Ipv4Address { is_transitive, sub_type, address, local_admin } => {
                    &&& kind == 1
                    &&& is_transitive == !stays
                    &&& sub_type == sub
                    &&& address == (Ipv4Addr {
                        a: (ec >> 40) as u8,
                        b: (ec >> 32) as u8,
                        c: (ec >> 24) as u8,
                        d: (ec >> 16) as u8,
                    }).text()
                    &&& local_admin == ec as u16
                },
                CommunityView::FourOctetAs(x) => {
                    &&& kind == 2
                    &&& x.is_transitive == !stays
                    &&& x.sub_type == sub
                    &&& x.asn == (ec >> 16) as u32
                    &&& x.local_admin == ec as u16
                },
                CommunityView::Color(x) => {
                    &&& kind == 3 && sub == 0x0B
                    &&& x.is_transitive == !stays
                    &&& x.color == ec as u32
                },
                CommunityView::Encapsulation(x) => {
                    &&& kind == 3 && sub == 0x0C
                    &&& x.is_transitive == !stays
                    &&& x.tunnel_type == ec as u16
                },
                CommunityView::RouterMac { is_transitive, mac_address } => {
                    &&& kind == 6 && sub == 3
                    &&& is_transitive == !stays
                    &&& mac_address == six_octets(ec)
                },
                CommunityView::Opaque { is_transitive, value } => {
                    &&& kind == 3 && sub != 0x0B && sub != 0x0C || kind == 6 && sub != 3
                    &&& is_transitive == !stays
                    &&& value == six_octets(ec)
                },
                CommunityView::Unknown { type_code, octets } => {
                    &&& kind != 0 && kind != 1 && kind != 2 && kind != 3 && kind != 6
                    &&& type_code == (ec >> 56) as u8
                    &&& octets == seq![sub] + six_octets(ec)
                },
            }
        }),
{
}

/// The community that a message of one of the kinds with numbers stands for: the octet
/// of the kind, raised by one bit where the community stays in the system, the subtype,
/// of which the low octet counts, and the numbers. A number that is too large for its
/// place is refused.
pub proof fn law_requested_extended_community(m: CommunityView)
    ensures
        proto_community::read_extcomm(None) is Err,
        match (m, proto_community::read_extcomm(Some(m))) {
            (CommunityView::TwoOctetAs(x), Ok(v)) => x.asn <= 65535 && v == stays(x.is_transitive)
                + x.sub_type % 256 * 0x1_0000_0000_0000 + x.asn * 0x1_0000_0000 + x.local_admin,
            (CommunityView::TwoOctetAs(x), Err(_)) => x.asn > 65535,
            (CommunityView::LinkBandwidth(x), Ok(v)) => x.asn <= 65535 && v == stays(
                x.is_transitive,
            ) + 4 * 0x1_0000_0000_0000 + x.asn * 0x1_0000_0000 + x.bandwidth_bits,
            (CommunityView::LinkBandwidth(x), Err(_)) => x.asn > 65535,
            (
                CommunityView::Ipv4Address { is_transitive, sub_type, address, local_admin },
                Ok(v),
            ) => match addr_text::read_ipv4(address) {
                Some(ip) => local_admin <= 65535 && v == stays(is_transitive)
                    + 0x100_0000_0000_0000 + sub_type % 256 * 0x1_0000_0000_0000 + ip.bits()
                    * 0x1_0000 + local_admin,
                None => false,
            },
            (
                CommunityView::Ipv4Address { is_transitive, sub_type, address, local_admin },
                Err(_),
            ) => local_admin > 65535 || addr_text::read_ipv4(address) is None,
            (CommunityView::FourOctetAs(x), Ok(v)) => x.local_admin <= 65535 && v == stays(
                x.is_transitive,
            ) + 0x200_0000_0000_0000 + x.sub_type % 256 * 0x1_0000_0000_0000 + x.asn * 0x1_0000
                + x.local_admin,
            (CommunityView::FourOctetAs(x), Err(_)) => x.local_admin > 65535,
            (CommunityView::Color(x), Ok(v)) => v == stays(x.is_transitive) + 0x30B_0000_0000_0000
                + x.color,
            (CommunityView::Color(_), Err(_)) => false,
            (CommunityView::Encapsulation(x), Ok(v)) => x.tunnel_type <= 65535 && v == stays(
                x.is_transitive,
            ) + 0x30C_0000_0000_0000 + x.tunnel_type,
            (CommunityView::Encapsulation(x), Err(_)) => x.tunnel_type > 65535,
            _ => true,
        },
{
    match m {
        CommunityView::TwoOctetAs(x) => {
            lemma_low_octet(x.sub_type);
            let v = ext_community::two_octet_as(x.sub_type as u8, x.asn as u16, x.local_admin);
            ext_community_laws::law_communities_of_systems(
                x.sub_type as u8,
                x.asn as u16,
                0,
                0,
                x.local_admin,
            );
            lemma_marked(v);
        },
        CommunityView::LinkBandwidth(x) => {
            let v = ext_community::two_octet_as(4, x.asn as u16, x.bandwidth_bits);
            ext_community_laws::law_communities_of_systems(
                4,
                x.asn as u16,
                0,
                0,
                x.bandwidth_bits,
            );
            lemma_marked(v);
        },
        CommunityView::Ipv4Address { is_transitive, sub_type, address, local_admin } => {
            lemma_low_octet(sub_type);
            if let Some(ip) = addr_text::read_ipv4(address) {
                let l = local_admin as u16;
                let v = ext_community::ipv4_specific(sub_type as u8, ip.bits(), l);
                ext_community_laws::law_communities_of_systems(
                    sub_type as u8,
                    0,
                    ip.bits(),
                    l,
                    0,
                );
                lemma_marked(v);
            }
        },
        CommunityView::FourOctetAs(x) => {
            lemma_low_octet(x.sub_type);
            let l = x.local_admin as u16;
            let v = ext_community::four_octet_as(x.sub_type as u8, x.asn, l);
            ext_community_laws::law_communities_of_systems(x.sub_type as u8, 0, x.asn, l, 0);
            lemma_marked(v);
        },
        CommunityView::Color(x) => {
            ext_community_laws::law_communities_of_systems(0, 0, 0, 0, x.color);
            lemma_marked(ext_community::color_community(x.color));
        },
        CommunityView::Encapsulation(x) => {
            let t = x.tunnel_type as u16;
            ext_community_laws::law_communities_of_systems(0, t, 0, 0, 0);
            lemma_marked(ext_community::encapsulation_community(t));
        },
        _ => {},
    }
}

/// What the number of a community gains where it stays in its system.
pub open spec fn stays(is_transitive: bool) -> int {
    if is_transitive {
        0
    } else {
        0x4000_0000_0000_0000
    }
}

proof fn lemma_low_octet(n: u32)
    ensures
        n as u8 == n % 256,
{
    assert(n as u8 == n % 256) by (bit_vector);
}

proof fn lemma_marked(v: u64)
    requires
        v < 0x4000_0000_0000_0000,
    ensures
        proto_community::marked(v, true) == v,
        proto_community::marked(v, false) == v + 0x4000_0000_0000_0000,
{
    assert(v | 0x4000_0000_0000_0000 == v + 0x4000_0000_0000_0000) by (bit_vector)
        requires
            v < 0x4000_0000_0000_0000,
    ;
}

/// The community that a message with octets stands for has just these octets behind
/// those of its kind. Another number of octets is refused.
pub proof fn law_requested_octets(b: Seq<u8>, is_transitive: bool, type_code: u32)
    ensures
        match proto_community::read_extcomm(
            Some(CommunityView::RouterMac { is_transitive, mac_address: b }),
        ) {
            Ok(v) => b.len() == 6 && six_octets(v) == b && (v >> 48) as u8 == 3 && (v >> 56) as u8
                == (if is_transitive {
                6u8
            } else {
                0x46u8
            }),
            Err(_) => b.len() != 6,
        },
        match proto_community::read_extcomm(
            Some(CommunityView::Opaque { is_transitive, value: b }),
        ) {
            Ok(v) => b.len() == 6 && six_octets(v) == b && (v >> 48) as u8 == 0 && (v >> 56) as u8
                == (if is_transitive {
                3u8
            } else {
                0x43u8
            }),
            Err(_) => b.len() != 6,
        },
        match proto_community::read_extcomm(
            Some(CommunityView::Unknown { type_code, octets: b }),
        ) {
            Ok(v) => b.len() == 7 && seq![(v >> 48) as u8] + six_octets(v) == b && (v >> 56) as u8
                == type_code % 256,
            Err(_) => b.len() != 7,
        },
{
    lemma_low_octet(type_code);
    if b.len() == 6 {
        lemma_octets_of(6, 3, b[0], b[1], b[2], b[3], b[4], b[5]);
        lemma_octets_of(3, 0, b[0], b[1], b[2], b[3], b[4], b[5]);
        lemma_octets_of(0x43, 0, b[0], b[1], b[2], b[3], b[4], b[5]);
        let mac = seq![6u8, 3u8] + b;
        let plain = seq![3u8, 0u8] + b;
        let kept = seq![0x43u8, 0u8] + b;
        lemma_mark_in_octets(ext_community::u64_of_octets(mac));
        assert(six_octets(ext_community::u64_of_octets(mac)) =~= b);
        assert(six_octets(ext_community::u64_of_octets(plain)) =~= b);
        assert(six_octets(ext_community::u64_of_octets(kept)) =~= b);
        assert(6u8 | 0x40u8 == 0x46u8) by (bit_vector);
    }
    if b.len() == 7 {
        let t = type_code as u8;
        lemma_octets_of(t, b[0], b[1], b[2], b[3], b[4], b[5], b[6]);
        let all = seq![t] + b;
        let v = ext_community::u64_of_octets(all);
        assert(seq![(v >> 48) as u8] + six_octets(v) =~= b);
    }
}

proof fn lemma_octets_of(t: u8, s: u8, a: u8, b: u8, c: u8, d: u8, e: u8, f: u8)
    ensures
        ({
            let v = (t as u64) << 56 | (s as u64) << 48 | (a as u64) << 40 | (b as u64) << 32 | (
            c as u64) << 24 | (d as u64) << 16 | (e as u64) << 8 | (f as u64);
            &&& (v >> 56) as u8 == t && (v >> 48) as u8 == s && (v >> 40) as u8 == a
            &&& (v >> 32) as u8 == b && (v >> 24) as u8 == c && (v >> 16) as u8 == d
            &&& (v >> 8) as u8 == e && v as u8 == f
        }),
{
    let v = (t as u64) << 56 | (s as u64) << 48 | (a as u64) << 40 | (b as u64) << 32 | (c as u64)
        << 24 | (d as u64) << 16 | (e as u64) << 8 | (f as u64);
    assert((v >> 56) as u8 == t && (v >> 48) as u8 == s && (v >> 40) as u8 == a && (v >> 32) as u8
        == b && (v >> 24) as u8 == c && (v >> 16) as u8 == d && (v >> 8) as u8 == e && v as u8 == f)
        by (bit_vector)
        requires
            v == (t as u64) << 56 | (s as u64) << 48 | (a as u64) << 40 | (b as u64) << 32 | (
            c as u64) << 24 | (d as u64) << 16 | (e as u64) << 8 | (f as u64),
    ;
}

proof fn lemma_mark_in_octets(v: u64)
    ensures
        ({
            let m = v | 0x4000_0000_0000_0000;
            &&& (m >> 56) as u8 == (v >> 56) as u8 | 0x40
            &&& (m >> 48) as u8 == (v >> 48) as u8
            &&& six_octets(m) == six_octets(v)
        }),
{
    let m = v | 0x4000_0000_0000_0000;
    assert((m >> 56) as u8 == (v >> 56) as u8 | 0x40 && (m >> 48) as u8 == (v >> 48) as u8 && (m
        >> 40) as u8 == (v >> 40) as u8 && (m >> 32) as u8 == (v >> 32) as u8 && (m >> 24) as u8
        == (v >> 24) as u8 && (m >> 16) as u8 == (v >> 16) as u8 && (m >> 8) as u8 == (v
        >> 8) as u8 && m as u8 == v as u8) by (bit_vector)
        requires
            m == v | 0x4000_0000_0000_0000,
    ;
}

/// The six octets of a community behind its type and subtype.
pub open spec fn six_octets(ec: u64) -> Seq<u8> {
    seq![
        (ec >> 40) as u8,
        (ec >> 32) as u8,
        (ec >> 24) as u8,
        (ec >> 16) as u8,
        (ec >> 8) as u8,
        ec as u8,
    ]
}

// ---------------------------------------------------------------------------
// Routes to add
// ---------------------------------------------------------------------------

/// A request to add a prefix is granted exactly if the prefix, the next hop, the
/// origin, the communities and the addresses in it can be read. The route is one of
/// this speaker, and has what the request says.
pub proof fn law_added_prefixes(m: messages::AddIpRouteRequestView, raw: Seq<u8>)
    ensures
        ({
            let r = routes::read_add_route(
                (messages::AddRouteRequestView { route: Some(messages::NewRouteView::Ip(m)) }),
                raw,
            );
            let communities = conf::read_all(m.extended_communities, routes::extcomm_reader());
            let readable = {
                &&& addr_text::read_network(m.prefix) is Some
                &&& addr_text::read_ip(m.next_hop) is Some
                &&& 0 <= m.origin <= 2
                &&& communities is Ok
                &&& m.originator_id is Some ==> addr_text::read_ipv4(m.originator_id->0) is Some
                &&& routes::read_addresses(m.cluster_list) is Some
            };
            &&& r is Ok <==> readable
            &&& r is Err ==> r->Err_0 is InvalidArgument
            &&& r is Ok ==> {
                let x = r->Ok_0;
                &&& x.key == RouteKeyView::Prefix(addr_text::read_network(m.prefix)->0)
                &&& x.description == m.prefix
                &&& x.attrs.source == RouteSource::Local
                &&& x.attrs.med == m.med
                &&& x.attrs.local_pref == m.local_pref
                &&& x.attrs.atomic_aggregate == m.atomic_aggregate
                &&& x.attrs.communities == m.communities
                &&& communities == Ok::<Seq<u64>, Seq<char>>(x.attrs.extended_communities)
                &&& m.origin == 0 ==> x.attrs.origin == Origin::IGP
                &&& m.origin == 1 ==> x.attrs.origin == Origin::EGP
                &&& m.origin == 2 ==> x.attrs.origin == Origin::INCOMPLETE
                &&& x.attrs.next_hop == (match addr_text::read_ip(m.next_hop)->0 {
                    IpAddr::V4(a) => NextHopAddr::Ipv4(a),
                    IpAddr::V6(a) => NextHopAddr::Ipv6(a),
                })
                &&& x.attrs.originator_id == (match m.originator_id {
                    Some(s) => addr_text::read_ipv4(s),
                    None => None,
                })
                &&& Some(x.attrs.cluster_list) == routes::read_addresses(m.cluster_list)
                &&& x.attrs.aggregator is None
                &&& x.attrs.unknown_attrs.len() == 0
                &&& x.attrs.ls_attr is None
            }
        }),
{
}

/// The AS path of a route that is added is that of the request: a set where the
/// number of a set is given, and else a sequence, of the same systems.
pub proof fn law_added_as_path(m: messages::AddIpRouteRequestView)
    requires
        routes::read_new_ip_route(m) is Ok,
    ensures
        ({
            let path = routes::read_new_ip_route(m)->Ok_0.attrs.as_path;
            &&& path.len() == m.as_path.len()
            &&& forall|i: int|
                0 <= i < path.len() ==> {
                    &&& (#[trigger] path[i]).asn_list == m.as_path[i].asns
                    &&& m.as_path[i].segment_type == 0 ==> path[i].segment_type
                        == AsPathSegmentType::AsSet
                    &&& m.as_path[i].segment_type != 0 ==> path[i].segment_type
                        == AsPathSegmentType::AsSequence
                    &&& path[i].asn_list.len() < 256 ==> path[i].segment_len
                        == path[i].asn_list.len()
                }
        }),
{
}

/// The large communities of a route that is added are those of the request.
pub proof fn law_added_large_communities(m: messages::AddIpRouteRequestView)
    requires
        routes::read_new_ip_route(m) is Ok,
    ensures
        ({
            let l = routes::read_new_ip_route(m)->Ok_0.attrs.large_communities;
            &&& l.len() == m.large_communities.len()
            &&& forall|i: int|
                0 <= i < l.len() ==> (#[trigger] l[i]).global_admin
                    == m.large_communities[i].global_admin && l[i].local_data_1
                    == m.large_communities[i].local_data_1 && l[i].local_data_2
                    == m.large_communities[i].local_data_2
        }),
{
}

/// Addresses are read one by one: all of them, or none if one cannot be.
pub proof fn law_added_addresses(s: Seq<Seq<char>>)
    ensures
        routes::read_addresses(s) is Some <==> forall|i: int|
            0 <= i < s.len() ==> addr_text::read_ipv4(#[trigger] s[i]) is Some,
        match routes::read_addresses(s) {
            Some(l) => l.len() == s.len() && forall|i: int|
                0 <= i < s.len() ==> addr_text::read_ipv4(#[trigger] s[i]) == Some(l[i]),
            None => true,
        },
    decreases s.len(),
{
    if s.len() > 0 {
        let d = s.drop_last();
        law_added_addresses(d);
        if forall|i: int| 0 <= i < s.len() ==> addr_text::read_ipv4(#[trigger] s[i]) is Some {
            assert forall|i: int| 0 <= i < d.len() implies addr_text::read_ipv4(
                #[trigger] d[i],
            ) is Some by {
                assert(d[i] == s[i]);
            }
            assert(addr_text::read_ipv4(s[s.len() - 1]) is Some);
        }
        if let Some(l) = routes::read_addresses(s) {
            assert forall|i: int| 0 <= i < s.len() implies addr_text::read_ipv4(#[trigger] s[i])
                == Some(l[i]) by {
                if i < d.len() {
                    assert(d[i] == s[i]);
                }
            }
        }
    }
}

/// A request to add a link-state object is granted exactly if there is one in it
/// that can be read, and its next hop, if there is one, can be; without one it is
/// all zeros. The route is one of this speaker, and bare but for its attribute.
pub proof fn law_added_link_state(m: messages::AddLsRouteRequestView, raw: Seq<u8>)
    ensures
        ({
            let r = routes::read_add_route(
                (messages::AddRouteRequestView { route: Some(messages::NewRouteView::Ls(m)) }),
                raw,
            );
            let readable = {
                &&& m.nlri is Some
                &&& proto_ls::read_nlri(m.nlri->0, raw) is Ok
                &&& m.next_hop is Some ==> addr_text::read_ip(m.next_hop->0) is Some
            };
            &&& r is Ok <==> readable
            &&& r is Err ==> r->Err_0 is InvalidArgument
            &&& r is Ok ==> {
                let x = r->Ok_0;
                let n = proto_ls::read_nlri(m.nlri->0, raw)->Ok_0;
                &&& x.key == RouteKeyView::LinkState(n)
                &&& x.description == "LS "@ + text::decimal(n.nlri_type as nat)
                &&& x.attrs.source == RouteSource::Local
                &&& x.attrs.origin == Origin::IGP
                &&& x.attrs.next_hop == (match m.next_hop {
                    None => NextHopAddr::Ipv4(Ipv4Addr { a: 0, b: 0, c: 0, d: 0 }),
                    Some(s) => match addr_text::read_ip(s)->0 {
                        IpAddr::V4(a) => NextHopAddr::Ipv4(a),
                        IpAddr::V6(a) => NextHopAddr::Ipv6(a),
                    },
                })
                &&& x.attrs.ls_attr == (match m.attribute {
                    Some(a) => Some(ls_attr::attr_items(a)),
                    None => None,
                })
                &&& x.attrs.as_path.len() == 0 && x.attrs.communities.len() == 0
                &&& x.attrs.extended_communities.len() == 0 && x.attrs.large_communities.len() == 0
                &&& x.attrs.local_pref is None && x.attrs.med is None
                &&& !x.attrs.atomic_aggregate && x.attrs.aggregator is None
                &&& x.attrs.originator_id is None && x.attrs.cluster_list.len() == 0
            }
        }),
        routes::read_add_route((messages::AddRouteRequestView { route: None }), raw) is Err,
        routes::read_add_route(
            (messages::AddRouteRequestView { route: None }),
            raw,
        )->Err_0 is Answer,
{
}

// ---------------------------------------------------------------------------
// Routes to remove
// ---------------------------------------------------------------------------

/// A request to remove a route names it by its link-state object or by its prefix:
/// an address and a length of at most 255 around the only slash.
pub proof fn law_removed_routes(m: messages::RemoveRouteRequestView, raw: Seq<u8>)
    ensures
        match m.key {
            None => routes::read_remove_route(m, raw) is Err && routes::read_remove_route(
                m,
                raw,
            )->Err_0 is Answer,
            Some(messages::KeyView::LsNlri(x)) => match proto_ls::read_nlri(x, raw) {
                Ok(n) => routes::read_remove_route(m, raw) == Ok::<
                    (RouteKeyView, Seq<char>),
                    RefusalView,
                >((RouteKeyView::LinkState(n), "LS "@ + text::decimal(n.nlri_type as nat))),
                Err(_) => routes::read_remove_route(m, raw) is Err && routes::read_remove_route(
                    m,
                    raw,
                )->Err_0 is InvalidArgument,
            },
            Some(messages::KeyView::Prefix(s)) => match routes::read_remove_route(m, raw) {
                Ok((key, what)) => what == s && match (key, text::split_once_at(s, '/')) {
                    (RouteKeyView::Prefix(IpNetwork::V4(n)), Some((a, l))) => addr_text::read_ip(a)
                        == Some(IpAddr::V4(n.address)) && text::read_decimal(l, 255) == Some(
                        n.prefix_length as nat,
                    ) && !l.contains('/'),
                    (RouteKeyView::Prefix(IpNetwork::V6(n)), Some((a, l))) => addr_text::read_ip(a)
                        == Some(IpAddr::V6(n.address)) && text::read_decimal(l, 255) == Some(
                        n.prefix_length as nat,
                    ) && !l.contains('/'),
                    _ => false,
                },
                Err(e) => match text::split_once_at(s, '/') {
                    None => e is Answer,
                    Some((a, l)) => (l.contains('/') ==> e is Answer) && (!l.contains('/') ==> e
                        is InvalidArgument && (addr_text::read_ip(a) is None || text::read_decimal(
                        l,
                        255,
                    ) is None)),
                },
            },
        },
{
}

/// Of a stream of requests those for prefixes count that would be granted one by one,
/// and make the same routes; others are passed over.
pub proof fn law_streamed_routes(m: messages::AddRouteRequestView, raw: Seq<u8>)
    ensures
        match (m.route, routes::read_add_route(m, raw)) {
            (Some(messages::NewRouteView::Ip(_)), Ok(x)) => routes::read_streamed(m) == Some(x),
            _ => routes::read_streamed(m) is None,
        },
{
}

} // verus!
