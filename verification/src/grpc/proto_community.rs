//! Communities of messages and those of paths.

use crate::bgp::community;
use crate::bgp::ext_community;
use crate::bgp::ext_community::{
    ext_subtype, ext_type, ext_value, from_color, from_encapsulation, from_four_octet_as,
    from_ipv4, from_octets, from_router_mac, from_two_octet_as, SUBTYPE_COLOR,
    SUBTYPE_ENCAPSULATION, SUBTYPE_LINK_BANDWIDTH, SUBTYPE_ROUTER_MAC, TYPE_EVPN,
    TYPE_FOUR_OCTET_AS, TYPE_IPV4_ADDRESS, TYPE_NON_TRANSITIVE_BIT, TYPE_TRANSITIVE_OPAQUE,
    TYPE_TWO_OCTET_AS,
};
use crate::conf;
use crate::grpc::proto::extended_community::{
    Color, Community, CommunityView, Encapsulation, ExtendedCommunity, FourOctetAsSpecific,
    IPv4AddressSpecific, LargeCommunity, LinkBandwidth, Opaque, RouterMac, TwoOctetAsSpecific,
    Unknown,
};
use crate::net::addr::Ipv4Addr;
use crate::net::addr_text;
use crate::text;
use crate::text::{cat2, cat3, render_decimal};
use vstd::prelude::*;

verus! {

// ---------------------------------------------------------------------------
// From messages
// ---------------------------------------------------------------------------

/// The community, marked where it is not passed on to other systems.
pub open spec fn marked(val: u64, is_transitive: bool) -> u64 {
    if is_transitive {
        val
    } else {
        val | 0x4000_0000_0000_0000
    }
}

/// A number does not fit in sixteen bits.
pub open spec fn too_large(what: Seq<char>, n: u32) -> Seq<char> {
    what + text::decimal(n as nat) + " exceeds 16-bit max (65535)"@
}

/// A value has another length than it must have.
pub open spec fn wrong_length(what: Seq<char>, n: int) -> Seq<char> {
    what + text::decimal(n as nat)
}

/// The community that a message denotes.
pub open spec fn read_extcomm(c: Option<CommunityView>) -> Result<u64, Seq<char>> {
    match c {
        None => Err("ExtendedCommunity missing oneof field"@),
        Some(CommunityView::TwoOctetAs(x)) => if x.asn > 65535 {
            Err(too_large("ASN "@, x.asn))
        } else {
            Ok(
                marked(
                    ext_community::two_octet_as(x.sub_type as u8, x.asn as u16, x.local_admin),
                    x.is_transitive,
                ),
            )
        },
        Some(CommunityView::Ipv4Address { is_transitive, sub_type, address, local_admin }) => {
            if local_admin > 65535 {
                Err(too_large("Local admin "@, local_admin))
            } else {
                match addr_text::read_ipv4(address) {
                    Some(ip) => Ok(
                        marked(
                            ext_community::ipv4_specific(
                                sub_type as u8,
                                ip.bits(),
                                local_admin as u16,
                            ),
                            is_transitive,
                        ),
                    ),
                    None => Err("Invalid IPv4 address: "@ + address),
                }
            }
        },
        Some(CommunityView::FourOctetAs(x)) => if x.local_admin > 65535 {
            Err(too_large("Local admin "@, x.local_admin))
        } else {
            Ok(
                marked(
                    ext_community::four_octet_as(x.sub_type as u8, x.asn, x.local_admin as u16),
                    x.is_transitive,
                ),
            )
        },
        Some(CommunityView::LinkBandwidth(x)) => if x.asn > 65535 {
            Err(too_large("ASN "@, x.asn))
        } else {
            Ok(
                marked(
                    ext_community::two_octet_as(
                        SUBTYPE_LINK_BANDWIDTH,
                        x.asn as u16,
                        x.bandwidth_bits,
                    ),
                    x.is_transitive,
                ),
            )
        },
        Some(CommunityView::Color(x)) => Ok(
            marked(ext_community::color_community(x.color), x.is_transitive),
        ),
        Some(CommunityView::Encapsulation(x)) => if x.tunnel_type > 65535 {
            Err(too_large("Tunnel type "@, x.tunnel_type))
        } else {
            Ok(
                marked(
                    ext_community::encapsulation_community(x.tunnel_type as u16),
                    x.is_transitive,
                ),
            )
        },
        Some(CommunityView::RouterMac { is_transitive, mac_address }) => if mac_address.len() != 6 {
            Err(wrong_length("MAC address must be 6 bytes, got "@, mac_address.len() as int))
        } else {
            Ok(
                marked(
                    ext_community::u64_of_octets(seq![6u8, 3u8] + mac_address),
                    is_transitive,
                ),
            )
        },
        Some(CommunityView::Opaque { is_transitive, value }) => if value.len() != 6 {
            Err(wrong_length("Opaque value must be 6 bytes, got "@, value.len() as int))
        } else {
            let typ: u8 = if is_transitive {
                0x03
            } else {
                0x43
            };
            Ok(ext_community::u64_of_octets(seq![typ, 0u8] + value))
        },
        Some(CommunityView::Unknown { type_code, octets }) => if octets.len() != 7 {
            Err(wrong_length("Unknown value must be 7 bytes, got "@, octets.len() as int))
        } else {
            Ok(ext_community::u64_of_octets(seq![type_code as u8] + octets))
        },
    }
}

fn mark(val: u64, is_transitive: bool) -> (r: u64)
    ensures
        r == marked(val, is_transitive),
{
    if is_transitive {
        val
    } else {
        val | 0x4000_0000_0000_0000
    }
}

fn too_large_text(what: &str, n: u32) -> (r: String)
    ensures
        r@ == too_large(what@, n),
{
    cat3(what, render_decimal(n as u64).as_str(), " exceeds 16-bit max (65535)")
}

fn wrong_length_text(what: &str, n: usize) -> (r: String)
    ensures
        r@ == wrong_length(what@, n as int),
{
    cat2(what, render_decimal(n as u64).as_str())
}

fn ipv4_to_u64(x: &IPv4AddressSpecific) -> (r: Result<u64, String>)
    ensures
        conf::plain_result(r) == read_extcomm(
            Some(
                CommunityView::Ipv4Address {
                    is_transitive: x.is_transitive,
                    sub_type: x.sub_type,
                    address: x.address@,
                    local_admin: x.local_admin,
                },
            ),
        ),
{
    if x.local_admin > 65535 {
        return Err(too_large_text("Local admin ", x.local_admin));
    }
    match Ipv4Addr::parse(x.address.as_str()) {
        Some(ip) => Ok(
            mark(
                from_ipv4(x.sub_type as u8, ip.to_u32(), x.local_admin as u16),
                x.is_transitive,
            ),
        ),
        None => Err(cat2("Invalid IPv4 address: ", x.address.as_str())),
    }
}

fn opaque_to_u64(x: &Opaque) -> (r: Result<u64, String>)
    ensures
        conf::plain_result(r) == read_extcomm(
            Some(CommunityView::Opaque { is_transitive: x.is_transitive, value: x.value@ }),
        ),
{
    if x.value.len() != 6 {
        return Err(wrong_length_text("Opaque value must be 6 bytes, got ", x.value.len()));
    }
    let typ: u8 = if x.is_transitive {
        0x03
    } else {
        0x43
    };
    let v = &x.value;
    let b: Vec<u8> = vec![typ, 0u8, v[0], v[1], v[2], v[3], v[4], v[5]];
    assert(b@ =~= seq![typ, 0u8] + v@);
    Ok(from_octets(&b))
}

fn unknown_to_u64(x: &Unknown) -> (r: Result<u64, String>)
    ensures
        conf::plain_result(r) == read_extcomm(
            Some(CommunityView::Unknown { type_code: x.type_code, octets: x.value@ }),
        ),
{
    if x.value.len() != 7 {
        return Err(wrong_length_text("Unknown value must be 7 bytes, got ", x.value.len()));
    }
    let v = &x.value;
    let b: Vec<u8> = vec![x.type_code as u8, v[0], v[1], v[2], v[3], v[4], v[5], v[6]];
    assert(b@ =~= seq![x.type_code as u8] + v@);
    Ok(from_octets(&b))
}

/// The community that a message denotes.
pub fn proto_extcomm_to_u64(proto: &ExtendedCommunity) -> (r: Result<u64, String>)
    ensures
        conf::plain_result(r) == read_extcomm(proto@),
{
    let community = match &proto.community {
        Some(c) => c,
        None => {
            return Err("ExtendedCommunity missing oneof field".to_string());
        },
    };
    match community {
        Community::TwoOctetAs(x) => {
            if x.asn > 65535 {
                return Err(too_large_text("ASN ", x.asn));
            }
            Ok(
                mark(
                    from_two_octet_as(x.sub_type as u8, x.asn as u16, x.local_admin),
                    x.is_transitive,
                ),
            )
        },
        Community::Ipv4Address(x) => ipv4_to_u64(x),
        Community::FourOctetAs(x) => {
            if x.local_admin > 65535 {
                return Err(too_large_text("Local admin ", x.local_admin));
            }
            Ok(
                mark(
                    from_four_octet_as(x.sub_type as u8, x.asn, x.local_admin as u16),
                    x.is_transitive,
                ),
            )
        },
        Community::LinkBandwidth(x) => {
            if x.asn > 65535 {
                return Err(too_large_text("ASN ", x.asn));
            }
            Ok(
                mark(
                    from_two_octet_as(SUBTYPE_LINK_BANDWIDTH, x.asn as u16, x.bandwidth_bits),
                    x.is_transitive,
                ),
            )
        },
        Community::Color(x) => Ok(mark(from_color(x.color), x.is_transitive)),
        Community::Encapsulation(x) => {
            if x.tunnel_type > 65535 {
                return Err(too_large_text("Tunnel type ", x.tunnel_type));
            }
            Ok(mark(from_encapsulation(x.tunnel_type as u16), x.is_transitive))
        },
        Community::RouterMac(x) => {
            if x.mac_address.len() != 6 {
                return Err(
                    wrong_length_text("MAC address must be 6 bytes, got ", x.mac_address.len()),
                );
            }
            Ok(mark(from_router_mac(&x.mac_address), x.is_transitive))
        },
        Community::Opaque(x) => opaque_to_u64(x),
        Community::Unknown(x) => unknown_to_u64(x),
    }
}

// ---------------------------------------------------------------------------
// Into messages
// ---------------------------------------------------------------------------

/// The kind of a community, whether or not it is passed on to other systems.
pub open spec fn base_type(ec: u64) -> u8 {
    ext_community::type_of(ec) & !TYPE_NON_TRANSITIVE_BIT
}

/// What a message says of a community. An opaque community of an unknown subtype
/// and an EVPN one other than a router's MAC keep their value alone.
pub open spec fn extcomm_message(ec: u64) -> CommunityView {
    let is_transitive = ext_community::transitive_spec(ec);
    let subtype = ext_community::subtype_of(ec);
    let value = ext_community::value_of(ec);
    let base = base_type(ec);
    if base == TYPE_TWO_OCTET_AS {
        if subtype == SUBTYPE_LINK_BANDWIDTH {
            CommunityView::LinkBandwidth(
                LinkBandwidth {
                    is_transitive,
                    asn: (ec >> 32) as u16 as u32,
                    bandwidth_bits: ec as u32,
                },
            )
        } else {
            CommunityView::TwoOctetAs(
                TwoOctetAsSpecific {
                    is_transitive,
                    sub_type: subtype as u32,
                    asn: (ec >> 32) as u16 as u32,
                    local_admin: ec as u32,
                },
            )
        }
    } else if base == TYPE_IPV4_ADDRESS {
        CommunityView::Ipv4Address {
            is_transitive,
            sub_type: subtype as u32,
            address: (Ipv4Addr { a: value[0], b: value[1], c: value[2], d: value[3] }).text(),
            local_admin: ec as u16 as u32,
        }
    } else if base == TYPE_FOUR_OCTET_AS {
        CommunityView::FourOctetAs(
            FourOctetAsSpecific {
                is_transitive,
                sub_type: subtype as u32,
                asn: (ec >> 16) as u32,
                local_admin: ec as u16 as u32,
            },
        )
    } else if base == TYPE_TRANSITIVE_OPAQUE && subtype == SUBTYPE_COLOR {
        CommunityView::Color(Color { is_transitive, color: ec as u32 })
    } else if base == TYPE_TRANSITIVE_OPAQUE && subtype == SUBTYPE_ENCAPSULATION {
        CommunityView::Encapsulation(
            Encapsulation { is_transitive, tunnel_type: ec as u16 as u32 },
        )
    } else if base == TYPE_EVPN && subtype == SUBTYPE_ROUTER_MAC {
        CommunityView::RouterMac { is_transitive, mac_address: value }
    } else if base == TYPE_TRANSITIVE_OPAQUE || base == TYPE_EVPN {
        CommunityView::Opaque { is_transitive, value }
    } else {
        CommunityView::Unknown {
            type_code: ext_community::type_of(ec) as u32,
            octets: seq![subtype] + value,
        }
    }
}

fn extcomm_variant(ec: u64) -> (r: Community)
    ensures
        r@ == extcomm_message(ec),
{
    let typ: u8 = ext_type(ec);
    let subtype: u8 = ext_subtype(ec);
    let value = ext_value(ec);
    let is_transitive = (typ & TYPE_NON_TRANSITIVE_BIT) == 0;
    let base: u8 = typ & !TYPE_NON_TRANSITIVE_BIT;
    let asn2: u16 = (ec >> 32) as u16;
    let local4: u32 = ec as u32;
    let asn4: u32 = (ec >> 16) as u32;
    let local2: u16 = ec as u16;
    if base == TYPE_TWO_OCTET_AS {
        if subtype == SUBTYPE_LINK_BANDWIDTH {
            Community::LinkBandwidth(
                LinkBandwidth { is_transitive, asn: asn2 as u32, bandwidth_bits: local4 },
            )
        } else {
            Community::TwoOctetAs(
                TwoOctetAsSpecific {
                    is_transitive,
                    sub_type: subtype as u32,
                    asn: asn2 as u32,
                    local_admin: local4,
                },
            )
        }
    } else if base == TYPE_IPV4_ADDRESS {
        let ip = Ipv4Addr::new(value[0], value[1], value[2], value[3]);
        Community::Ipv4Address(
            IPv4AddressSpecific {
                is_transitive,
                sub_type: subtype as u32,
                address: ip.to_text(),
                local_admin: local2 as u32,
            },
        )
    } else if base == TYPE_FOUR_OCTET_AS {
        Community::FourOctetAs(
            FourOctetAsSpecific {
                is_transitive,
                sub_type: subtype as u32,
                asn: asn4,
                local_admin: local2 as u32,
            },
        )
    } else if base == TYPE_TRANSITIVE_OPAQUE && subtype == SUBTYPE_COLOR {
        Community::Color(Color { is_transitive, color: local4 })
    } else if base == TYPE_TRANSITIVE_OPAQUE && subtype == SUBTYPE_ENCAPSULATION {
        Community::Encapsulation(Encapsulation { is_transitive, tunnel_type: local2 as u32 })
    } else if base == TYPE_EVPN && subtype == SUBTYPE_ROUTER_MAC {
        Community::RouterMac(RouterMac { is_transitive, mac_address: value })
    } else if base == TYPE_TRANSITIVE_OPAQUE || base == TYPE_EVPN {
        Community::Opaque(Opaque { is_transitive, value })
    } else {
        let octets: Vec<u8> = vec![
            subtype,
            value[0],
            value[1],
            value[2],
            value[3],
            value[4],
            value[5],
        ];
        assert(octets@ =~= seq![subtype] + value@);
        Community::Unknown(Unknown { type_code: typ as u32, value: octets })
    }
}

/// What a message says of a community.
pub fn u64_to_proto_extcomm(extcomm: u64) -> (r: ExtendedCommunity)
    ensures
        r@ == Some(extcomm_message(extcomm)),
{
    ExtendedCommunity { community: Some(extcomm_variant(extcomm)) }
}

/// The large community that a message denotes.
pub fn proto_large_community_to_internal(proto: &LargeCommunity) -> (r: community::LargeCommunity)
    ensures
        r.global_admin == proto.global_admin,
        r.local_data_1 == proto.local_data_1,
        r.local_data_2 == proto.local_data_2,
{
    community::LargeCommunity::new(proto.global_admin, proto.local_data_1, proto.local_data_2)
}

/// What a message says of a large community.
pub fn internal_to_proto_large_community(large_comm: &community::LargeCommunity) -> (r:
    LargeCommunity)
    ensures
        r.global_admin == large_comm.global_admin,
        r.local_data_1 == large_comm.local_data_1,
        r.local_data_2 == large_comm.local_data_2,
{
    LargeCommunity {
        global_admin: large_comm.global_admin,
        local_data_1: large_comm.local_data_1,
        local_data_2: large_comm.local_data_2,
    }
}

// ---------------------------------------------------------------------------
// Laws
// ---------------------------------------------------------------------------

/// A message says all that there is to say of a community: unused octets of a
/// color or an encapsulation are zero, and so is the subtype of another opaque
/// community; an EVPN one is a router's MAC.
pub open spec fn fully_said(ec: u64) -> bool {
    let subtype = ext_community::subtype_of(ec);
    let base = base_type(ec);
    &&& base == TYPE_EVPN ==> subtype == SUBTYPE_ROUTER_MAC
    &&& base == TYPE_TRANSITIVE_OPAQUE ==> {
        ||| subtype == 0
        ||| subtype == SUBTYPE_COLOR && (ec >> 32) as u16 == 0
        ||| subtype == SUBTYPE_ENCAPSULATION && (ec >> 16) as u32 == 0
    }
}

/// Putting a community into a message and reading that gives the community.
pub proof fn law_extcomm_round_trip(ec: u64)
    requires
        fully_said(ec),
    ensures
        read_extcomm(Some(extcomm_message(ec))) == Ok::<u64, Seq<char>>(ec),
{
    let value = ext_community::value_of(ec);
    let typ = ext_community::type_of(ec);
    let subtype = ext_community::subtype_of(ec);
    let base = base_type(ec);
    let is_transitive = ext_community::transitive_spec(ec);
    assert(typ == if is_transitive {
        base
    } else {
        (base | 0x40) as u8
    }) by {
        assert(typ & 0x40 == 0 ==> typ == typ & !0x40u8) by (bit_vector);
        assert(typ & 0x40 != 0 ==> typ == (typ & !0x40u8) | 0x40) by (bit_vector);
    }
    assert(((ec >> 48) as u8) as u32 as u8 == (ec >> 48) as u8);
    if base == TYPE_TWO_OCTET_AS {
        assert(0u8 | 0x40u8 == 0x40u8) by (bit_vector);
        assert((((ec >> 48) as u8) as u64) << 48 | (((ec >> 32) as u16) as u64) << 32 | ((
        ec as u32) as u64) == ec & 0x00ff_ffff_ffff_ffff) by (bit_vector);
        lemma_marked(ec);
    } else if base == TYPE_IPV4_ADDRESS {
        let ip = Ipv4Addr { a: value[0], b: value[1], c: value[2], d: value[3] };
        addr_text::law_ipv4_round_trip(ip);
        assert(1u64 << 56 | (((ec >> 48) as u8) as u64) << 48 | ((((((ec >> 40) as u8) as u32) << 24
            | (((ec >> 32) as u8) as u32) << 16 | (((ec >> 24) as u8) as u32) << 8 | ((
        (ec >> 16) as u8) as u32))) as u64) << 16 | ((ec as u16) as u64) == 0x0100_0000_0000_0000
            | (ec & 0x00ff_ffff_ffff_ffff)) by (bit_vector);
        assert(1u8 | 0x40u8 == 0x41u8) by (bit_vector);
        lemma_marked(ec);
    } else if base == TYPE_FOUR_OCTET_AS {
        assert(2u64 << 56 | (((ec >> 48) as u8) as u64) << 48 | (((ec >> 16) as u32) as u64) << 16
            | ((ec as u16) as u64) == 0x0200_0000_0000_0000 | (ec & 0x00ff_ffff_ffff_ffff))
            by (bit_vector);
        assert(2u8 | 0x40u8 == 0x42u8) by (bit_vector);
        lemma_marked(ec);
    } else if base == TYPE_TRANSITIVE_OPAQUE {
        assert(3u8 | 0x40u8 == 0x43u8) by (bit_vector);
        if subtype == SUBTYPE_COLOR {
            assert(3u64 << 56 | 0x0Bu64 << 48 | ((ec as u32) as u64) == 0x0300_0000_0000_0000 | (ec
                & 0x00ff_ffff_ffff_ffff)) by (bit_vector)
                requires
                    (ec >> 48) as u8 == 0x0B,
                    (ec >> 32) as u16 == 0,
            ;
            lemma_marked(ec);
        } else if subtype == SUBTYPE_ENCAPSULATION {
            assert(3u64 << 56 | 0x0Cu64 << 48 | ((ec as u16) as u64) == 0x0300_0000_0000_0000 | (ec
                & 0x00ff_ffff_ffff_ffff)) by (bit_vector)
                requires
                    (ec >> 48) as u8 == 0x0C,
                    (ec >> 16) as u32 == 0,
            ;
            lemma_marked(ec);
        } else {
            lemma_octets(ec, seq![typ, 0u8] + value);
        }
    } else if base == TYPE_EVPN {
        assert(6u8 | 0x40u8 == 0x46u8) by (bit_vector);
        let b = seq![6u8, 3u8] + value;
        assert(b[2] == value[0] && b[3] == value[1] && b[4] == value[2] && b[5] == value[3]
            && b[6] == value[4] && b[7] == value[5]);
        assert((6u8 as u64) << 56 | (3u8 as u64) << 48 | (((ec >> 40) as u8) as u64) << 40 | (((ec
            >> 32) as u8) as u64) << 32 | (((ec >> 24) as u8) as u64) << 24 | (((ec
            >> 16) as u8) as u64) << 16 | (((ec >> 8) as u8) as u64) << 8 | ((ec as u8) as u64)
            == 0x0600_0000_0000_0000 | (ec & 0x00ff_ffff_ffff_ffff)) by (bit_vector)
            requires
                (ec >> 48) as u8 == 3,
        ;
        lemma_marked(ec);
    } else {
        assert(typ as u32 as u8 == typ);
        let b = seq![typ] + (seq![subtype] + value);
        assert(b =~= seq![typ, subtype] + value);
        lemma_octets(ec, b);
    }
}

/// A community is its type and the rest.
proof fn lemma_marked(ec: u64)
    ensures
        (ec >> 56) as u8 == 0x00 ==> ec & 0x00ff_ffff_ffff_ffff == ec,
        (ec >> 56) as u8 == 0x40 ==> (ec & 0x00ff_ffff_ffff_ffff) | 0x4000_0000_0000_0000 == ec,
        (ec >> 56) as u8 == 0x01 ==> 0x0100_0000_0000_0000 | (ec & 0x00ff_ffff_ffff_ffff) == ec,
        (ec >> 56) as u8 == 0x41 ==> (0x0100_0000_0000_0000 | (ec & 0x00ff_ffff_ffff_ffff))
            | 0x4000_0000_0000_0000 == ec,
        (ec >> 56) as u8 == 0x02 ==> 0x0200_0000_0000_0000 | (ec & 0x00ff_ffff_ffff_ffff) == ec,
        (ec >> 56) as u8 == 0x42 ==> (0x0200_0000_0000_0000 | (ec & 0x00ff_ffff_ffff_ffff))
            | 0x4000_0000_0000_0000 == ec,
        (ec >> 56) as u8 == 0x03 ==> 0x0300_0000_0000_0000 | (ec & 0x00ff_ffff_ffff_ffff) == ec,
        (ec >> 56) as u8 == 0x43 ==> (0x0300_0000_0000_0000 | (ec & 0x00ff_ffff_ffff_ffff))
            | 0x4000_0000_0000_0000 == ec,
        (ec >> 56) as u8 == 0x06 ==> 0x0600_0000_0000_0000 | (ec & 0x00ff_ffff_ffff_ffff) == ec,
        (ec >> 56) as u8 == 0x46 ==> (0x0600_0000_0000_0000 | (ec & 0x00ff_ffff_ffff_ffff))
            | 0x4000_0000_0000_0000 == ec,
{
    assert({
        &&& (ec >> 56) as u8 == 0x00 ==> ec & 0x00ff_ffff_ffff_ffff == ec
        &&& (ec >> 56) as u8 == 0x40 ==> (ec & 0x00ff_ffff_ffff_ffff) | 0x4000_0000_0000_0000 == ec
        &&& (ec >> 56) as u8 == 0x01 ==> 0x0100_0000_0000_0000 | (ec & 0x00ff_ffff_ffff_ffff) == ec
        &&& (ec >> 56) as u8 == 0x41 ==> (0x0100_0000_0000_0000 | (ec & 0x00ff_ffff_ffff_ffff))
            | 0x4000_0000_0000_0000 == ec
        &&& (ec >> 56) as u8 == 0x02 ==> 0x0200_0000_0000_0000 | (ec & 0x00ff_ffff_ffff_ffff) == ec
        &&& (ec >> 56) as u8 == 0x42 ==> (0x0200_0000_0000_0000 | (ec & 0x00ff_ffff_ffff_ffff))
            | 0x4000_0000_0000_0000 == ec
        &&& (ec >> 56) as u8 == 0x03 ==> 0x0300_0000_0000_0000 | (ec & 0x00ff_ffff_ffff_ffff) == ec
        &&& (ec >> 56) as u8 == 0x43 ==> (0x0300_0000_0000_0000 | (ec & 0x00ff_ffff_ffff_ffff))
            | 0x4000_0000_0000_0000 == ec
        &&& (ec >> 56) as u8 == 0x06 ==> 0x0600_0000_0000_0000 | (ec & 0x00ff_ffff_ffff_ffff) == ec
        &&& (ec >> 56) as u8 == 0x46 ==> (0x0600_0000_0000_0000 | (ec & 0x00ff_ffff_ffff_ffff))
            | 0x4000_0000_0000_0000 == ec
    }) by (bit_vector);
}

/// A community is made of its octets.
proof fn lemma_octets(ec: u64, b: Seq<u8>)
    requires
        b == seq![ext_community::type_of(ec), ext_community::subtype_of(ec)]
            + ext_community::value_of(ec),
    ensures
        ext_community::u64_of_octets(b) == ec,
{
    let v = ext_community::value_of(ec);
    assert(b[2] == v[0] && b[3] == v[1] && b[4] == v[2] && b[5] == v[3] && b[6] == v[4] && b[7]
        == v[5]);
    assert((((ec >> 56) as u8) as u64) << 56 | (((ec >> 48) as u8) as u64) << 48 | (((ec
        >> 40) as u8) as u64) << 40 | (((ec >> 32) as u8) as u64) << 32 | (((ec
        >> 24) as u8) as u64) << 24 | (((ec >> 16) as u8) as u64) << 16 | (((ec >> 8) as u8) as u64)
        << 8 | ((ec as u8) as u64) == ec) by (bit_vector);
}

} // verus!
