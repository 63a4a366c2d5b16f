//! Which numbers extended communities are, and how they are written.

use crate::bgp::ext_community;
use crate::text;
use vstd::prelude::*;

verus! {

/// The octets of an extended community, from the first: its type, its subtype and the
/// six of its value.
pub proof fn law_octets_of_a_community(ec: u64)
    ensures
        ext_community::type_of(ec) == ec / 0x100_0000_0000_0000,
        ext_community::subtype_of(ec) == ec / 0x1_0000_0000_0000 % 256,
        ext_community::value_of(ec) == seq![
            (ec / 0x100_0000_0000 % 256) as u8,
            (ec / 0x1_0000_0000 % 256) as u8,
            (ec / 0x100_0000 % 256) as u8,
            (ec / 0x1_0000 % 256) as u8,
            (ec / 0x100 % 256) as u8,
            (ec % 256) as u8,
        ],
{
    assert((ec >> 56) as u8 == ec / 0x100_0000_0000_0000 && (ec >> 48) as u8 == ec
        / 0x1_0000_0000_0000 % 256) by (bit_vector);
    assert((ec >> 40) as u8 == ec / 0x100_0000_0000 % 256 && (ec >> 32) as u8 == ec / 0x1_0000_0000
        % 256 && (ec >> 24) as u8 == ec / 0x100_0000 % 256 && (ec >> 16) as u8 == ec / 0x1_0000
        % 256 && (ec >> 8) as u8 == ec / 0x100 % 256 && ec as u8 == ec % 256) by (bit_vector);
}

/// A community is passed on between systems exactly if the second highest bit of its
/// type is clear.
pub proof fn law_communities_that_are_passed_on(ec: u64)
    ensures
        ext_community::transitive_spec(ec) <==> ec / 0x4000_0000_0000_0000 % 2 == 0,
{
    assert((ec >> 56) as u8 & 0x40u8 == 0 <==> ec / 0x4000_0000_0000_0000 % 2 == 0)
        by (bit_vector);
}

/// Where the parts of a community stand in its number.
pub proof fn law_communities_of_systems(subtype: u8, asn: u16, long_asn: u32, local: u16, n: u32)
    ensures
        ext_community::two_octet_as(subtype, asn, n) == subtype * 0x1_0000_0000_0000 + asn
            * 0x1_0000_0000 + n,
        ext_community::ipv4_specific(subtype, long_asn, local) == 0x100_0000_0000_0000 + subtype
            * 0x1_0000_0000_0000 + long_asn * 0x1_0000 + local,
        ext_community::four_octet_as(subtype, long_asn, local) == 0x200_0000_0000_0000 + subtype
            * 0x1_0000_0000_0000 + long_asn * 0x1_0000 + local,
        ext_community::color_community(n) == 0x30B_0000_0000_0000 + n,
        ext_community::encapsulation_community(asn) == 0x30C_0000_0000_0000 + asn,
        ext_community::rpki_community(subtype) == 0x4300_0000_0000_0000 + subtype,
{
    let (s, a, w, l, m) = (subtype as u64, asn as u64, long_asn as u64, local as u64, n as u64);
    assert((s << 48 | a << 32 | m) == s * 0x1_0000_0000_0000 + a * 0x1_0000_0000 + m && (1u64 << 56
        | s << 48 | w << 16 | l) == 0x100_0000_0000_0000 + s * 0x1_0000_0000_0000 + w * 0x1_0000
        + l && (2u64 << 56 | s << 48 | w << 16 | l) == 0x200_0000_0000_0000 + s
        * 0x1_0000_0000_0000 + w * 0x1_0000 + l) by (bit_vector)
        requires
            s < 256,
            a < 0x1_0000,
            w < 0x1_0000_0000,
            l < 0x1_0000,
            m < 0x1_0000_0000,
    ;
    assert((3u64 << 56 | 0x0Bu64 << 48 | m) == 0x30B_0000_0000_0000 + m && (3u64 << 56 | 0x0Cu64
        << 48 | a) == 0x30C_0000_0000_0000 + a && (0x43u64 << 56 | s) == 0x4300_0000_0000_0000 + s)
        by (bit_vector)
        requires
            s < 256,
            a < 0x1_0000,
            m < 0x1_0000_0000,
    ;
}

proof fn lemma_two_octets(k: u64, a: u64, m: u64)
    requires
        k < 256,
        a < 0x1_0000,
        m < 0x1_0000_0000,
    ensures
        ((k << 48 | a << 32 | m) >> 56) as u8 == 0,
        ((k << 48 | a << 32 | m) >> 48) as u8 == k,
        ((k << 48 | a << 32 | m) >> 32) as u16 == a,
        (k << 48 | a << 32 | m) as u32 == m,
{
    assert(((k << 48 | a << 32 | m) >> 56) as u8 == 0 && ((k << 48 | a << 32 | m) >> 48) as u8 == k
        && ((k << 48 | a << 32 | m) >> 32) as u16 == a && (k << 48 | a << 32 | m) as u32 == m)
        by (bit_vector)
        requires
            k < 256,
            a < 0x1_0000,
            m < 0x1_0000_0000,
    ;
}

proof fn lemma_four_octets(k: u64, w: u64, l: u64)
    requires
        k < 256,
        w < 0x1_0000_0000,
        l < 0x1_0000,
    ensures
        ((2u64 << 56 | k << 48 | w << 16 | l) >> 56) as u8 == 2,
        ((2u64 << 56 | k << 48 | w << 16 | l) >> 48) as u8 == k,
        ((2u64 << 56 | k << 48 | w << 16 | l) >> 16) as u32 == w,
        (2u64 << 56 | k << 48 | w << 16 | l) as u16 == l,
{
    assert(((2u64 << 56 | k << 48 | w << 16 | l) >> 56) as u8 == 2 && ((2u64 << 56 | k << 48 | w
        << 16 | l) >> 48) as u8 == k && ((2u64 << 56 | k << 48 | w << 16 | l) >> 16) as u32 == w
        && (2u64 << 56 | k << 48 | w << 16 | l) as u16 == l) by (bit_vector)
        requires
            k < 256,
            w < 0x1_0000_0000,
            l < 0x1_0000,
    ;
}

/// Targets are written `rt` and origins `ro`, then the system and its own number.
pub proof fn law_notation_of_systems(asn: u16, long_asn: u32, local: u16, n: u32)
    ensures
        ext_community::ext_community_text(ext_community::two_octet_as(2, asn, n)) == seq![
            'r',
            't',
            ':',
        ] + text::decimal(asn as nat) + seq![':'] + text::decimal(n as nat),
        ext_community::ext_community_text(ext_community::two_octet_as(3, asn, n)) == seq![
            'r',
            'o',
            ':',
        ] + text::decimal(asn as nat) + seq![':'] + text::decimal(n as nat),
        long_asn > 65535 ==> ext_community::ext_community_text(
            ext_community::four_octet_as(2, long_asn, local),
        ) == seq!['r', 't', ':'] + text::decimal(long_asn as nat) + seq![':'] + text::decimal(
            local as nat,
        ),
        long_asn > 65535 ==> ext_community::ext_community_text(
            ext_community::four_octet_as(3, long_asn, local),
        ) == seq!['r', 'o', ':'] + text::decimal(long_asn as nat) + seq![':'] + text::decimal(
            local as nat,
        ),
{
    let (a, w, l, m) = (asn as u64, long_asn as u64, local as u64, n as u64);
    lemma_two_octets(2, a, m);
    lemma_two_octets(3, a, m);
    lemma_four_octets(2, w, l);
    lemma_four_octets(3, w, l);
    let (t2, o2) = (
        ext_community::two_octet_as(2, asn, n),
        ext_community::two_octet_as(3, asn, n),
    );
    let (t4, o4) = (
        ext_community::four_octet_as(2, long_asn, local),
        ext_community::four_octet_as(3, long_asn, local),
    );
    assert(ext_community::ext_community_text(t2) =~= seq!['r', 't', ':'] + text::decimal(
        asn as nat,
    ) + seq![':'] + text::decimal(n as nat));
    assert(ext_community::ext_community_text(o2) =~= seq!['r', 'o', ':'] + text::decimal(
        asn as nat,
    ) + seq![':'] + text::decimal(n as nat));
    if long_asn > 65535 {
        assert(ext_community::ext_community_text(t4) =~= seq!['r', 't', ':'] + text::decimal(
            long_asn as nat,
        ) + seq![':'] + text::decimal(local as nat));
        assert(ext_community::ext_community_text(o4) =~= seq!['r', 'o', ':'] + text::decimal(
            long_asn as nat,
        ) + seq![':'] + text::decimal(local as nat));
    }
}

} // verus!
