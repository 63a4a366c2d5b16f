//! Extended communities: eight octets with a type, a subtype and a value, and
//! their text notation.

use crate::net::addr::Ipv4Addr;
use crate::net::addr_text;
use crate::net::addr_text::render_hex;
use crate::text;
use crate::text::{chars_of, parse_decimal, push_char, render_decimal, split_once, text_eq};
use vstd::prelude::*;

verus! {

pub const TYPE_TWO_OCTET_AS: u8 = 0x00;

pub const TYPE_IPV4_ADDRESS: u8 = 0x01;

pub const TYPE_FOUR_OCTET_AS: u8 = 0x02;

pub const TYPE_TRANSITIVE_OPAQUE: u8 = 0x03;

pub const TYPE_EVPN: u8 = 0x06;

/// Set in the type of a community that is not passed on to other systems.
pub const TYPE_NON_TRANSITIVE_BIT: u8 = 0x40;

pub const SUBTYPE_ROUTE_TARGET: u8 = 0x02;

pub const SUBTYPE_ROUTE_ORIGIN: u8 = 0x03;

pub const SUBTYPE_LINK_BANDWIDTH: u8 = 0x04;

pub const SUBTYPE_COLOR: u8 = 0x0B;

pub const SUBTYPE_ENCAPSULATION: u8 = 0x0C;

pub const SUBTYPE_ROUTER_MAC: u8 = 0x03;

// ---------------------------------------------------------------------------
// Octets
// ---------------------------------------------------------------------------

pub open spec fn type_of(ec: u64) -> u8 {
    (ec >> 56) as u8
}

pub open spec fn subtype_of(ec: u64) -> u8 {
    (ec >> 48) as u8
}

/// The six octets behind type and subtype.
pub open spec fn value_of(ec: u64) -> Seq<u8> {
    seq![
        (ec >> 40) as u8,
        (ec >> 32) as u8,
        (ec >> 24) as u8,
        (ec >> 16) as u8,
        (ec >> 8) as u8,
        ec as u8,
    ]
}

pub open spec fn two_octet_as(subtype: u8, asn: u16, local: u32) -> u64 {
    (subtype as u64) << 48 | (asn as u64) << 32 | (local as u64)
}

pub open spec fn ipv4_specific(subtype: u8, ip: u32, local: u16) -> u64 {
    1u64 << 56 | (subtype as u64) << 48 | (ip as u64) << 16 | (local as u64)
}

pub open spec fn four_octet_as(subtype: u8, asn: u32, local: u16) -> u64 {
    2u64 << 56 | (subtype as u64) << 48 | (asn as u64) << 16 | (local as u64)
}

pub open spec fn color_community(color: u32) -> u64 {
    3u64 << 56 | 0x0Bu64 << 48 | (color as u64)
}

pub open spec fn encapsulation_community(tunnel_type: u16) -> u64 {
    3u64 << 56 | 0x0Cu64 << 48 | (tunnel_type as u64)
}

/// The number made of eight octets, the most significant first.
pub open spec fn u64_of_octets(b: Seq<u8>) -> u64 {
    (b[0] as u64) << 56 | (b[1] as u64) << 48 | (b[2] as u64) << 40 | (b[3] as u64) << 32 | (
    b[4] as u64) << 24 | (b[5] as u64) << 16 | (b[6] as u64) << 8 | (b[7] as u64)
}

pub open spec fn transitive_spec(ec: u64) -> bool {
    type_of(ec) & TYPE_NON_TRANSITIVE_BIT == 0
}

/// The community of a validation outcome.
pub open spec fn rpki_community(state: u8) -> u64 {
    0x43u64 << 56 | (state as u64)
}

pub open spec fn is_rpki_community(ec: u64) -> bool {
    type_of(ec) == 0x43 && subtype_of(ec) == 0
}

pub fn ext_type(ec: u64) -> (r: u8)
    ensures
        r == type_of(ec),
{
    (ec >> 56) as u8
}

pub fn ext_subtype(ec: u64) -> (r: u8)
    ensures
        r == subtype_of(ec),
{
    (ec >> 48) as u8
}

pub fn ext_value(ec: u64) -> (r: Vec<u8>)
    ensures
        r@ == value_of(ec),
{
    let r: Vec<u8> = vec![
        (ec >> 40) as u8,
        (ec >> 32) as u8,
        (ec >> 24) as u8,
        (ec >> 16) as u8,
        (ec >> 8) as u8,
        ec as u8,
    ];
    assert(r@ =~= value_of(ec));
    r
}

pub fn from_two_octet_as(subtype: u8, asn: u16, local: u32) -> (r: u64)
    ensures
        r == two_octet_as(subtype, asn, local),
{
    (subtype as u64) << 48 | (asn as u64) << 32 | (local as u64)
}

pub fn from_ipv4(subtype: u8, ip: u32, local: u16) -> (r: u64)
    ensures
        r == ipv4_specific(subtype, ip, local),
{
    1u64 << 56 | (subtype as u64) << 48 | (ip as u64) << 16 | (local as u64)
}

pub fn from_four_octet_as(subtype: u8, asn: u32, local: u16) -> (r: u64)
    ensures
        r == four_octet_as(subtype, asn, local),
{
    2u64 << 56 | (subtype as u64) << 48 | (asn as u64) << 16 | (local as u64)
}

pub fn from_color(color: u32) -> (r: u64)
    ensures
        r == color_community(color),
{
    3u64 << 56 | 0x0Bu64 << 48 | (color as u64)
}

pub fn from_encapsulation(tunnel_type: u16) -> (r: u64)
    ensures
        r == encapsulation_community(tunnel_type),
{
    3u64 << 56 | 0x0Cu64 << 48 | (tunnel_type as u64)
}

/// The number made of eight octets.
pub fn from_octets(b: &Vec<u8>) -> (r: u64)
    requires
        b@.len() == 8,
    ensures
        r == u64_of_octets(b@),
{
    (b[0] as u64) << 56 | (b[1] as u64) << 48 | (b[2] as u64) << 40 | (b[3] as u64) << 32 | (
    b[4] as u64) << 24 | (b[5] as u64) << 16 | (b[6] as u64) << 8 | (b[7] as u64)
}

/// The router's MAC community of six octets.
pub fn from_router_mac(mac: &Vec<u8>) -> (r: u64)
    requires
        mac@.len() == 6,
    ensures
        r == u64_of_octets(seq![6u8, 3u8] + mac@),
{
    let b: Vec<u8> = vec![
        TYPE_EVPN,
        SUBTYPE_ROUTER_MAC,
        mac[0],
        mac[1],
        mac[2],
        mac[3],
        mac[4],
        mac[5],
    ];
    assert(b@ =~= seq![6u8, 3u8] + mac@);
    from_octets(&b)
}

pub fn is_transitive(ec: u64) -> (r: bool)
    ensures
        r == transitive_spec(ec),
{
    ext_type(ec) & TYPE_NON_TRANSITIVE_BIT == 0
}

pub fn is_rpki_state_community(ec: u64) -> (r: bool)
    ensures
        r == is_rpki_community(ec),
{
    ext_type(ec) == 0x43 && ext_subtype(ec) == 0
}

pub fn from_rpki_state_community(state: u8) -> (r: u64)
    ensures
        r == rpki_community(state),
{
    0x43u64 << 56 | (state as u64)
}

/// The community of a validation outcome is recognised as one and is not
/// passed on to other systems.
pub proof fn law_rpki_community(state: u8)
    ensures
        is_rpki_community(rpki_community(state)),
        !transitive_spec(rpki_community(state)),
{
    assert((0x43u64 << 56 | (state as u64)) >> 56 == 0x43 && ((0x43u64 << 56 | (state as u64))
        >> 48) as u8 == 0) by (bit_vector);
    assert(0x43u8 & 0x40u8 != 0) by (bit_vector);
}

// ---------------------------------------------------------------------------
// Text
// ---------------------------------------------------------------------------

/// The subtype that a keyword stands for.
pub open spec fn keyword_subtype(k: Seq<char>) -> Option<u8> {
    if k == seq!['r', 't'] {
        Some(SUBTYPE_ROUTE_TARGET)
    } else if k == seq!['r', 'o'] {
        Some(SUBTYPE_ROUTE_ORIGIN)
    } else {
        None
    }
}

/// The community with the given subtype, administrator and local part: the
/// administrator is a short AS number, a long one or an IPv4 address.
pub open spec fn read_specific(subtype: u8, admin: Seq<char>, local: Seq<char>) -> Option<u64> {
    match text::read_decimal(admin, 65535) {
        Some(a) => match text::read_decimal(local, u32::MAX as nat) {
            Some(l) => Some(two_octet_as(subtype, a as u16, l as u32)),
            None => None,
        },
        None => match text::read_decimal(admin, u32::MAX as nat) {
            Some(a) => match text::read_decimal(local, 65535) {
                Some(l) => Some(four_octet_as(subtype, a as u32, l as u16)),
                None => None,
            },
            None => match addr_text::read_ipv4(admin) {
                Some(ip) => match text::read_decimal(local, 65535) {
                    Some(l) => Some(ipv4_specific(subtype, ip.bits(), l as u16)),
                    None => None,
                },
                None => None,
            },
        },
    }
}

/// A number in hexadecimal: `0x` and one to sixteen digits.
pub open spec fn read_raw(s: Seq<char>) -> Option<u64> {
    let digits = s.skip(2);
    if s.len() >= 3 && s.len() <= 18 && s[0] == '0' && s[1] == 'x' && addr_text::all_hex(digits) {
        Some(addr_text::hex_value(digits) as u64)
    } else {
        None
    }
}

/// The extended community that a text denotes: `rt` or `ro`, the administrator
/// and the local part between colons, or the whole number in hexadecimal.
pub open spec fn read_ext_community(s: Seq<char>) -> Option<u64> {
    match text::split_once_at(s, ':') {
        Some((k, rest)) => match keyword_subtype(k) {
            Some(subtype) => match text::split_once_at(rest, ':') {
                Some((admin, local)) => read_specific(subtype, admin, local),
                None => None,
            },
            None => None,
        },
        None => read_raw(s),
    }
}

/// The keyword of a subtype.
pub open spec fn subtype_keyword(subtype: u8) -> Seq<char> {
    if subtype == SUBTYPE_ROUTE_TARGET {
        seq!['r', 't']
    } else {
        seq!['r', 'o']
    }
}

/// The text of an extended community.
pub open spec fn ext_community_text(ec: u64) -> Seq<char> {
    let subtype = subtype_of(ec);
    let keyed = subtype == SUBTYPE_ROUTE_TARGET || subtype == SUBTYPE_ROUTE_ORIGIN;
    let head = subtype_keyword(subtype) + seq![':'];
    if keyed && type_of(ec) == TYPE_TWO_OCTET_AS {
        head + (text::decimal((ec >> 32) as u16 as nat) + seq![':'] + text::decimal(
            ec as u32 as nat,
        ))
    } else if keyed && type_of(ec) == TYPE_FOUR_OCTET_AS && (ec >> 16) as u32 > 65535 {
        head + (text::decimal((ec >> 16) as u32 as nat) + seq![':'] + text::decimal(
            ec as u16 as nat,
        ))
    } else if keyed && type_of(ec) == TYPE_IPV4_ADDRESS {
        head + (ipv4_of((ec >> 16) as u32).text() + seq![':'] + text::decimal(ec as u16 as nat))
    } else {
        seq!['0', 'x'] + addr_text::hex(ec as nat)
    }
}

/// The IPv4 address with the given number.
pub open spec fn ipv4_of(v: u32) -> Ipv4Addr {
    Ipv4Addr { a: (v >> 24) as u8, b: (v >> 16) as u8, c: (v >> 8) as u8, d: v as u8 }
}

/// `16` to the power `n`.
spec fn pow16(n: nat) -> nat
    decreases n,
{
    if n == 0 {
        1
    } else {
        16 * pow16((n - 1) as nat)
    }
}

proof fn lemma_pow16_monotone(a: nat, b: nat)
    requires
        a <= b,
    ensures
        pow16(a) <= pow16(b),
    decreases b,
{
    if a < b {
        lemma_pow16_monotone(a, (b - 1) as nat);
    }
}

proof fn lemma_hex_bound(s: Seq<char>)
    requires
        s.len() <= 16,
        addr_text::all_hex(s),
    ensures
        addr_text::hex_value(s) < pow16(s.len()),
        addr_text::hex_value(s) <= u64::MAX,
    decreases s.len(),
{
    assert(pow16(16) == 0x1_0000_0000_0000_0000) by {
        reveal_with_fuel(pow16, 17);
    }
    if s.len() > 0 {
        assert(addr_text::is_hex_digit(s[s.len() - 1]));
        assert forall|i: int| 0 <= i < s.drop_last().len() implies addr_text::is_hex_digit(
            #[trigger] s.drop_last()[i],
        ) by {
            assert(addr_text::is_hex_digit(s[i]));
        }
        lemma_hex_bound(s.drop_last());
    }
    lemma_pow16_monotone(s.len(), 16);
}

/// Reads a number in hexadecimal.
fn parse_raw(s: &str) -> (r: Option<u64>)
    ensures
        r == read_raw(s@),
{
    let chars = chars_of(s);
    let n: usize = chars.len();
    if n < 3 || n > 18 || chars[0] != '0' || chars[1] != 'x' {
        return None;
    }
    let ghost digits = s@.skip(2);
    let mut acc: u64 = 0;
    let mut i: usize = 2;
    while i < n
        invariant
            2 <= i <= n <= 18,
            n == chars@.len(),
            chars@ == s@,
            digits == s@.skip(2),
            acc == addr_text::hex_value(digits.take(i - 2)),
            addr_text::all_hex(digits.take(i - 2)),
            s@.len() >= 3,
        decreases n - i,
    {
        let code: u32 = chars[i] as u32;
        let d: u64 = if code >= 48 && code <= 57 {
            (code - 48) as u64
        } else if code >= 65 && code <= 70 {
            (code - 55) as u64
        } else if code >= 97 && code <= 102 {
            (code - 87) as u64
        } else {
            assert(!addr_text::is_hex_digit(digits[i - 2]));
            return None;
        };
        proof {
            let k = i - 2;
            assert(digits.take(k + 1).drop_last() =~= digits.take(k));
            assert(digits.take(k + 1).last() == digits[k]);
            assert forall|j: int| 0 <= j < k + 1 implies addr_text::is_hex_digit(
                #[trigger] digits.take(k + 1)[j],
            ) by {
                if j < k {
                    assert(digits.take(k + 1)[j] == digits.take(k)[j]);
                }
            }
            lemma_hex_bound(digits.take(k + 1));
        }
        acc = acc * 16 + d;
        i = i + 1;
    }
    assert(digits.take(n - 2) =~= digits);
    Some(acc)
}

/// Reads an extended community.
pub fn parse_extended_community(s: &str) -> (r: Option<u64>)
    ensures
        r == read_ext_community(s@),
{
    proof {
        reveal_strlit("rt");
        reveal_strlit("ro");
        assert("rt"@ =~= seq!['r', 't']);
        assert("ro"@ =~= seq!['r', 'o']);
    }
    match split_once(s, ':') {
        Some((k, rest)) => {
            let subtype: u8 = if text_eq(k, "rt") {
                SUBTYPE_ROUTE_TARGET
            } else if text_eq(k, "ro") {
                SUBTYPE_ROUTE_ORIGIN
            } else {
                return None;
            };
            let (admin, local) = match split_once(rest, ':') {
                Some(p) => p,
                None => {
                    return None;
                },
            };
            match parse_decimal(admin, 65535) {
                Some(a) => match parse_decimal(local, u32::MAX as u64) {
                    Some(l) => Some(from_two_octet_as(subtype, a as u16, l as u32)),
                    None => None,
                },
                None => match parse_decimal(admin, u32::MAX as u64) {
                    Some(a) => match parse_decimal(local, 65535) {
                        Some(l) => Some(from_four_octet_as(subtype, a as u32, l as u16)),
                        None => None,
                    },
                    None => match Ipv4Addr::parse(admin) {
                        Some(ip) => match parse_decimal(local, 65535) {
                            Some(l) => Some(from_ipv4(subtype, ip.to_u32(), l as u16)),
                            None => None,
                        },
                        None => None,
                    },
                },
            }
        },
        None => parse_raw(s),
    }
}

/// The text of an extended community.
pub fn format_extended_community(ec: u64) -> (r: String)
    ensures
        r@ == ext_community_text(ec),
{
    let typ: u8 = ext_type(ec);
    let subtype: u8 = ext_subtype(ec);
    let keyed = subtype == SUBTYPE_ROUTE_TARGET || subtype == SUBTYPE_ROUTE_ORIGIN;
    let long_as: u32 = (ec >> 16) as u32;
    let mut r = String::new();
    if keyed && (typ == TYPE_TWO_OCTET_AS || (typ == TYPE_FOUR_OCTET_AS && long_as > 65535) || typ
        == TYPE_IPV4_ADDRESS) {
        push_char(&mut r, 'r');
        if subtype == SUBTYPE_ROUTE_TARGET {
            push_char(&mut r, 't');
        } else {
            push_char(&mut r, 'o');
        }
        assert(r@ =~= subtype_keyword(subtype));
        push_char(&mut r, ':');
        if typ == TYPE_TWO_OCTET_AS {
            let asn: u16 = (ec >> 32) as u16;
            let local: u32 = ec as u32;
            r.append(render_decimal(asn as u64).as_str());
            push_char(&mut r, ':');
            r.append(render_decimal(local as u64).as_str());
        } else if typ == TYPE_FOUR_OCTET_AS {
            let local: u16 = ec as u16;
            r.append(render_decimal(long_as as u64).as_str());
            push_char(&mut r, ':');
            r.append(render_decimal(local as u64).as_str());
        } else {
            let local: u16 = ec as u16;
            let ip = Ipv4Addr {
                a: (long_as >> 24) as u8,
                b: (long_as >> 16) as u8,
                c: (long_as >> 8) as u8,
                d: long_as as u8,
            };
            r.append(ip.to_text().as_str());
            push_char(&mut r, ':');
            r.append(render_decimal(local as u64).as_str());
        }
        assert(r@ =~= ext_community_text(ec));
    } else {
        push_char(&mut r, '0');
        push_char(&mut r, 'x');
        r.append(render_hex(ec).as_str());
        assert(r@ =~= ext_community_text(ec));
    }
    r
}

proof fn lemma_hex_len(n: nat, k: nat)
    requires
        n < pow16(k),
        k >= 1,
    ensures
        addr_text::hex(n).len() <= k,
    decreases n,
{
    if n >= 16 {
        assert(pow16(1) == 16) by {
            reveal_with_fuel(pow16, 2);
        }
        lemma_hex_len(n / 16, (k - 1) as nat);
    }
}

proof fn lemma_dotted_is_no_number(x: Ipv4Addr, max: nat)
    ensures
        text::read_decimal(x.text(), max) is None,
{
    let s = x.text();
    let d = text::decimal(x.a as nat);
    text::lemma_decimal(x.a as nat);
    assert(s[0] == d[0]);
    assert(text::is_dec_digit(d[0]));
    assert(text::unsigned_digits(s) == s);
    assert(s[d.len() as int] == '.');
    assert(!text::is_dec_digit(s[d.len() as int]));
}

proof fn lemma_dotted_lacks_colon(x: Ipv4Addr)
    ensures
        !x.text().contains(':'),
{
    let s = x.text();
    text::lemma_decimal_lacks(x.a as nat, ':');
    text::lemma_decimal_lacks(x.b as nat, ':');
    text::lemma_decimal_lacks(x.c as nat, ':');
    text::lemma_decimal_lacks(x.d as nat, ':');
    let (a, b) = (text::decimal(x.a as nat), text::decimal(x.b as nat));
    let (c, d) = (text::decimal(x.c as nat), text::decimal(x.d as nat));
    assert forall|i: int| 0 <= i < s.len() implies s[i] != ':' by {
        let r0 = b + seq!['.'] + (c + seq!['.'] + d);
        let r1 = c + seq!['.'] + d;
        if i < a.len() {
            assert(s[i] == a[i]);
        } else if i > a.len() {
            let j = i - a.len() - 1;
            assert(s[i] == r0[j]);
            if j < b.len() {
                assert(r0[j] == b[j]);
            } else if j > b.len() {
                let k = j - b.len() - 1;
                assert(r0[j] == r1[k]);
                if k < c.len() {
                    assert(r1[k] == c[k]);
                } else if k > c.len() {
                    assert(r1[k] == d[k - c.len() - 1]);
                }
            }
        }
    }
}

/// The text of an extended community is read as that community.
pub proof fn law_ext_community_round_trip(ec: u64)
    ensures
        read_ext_community(ext_community_text(ec)) == Some(ec),
{
    let subtype = subtype_of(ec);
    let typ = type_of(ec);
    let keyed = subtype == SUBTYPE_ROUTE_TARGET || subtype == SUBTYPE_ROUTE_ORIGIN;
    let kw = subtype_keyword(subtype);
    let s = ext_community_text(ec);
    assert(kw[1] != ':' && kw[0] != ':');
    assert(!kw.contains(':'));
    assert(seq!['r', 't'][1] != seq!['r', 'o'][1]);
    let (asn2, loc4) = ((ec >> 32) as u16, ec as u32);
    let (asn4, loc2) = ((ec >> 16) as u32, ec as u16);
    if keyed && typ == TYPE_TWO_OCTET_AS {
        let rest = text::decimal(asn2 as nat) + seq![':'] + text::decimal(loc4 as nat);
        text::lemma_split_once_after(kw, ':', rest);
        text::lemma_decimal_lacks(asn2 as nat, ':');
        text::lemma_split_once_after(text::decimal(asn2 as nat), ':', text::decimal(loc4 as nat));
        text::law_decimal_round_trip(asn2 as nat, 65535);
        text::law_decimal_round_trip(loc4 as nat, u32::MAX as nat);
        assert((((ec >> 48) as u8) as u64) << 48 | (((ec >> 32) as u16) as u64) << 32 | ((
        ec as u32) as u64) == ec) by (bit_vector)
            requires
                (ec >> 56) as u8 == 0,
        ;
    } else if keyed && typ == TYPE_FOUR_OCTET_AS && asn4 > 65535 {
        let rest = text::decimal(asn4 as nat) + seq![':'] + text::decimal(loc2 as nat);
        text::lemma_split_once_after(kw, ':', rest);
        text::lemma_decimal_lacks(asn4 as nat, ':');
        text::lemma_split_once_after(text::decimal(asn4 as nat), ':', text::decimal(loc2 as nat));
        text::lemma_decimal(asn4 as nat);
        text::law_decimal_round_trip(asn4 as nat, u32::MAX as nat);
        text::law_decimal_round_trip(loc2 as nat, 65535);
        assert(2u64 << 56 | (((ec >> 48) as u8) as u64) << 48 | (((ec >> 16) as u32) as u64) << 16
            | ((ec as u16) as u64) == ec) by (bit_vector)
            requires
                (ec >> 56) as u8 == 2,
        ;
    } else if keyed && typ == TYPE_IPV4_ADDRESS {
        let ip = ipv4_of(asn4);
        let rest = ip.text() + seq![':'] + text::decimal(loc2 as nat);
        text::lemma_split_once_after(kw, ':', rest);
        lemma_dotted_lacks_colon(ip);
        text::lemma_split_once_after(ip.text(), ':', text::decimal(loc2 as nat));
        lemma_dotted_is_no_number(ip, 65535);
        lemma_dotted_is_no_number(ip, u32::MAX as nat);
        addr_text::law_ipv4_round_trip(ip);
        text::law_decimal_round_trip(loc2 as nat, 65535);
        assert((((asn4 >> 24) as u8) as u32) << 24 | (((asn4 >> 16) as u8) as u32) << 16 | (((asn4
            >> 8) as u8) as u32) << 8 | ((asn4 as u8) as u32) == asn4) by (bit_vector);
        assert(1u64 << 56 | (((ec >> 48) as u8) as u64) << 48 | (((ec >> 16) as u32) as u64) << 16
            | ((ec as u16) as u64) == ec) by (bit_vector)
            requires
                (ec >> 56) as u8 == 1,
        ;
    } else {
        let digits = addr_text::hex(ec as nat);
        addr_text::lemma_hex(ec as nat);
        assert(pow16(16) == 0x1_0000_0000_0000_0000) by {
            reveal_with_fuel(pow16, 17);
        }
        lemma_hex_len(ec as nat, 16);
        assert(s.skip(2) =~= digits);
        assert forall|i: int| 0 <= i < s.len() implies s[i] != ':' by {
            if i >= 2 {
                assert(s[i] == digits[i - 2]);
                assert(addr_text::is_hex_digit(digits[i - 2]));
            }
        }
        s.index_of_first_ensures(':');
    }
}

} // verus!
