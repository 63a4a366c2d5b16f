//! The text notations of addresses and networks.

use crate::net::addr;
use crate::net::addr::{IpAddr, Ipv4Addr, Ipv6Addr};
use crate::net::network::{IpNetwork, Ipv4Net, Ipv6Net};
use crate::text;
use crate::text::{
    chars_of, parse_decimal, push_char, render_decimal, split_once, split_pair, text_eq,
};
use vstd::prelude::*;

verus! {

// ---------------------------------------------------------------------------
// IPv4
// ---------------------------------------------------------------------------

/// Four numbers of at most 255 between three dots.
pub open spec fn read_quad(s: Seq<char>) -> Option<Ipv4Addr> {
    match text::split_once_at(s, '.') {
        None => None,
        Some((p0, r0)) => match text::split_once_at(r0, '.') {
            None => None,
            Some((p1, r1)) => match text::split_once_at(r1, '.') {
                None => None,
                Some((p2, p3)) => match (
                    text::read_decimal(p0, 255),
                    text::read_decimal(p1, 255),
                    text::read_decimal(p2, 255),
                    text::read_decimal(p3, 255),
                ) {
                    (Some(a), Some(b), Some(c), Some(d)) => Some(
                        Ipv4Addr { a: a as u8, b: b as u8, c: c as u8, d: d as u8 },
                    ),
                    _ => None,
                },
            },
        },
    }
}

/// The IPv4 address that a text denotes: the one whose dotted notation it is.
pub open spec fn read_ipv4(s: Seq<char>) -> Option<Ipv4Addr> {
    match read_quad(s) {
        Some(x) => if x.text() == s {
            Some(x)
        } else {
            None
        },
        None => None,
    }
}

impl Ipv4Addr {
    /// Dotted decimal notation.
    pub open spec fn text(self) -> Seq<char> {
        text::decimal(self.a as nat) + seq!['.'] + (text::decimal(self.b as nat) + seq!['.'] + (
        text::decimal(self.c as nat) + seq!['.'] + text::decimal(self.d as nat)))
    }

    pub fn to_text(&self) -> (r: String)
        ensures
            r@ == self.text(),
    {
        let mut s = render_decimal(self.a as u64);
        push_char(&mut s, '.');
        s.append(render_decimal(self.b as u64).as_str());
        push_char(&mut s, '.');
        s.append(render_decimal(self.c as u64).as_str());
        push_char(&mut s, '.');
        s.append(render_decimal(self.d as u64).as_str());
        assert(s@ =~= self.text());
        s
    }

    /// The address whose dotted notation is `s`, if there is one.
    pub fn parse(s: &str) -> (r: Option<Self>)
        ensures
            r == read_ipv4(s@),
            r matches Some(x) ==> x.text() == s@,
            r is None ==> forall|x: Ipv4Addr| #[trigger] x.text() != s@,
    {
        proof {
            assert forall|x: Ipv4Addr| #[trigger] x.text() == s@ implies read_ipv4(s@) == Some(
                x,
            ) by {
                law_ipv4_round_trip(x);
            }
        }
        let (p0, r0) = match split_once(s, '.') {
            Some(p) => p,
            None => {
                return None;
            },
        };
        let (p1, r1) = match split_once(r0, '.') {
            Some(p) => p,
            None => {
                return None;
            },
        };
        let (p2, p3) = match split_once(r1, '.') {
            Some(p) => p,
            None => {
                return None;
            },
        };
        match (
            parse_decimal(p0, 255),
            parse_decimal(p1, 255),
            parse_decimal(p2, 255),
            parse_decimal(p3, 255),
        ) {
            (Some(a), Some(b), Some(c), Some(d)) => {
                let x = Ipv4Addr { a: a as u8, b: b as u8, c: c as u8, d: d as u8 };
                let canonical = x.to_text();
                if text_eq(canonical.as_str(), s) {
                    Some(x)
                } else {
                    None
                }
            },
            _ => None,
        }
    }
}

/// The dotted notation of an IPv4 address is read as that address.
pub proof fn law_ipv4_round_trip(x: Ipv4Addr)
    ensures
        read_ipv4(x.text()) == Some(x),
{
    let (a, b, c, d) = (x.a as nat, x.b as nat, x.c as nat, x.d as nat);
    let r1 = text::decimal(c) + seq!['.'] + text::decimal(d);
    let r0 = text::decimal(b) + seq!['.'] + r1;
    text::lemma_decimal_lacks(a, '.');
    text::lemma_decimal_lacks(b, '.');
    text::lemma_decimal_lacks(c, '.');
    text::lemma_split_once_after(text::decimal(a), '.', r0);
    text::lemma_split_once_after(text::decimal(b), '.', r1);
    text::lemma_split_once_after(text::decimal(c), '.', text::decimal(d));
    text::law_decimal_round_trip(a, 255);
    text::law_decimal_round_trip(b, 255);
    text::law_decimal_round_trip(c, 255);
    text::law_decimal_round_trip(d, 255);
}

// ---------------------------------------------------------------------------
// Hexadecimal groups
// ---------------------------------------------------------------------------

/// `c` is a hexadecimal digit, in either case.
pub open spec fn is_hex_digit(c: char) -> bool {
    48 <= c as u32 <= 57 || 65 <= c as u32 <= 70 || 97 <= c as u32 <= 102
}

/// The number that a hexadecimal digit stands for.
pub open spec fn hex_digit(c: char) -> nat {
    if c as u32 <= 57 {
        (c as u32 - 48) as nat
    } else if c as u32 <= 70 {
        (c as u32 - 55) as nat
    } else {
        (c as u32 - 87) as nat
    }
}

/// The lower-case hexadecimal digit that stands for `d`.
pub open spec fn hex_char(d: nat) -> char {
    if d < 10 {
        (48 + d) as char
    } else {
        (87 + d) as char
    }
}

/// Every character is a hexadecimal digit.
pub open spec fn all_hex(s: Seq<char>) -> bool {
    forall|i: int| 0 <= i < s.len() ==> is_hex_digit(#[trigger] s[i])
}

/// The number that a sequence of hexadecimal digits stands for.
pub open spec fn hex_value(s: Seq<char>) -> nat
    decreases s.len(),
{
    if s.len() == 0 {
        0
    } else {
        hex_value(s.drop_last()) * 16 + hex_digit(s.last())
    }
}

/// The lower-case hexadecimal notation of `n`, without leading zeros.
pub open spec fn hex(n: nat) -> Seq<char>
    decreases n,
{
    if n < 16 {
        seq![hex_char(n)]
    } else {
        hex(n / 16).push(hex_char(n % 16))
    }
}

/// One group: one to four hexadecimal digits.
pub open spec fn read_group(s: Seq<char>) -> Option<u16> {
    if 1 <= s.len() <= 4 && all_hex(s) {
        Some(hex_value(s) as u16)
    } else {
        None
    }
}

/// The hexadecimal notation of a number consists of hexadecimal digits and
/// stands for that number.
pub proof fn lemma_hex(n: nat)
    ensures
        hex(n).len() > 0,
        all_hex(hex(n)),
        hex_value(hex(n)) == n,
        n < 16 ==> hex(n).len() == 1,
        n < 256 ==> hex(n).len() <= 2,
        n < 4096 ==> hex(n).len() <= 3,
        n < 65536 ==> hex(n).len() <= 4,
    decreases n,
{
    if n < 16 {
        let s = seq![hex_char(n)];
        assert(s.drop_last() =~= Seq::<char>::empty());
        assert(hex_value(s.drop_last()) == 0);
        assert(s.last() == hex_char(n));
    } else {
        lemma_hex(n / 16);
        let p = hex(n / 16);
        let s = p.push(hex_char(n % 16));
        assert(s.drop_last() =~= p);
    }
}

proof fn lemma_hex_value_bound(s: Seq<char>)
    requires
        s.len() <= 4,
        all_hex(s),
    ensures
        hex_value(s) < 65536,
        s.len() <= 3 ==> hex_value(s) < 4096,
        s.len() <= 2 ==> hex_value(s) < 256,
        s.len() <= 1 ==> hex_value(s) < 16,
        s.len() == 0 ==> hex_value(s) == 0,
    decreases s.len(),
{
    if s.len() > 0 {
        assert(is_hex_digit(s[s.len() - 1]));
        assert forall|i: int| 0 <= i < s.drop_last().len() implies is_hex_digit(
            #[trigger] s.drop_last()[i],
        ) by {
            assert(is_hex_digit(s[i]));
        }
        lemma_hex_value_bound(s.drop_last());
    }
}

/// The lower-case hexadecimal notation of `n`.
pub fn render_hex(n: u64) -> (r: String)
    ensures
        r@ == hex(n as nat),
    decreases n,
{
    let d: u8 = (n % 16) as u8;
    let c: char = if d < 10 {
        (48u8 + d) as char
    } else {
        (87u8 + d) as char
    };
    if n < 16 {
        let mut s = String::new();
        push_char(&mut s, c);
        assert(s@ =~= seq![hex_char(n as nat)]);
        s
    } else {
        let mut s = render_hex(n / 16);
        push_char(&mut s, c);
        s
    }
}

/// Reads one group.
pub fn parse_group(s: &str) -> (r: Option<u16>)
    ensures
        r == read_group(s@),
{
    let chars = chars_of(s);
    let n: usize = chars.len();
    if n == 0 || n > 4 {
        return None;
    }
    let mut acc: u32 = 0;
    let mut i: usize = 0;
    while i < n
        invariant
            i <= n <= 4,
            n == chars@.len(),
            chars@ == s@,
            acc == hex_value(s@.take(i as int)),
            all_hex(s@.take(i as int)),
        decreases n - i,
    {
        let code: u32 = chars[i] as u32;
        let d: u32 = if code >= 48 && code <= 57 {
            code - 48
        } else if code >= 65 && code <= 70 {
            code - 55
        } else if code >= 97 && code <= 102 {
            code - 87
        } else {
            assert(!is_hex_digit(s@[i as int]));
            return None;
        };
        proof {
            lemma_hex_value_bound(s@.take(i as int));
            assert(s@.take(i + 1).drop_last() =~= s@.take(i as int));
            assert(s@.take(i + 1).last() == s@[i as int]);
            assert forall|j: int| 0 <= j < i + 1 implies is_hex_digit(
                #[trigger] s@.take(i + 1)[j],
            ) by {
                if j < i {
                    assert(s@.take(i + 1)[j] == s@.take(i as int)[j]);
                }
            }
        }
        acc = acc * 16 + d;
        i = i + 1;
    }
    proof {
        assert(s@.take(n as int) =~= s@);
        lemma_hex_value_bound(s@);
    }
    Some(acc as u16)
}

// ---------------------------------------------------------------------------
// IPv6
// ---------------------------------------------------------------------------

/// The upper and the lower half of an IPv4 address.
pub open spec fn v4_groups(x: Ipv4Addr) -> Seq<u16> {
    seq![(x.a * 256 + x.b) as u16, (x.c * 256 + x.d) as u16]
}

/// Groups between colons; where `v4` allows it, the last one may be an IPv4
/// address, which stands for two groups.
pub open spec fn read_groups(s: Seq<char>, v4: bool) -> Option<Seq<u16>>
    decreases s.len(),
{
    match text::split_once_at(s, ':') {
        Some((p, rest)) => {
            proof {
                s.index_of_first_ensures(':');
            }
            prepend(read_group(p), read_groups(rest, v4))
        },
        None => match read_ipv4(s) {
            Some(x) => if v4 {
                Some(v4_groups(x))
            } else {
                None
            },
            None => match read_group(s) {
                Some(g) => Some(seq![g]),
                None => None,
            },
        },
    }
}

/// A first group before a list of groups.
pub open spec fn prepend(g: Option<u16>, l: Option<Seq<u16>>) -> Option<Seq<u16>> {
    match (g, l) {
        (Some(x), Some(y)) => Some(seq![x] + y),
        _ => None,
    }
}

/// A list of groups that may be empty.
pub open spec fn read_group_list(s: Seq<char>, v4: bool) -> Option<Seq<u16>> {
    if s.len() == 0 {
        Some(Seq::empty())
    } else {
        read_groups(s, v4)
    }
}

/// `n` groups of zeros.
pub open spec fn zero_groups(n: nat) -> Seq<u16> {
    Seq::new(n, |i: int| 0u16)
}

/// The eight groups that a text denotes: all of them, or those before and after
/// a `::` that stands for at least one group of zeros.
pub open spec fn read_ipv6_groups(s: Seq<char>) -> Option<Seq<u16>> {
    match text::split_pair_from(s, ':', 0) {
        None => match read_groups(s, true) {
            Some(l) => if l.len() == 8 {
                Some(l)
            } else {
                None
            },
            None => None,
        },
        Some((h, t)) => match (read_group_list(h, false), read_group_list(t, true)) {
            (Some(hl), Some(tl)) => if hl.len() + tl.len() <= 7 {
                Some(hl + zero_groups((8 - hl.len() - tl.len()) as nat) + tl)
            } else {
                None
            },
            _ => None,
        },
    }
}

/// The IPv6 address that a text denotes.
pub open spec fn read_ipv6(s: Seq<char>) -> Option<Ipv6Addr> {
    match read_ipv6_groups(s) {
        Some(g) => Some(Ipv6Addr { bits: addr::u128_of_groups(g) }),
        None => None,
    }
}

/// The view of an optional list of groups.
pub open spec fn groups_view(r: Option<Vec<u16>>) -> Option<Seq<u16>> {
    match r {
        Some(v) => Some(v@),
        None => None,
    }
}

/// Reads groups between colons.
fn parse_groups(s: &str, v4: bool) -> (r: Option<Vec<u16>>)
    ensures
        groups_view(r) == read_groups(s@, v4),
{
    let mut out: Vec<u16> = Vec::new();
    let mut rest: &str = s;
    loop
        invariant
            read_groups(s@, v4) == (match read_groups(rest@, v4) {
                Some(l) => Some(out@ + l),
                None => None,
            }),
        decreases rest@.len(),
    {
        match split_once(rest, ':') {
            Some((p, q)) => {
                proof {
                    rest@.index_of_first_ensures(':');
                }
                match parse_group(p) {
                    Some(g) => {
                        let ghost before = out@;
                        out.push(g);
                        proof {
                            match read_groups(q@, v4) {
                                Some(l) => {
                                    assert(before + (seq![g] + l) =~= out@ + l);
                                },
                                None => {},
                            }
                        }
                        rest = q;
                    },
                    None => {
                        return None;
                    },
                }
            },
            None => {
                match Ipv4Addr::parse(rest) {
                    Some(x) => {
                        if !v4 {
                            return None;
                        }
                        let hi: u16 = x.a as u16 * 256 + x.b as u16;
                        let lo: u16 = x.c as u16 * 256 + x.d as u16;
                        let ghost before = out@;
                        out.push(hi);
                        out.push(lo);
                        assert(before + v4_groups(x) =~= out@);
                        return Some(out);
                    },
                    None => {
                        match parse_group(rest) {
                            Some(g) => {
                                let ghost before = out@;
                                out.push(g);
                                assert(before + seq![g] =~= out@);
                                return Some(out);
                            },
                            None => {
                                return None;
                            },
                        }
                    },
                }
            },
        }
    }
}

/// Reads a list of groups that may be empty.
fn parse_group_list(s: &str, v4: bool) -> (r: Option<Vec<u16>>)
    ensures
        groups_view(r) == read_group_list(s@, v4),
{
    if s.is_empty() {
        let r: Vec<u16> = Vec::new();
        Some(r)
    } else {
        parse_groups(s, v4)
    }
}

/// The groups in hexadecimal with colons between them.
pub open spec fn joined_groups(g: Seq<u16>) -> Seq<char>
    decreases g.len(),
{
    if g.len() == 0 {
        Seq::empty()
    } else if g.len() == 1 {
        hex(g[0] as nat)
    } else {
        hex(g[0] as nat) + seq![':'] + joined_groups(g.skip(1))
    }
}

/// How many groups from `i` on are zero without a break.
pub open spec fn zero_run(g: Seq<u16>, i: int) -> nat
    decreases g.len() - i,
{
    if i < 0 || i >= g.len() || g[i] != 0 {
        0
    } else {
        1 + zero_run(g, i + 1)
    }
}

/// Where the longest run of zeros at or after `i` begins; of equally long ones
/// the first.
pub open spec fn longest_run(g: Seq<u16>, i: int) -> int
    decreases g.len() - i,
{
    if i < 0 || i >= g.len() {
        g.len() as int
    } else {
        let later = longest_run(g, i + 1);
        if zero_run(g, i) >= zero_run(g, later) {
            i
        } else {
            later
        }
    }
}

/// The address carries an IPv4 address in its last two groups.
pub open spec fn is_v4_mapped(g: Seq<u16>) -> bool {
    g[0] == 0 && g[1] == 0 && g[2] == 0 && g[3] == 0 && g[4] == 0 && g[5] == 0xffff
}

/// The IPv4 address in the last two groups.
pub open spec fn mapped_v4(g: Seq<u16>) -> Ipv4Addr {
    Ipv4Addr {
        a: (g[6] / 256) as u8,
        b: (g[6] % 256) as u8,
        c: (g[7] / 256) as u8,
        d: (g[7] % 256) as u8,
    }
}

/// The notation of eight groups: `::` stands for the first of the longest runs
/// of at least two zeros, and a mapped IPv4 address is written in its own
/// notation.
pub open spec fn ipv6_text(g: Seq<u16>) -> Seq<char> {
    let start = longest_run(g, 0);
    let n = zero_run(g, start);
    if is_v4_mapped(g) {
        seq![':', ':'] + (hex(0xffff) + seq![':'] + mapped_v4(g).text())
    } else if n > 1 {
        joined_groups(g.take(start)) + seq![':', ':'] + joined_groups(g.skip(start + n))
    } else {
        joined_groups(g)
    }
}

/// Writes the groups from `from` up to `to` with colons between them.
fn render_groups(g: &Vec<u16>, from: usize, to: usize) -> (r: String)
    requires
        from <= to <= g@.len(),
    ensures
        r@ == joined_groups(g@.subrange(from as int, to as int)),
    decreases to - from,
{
    let ghost s = g@.subrange(from as int, to as int);
    if from == to {
        return String::new();
    }
    let first = render_hex(g[from] as u64);
    assert(s[0] == g@[from as int]);
    if to - from == 1 {
        return first;
    }
    let mut r = first;
    push_char(&mut r, ':');
    let tail = render_groups(g, from + 1, to);
    r.append(tail.as_str());
    assert(s.skip(1) =~= g@.subrange(from + 1, to as int));
    assert(r@ =~= joined_groups(s));
    r
}

/// How many groups from `i` on are zero without a break.
fn count_zeros(g: &Vec<u16>, i: usize) -> (r: usize)
    requires
        i <= g@.len(),
    ensures
        r == zero_run(g@, i as int),
        i + r <= g@.len(),
    decreases g@.len() - i,
{
    if i == g.len() || g[i] != 0 {
        0
    } else {
        1 + count_zeros(g, i + 1)
    }
}

/// Where the first of the longest runs of zeros at or after `i` begins.
fn find_run(g: &Vec<u16>, i: usize) -> (r: usize)
    requires
        i <= g@.len(),
    ensures
        r == longest_run(g@, i as int),
        r <= g@.len(),
    decreases g@.len() - i,
{
    if i == g.len() {
        i
    } else {
        let later = find_run(g, i + 1);
        if count_zeros(g, i) >= count_zeros(g, later) {
            i
        } else {
            later
        }
    }
}

impl Ipv6Addr {
    pub open spec fn text(self) -> Seq<char> {
        ipv6_text(self.groups())
    }

    pub fn to_text(&self) -> (r: String)
        ensures
            r@ == self.text(),
    {
        let g = self.segments();
        let start: usize = find_run(&g, 0);
        let n: usize = count_zeros(&g, start);
        if g[0] == 0 && g[1] == 0 && g[2] == 0 && g[3] == 0 && g[4] == 0 && g[5] == 0xffff {
            let x = Ipv4Addr {
                a: (g[6] / 256) as u8,
                b: (g[6] % 256) as u8,
                c: (g[7] / 256) as u8,
                d: (g[7] % 256) as u8,
            };
            let mut r = String::new();
            push_char(&mut r, ':');
            push_char(&mut r, ':');
            r.append(render_hex(0xffff).as_str());
            push_char(&mut r, ':');
            r.append(x.to_text().as_str());
            assert(r@ =~= self.text());
            r
        } else if n > 1 {
            let mut r = render_groups(&g, 0, start);
            push_char(&mut r, ':');
            push_char(&mut r, ':');
            r.append(render_groups(&g, start + n, g.len()).as_str());
            assert(g@.subrange(0, start as int) =~= g@.take(start as int));
            assert(g@.subrange(start + n, g@.len() as int) =~= g@.skip(start + n));
            assert(r@ =~= self.text());
            r
        } else {
            let r = render_groups(&g, 0, g.len());
            assert(g@.subrange(0, g@.len() as int) =~= g@);
            r
        }
    }

    /// The address that `s` denotes, if it denotes one.
    pub fn parse(s: &str) -> (r: Option<Self>)
        ensures
            r == read_ipv6(s@),
    {
        match split_pair(s, ':') {
            None => match parse_groups(s, true) {
                Some(g) => if g.len() == 8 {
                    Some(Ipv6Addr::from_groups(&g))
                } else {
                    None
                },
                None => None,
            },
            Some((h, t)) => match (parse_group_list(h, false), parse_group_list(t, true)) {
                (Some(hl), Some(tl)) => {
                    if hl.len() > 7 || tl.len() > 7 - hl.len() {
                        return None;
                    }
                    let mut g = hl;
                    let mut tl = tl;
                    let ghost head = g@;
                    let ghost tail = tl@;
                    let zeros: usize = 8 - g.len() - tl.len();
                    let mut i: usize = 0;
                    while i < zeros
                        invariant
                            i <= zeros,
                            g@ == head + zero_groups(i as nat),
                        decreases zeros - i,
                    {
                        g.push(0);
                        assert(g@ =~= head + zero_groups((i + 1) as nat));
                        i = i + 1;
                    }
                    assert(head + zero_groups(0) =~= head);
                    g.append(&mut tl);
                    assert(g@ =~= head + zero_groups(zeros as nat) + tail);
                    Some(Ipv6Addr::from_groups(&g))
                },
                _ => None,
            },
        }
    }
}

// ---------------------------------------------------------------------------
// Either family
// ---------------------------------------------------------------------------

/// The address of either family that a text denotes.
pub open spec fn read_ip(s: Seq<char>) -> Option<IpAddr> {
    match read_ipv4(s) {
        Some(x) => Some(IpAddr::V4(x)),
        None => match read_ipv6(s) {
            Some(x) => Some(IpAddr::V6(x)),
            None => None,
        },
    }
}

/// The network that a text denotes: an address, a slash and the length of the
/// prefix, which is at most the number of bits of an address.
pub open spec fn read_network(s: Seq<char>) -> Option<IpNetwork> {
    match text::split_once_at(s, '/') {
        None => None,
        Some((addr, len)) => match read_ip(addr) {
            None => None,
            Some(IpAddr::V4(address)) => match text::read_decimal(len, 32) {
                Some(n) => Some(IpNetwork::V4(Ipv4Net { address, prefix_length: n as u8 })),
                None => None,
            },
            Some(IpAddr::V6(address)) => match text::read_decimal(len, 128) {
                Some(n) => Some(IpNetwork::V6(Ipv6Net { address, prefix_length: n as u8 })),
                None => None,
            },
        },
    }
}

impl IpAddr {
    pub open spec fn text(self) -> Seq<char> {
        match self {
            IpAddr::V4(x) => x.text(),
            IpAddr::V6(x) => x.text(),
        }
    }

    pub fn to_text(&self) -> (r: String)
        ensures
            r@ == self.text(),
    {
        match self {
            IpAddr::V4(x) => x.to_text(),
            IpAddr::V6(x) => x.to_text(),
        }
    }

    pub fn parse(s: &str) -> (r: Option<Self>)
        ensures
            r == read_ip(s@),
    {
        match Ipv4Addr::parse(s) {
            Some(x) => Some(IpAddr::V4(x)),
            None => match Ipv6Addr::parse(s) {
                Some(x) => Some(IpAddr::V6(x)),
                None => None,
            },
        }
    }
}

impl IpNetwork {
    /// The address, a slash and the length of the prefix.
    pub open spec fn text(self) -> Seq<char> {
        match self {
            IpNetwork::V4(n) => n.address.text() + seq!['/'] + text::decimal(n.prefix_length as nat),
            IpNetwork::V6(n) => n.address.text() + seq!['/'] + text::decimal(n.prefix_length as nat),
        }
    }

    pub fn to_text(&self) -> (r: String)
        ensures
            r@ == self.text(),
    {
        let mut r = match self {
            IpNetwork::V4(n) => n.address.to_text(),
            IpNetwork::V6(n) => n.address.to_text(),
        };
        push_char(&mut r, '/');
        r.append(render_decimal(self.prefix_len() as u64).as_str());
        assert(r@ =~= self.text());
        r
    }

    pub fn parse(s: &str) -> (r: Option<Self>)
        ensures
            r == read_network(s@),
    {
        match split_once(s, '/') {
            None => None,
            Some((addr, len)) => match IpAddr::parse(addr) {
                None => None,
                Some(IpAddr::V4(address)) => match parse_decimal(len, 32) {
                    Some(n) => Some(IpNetwork::V4(Ipv4Net { address, prefix_length: n as u8 })),
                    None => None,
                },
                Some(IpAddr::V6(address)) => match parse_decimal(len, 128) {
                    Some(n) => Some(IpNetwork::V6(Ipv6Net { address, prefix_length: n as u8 })),
                    None => None,
                },
            },
        }
    }
}

} // verus!
