//! Addresses and networks are read from their notations as they were.

use crate::net::addr;
use crate::net::addr::{IpAddr, Ipv4Addr, Ipv6Addr};
use crate::net::addr_text;
use crate::net::network::IpNetwork;
use crate::text;
use vstd::prelude::*;

verus! {

// ---------------------------------------------------------------------------
// Texts
// ---------------------------------------------------------------------------

/// A text without `c` is not split at `c`.
proof fn lemma_unsplit(s: Seq<char>, c: char)
    requires
        !s.contains(c),
    ensures
        text::split_once_at(s, c) is None,
{
    s.index_of_first_ensures(c);
}

/// Without two `c` in a row, a text is not split at such.
proof fn lemma_no_pair(s: Seq<char>, c: char, from: int)
    requires
        0 <= from,
        forall|i: int| from <= i ==> !#[trigger] text::pair_at(s, c, i),
    ensures
        text::split_pair_from(s, c, from) is None,
    decreases s.len() - from,
{
    if from + 1 < s.len() {
        assert(!text::pair_at(s, c, from));
        lemma_no_pair(s, c, from + 1);
    }
}

/// A text is split at the first two `c` in a row.
proof fn lemma_first_pair(s: Seq<char>, c: char, from: int, k: int)
    requires
        0 <= from <= k,
        text::pair_at(s, c, k),
        forall|i: int| from <= i < k ==> !#[trigger] text::pair_at(s, c, i),
    ensures
        text::split_pair_from(s, c, from) == Some((s.take(k), s.skip(k + 2))),
    decreases k - from,
{
    if from < k {
        assert(!text::pair_at(s, c, from));
        lemma_first_pair(s, c, from + 1, k);
    }
}

/// A text without a dot is no IPv4 address.
proof fn lemma_no_quad(s: Seq<char>)
    requires
        !s.contains('.'),
    ensures
        addr_text::read_ipv4(s) is None,
{
    lemma_unsplit(s, '.');
}

/// The notation of an IPv4 address consists of digits and dots.
proof fn lemma_quad_chars(x: Ipv4Addr)
    ensures
        forall|i: int|
            0 <= i < x.text().len() ==> text::is_dec_digit(#[trigger] x.text()[i]) || x.text()[i]
                == '.',
{
    text::lemma_decimal(x.a as nat);
    text::lemma_decimal(x.b as nat);
    text::lemma_decimal(x.c as nat);
    text::lemma_decimal(x.d as nat);
    let (a, b) = (text::decimal(x.a as nat), text::decimal(x.b as nat));
    let (c, d) = (text::decimal(x.c as nat), text::decimal(x.d as nat));
    let r1 = c + seq!['.'] + d;
    let r0 = b + seq!['.'] + r1;
    assert forall|i: int| 0 <= i < r1.len() implies text::is_dec_digit(#[trigger] r1[i]) || r1[i]
        == '.' by {
        if i < c.len() {
            assert(r1[i] == c[i]);
        } else if i > c.len() {
            assert(r1[i] == d[i - c.len() - 1]);
        }
    }
    assert forall|i: int| 0 <= i < r0.len() implies text::is_dec_digit(#[trigger] r0[i]) || r0[i]
        == '.' by {
        if i < b.len() {
            assert(r0[i] == b[i]);
        } else if i > b.len() {
            assert(r0[i] == r1[i - b.len() - 1]);
        }
    }
    let s = a + seq!['.'] + r0;
    assert(s == x.text());
    assert forall|i: int| 0 <= i < s.len() implies text::is_dec_digit(#[trigger] s[i]) || s[i]
        == '.' by {
        if i < a.len() {
            assert(s[i] == a[i]);
        } else if i > a.len() {
            assert(s[i] == r0[i - a.len() - 1]);
        }
    }
}

// ---------------------------------------------------------------------------
// Groups
// ---------------------------------------------------------------------------

/// A list of groups with colons between them: it begins and ends with a digit,
/// holds nothing but digits and single colons, and holds a colon where there are
/// two groups or more.
proof fn lemma_joined_shape(g: Seq<u16>)
    requires
        g.len() > 0,
    ensures
        addr_text::joined_groups(g).len() > 0,
        addr_text::is_hex_digit(addr_text::joined_groups(g)[0]),
        addr_text::is_hex_digit(addr_text::joined_groups(g).last()),
        forall|i: int|
            0 <= i < addr_text::joined_groups(g).len() ==> addr_text::is_hex_digit(
                #[trigger] addr_text::joined_groups(g)[i],
            ) || addr_text::joined_groups(g)[i] == ':',
        forall|i: int| !#[trigger] text::pair_at(addr_text::joined_groups(g), ':', i),
        g.len() > 1 ==> addr_text::joined_groups(g).contains(':'),
    decreases g.len(),
{
    let h = addr_text::hex(g[0] as nat);
    let s = addr_text::joined_groups(g);
    addr_text::lemma_hex(g[0] as nat);
    assert(addr_text::is_hex_digit(h[0]));
    assert(addr_text::is_hex_digit(h[h.len() - 1]));
    if g.len() == 1 {
        assert forall|i: int| !#[trigger] text::pair_at(s, ':', i) by {
            if 0 <= i && i + 1 < s.len() {
                assert(addr_text::is_hex_digit(s[i]));
            }
        }
    } else {
        let r = addr_text::joined_groups(g.skip(1));
        lemma_joined_shape(g.skip(1));
        let n = h.len() as int;
        assert(s == h + seq![':'] + r);
        assert(s[n] == ':');
        assert(s[0] == h[0]);
        assert(s.last() == r.last());
        assert forall|i: int| 0 <= i < s.len() implies addr_text::is_hex_digit(#[trigger] s[i])
            || s[i] == ':' by {
            if i < n {
                assert(s[i] == h[i]);
            } else if i > n {
                assert(s[i] == r[i - n - 1]);
            }
        }
        assert forall|i: int| !#[trigger] text::pair_at(s, ':', i) by {
            if 0 <= i && i + 1 < s.len() {
                if i < n {
                    assert(s[i] == h[i]);
                } else if i == n {
                    assert(s[i + 1] == r[0]);
                } else {
                    assert(s[i] == r[i - n - 1]);
                    assert(s[i + 1] == r[i - n]);
                    assert(!text::pair_at(r, ':', i - n - 1));
                }
            }
        }
    }
}

/// A list of groups is read from its notation as it was.
proof fn lemma_read_joined(g: Seq<u16>, v4: bool)
    requires
        g.len() > 0,
    ensures
        addr_text::read_groups(addr_text::joined_groups(g), v4) == Some(g),
    decreases g.len(),
{
    let h = addr_text::hex(g[0] as nat);
    addr_text::lemma_hex(g[0] as nat);
    assert(!h.contains(':')) by {
        if h.contains(':') {
            let i = choose|i: int| 0 <= i < h.len() && h[i] == ':';
            assert(addr_text::is_hex_digit(h[i]));
        }
    }
    assert(addr_text::read_group(h) == Some(g[0]));
    if g.len() == 1 {
        assert(!h.contains('.')) by {
            if h.contains('.') {
                let i = choose|i: int| 0 <= i < h.len() && h[i] == '.';
                assert(addr_text::is_hex_digit(h[i]));
            }
        }
        lemma_unsplit(h, ':');
        lemma_no_quad(h);
        assert(g =~= seq![g[0]]);
    } else {
        let r = addr_text::joined_groups(g.skip(1));
        text::lemma_split_once_after(h, ':', r);
        lemma_read_joined(g.skip(1), v4);
        assert(seq![g[0]] + g.skip(1) =~= g);
    }
}

proof fn lemma_zero_run(g: Seq<u16>, i: int)
    requires
        0 <= i <= g.len(),
    ensures
        i + addr_text::zero_run(g, i) <= g.len(),
        forall|j: int| i <= j < i + addr_text::zero_run(g, i) ==> #[trigger] g[j] == 0,
    decreases g.len() - i,
{
    if i < g.len() && g[i] == 0 {
        lemma_zero_run(g, i + 1);
    }
}

proof fn lemma_longest_run(g: Seq<u16>, i: int)
    requires
        0 <= i <= g.len(),
    ensures
        i <= addr_text::longest_run(g, i) <= g.len(),
    decreases g.len() - i,
{
    if i < g.len() {
        lemma_longest_run(g, i + 1);
    }
}

// ---------------------------------------------------------------------------
// IPv6
// ---------------------------------------------------------------------------

/// The notation with a mapped IPv4 address.
proof fn lemma_mapped(g: Seq<u16>)
    requires
        g.len() == 8,
        addr_text::is_v4_mapped(g),
    ensures
        addr_text::read_ipv6_groups(addr_text::ipv6_text(g)) == Some(g),
{
    let x = addr_text::mapped_v4(g);
    let h = addr_text::hex(0xffff);
    let q = x.text();
    let t = h + seq![':'] + q;
    let s = addr_text::ipv6_text(g);
    assert(s == seq![':', ':'] + t);
    assert(text::pair_at(s, ':', 0));
    lemma_first_pair(s, ':', 0, 0);
    assert(s.take(0) =~= Seq::empty());
    assert(s.skip(2) =~= t);
    addr_text::lemma_hex(0xffff);
    assert(!h.contains(':')) by {
        if h.contains(':') {
            let i = choose|i: int| 0 <= i < h.len() && h[i] == ':';
            assert(addr_text::is_hex_digit(h[i]));
        }
    }
    text::lemma_split_once_after(h, ':', q);
    lemma_quad_chars(x);
    assert(!q.contains(':'));
    lemma_unsplit(q, ':');
    addr_text::law_ipv4_round_trip(x);
    assert(addr_text::v4_groups(x) =~= seq![g[6], g[7]]);
    assert(addr_text::read_groups(q, true) == Some(addr_text::v4_groups(x)));
    assert(addr_text::read_group(h) == Some(0xffffu16));
    assert(addr_text::read_groups(t, true) == Some(
        seq![0xffffu16] + addr_text::v4_groups(x),
    ));
    let tl = seq![0xffffu16] + addr_text::v4_groups(x);
    assert(Seq::<u16>::empty() + addr_text::zero_groups(5) + tl =~= g);
}

/// The notation with a run of zeros left out.
proof fn lemma_shortened(g: Seq<u16>)
    requires
        g.len() == 8,
        !addr_text::is_v4_mapped(g),
        addr_text::zero_run(g, addr_text::longest_run(g, 0)) > 1,
    ensures
        addr_text::read_ipv6_groups(addr_text::ipv6_text(g)) == Some(g),
{
    let start = addr_text::longest_run(g, 0);
    let n = addr_text::zero_run(g, start);
    lemma_longest_run(g, 0);
    lemma_zero_run(g, start);
    let head = g.take(start);
    let tail = g.skip(start + n);
    let a = addr_text::joined_groups(head);
    let b = addr_text::joined_groups(tail);
    let s = addr_text::ipv6_text(g);
    assert(s == a + seq![':', ':'] + b);
    let k = a.len() as int;
    assert(text::pair_at(s, ':', k));
    if head.len() > 0 {
        lemma_joined_shape(head);
        lemma_read_joined(head, false);
    } else {
        assert(head =~= Seq::empty());
    }
    if tail.len() > 0 {
        lemma_joined_shape(tail);
        lemma_read_joined(tail, true);
    } else {
        assert(tail =~= Seq::empty());
    }
    assert forall|i: int| 0 <= i < k implies !#[trigger] text::pair_at(s, ':', i) by {
        assert(s[i] == a[i]);
        if i + 1 < k {
            assert(s[i + 1] == a[i + 1]);
            assert(!text::pair_at(a, ':', i));
        } else {
            assert(a[i] == a.last());
        }
    }
    lemma_first_pair(s, ':', 0, k);
    assert(s.take(k) =~= a);
    assert(s.skip(k + 2) =~= b);
    assert(addr_text::read_group_list(a, false) == Some(head));
    assert(addr_text::read_group_list(b, true) == Some(tail));
    assert(head + addr_text::zero_groups((8 - head.len() - tail.len()) as nat) + tail =~= g);
}

/// The notation of an IPv6 address is read as that address.
pub proof fn law_ipv6_round_trip(x: Ipv6Addr)
    ensures
        addr_text::read_ipv6(x.text()) == Some(x),
{
    let g = x.groups();
    let start = addr_text::longest_run(g, 0);
    if addr_text::is_v4_mapped(g) {
        lemma_mapped(g);
    } else if addr_text::zero_run(g, start) > 1 {
        lemma_shortened(g);
    } else {
        lemma_joined_shape(g);
        lemma_no_pair(x.text(), ':', 0);
        lemma_read_joined(g, true);
    }
    addr::lemma_u128_round_trip(x.bits);
}

/// The notation of an IPv6 address holds a colon, and no slash.
proof fn lemma_ipv6_chars(x: Ipv6Addr)
    ensures
        x.text().contains(':'),
        !x.text().contains('/'),
{
    let g = x.groups();
    let s = x.text();
    let start = addr_text::longest_run(g, 0);
    let n = addr_text::zero_run(g, start);
    if addr_text::is_v4_mapped(g) {
        let v4 = addr_text::mapped_v4(g);
        lemma_quad_chars(v4);
        addr_text::lemma_hex(0xffff);
        let h = addr_text::hex(0xffff);
        let t = h + seq![':'] + v4.text();
        assert(s == seq![':', ':'] + t);
        assert(s[0] == ':');
        if s.contains('/') {
            let i = choose|i: int| 0 <= i < s.len() && s[i] == '/';
            assert(i >= 2 && t[i - 2] == '/');
            if i - 2 < h.len() {
                assert(addr_text::is_hex_digit(h[i - 2]));
            } else if i - 2 > h.len() {
                assert(v4.text()[i - 3 - h.len()] == '/');
            }
        }
    } else if n > 1 {
        lemma_longest_run(g, 0);
        lemma_zero_run(g, start);
        let head = g.take(start);
        let tail = g.skip(start + n);
        let a = addr_text::joined_groups(head);
        let b = addr_text::joined_groups(tail);
        assert(s == a + seq![':', ':'] + b);
        assert(s[a.len() as int] == ':');
        if head.len() > 0 {
            lemma_joined_shape(head);
        }
        if tail.len() > 0 {
            lemma_joined_shape(tail);
        }
        if s.contains('/') {
            let i = choose|i: int| 0 <= i < s.len() && s[i] == '/';
            if i < a.len() {
                assert(a[i] == '/');
            } else if i >= a.len() + 2 {
                assert(b[i - a.len() - 2] == '/');
            }
        }
    } else {
        lemma_joined_shape(g);
    }
}

// ---------------------------------------------------------------------------
// Either family
// ---------------------------------------------------------------------------

/// The notation of an address is read as that address.
pub proof fn law_ip_round_trip(x: IpAddr)
    ensures
        addr_text::read_ip(x.text()) == Some(x),
{
    match x {
        IpAddr::V4(a) => {
            addr_text::law_ipv4_round_trip(a);
        },
        IpAddr::V6(a) => {
            law_ipv6_round_trip(a);
            lemma_ipv6_chars(a);
            if let Some(q) = addr_text::read_ipv4(a.text()) {
                lemma_quad_chars(q);
                assert(q.text().contains(':'));
            }
        },
    }
}

/// The notation of a network, whose length is at most that of an address, is read
/// as that network.
pub proof fn law_network_round_trip(n: IpNetwork)
    requires
        match n {
            IpNetwork::V4(x) => x.prefix_length <= 32,
            IpNetwork::V6(x) => x.prefix_length <= 128,
        },
    ensures
        addr_text::read_network(n.text()) == Some(n),
{
    match n {
        IpNetwork::V4(x) => {
            lemma_quad_chars(x.address);
            assert(!x.address.text().contains('/'));
            text::lemma_split_once_after(
                x.address.text(),
                '/',
                text::decimal(x.prefix_length as nat),
            );
            text::law_decimal_round_trip(x.prefix_length as nat, 32);
            law_ip_round_trip(IpAddr::V4(x.address));
        },
        IpNetwork::V6(x) => {
            lemma_ipv6_chars(x.address);
            text::lemma_split_once_after(
                x.address.text(),
                '/',
                text::decimal(x.prefix_length as nat),
            );
            text::law_decimal_round_trip(x.prefix_length as nat, 128);
            law_ip_round_trip(IpAddr::V6(x.address));
        },
    }
}

} // verus!
