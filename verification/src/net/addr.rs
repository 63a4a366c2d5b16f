//! IPv4 and IPv6 addresses as plain values.

use vstd::prelude::*;

verus! {

/// An IPv4 address: four octets, the most significant first.
#[derive(Debug, Clone, Copy, PartialEq, Eq, Hash, Structural)]
pub struct Ipv4Addr {
    pub a: u8,
    pub b: u8,
    pub c: u8,
    pub d: u8,
}

/// An IPv6 address: 128 bits, the first group in the most significant ones.
#[derive(Debug, Clone, Copy, PartialEq, Eq, Hash, Structural)]
pub struct Ipv6Addr {
    pub bits: u128,
}

/// An address of either family.
#[derive(Debug, Clone, Copy, PartialEq, Eq, Hash, Structural)]
pub enum IpAddr {
    V4(Ipv4Addr),
    V6(Ipv6Addr),
}

impl View for IpAddr {
    type V = IpAddr;

    open spec fn view(&self) -> IpAddr {
        *self
    }
}

impl View for Ipv4Addr {
    type V = Ipv4Addr;

    open spec fn view(&self) -> Ipv4Addr {
        *self
    }
}

/// The octets of a 32-bit number, the most significant first.
pub open spec fn octets_of_u32(v: u32) -> Seq<u8> {
    seq![(v >> 24) as u8, (v >> 16) as u8, (v >> 8) as u8, v as u8]
}

/// The 32-bit number made of four octets, the most significant first.
pub open spec fn u32_of_octets(a: u8, b: u8, c: u8, d: u8) -> u32 {
    (a as u32) << 24 | (b as u32) << 16 | (c as u32) << 8 | (d as u32)
}

/// Octet `i` of a 128-bit number, counted from the most significant one.
pub open spec fn octet_of_u128(bits: u128, i: int) -> u8 {
    (bits >> (120 - 8 * i) as u128) as u8
}

/// Group `i` (16 bits) of a 128-bit number, counted from the most significant one.
pub open spec fn group_of_u128(bits: u128, i: int) -> u16 {
    (bits >> (112 - 16 * i) as u128) as u16
}

/// The eight groups of a 128-bit number.
pub open spec fn groups_of_u128(bits: u128) -> Seq<u16> {
    Seq::new(8, |i: int| group_of_u128(bits, i))
}

/// The 128-bit number made of eight groups, the most significant first.
pub open spec fn u128_of_groups(g: Seq<u16>) -> u128 {
    (g[0] as u128) << 112 | (g[1] as u128) << 96 | (g[2] as u128) << 80 | (g[3] as u128) << 64
        | (g[4] as u128) << 48 | (g[5] as u128) << 32 | (g[6] as u128) << 16 | (g[7] as u128)
}

/// The address whose octets are those of `v`.
pub open spec fn ipv4_of_bits(v: u32) -> Ipv4Addr {
    let o = octets_of_u32(v);
    Ipv4Addr { a: o[0], b: o[1], c: o[2], d: o[3] }
}

impl Ipv4Addr {
    /// The address 0.0.0.0.
    pub fn unspecified() -> (r: Self)
        ensures
            r == (Ipv4Addr { a: 0, b: 0, c: 0, d: 0 }),
    {
        Ipv4Addr { a: 0, b: 0, c: 0, d: 0 }
    }

    pub fn new(a: u8, b: u8, c: u8, d: u8) -> (r: Self)
        ensures
            r == (Ipv4Addr { a, b, c, d }),
    {
        Ipv4Addr { a, b, c, d }
    }

    /// The four octets in order.
    pub open spec fn octet_seq(self) -> Seq<u8> {
        seq![self.a, self.b, self.c, self.d]
    }

    /// The address as a 32-bit number.
    pub open spec fn bits(self) -> u32 {
        u32_of_octets(self.a, self.b, self.c, self.d)
    }

    pub fn octets(&self) -> (r: [u8; 4])
        ensures
            r@ == self.octet_seq(),
    {
        let r = [self.a, self.b, self.c, self.d];
        assert(r@ =~= self.octet_seq());
        r
    }

    pub fn to_u32(&self) -> (r: u32)
        ensures
            r == self.bits(),
    {
        (self.a as u32) << 24 | (self.b as u32) << 16 | (self.c as u32) << 8 | (self.d as u32)
    }

    /// The address whose octets are those of `v`.
    pub fn from_u32(v: u32) -> (r: Self)
        ensures
            r == ipv4_of_bits(v),
            r.octet_seq() == octets_of_u32(v),
            r.bits() == v,
    {
        let a: u8 = (v >> 24) as u8;
        let b: u8 = (v >> 16) as u8;
        let c: u8 = (v >> 8) as u8;
        let d: u8 = v as u8;
        proof {
            assert((((v >> 24) as u8) as u32) << 24 | (((v >> 16) as u8) as u32) << 16 | (((v >> 8)
                as u8) as u32) << 8 | ((v as u8) as u32) == v) by (bit_vector);
        }
        let r = Ipv4Addr { a, b, c, d };
        assert(r.octet_seq() =~= octets_of_u32(v));
        r
    }

    pub fn is_unspecified(&self) -> (r: bool)
        ensures
            r == (*self == (Ipv4Addr { a: 0, b: 0, c: 0, d: 0 })),
    {
        self.a == 0 && self.b == 0 && self.c == 0 && self.d == 0
    }
}

impl Ipv6Addr {
    /// The address `::`.
    pub fn unspecified() -> (r: Self)
        ensures
            r == (Ipv6Addr { bits: 0 }),
    {
        Ipv6Addr { bits: 0 }
    }

    /// The address made of eight groups.
    pub fn from_groups(g: &Vec<u16>) -> (r: Self)
        requires
            g@.len() == 8,
        ensures
            r.bits == u128_of_groups(g@),
            r.groups() == g@,
    {
        let (g0, g1, g2, g3) = (g[0], g[1], g[2], g[3]);
        let (g4, g5, g6, g7) = (g[4], g[5], g[6], g[7]);
        let bits: u128 = (g0 as u128) << 112 | (g1 as u128) << 96 | (g2 as u128) << 80 | (
        g3 as u128) << 64 | (g4 as u128) << 48 | (g5 as u128) << 32 | (g6 as u128) << 16 | (
        g7 as u128);
        proof {
            lemma_groups_round_trip(g@);
        }
        Ipv6Addr { bits }
    }

    pub fn new(g0: u16, g1: u16, g2: u16, g3: u16, g4: u16, g5: u16, g6: u16, g7: u16) -> (r: Self)
        ensures
            r.groups() == seq![g0, g1, g2, g3, g4, g5, g6, g7],
    {
        let g: Vec<u16> = vec![g0, g1, g2, g3, g4, g5, g6, g7];
        assert(g@ =~= seq![g0, g1, g2, g3, g4, g5, g6, g7]);
        Ipv6Addr::from_groups(&g)
    }

    /// The eight groups in order.
    pub open spec fn groups(self) -> Seq<u16> {
        groups_of_u128(self.bits)
    }

    /// The sixteen octets in order.
    pub open spec fn octet_seq(self) -> Seq<u8> {
        Seq::new(16, |i: int| octet_of_u128(self.bits, i))
    }

    pub fn segments(&self) -> (r: Vec<u16>)
        ensures
            r@ == self.groups(),
    {
        let mut r: Vec<u16> = Vec::new();
        let mut i: u32 = 0;
        while i < 8
            invariant
                i <= 8,
                r@ == self.groups().take(i as int),
            decreases 8 - i,
        {
            let shift: u128 = (112 - 16 * i) as u128;
            r.push((self.bits >> shift) as u16);
            assert(self.groups().take(i + 1) =~= self.groups().take(i as int).push(
                group_of_u128(self.bits, i as int),
            ));
            i = i + 1;
        }
        assert(self.groups().take(8) =~= self.groups());
        r
    }

    pub fn octets(&self) -> (r: Vec<u8>)
        ensures
            r@ == self.octet_seq(),
    {
        let mut r: Vec<u8> = Vec::new();
        let mut i: u32 = 0;
        while i < 16
            invariant
                i <= 16,
                r@ == self.octet_seq().take(i as int),
            decreases 16 - i,
        {
            let shift: u128 = (120 - 8 * i) as u128;
            r.push((self.bits >> shift) as u8);
            assert(self.octet_seq().take(i + 1) =~= self.octet_seq().take(i as int).push(
                octet_of_u128(self.bits, i as int),
            ));
            i = i + 1;
        }
        assert(self.octet_seq().take(16) =~= self.octet_seq());
        r
    }

    pub fn is_unspecified(&self) -> (r: bool)
        ensures
            r == (*self == (Ipv6Addr { bits: 0 })),
    {
        self.bits == 0
    }
}

/// Splitting a number into groups and splitting the number made of groups are
/// inverse to each other.
pub proof fn lemma_groups_round_trip(g: Seq<u16>)
    requires
        g.len() == 8,
    ensures
        groups_of_u128(u128_of_groups(g)) == g,
{
    let (g0, g1, g2, g3) = (g[0], g[1], g[2], g[3]);
    let (g4, g5, g6, g7) = (g[4], g[5], g[6], g[7]);
    let v = u128_of_groups(g);
    assert({
        let v = (g0 as u128) << 112 | (g1 as u128) << 96 | (g2 as u128) << 80 | (g3 as u128) << 64
            | (g4 as u128) << 48 | (g5 as u128) << 32 | (g6 as u128) << 16 | (g7 as u128);
        &&& (v >> 112u128) as u16 == g0
        &&& (v >> 96u128) as u16 == g1
        &&& (v >> 80u128) as u16 == g2
        &&& (v >> 64u128) as u16 == g3
        &&& (v >> 48u128) as u16 == g4
        &&& (v >> 32u128) as u16 == g5
        &&& (v >> 16u128) as u16 == g6
        &&& (v >> 0u128) as u16 == g7
    }) by (bit_vector);
    assert(groups_of_u128(v) =~= g);
}

/// The number made of the groups of a number is that number.
pub proof fn lemma_u128_round_trip(v: u128)
    ensures
        u128_of_groups(groups_of_u128(v)) == v,
{
    assert(((v >> 112u128) as u16 as u128) << 112 | ((v >> 96u128) as u16 as u128) << 96 | ((v
        >> 80u128) as u16 as u128) << 80 | ((v >> 64u128) as u16 as u128) << 64 | ((v >> 48u128)
        as u16 as u128) << 48 | ((v >> 32u128) as u16 as u128) << 32 | ((v >> 16u128) as u16
        as u128) << 16 | ((v >> 0u128) as u16 as u128) == v) by (bit_vector);
}

} // verus!
