//! How messages are encoded on a session.

use crate::bgp::multiprotocol::{Afi, AfiSafi, Safi};
use vstd::prelude::*;

verus! {

/// The largest message that may be sent, in bytes.
pub const MAX_MESSAGE_SIZE: u16 = 4096;

/// The octets of a message's header; the last of them is the message's type.
pub const HEADER_SIZE: usize = 19;

/// The type of a message and what follows its header.
pub fn message_parts(bytes: &Vec<u8>) -> (r: (u8, Vec<u8>))
    requires
        bytes@.len() >= HEADER_SIZE,
    ensures
        r.0 == bytes@[18],
        r.1@ == bytes@.skip(19),
{
    let mut body: Vec<u8> = Vec::new();
    let mut i: usize = HEADER_SIZE;
    while i < bytes.len()
        invariant
            HEADER_SIZE <= i <= bytes@.len(),
            body@ == bytes@.subrange(19, i as int),
        decreases bytes.len() - i,
    {
        body.push(bytes[i]);
        assert(bytes@.subrange(19, i + 1) =~= bytes@.subrange(19, i as int).push(bytes@[i as int]));
        i = i + 1;
    }
    assert(body@ =~= bytes@.skip(19));
    (bytes[HEADER_SIZE - 1], body)
}

/// The families for which messages carry path identifiers.
#[derive(Debug, Clone, Copy, PartialEq, Eq, Structural)]
pub struct AddPathMask {
    bits: u16,
}

/// The position of a family in the mask.
pub open spec fn family_index(x: AfiSafi) -> u16 {
    let row: u16 = match x.afi {
        Afi::Ipv4 => 0,
        Afi::Ipv6 => 4,
        Afi::LinkState => 8,
    };
    let column: u16 = match x.safi {
        Safi::Unicast => 0,
        Safi::Multicast => 1,
        Safi::LinkState => 2,
        Safi::LinkStateVpn => 3,
    };
    (row + column) as u16
}

fn index_of_family(x: &AfiSafi) -> (r: u16)
    ensures
        r == family_index(*x),
        r < 12,
{
    let row: u16 = match x.afi {
        Afi::Ipv4 => 0,
        Afi::Ipv6 => 4,
        Afi::LinkState => 8,
    };
    let column: u16 = match x.safi {
        Safi::Unicast => 0,
        Safi::Multicast => 1,
        Safi::LinkState => 2,
        Safi::LinkStateVpn => 3,
    };
    row + column
}

impl AddPathMask {
    /// No bit is set beside those of the families.
    #[verifier::type_invariant]
    pub closed spec fn wf(self) -> bool {
        self.bits < 4096
    }

    /// Whether the mask holds the family.
    pub closed spec fn has(self, x: AfiSafi) -> bool {
        (self.bits >> family_index(x)) & 1 == 1
    }

    /// The mask of no family.
    pub fn none() -> (r: Self)
        ensures
            r.wf(),
            forall|x: AfiSafi| !#[trigger] r.has(x),
    {
        let r = AddPathMask { bits: 0 };
        proof {
            assert forall|x: AfiSafi| !#[trigger] r.has(x) by {
                let i = family_index(x);
                assert((0u16 >> i) & 1 == 0) by (bit_vector);
            }
        }
        r
    }

    /// The mask with one more family.
    pub fn with(self, x: &AfiSafi) -> (r: Self)
        ensures
            r.wf(),
            forall|y: AfiSafi| #[trigger] r.has(y) == (self.has(y) || y == *x),
    {
        let i: u16 = index_of_family(x);
        let m: u16 = self.bits;
        proof {
            use_type_invariant(&self);
            assert(m | (1u16 << i) < 4096) by (bit_vector)
                requires
                    m < 4096,
                    i < 12,
            ;
        }
        let r = AddPathMask { bits: m | (1u16 << i) };
        proof {
            assert forall|y: AfiSafi| #[trigger] r.has(y) == (self.has(y) || y == *x) by {
                let j = family_index(y);
                assert(j < 12);
                assert(((m | (1u16 << i)) >> j) & 1 == (if i == j {
                    1
                } else {
                    (m >> j) & 1
                })) by (bit_vector)
                    requires
                        i < 12,
                        j < 12,
                ;
                assert((i == j) == (y == *x));
            }
        }
        r
    }

    pub fn contains(&self, x: &AfiSafi) -> (r: bool)
        ensures
            r == self.has(*x),
    {
        let i: u16 = index_of_family(x);
        (self.bits >> i) & 1 == 1
    }
}

/// A mask is what it holds: two masks with the same families are equal.
pub proof fn law_masks_are_their_families(a: AddPathMask, b: AddPathMask)
    requires
        a.wf(),
        b.wf(),
        forall|x: AfiSafi| #[trigger] a.has(x) == b.has(x),
    ensures
        a == b,
{
    let (m, n) = (a.bits, b.bits);
    let same = |afi: Afi, safi: Safi| a.has(AfiSafi { afi, safi }) == b.has(AfiSafi { afi, safi });
    assert(same(Afi::Ipv4, Safi::Unicast));
    assert(same(Afi::Ipv4, Safi::Multicast));
    assert(same(Afi::Ipv4, Safi::LinkState));
    assert(same(Afi::Ipv4, Safi::LinkStateVpn));
    assert(same(Afi::Ipv6, Safi::Unicast));
    assert(same(Afi::Ipv6, Safi::Multicast));
    assert(same(Afi::Ipv6, Safi::LinkState));
    assert(same(Afi::Ipv6, Safi::LinkStateVpn));
    assert(same(Afi::LinkState, Safi::Unicast));
    assert(same(Afi::LinkState, Safi::Multicast));
    assert(same(Afi::LinkState, Safi::LinkState));
    assert(same(Afi::LinkState, Safi::LinkStateVpn));
    assert(m == n) by (bit_vector)
        requires
            m < 4096,
            n < 4096,
            ((m >> 0) & 1 == 1) == ((n >> 0) & 1 == 1),
            ((m >> 1) & 1 == 1) == ((n >> 1) & 1 == 1),
            ((m >> 2) & 1 == 1) == ((n >> 2) & 1 == 1),
            ((m >> 3) & 1 == 1) == ((n >> 3) & 1 == 1),
            ((m >> 4) & 1 == 1) == ((n >> 4) & 1 == 1),
            ((m >> 5) & 1 == 1) == ((n >> 5) & 1 == 1),
            ((m >> 6) & 1 == 1) == ((n >> 6) & 1 == 1),
            ((m >> 7) & 1 == 1) == ((n >> 7) & 1 == 1),
            ((m >> 8) & 1 == 1) == ((n >> 8) & 1 == 1),
            ((m >> 9) & 1 == 1) == ((n >> 9) & 1 == 1),
            ((m >> 10) & 1 == 1) == ((n >> 10) & 1 == 1),
            ((m >> 11) & 1 == 1) == ((n >> 11) & 1 == 1),
    ;
}

/// What both sides agreed on that changes how messages are encoded.
#[derive(Debug, Clone, Copy, PartialEq, Eq, Structural)]
pub struct MessageFormat {
    pub use_4byte_asn: bool,
    pub add_path: AddPathMask,
    pub is_ebgp: bool,
    pub enhanced_rr: bool,
}

} // verus!
