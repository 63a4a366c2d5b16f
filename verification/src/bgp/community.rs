//! Well-known communities and large communities.

use crate::text;
use crate::text::{parse_decimal, push_char, render_decimal, split_once};
use vstd::prelude::*;

verus! {

/// Routes may not leave the autonomous system.
pub const NO_EXPORT: u32 = 0xFFFF_FF01;

/// Routes may not be advertised to any peer.
pub const NO_ADVERTISE: u32 = 0xFFFF_FF02;

/// Routes may not be advertised to external peers.
pub const NO_EXPORT_SUBCONFED: u32 = 0xFFFF_FF03;

/// The session is about to be shut down.
pub const GRACEFUL_SHUTDOWN: u32 = 0xFFFF_0000;

/// The route is kept although its peer went away long ago.
pub const LLGR_STALE: u32 = 0xFFFF_0006;

/// A large community.
#[derive(Debug, Clone, Copy, PartialEq, Eq, Hash, Structural)]
pub struct LargeCommunity {
    pub global_admin: u32,
    pub local_data_1: u32,
    pub local_data_2: u32,
}

impl View for LargeCommunity {
    type V = LargeCommunity;

    open spec fn view(&self) -> LargeCommunity {
        *self
    }
}

/// The text of a large community: its three numbers between colons.
pub open spec fn large_community_text(c: LargeCommunity) -> Seq<char> {
    text::decimal(c.global_admin as nat) + seq![':'] + (text::decimal(c.local_data_1 as nat)
        + seq![':'] + text::decimal(c.local_data_2 as nat))
}

/// The large community that a text denotes: three numbers between two colons.
pub open spec fn read_large_community(s: Seq<char>) -> Option<LargeCommunity> {
    match text::split_once_at(s, ':') {
        None => None,
        Some((p0, r0)) => match text::split_once_at(r0, ':') {
            None => None,
            Some((p1, p2)) => match (
                text::read_decimal(p0, u32::MAX as nat),
                text::read_decimal(p1, u32::MAX as nat),
                text::read_decimal(p2, u32::MAX as nat),
            ) {
                (Some(a), Some(b), Some(c)) => Some(
                    LargeCommunity {
                        global_admin: a as u32,
                        local_data_1: b as u32,
                        local_data_2: c as u32,
                    },
                ),
                _ => None,
            },
        },
    }
}

/// The text of a large community is read as that community.
pub proof fn law_large_community_round_trip(c: LargeCommunity)
    ensures
        read_large_community(large_community_text(c)) == Some(c),
{
    let (x, y, z) = (c.global_admin as nat, c.local_data_1 as nat, c.local_data_2 as nat);
    let r0 = text::decimal(y) + seq![':'] + text::decimal(z);
    text::lemma_decimal_lacks(x, ':');
    text::lemma_decimal_lacks(y, ':');
    text::lemma_split_once_after(text::decimal(x), ':', r0);
    text::lemma_split_once_after(text::decimal(y), ':', text::decimal(z));
    text::law_decimal_round_trip(x, u32::MAX as nat);
    text::law_decimal_round_trip(y, u32::MAX as nat);
    text::law_decimal_round_trip(z, u32::MAX as nat);
}

impl LargeCommunity {
    pub fn new(global_admin: u32, local_data_1: u32, local_data_2: u32) -> (r: Self)
        ensures
            r == (LargeCommunity { global_admin, local_data_1, local_data_2 }),
    {
        LargeCommunity { global_admin, local_data_1, local_data_2 }
    }

    pub fn to_text(&self) -> (r: String)
        ensures
            r@ == large_community_text(*self),
    {
        let mut s = render_decimal(self.global_admin as u64);
        push_char(&mut s, ':');
        s.append(render_decimal(self.local_data_1 as u64).as_str());
        push_char(&mut s, ':');
        s.append(render_decimal(self.local_data_2 as u64).as_str());
        assert(s@ =~= large_community_text(*self));
        s
    }
}

/// Reads a large community.
pub fn parse_large_community(s: &str) -> (r: Option<LargeCommunity>)
    ensures
        r == read_large_community(s@),
{
    match split_once(s, ':') {
        None => None,
        Some((p0, r0)) => match split_once(r0, ':') {
            None => None,
            Some((p1, p2)) => match (
                parse_decimal(p0, u32::MAX as u64),
                parse_decimal(p1, u32::MAX as u64),
                parse_decimal(p2, u32::MAX as u64),
            ) {
                (Some(a), Some(b), Some(c)) => Some(
                    LargeCommunity {
                        global_admin: a as u32,
                        local_data_1: b as u32,
                        local_data_2: c as u32,
                    },
                ),
                _ => None,
            },
        },
    }
}

} // verus!
