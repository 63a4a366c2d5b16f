//! Networks: an address and the length of its prefix.

use crate::net::addr::{Ipv4Addr, Ipv6Addr};
use vstd::prelude::*;

verus! {

#[derive(Debug, Clone, Copy, PartialEq, Eq, Hash, Structural)]
pub struct Ipv4Net {
    pub address: Ipv4Addr,
    pub prefix_length: u8,
}

#[derive(Debug, Clone, Copy, PartialEq, Eq, Hash, Structural)]
pub struct Ipv6Net {
    pub address: Ipv6Addr,
    pub prefix_length: u8,
}

#[derive(Debug, Clone, Copy, PartialEq, Eq, Hash, Structural)]
pub enum IpNetwork {
    V4(Ipv4Net),
    V6(Ipv6Net),
}

/// The bits of an IPv4 address that a prefix of `len` bits leaves out.
pub open spec fn host_bits_v4(len: u8) -> u32 {
    if len >= 32 {
        0
    } else {
        (32 - len) as u32
    }
}

/// The bits of an IPv6 address that a prefix of `len` bits leaves out.
pub open spec fn host_bits_v6(len: u8) -> u128 {
    if len >= 128 {
        0
    } else {
        (128 - len) as u128
    }
}

impl IpNetwork {
    /// The length of the prefix.
    pub open spec fn len_spec(self) -> u8 {
        match self {
            IpNetwork::V4(net) => net.prefix_length,
            IpNetwork::V6(net) => net.prefix_length,
        }
    }

    /// The number of bits of an address of this family.
    pub open spec fn max_len_spec(self) -> u8 {
        match self {
            IpNetwork::V4(_) => 32,
            IpNetwork::V6(_) => 128,
        }
    }

    /// `other` is of the same family, at least as long, and begins with the
    /// bits of this prefix.
    pub open spec fn covers(self, other: IpNetwork) -> bool {
        match (self, other) {
            (IpNetwork::V4(n), IpNetwork::V4(o)) => {
                &&& o.prefix_length >= n.prefix_length
                &&& o.address.bits() >> host_bits_v4(n.prefix_length) == n.address.bits()
                    >> host_bits_v4(n.prefix_length)
            },
            (IpNetwork::V6(n), IpNetwork::V6(o)) => {
                &&& o.prefix_length >= n.prefix_length
                &&& o.address.bits >> host_bits_v6(n.prefix_length) == n.address.bits
                    >> host_bits_v6(n.prefix_length)
            },
            _ => false,
        }
    }

    pub fn prefix_len(&self) -> (r: u8)
        ensures
            r == self.len_spec(),
    {
        match self {
            IpNetwork::V4(net) => net.prefix_length,
            IpNetwork::V6(net) => net.prefix_length,
        }
    }

    /// Whether `other` lies within this network.
    pub fn contains(&self, other: &IpNetwork) -> (r: bool)
        ensures
            r == self.covers(*other),
    {
        match (self, other) {
            (IpNetwork::V4(n), IpNetwork::V4(o)) => {
                if o.prefix_length < n.prefix_length {
                    return false;
                }
                let x: u32 = o.address.to_u32();
                let y: u32 = n.address.to_u32();
                if n.prefix_length == 0 {
                    assert(x >> 32u32 == 0 && y >> 32u32 == 0) by (bit_vector);
                    return true;
                }
                let shift: u32 = if n.prefix_length >= 32 {
                    0
                } else {
                    (32 - n.prefix_length) as u32
                };
                x >> shift == y >> shift
            },
            (IpNetwork::V6(n), IpNetwork::V6(o)) => {
                if o.prefix_length < n.prefix_length {
                    return false;
                }
                let x: u128 = o.address.bits;
                let y: u128 = n.address.bits;
                if n.prefix_length == 0 {
                    assert(x >> 128u128 == 0 && y >> 128u128 == 0) by (bit_vector);
                    return true;
                }
                let shift: u128 = if n.prefix_length >= 128 {
                    0
                } else {
                    (128 - n.prefix_length) as u128
                };
                x >> shift == y >> shift
            },
            _ => false,
        }
    }
}

} // verus!
