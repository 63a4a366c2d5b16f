//! Path attributes.

use crate::net::addr::{IpAddr, Ipv4Addr, Ipv6Addr};
use crate::seqs;
use crate::seqs::{copy_items, items_eq};
use vstd::prelude::*;

verus! {

#[derive(Debug, Clone, Copy, PartialEq, Eq, Hash, Structural)]
pub enum Origin {
    IGP,
    EGP,
    INCOMPLETE,
}

#[derive(Debug, Clone, Copy, PartialEq, Eq, Hash, Structural)]
pub enum AsPathSegmentType {
    AsSet,
    AsSequence,
    AsConfedSequence,
    AsConfedSet,
}

/// A segment of an AS path.
#[derive(Debug, PartialEq, Eq)]
pub struct AsPathSegment {
    pub segment_type: AsPathSegmentType,
    pub segment_len: u8,
    pub asn_list: Vec<u32>,
}

/// What a segment of an AS path holds.
pub struct AsPathSegmentView {
    pub segment_type: AsPathSegmentType,
    pub segment_len: u8,
    pub asn_list: Seq<u32>,
}

impl View for AsPathSegment {
    type V = AsPathSegmentView;

    open spec fn view(&self) -> AsPathSegmentView {
        AsPathSegmentView {
            segment_type: self.segment_type,
            segment_len: self.segment_len,
            asn_list: self.asn_list@,
        }
    }
}

/// The next hop of a route.
#[derive(Debug, Clone, Copy, PartialEq, Eq, Hash, Structural)]
pub enum NextHopAddr {
    Ipv4(Ipv4Addr),
    Ipv6(Ipv6Addr),
    Ipv6WithLinkLocal(Ipv6Addr, Ipv6Addr),
}

/// The next hop at an address.
pub open spec fn next_hop_of(ip: IpAddr) -> NextHopAddr {
    match ip {
        IpAddr::V4(x) => NextHopAddr::Ipv4(x),
        IpAddr::V6(x) => NextHopAddr::Ipv6(x),
    }
}

impl NextHopAddr {
    /// The address is all zeros.
    pub open spec fn unspecified_spec(self) -> bool {
        match self {
            NextHopAddr::Ipv4(x) => x == (Ipv4Addr { a: 0, b: 0, c: 0, d: 0 }),
            NextHopAddr::Ipv6(x) => x == (Ipv6Addr { bits: 0 }),
            NextHopAddr::Ipv6WithLinkLocal(x, _) => x == (Ipv6Addr { bits: 0 }),
        }
    }

    /// The address that other networks can reach.
    pub open spec fn global_spec(self) -> IpAddr {
        match self {
            NextHopAddr::Ipv4(x) => IpAddr::V4(x),
            NextHopAddr::Ipv6(x) => IpAddr::V6(x),
            NextHopAddr::Ipv6WithLinkLocal(x, _) => IpAddr::V6(x),
        }
    }

    /// The link-local address, where one is carried.
    pub open spec fn link_local_spec(self) -> Option<Ipv6Addr> {
        match self {
            NextHopAddr::Ipv6WithLinkLocal(_, x) => Some(x),
            _ => None,
        }
    }

    pub fn from_ip(ip: IpAddr) -> (r: Self)
        ensures
            r == next_hop_of(ip),
    {
        match ip {
            IpAddr::V4(x) => NextHopAddr::Ipv4(x),
            IpAddr::V6(x) => NextHopAddr::Ipv6(x),
        }
    }

    pub fn is_unspecified(&self) -> (r: bool)
        ensures
            r == self.unspecified_spec(),
    {
        match self {
            NextHopAddr::Ipv4(x) => x.is_unspecified(),
            NextHopAddr::Ipv6(x) => x.is_unspecified(),
            NextHopAddr::Ipv6WithLinkLocal(x, _) => x.is_unspecified(),
        }
    }

    pub fn global_addr(&self) -> (r: IpAddr)
        ensures
            r == self.global_spec(),
    {
        match self {
            NextHopAddr::Ipv4(x) => IpAddr::V4(*x),
            NextHopAddr::Ipv6(x) => IpAddr::V6(*x),
            NextHopAddr::Ipv6WithLinkLocal(x, _) => IpAddr::V6(*x),
        }
    }

    pub fn link_local(&self) -> (r: Option<Ipv6Addr>)
        ensures
            r == self.link_local_spec(),
    {
        match self {
            NextHopAddr::Ipv6WithLinkLocal(_, x) => Some(*x),
            _ => None,
        }
    }
}

/// The flag of an attribute that not every speaker has to know.
pub const ATTR_OPTIONAL: u8 = 0x80;

/// The flag of an attribute that is passed on.
pub const ATTR_TRANSITIVE: u8 = 0x40;

/// The speaker that aggregated a route.
#[derive(Debug, Clone, Copy, PartialEq, Eq, Hash, Structural)]
pub struct Aggregator {
    pub asn: u32,
    pub ip_addr: Ipv4Addr,
}

/// The value of an attribute that is kept beside the ones a path has fields for.
#[derive(Debug, PartialEq, Eq)]
pub enum PathAttrValue {
    /// The AS path of a speaker with short AS numbers.
    As4Path,
    /// The aggregator of a speaker with short AS numbers.
    As4Aggregator,
    /// An attribute of a type that is not known here.
    Unknown { type_code: u8, flags: u8, data: Vec<u8> },
}

pub enum PathAttrValueView {
    As4Path,
    As4Aggregator,
    Unknown { type_code: u8, flags: u8, data: Seq<u8> },
}

impl View for PathAttrValue {
    type V = PathAttrValueView;

    open spec fn view(&self) -> PathAttrValueView {
        match self {
            PathAttrValue::As4Path => PathAttrValueView::As4Path,
            PathAttrValue::As4Aggregator => PathAttrValueView::As4Aggregator,
            PathAttrValue::Unknown { type_code, flags, data } => PathAttrValueView::Unknown {
                type_code: *type_code,
                flags: *flags,
                data: data@,
            },
        }
    }
}

/// An attribute as received, with its flags.
#[derive(Debug, PartialEq, Eq)]
pub struct PathAttribute {
    pub flags: u8,
    pub value: PathAttrValue,
}

pub struct PathAttributeView {
    pub flags: u8,
    pub value: PathAttrValueView,
}

impl View for PathAttribute {
    type V = PathAttributeView;

    open spec fn view(&self) -> PathAttributeView {
        PathAttributeView { flags: self.flags, value: self.value@ }
    }
}

impl PathAttributeView {
    /// An attribute of unknown type that is optional and passed on.
    pub open spec fn unknown_transitive(self) -> bool {
        match self.value {
            PathAttrValueView::Unknown { type_code: _, flags, data: _ } => flags & ATTR_OPTIONAL != 0
                && flags & ATTR_TRANSITIVE != 0,
            _ => false,
        }
    }
}

impl PathAttribute {
    pub fn new(flags: u8, value: PathAttrValue) -> (r: Self)
        ensures
            r == (PathAttribute { flags, value }),
    {
        PathAttribute { flags, value }
    }

    pub fn is_unknown_transitive(&self) -> (r: bool)
        ensures
            r == self@.unknown_transitive(),
    {
        match &self.value {
            PathAttrValue::Unknown { type_code: _, flags, data: _ } => *flags & ATTR_OPTIONAL != 0
                && *flags & ATTR_TRANSITIVE != 0,
            _ => false,
        }
    }
}

// ---------------------------------------------------------------------------
// Copies and comparisons
// ---------------------------------------------------------------------------

impl Clone for AsPathSegment {
    fn clone(&self) -> (r: Self)
        ensures
            r@ == self@,
    {
        AsPathSegment {
            segment_type: self.segment_type,
            segment_len: self.segment_len,
            asn_list: copy_items(&self.asn_list),
        }
    }
}

impl AsPathSegment {
    /// Whether two segments hold the same.
    pub fn same(&self, other: &AsPathSegment) -> (r: bool)
        ensures
            r == (self@ == other@),
    {
        self.segment_type == other.segment_type && self.segment_len == other.segment_len && items_eq(
            &self.asn_list,
            &other.asn_list,
        )
    }
}

impl Clone for PathAttribute {
    fn clone(&self) -> (r: Self)
        ensures
            r@ == self@,
    {
        let value = match &self.value {
            PathAttrValue::As4Path => PathAttrValue::As4Path,
            PathAttrValue::As4Aggregator => PathAttrValue::As4Aggregator,
            PathAttrValue::Unknown { type_code, flags, data } => PathAttrValue::Unknown {
                type_code: *type_code,
                flags: *flags,
                data: copy_items(data),
            },
        };
        PathAttribute { flags: self.flags, value }
    }
}

impl PathAttribute {
    /// Whether two attributes hold the same.
    pub fn same(&self, other: &PathAttribute) -> (r: bool)
        ensures
            r == (self@ == other@),
    {
        if self.flags != other.flags {
            return false;
        }
        match (&self.value, &other.value) {
            (PathAttrValue::As4Path, PathAttrValue::As4Path) => true,
            (PathAttrValue::As4Aggregator, PathAttrValue::As4Aggregator) => true,
            (
                PathAttrValue::Unknown { type_code: t1, flags: f1, data: d1 },
                PathAttrValue::Unknown { type_code: t2, flags: f2, data: d2 },
            ) => *t1 == *t2 && *f1 == *f2 && items_eq(d1, d2),
            _ => false,
        }
    }
}

/// A copy of an AS path.
pub fn clone_as_path(v: &Vec<AsPathSegment>) -> (r: Vec<AsPathSegment>)
    ensures
        seqs::views(r@) == seqs::views(v@),
{
    let mut r: Vec<AsPathSegment> = Vec::new();
    let mut i: usize = 0;
    while i < v.len()
        invariant
            i <= v@.len(),
            seqs::views(r@) == seqs::views(v@).take(i as int),
        decreases v.len() - i,
    {
        let x = v[i].clone();
        let ghost before = r@;
        r.push(x);
        proof {
            assert(seqs::views(r@) =~= seqs::views(before).push(x@));
            assert(seqs::views(v@).take(i + 1) =~= seqs::views(v@).take(i as int).push(
                seqs::views(v@)[i as int],
            ));
        }
        i = i + 1;
    }
    assert(seqs::views(v@).take(v@.len() as int) =~= seqs::views(v@));
    r
}

/// Whether two AS paths hold the same.
pub fn as_paths_eq(a: &Vec<AsPathSegment>, b: &Vec<AsPathSegment>) -> (r: bool)
    ensures
        r == (seqs::views(a@) == seqs::views(b@)),
{
    if a.len() != b.len() {
        assert(seqs::views(a@).len() != seqs::views(b@).len());
        return false;
    }
    let mut i: usize = 0;
    while i < a.len()
        invariant
            i <= a@.len(),
            a@.len() == b@.len(),
            forall|j: int| 0 <= j < i ==> seqs::views(a@)[j] == seqs::views(b@)[j],
        decreases a.len() - i,
    {
        if !a[i].same(&b[i]) {
            assert(seqs::views(a@)[i as int] != seqs::views(b@)[i as int]);
            return false;
        }
        i = i + 1;
    }
    assert(seqs::views(a@) =~= seqs::views(b@));
    true
}

/// A copy of a list of attributes.
pub fn clone_attributes(v: &Vec<PathAttribute>) -> (r: Vec<PathAttribute>)
    ensures
        seqs::views(r@) == seqs::views(v@),
{
    let mut r: Vec<PathAttribute> = Vec::new();
    let mut i: usize = 0;
    while i < v.len()
        invariant
            i <= v@.len(),
            seqs::views(r@) == seqs::views(v@).take(i as int),
        decreases v.len() - i,
    {
        let x = v[i].clone();
        let ghost before = r@;
        r.push(x);
        proof {
            assert(seqs::views(r@) =~= seqs::views(before).push(x@));
            assert(seqs::views(v@).take(i + 1) =~= seqs::views(v@).take(i as int).push(
                seqs::views(v@)[i as int],
            ));
        }
        i = i + 1;
    }
    assert(seqs::views(v@).take(v@.len() as int) =~= seqs::views(v@));
    r
}

/// Whether two lists of attributes hold the same.
pub fn attributes_eq(a: &Vec<PathAttribute>, b: &Vec<PathAttribute>) -> (r: bool)
    ensures
        r == (seqs::views(a@) == seqs::views(b@)),
{
    if a.len() != b.len() {
        assert(seqs::views(a@).len() != seqs::views(b@).len());
        return false;
    }
    let mut i: usize = 0;
    while i < a.len()
        invariant
            i <= a@.len(),
            a@.len() == b@.len(),
            forall|j: int| 0 <= j < i ==> seqs::views(a@)[j] == seqs::views(b@)[j],
        decreases a.len() - i,
    {
        if !a[i].same(&b[i]) {
            assert(seqs::views(a@)[i as int] != seqs::views(b@)[i as int]);
            return false;
        }
        i = i + 1;
    }
    assert(seqs::views(a@) =~= seqs::views(b@));
    true
}

} // verus!
