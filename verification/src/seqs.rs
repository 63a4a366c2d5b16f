//! Lists: what their items hold, copies and comparisons.

use crate::bgp::community::LargeCommunity;
use crate::bgp::multiprotocol::AfiSafi;
use crate::net::addr::{IpAddr, Ipv4Addr};
use vstd::prelude::*;

verus! {

/// Plain values that can be copied and compared.
pub trait Same: Copy {
    fn same_as(&self, other: &Self) -> (r: bool)
        ensures
            r == (*self == *other),
    ;
}

impl Same for u8 {
    fn same_as(&self, other: &Self) -> (r: bool) {
        *self == *other
    }
}

impl Same for u16 {
    fn same_as(&self, other: &Self) -> (r: bool) {
        *self == *other
    }
}

impl Same for u32 {
    fn same_as(&self, other: &Self) -> (r: bool) {
        *self == *other
    }
}

impl Same for u64 {
    fn same_as(&self, other: &Self) -> (r: bool) {
        *self == *other
    }
}

impl Same for LargeCommunity {
    fn same_as(&self, other: &Self) -> (r: bool) {
        *self == *other
    }
}

impl Same for IpAddr {
    fn same_as(&self, other: &Self) -> (r: bool) {
        *self == *other
    }
}

impl Same for Ipv4Addr {
    fn same_as(&self, other: &Self) -> (r: bool) {
        *self == *other
    }
}

impl Same for AfiSafi {
    fn same_as(&self, other: &Self) -> (r: bool) {
        *self == *other
    }
}

/// Whether `x` is among `v`.
pub fn contains_item<T: Same>(v: &Vec<T>, x: &T) -> (r: bool)
    ensures
        r == v@.contains(*x),
{
    let mut i: usize = 0;
    while i < v.len()
        invariant
            i <= v@.len(),
            forall|j: int| 0 <= j < i ==> v@[j] != *x,
        decreases v.len() - i,
    {
        if v[i].same_as(x) {
            assert(v@[i as int] == *x);
            return true;
        }
        i = i + 1;
    }
    false
}

/// A copy of a list of plain values.
pub fn copy_items<T: Same>(v: &Vec<T>) -> (r: Vec<T>)
    ensures
        r@ == v@,
{
    let mut r: Vec<T> = Vec::new();
    let mut i: usize = 0;
    while i < v.len()
        invariant
            i <= v@.len(),
            r@ == v@.take(i as int),
        decreases v.len() - i,
    {
        r.push(v[i]);
        assert(v@.take(i + 1) =~= v@.take(i as int).push(v@[i as int]));
        i = i + 1;
    }
    assert(v@.take(v@.len() as int) =~= v@);
    r
}

/// Whether two lists of plain values are equal.
pub fn items_eq<T: Same>(a: &Vec<T>, b: &Vec<T>) -> (r: bool)
    ensures
        r == (a@ == b@),
{
    if a.len() != b.len() {
        return false;
    }
    let mut i: usize = 0;
    while i < a.len()
        invariant
            i <= a@.len(),
            a@.len() == b@.len(),
            forall|j: int| 0 <= j < i ==> a@[j] == b@[j],
        decreases a.len() - i,
    {
        if !a[i].same_as(&b[i]) {
            assert(a@[i as int] != b@[i as int]);
            return false;
        }
        i = i + 1;
    }
    assert(a@ =~= b@);
    true
}

/// What the items of a list hold.
pub open spec fn views<T: View>(s: Seq<T>) -> Seq<T::V> {
    Seq::new(s.len(), |i: int| s[i]@)
}

/// What an optional text holds.
pub open spec fn opt_text(v: Option<String>) -> Option<Seq<char>> {
    match v {
        Some(s) => Some(s@),
        None => None,
    }
}

/// A copy of an optional text.
pub fn clone_opt_text(v: &Option<String>) -> (r: Option<String>)
    ensures
        opt_text(r) == opt_text(*v),
{
    match v {
        Some(s) => Some(s.clone()),
        None => None,
    }
}

/// A copy of a list of texts.
pub fn clone_texts(v: &Vec<String>) -> (r: Vec<String>)
    ensures
        views(r@) == views(v@),
{
    let mut r: Vec<String> = Vec::new();
    let mut i: usize = 0;
    while i < v.len()
        invariant
            i <= v@.len(),
            views(r@) == views(v@).take(i as int),
        decreases v.len() - i,
    {
        let x = v[i].clone();
        let ghost before = r@;
        let ghost all = views(v@);
        r.push(x);
        proof {
            assert(views(r@) =~= views(before).push(x@));
            assert(all.take(i + 1) =~= all.take(i as int).push(all[i as int]));
        }
        i = i + 1;
    }
    assert(views(v@).take(v@.len() as int) =~= views(v@));
    r
}

/// Pushing an item pushes what it holds.
pub proof fn lemma_views_push<T: View>(s: Seq<T>, x: T)
    ensures
        views(s.push(x)) == views(s).push(x@),
{
    assert(views(s.push(x)) =~= views(s).push(x@));
}

/// The first `i + 1` items are the first `i` and one more.
pub proof fn lemma_take_next<T>(s: Seq<T>, i: int)
    requires
        0 <= i < s.len(),
    ensures
        s.take(i + 1) == s.take(i).push(s[i]),
{
    assert(s.take(i + 1) =~= s.take(i).push(s[i]));
}

/// All items of a list are its first `len` ones.
pub proof fn lemma_take_all<T>(s: Seq<T>)
    ensures
        s.take(s.len() as int) == s,
{
    assert(s.take(s.len() as int) =~= s);
}

} // verus!
