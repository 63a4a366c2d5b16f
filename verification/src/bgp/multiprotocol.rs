//! Address families.

use crate::seqs::{contains_item, copy_items};
use vstd::prelude::*;

verus! {

/// Address family identifier.
#[derive(Debug, Clone, Copy, PartialEq, Eq, Hash, Structural)]
pub enum Afi {
    Ipv4,
    Ipv6,
    LinkState,
}

/// Subsequent address family identifier.
#[derive(Debug, Clone, Copy, PartialEq, Eq, Hash, Structural)]
pub enum Safi {
    Unicast,
    Multicast,
    LinkState,
    LinkStateVpn,
}

/// An address family together with its subsequent family.
#[derive(Debug, Clone, Copy, PartialEq, Eq, Hash, Structural)]
pub struct AfiSafi {
    pub afi: Afi,
    pub safi: Safi,
}

/// The family with an assigned number.
pub open spec fn afi_of_code(code: u16) -> Option<Afi> {
    if code == 1 {
        Some(Afi::Ipv4)
    } else if code == 2 {
        Some(Afi::Ipv6)
    } else if code == 16388 {
        Some(Afi::LinkState)
    } else {
        None
    }
}

/// The subsequent family with an assigned number.
pub open spec fn safi_of_code(code: u8) -> Option<Safi> {
    if code == 1 {
        Some(Safi::Unicast)
    } else if code == 2 {
        Some(Safi::Multicast)
    } else if code == 71 {
        Some(Safi::LinkState)
    } else if code == 72 {
        Some(Safi::LinkStateVpn)
    } else {
        None
    }
}

/// The numbers of a family lead back to it, and no other number does.
pub proof fn law_family_numbers(afi: Afi, safi: Safi, a: u16, s: u8)
    ensures
        afi_of_code(a) == Some(afi) <==> a == afi.code_spec(),
        safi_of_code(s) == Some(safi) <==> s == safi.code_spec(),
{
}

impl Afi {
    /// The assigned number.
    pub open spec fn code_spec(self) -> u16 {
        match self {
            Afi::Ipv4 => 1,
            Afi::Ipv6 => 2,
            Afi::LinkState => 16388,
        }
    }

    pub fn code(&self) -> (r: u16)
        ensures
            r == self.code_spec(),
    {
        match self {
            Afi::Ipv4 => 1,
            Afi::Ipv6 => 2,
            Afi::LinkState => 16388,
        }
    }

    /// The family with the assigned number `code`.
    pub fn from_code(code: u16) -> (r: Option<Afi>)
        ensures
            r == afi_of_code(code),
    {
        match code {
            1 => Some(Afi::Ipv4),
            2 => Some(Afi::Ipv6),
            16388 => Some(Afi::LinkState),
            _ => None,
        }
    }
}

impl Safi {
    /// The assigned number.
    pub open spec fn code_spec(self) -> u8 {
        match self {
            Safi::Unicast => 1,
            Safi::Multicast => 2,
            Safi::LinkState => 71,
            Safi::LinkStateVpn => 72,
        }
    }

    pub fn code(&self) -> (r: u8)
        ensures
            r == self.code_spec(),
    {
        match self {
            Safi::Unicast => 1,
            Safi::Multicast => 2,
            Safi::LinkState => 71,
            Safi::LinkStateVpn => 72,
        }
    }

    /// The subsequent family with the assigned number `code`.
    pub fn from_code(code: u8) -> (r: Option<Safi>)
        ensures
            r == safi_of_code(code),
    {
        match code {
            1 => Some(Safi::Unicast),
            2 => Some(Safi::Multicast),
            71 => Some(Safi::LinkState),
            72 => Some(Safi::LinkStateVpn),
            _ => None,
        }
    }
}

/// IPv4 unicast.
pub open spec fn ipv4_unicast() -> AfiSafi {
    AfiSafi { afi: Afi::Ipv4, safi: Safi::Unicast }
}

/// IPv6 unicast.
pub open spec fn ipv6_unicast() -> AfiSafi {
    AfiSafi { afi: Afi::Ipv6, safi: Safi::Unicast }
}

/// Link-state.
pub open spec fn link_state() -> AfiSafi {
    AfiSafi { afi: Afi::LinkState, safi: Safi::LinkState }
}

/// Link-state of a virtual network.
pub open spec fn link_state_vpn() -> AfiSafi {
    AfiSafi { afi: Afi::LinkState, safi: Safi::LinkStateVpn }
}

impl AfiSafi {
    pub fn new(afi: Afi, safi: Safi) -> (r: Self)
        ensures
            r == (AfiSafi { afi, safi }),
    {
        AfiSafi { afi, safi }
    }
}

/// A list with `x` at its end, unless it is in it.
pub open spec fn with_member(s: Seq<AfiSafi>, x: AfiSafi) -> Seq<AfiSafi> {
    if s.contains(x) {
        s
    } else {
        s.push(x)
    }
}

/// A list without what occurs in it again.
pub open spec fn distinct(s: Seq<AfiSafi>) -> Seq<AfiSafi>
    decreases s.len(),
{
    if s.len() == 0 {
        Seq::empty()
    } else {
        with_member(distinct(s.drop_last()), s.last())
    }
}

/// A set of address families: a list in which nothing occurs twice, in the
/// order in which the members were added.
#[derive(Debug, Eq)]
pub struct AfiSafiSet {
    items: Vec<AfiSafi>,
}

impl View for AfiSafiSet {
    type V = Set<AfiSafi>;

    closed spec fn view(&self) -> Set<AfiSafi> {
        self.items@.to_set()
    }
}

impl AfiSafiSet {
    /// The members in the order in which they were added.
    pub closed spec fn listed(self) -> Seq<AfiSafi> {
        self.items@
    }

    /// Nothing occurs twice.
    #[verifier::type_invariant]
    closed spec fn wf(self) -> bool {
        self.items@.no_duplicates()
    }

    pub fn new() -> (r: Self)
        ensures
            r@ == Set::<AfiSafi>::empty(),
            r.listed() == Seq::<AfiSafi>::empty(),
    {
        let r = AfiSafiSet { items: Vec::new() };
        assert(r@ =~= Set::<AfiSafi>::empty());
        r
    }

    pub fn contains(&self, x: &AfiSafi) -> (r: bool)
        ensures
            r == self@.contains(*x),
    {
        contains_item(&self.items, x)
    }

    pub fn is_empty(&self) -> (r: bool)
        ensures
            r == (self@ == Set::<AfiSafi>::empty()),
    {
        let r = self.items.len() == 0;
        proof {
            if r {
                assert(self@ =~= Set::<AfiSafi>::empty());
            } else {
                assert(self@.contains(self.items@[0]));
            }
        }
        r
    }

    pub fn len(&self) -> (r: usize)
        ensures
            r == self@.len(),
    {
        proof {
            use_type_invariant(&*self);
            self.items@.unique_seq_to_set();
        }
        self.items.len()
    }

    /// Adds `x`; says whether it was new.
    pub fn insert(&mut self, x: AfiSafi) -> (r: bool)
        ensures
            final(self)@ == old(self)@.insert(x),
            r == !old(self)@.contains(x),
            final(self).listed() == with_member(old(self).listed(), x),
    {
        proof {
            use_type_invariant(&*self);
        }
        let known = contains_item(&self.items, &x);
        if known {
            assert(self@.insert(x) =~= self@);
            return false;
        }
        let mut items: Vec<AfiSafi> = Vec::new();
        items.append(&mut copy_items(&self.items));
        let ghost before = items@;
        items.push(x);
        proof {
            assert(before =~= self.items@);
            assert(items@.no_duplicates());
            assert(items@.to_set() =~= self@.insert(x)) by {
                assert forall|y: AfiSafi| items@.to_set().contains(y) == self@.insert(x).contains(
                    y,
                ) by {
                    if self@.contains(y) {
                        let i = choose|i: int| 0 <= i < before.len() && before[i] == y;
                        assert(items@[i] == y);
                    }
                    if y == x {
                        assert(items@[before.len() as int] == y);
                    }
                }
            }
        }
        *self = AfiSafiSet { items };
        true
    }

    /// The listed members are the members.
    pub proof fn lemma_listed(self)
        ensures
            self.listed().to_set() == self@,
    {
    }

    /// Takes `x` out.
    pub fn remove(&mut self, x: &AfiSafi)
        ensures
            final(self)@ == old(self)@.remove(*x),
    {
        proof {
            use_type_invariant(&*self);
        }
        let mut kept: Vec<AfiSafi> = Vec::new();
        let mut i: usize = 0;
        let ghost all = self.items@;
        while i < self.items.len()
            invariant
                i <= self.items@.len(),
                all == self.items@,
                all.no_duplicates(),
                kept@.no_duplicates(),
                forall|y: AfiSafi| #[trigger]
                    kept@.contains(y) <==> y != *x && all.take(i as int).contains(y),
            decreases self.items.len() - i,
        {
            let ghost before = kept@;
            let y = self.items[i];
            proof {
                let t = all.take(i as int);
                let u = all.take(i + 1);
                assert(u =~= t.push(y));
                assert forall|z: AfiSafi| #[trigger] u.contains(z) <==> t.contains(z) || z == y by {
                    if t.contains(z) {
                        let k = choose|k: int| 0 <= k < t.len() && t[k] == z;
                        assert(u[k] == z);
                    }
                    assert(u[i as int] == y);
                    if u.contains(z) && z != y {
                        let k = choose|k: int| 0 <= k < u.len() && u[k] == z;
                        assert(t[k] == z);
                    }
                }
                if before.contains(y) {
                    assert(t.contains(y));
                    let k = choose|k: int| 0 <= k < t.len() && t[k] == y;
                    assert(all[k] == all[i as int]);
                }
            }
            if y != *x {
                kept.push(y);
                proof {
                    assert forall|z: AfiSafi| #[trigger]
                        kept@.contains(z) <==> before.contains(z) || z == y by {
                        if before.contains(z) {
                            let k = choose|k: int| 0 <= k < before.len() && before[k] == z;
                            assert(kept@[k] == z);
                        }
                        assert(kept@[before.len() as int] == y);
                        if kept@.contains(z) && z != y {
                            let k = choose|k: int| 0 <= k < kept@.len() && kept@[k] == z;
                            assert(before[k] == z);
                        }
                    }
                }
            }
            i = i + 1;
        }
        proof {
            assert(all.take(all.len() as int) =~= all);
            assert(kept@.to_set() =~= self@.remove(*x));
        }
        *self = AfiSafiSet { items: kept };
    }

    /// The members, each once, in the order in which they were added.
    pub fn to_vec(&self) -> (r: Vec<AfiSafi>)
        ensures
            r@ == self.listed(),
            r@.no_duplicates(),
            r@.to_set() == self@,
    {
        proof {
            use_type_invariant(&*self);
        }
        copy_items(&self.items)
    }

    /// The set of the members of a list.
    pub fn from_vec(v: &Vec<AfiSafi>) -> (r: Self)
        ensures
            r@ == v@.to_set(),
            r.listed() == distinct(v@),
    {
        let mut r = AfiSafiSet::new();
        let mut i: usize = 0;
        while i < v.len()
            invariant
                i <= v@.len(),
                r@ == v@.take(i as int).to_set(),
                r.listed() == distinct(v@.take(i as int)),
            decreases v.len() - i,
        {
            r.insert(v[i]);
            proof {
                let t = v@.take(i as int);
                assert(v@.take(i + 1) =~= t.push(v@[i as int]));
                assert(v@.take(i + 1).drop_last() =~= t);
                t.lemma_push_to_set_commute(v@[i as int]);
            }
            i = i + 1;
        }
        assert(v@.take(v@.len() as int) =~= v@);
        assert(v@.take(0).to_set() =~= Set::<AfiSafi>::empty());
        r
    }
}

/// Every member of `a` is in `b`.
fn is_subset(a: &AfiSafiSet, b: &AfiSafiSet) -> (r: bool)
    ensures
        r == a@.subset_of(b@),
{
    let mut i: usize = 0;
    while i < a.items.len()
        invariant
            i <= a.items@.len(),
            forall|j: int| 0 <= j < i ==> b@.contains(#[trigger] a.items@[j]),
        decreases a.items.len() - i,
    {
        if !b.contains(&a.items[i]) {
            assert(a@.contains(a.items@[i as int]));
            return false;
        }
        i = i + 1;
    }
    true
}

/// Equal sets have the same members, in whatever order.
impl PartialEq for AfiSafiSet {
    fn eq(&self, other: &Self) -> (r: bool) {
        let r = is_subset(self, other) && is_subset(other, self);
        proof {
            if r {
                assert(self@ =~= other@);
            }
        }
        r
    }
}

impl vstd::std_specs::cmp::PartialEqSpecImpl for AfiSafiSet {
    open spec fn obeys_eq_spec() -> bool {
        true
    }

    open spec fn eq_spec(&self, other: &Self) -> bool {
        self@ == other@
    }
}

impl Clone for AfiSafiSet {
    fn clone(&self) -> (r: Self)
        ensures
            r@ == self@,
            r.listed() == self.listed(),
    {
        proof {
            use_type_invariant(&*self);
        }
        AfiSafiSet { items: copy_items(&self.items) }
    }
}

impl Default for AfiSafiSet {
    fn default() -> (r: Self)
        ensures
            r@ == Set::<AfiSafi>::empty(),
    {
        AfiSafiSet::new()
    }
}

} // verus!
