//! Values that are found by their names.

use crate::text::text_eq;
use vstd::prelude::*;

verus! {

/// A value with a name.
pub trait Named: View + Sized {
    spec fn key(&self) -> Seq<char>;

    fn name(&self) -> (r: &str)
        ensures
            r@ == self.key(),
    ;

    fn copy(&self) -> (r: Self)
        ensures
            r@ == self@,
            r.key() == self.key(),
    ;
}

/// The values of a list by their names; of two with one name the later counts.
pub open spec fn by_name<T: Named>(s: Seq<T>) -> Map<Seq<char>, T::V>
    decreases s.len(),
{
    if s.len() == 0 {
        Map::empty()
    } else {
        by_name(s.drop_last()).insert(s.last().key(), s.last()@)
    }
}

/// Values by their names. They are kept in a list; inserting one takes out the
/// one with the same name first.
#[derive(Debug, PartialEq)]
pub struct Table<T> {
    items: Vec<T>,
}

impl<T: Named> View for Table<T> {
    type V = Map<Seq<char>, T::V>;

    closed spec fn view(&self) -> Map<Seq<char>, T::V> {
        by_name(self.items@)
    }
}

proof fn lemma_by_name_contains<T: Named>(s: Seq<T>, n: Seq<char>)
    ensures
        by_name(s).contains_key(n) <==> exists|i: int| 0 <= i < s.len() && s[i].key() == n,
    decreases s.len(),
{
    if s.len() > 0 {
        lemma_by_name_contains(s.drop_last(), n);
        if exists|i: int| 0 <= i < s.drop_last().len() && s.drop_last()[i].key() == n {
            let i = choose|i: int| 0 <= i < s.drop_last().len() && s.drop_last()[i].key() == n;
            assert(s[i].key() == n);
        }
        if exists|i: int| 0 <= i < s.len() && s[i].key() == n {
            let i = choose|i: int| 0 <= i < s.len() && s[i].key() == n;
            if i < s.len() - 1 {
                assert(s.drop_last()[i].key() == n);
            }
        }
    }
}

proof fn lemma_by_name_remove<T: Named>(s: Seq<T>, i: int)
    requires
        0 <= i < s.len(),
    ensures
        by_name(s.remove(i)).remove(s[i].key()) == by_name(s).remove(s[i].key()),
    decreases s.len(),
{
    let n = s[i].key();
    if i == s.len() - 1 {
        assert(s.remove(i) =~= s.drop_last());
        assert(by_name(s).remove(n) =~= by_name(s.drop_last()).remove(n));
    } else {
        assert(s.remove(i).drop_last() =~= s.drop_last().remove(i));
        assert(s.remove(i).last() == s.last());
        lemma_by_name_remove(s.drop_last(), i);
        let (k, v) = (s.last().key(), s.last()@);
        let a = by_name(s.drop_last().remove(i));
        let b = by_name(s.drop_last());
        if k == n {
            assert(a.insert(k, v).remove(n) =~= a.remove(n));
            assert(b.insert(k, v).remove(n) =~= b.remove(n));
        } else {
            assert(a.insert(k, v).remove(n) =~= a.remove(n).insert(k, v));
            assert(b.insert(k, v).remove(n) =~= b.remove(n).insert(k, v));
        }
    }
}

/// Two values have one name and hold the same.
spec fn alike<T: Named>(a: T, b: T) -> bool {
    a@ == b@ && a.key() == b.key()
}

proof fn lemma_by_name_same<T: Named>(a: Seq<T>, b: Seq<T>)
    requires
        a.len() == b.len(),
        forall|i: int| 0 <= i < a.len() ==> alike(#[trigger] a[i], b[i]),
    ensures
        by_name(a) == by_name(b),
    decreases a.len(),
{
    if a.len() > 0 {
        let (p, q) = (a.drop_last(), b.drop_last());
        assert forall|i: int| 0 <= i < p.len() implies alike(#[trigger] p[i], q[i]) by {
            assert(alike(a[i], b[i]));
        }
        lemma_by_name_same(p, q);
        assert(alike(a[a.len() - 1], b[a.len() - 1]));
    }
}

impl<T: Named> Clone for Table<T> {
    fn clone(&self) -> (r: Self)
        ensures
            r@ == self@,
    {
        let mut items: Vec<T> = Vec::new();
        let mut i: usize = 0;
        while i < self.items.len()
            invariant
                i <= self.items@.len(),
                items@.len() == i,
                forall|j: int| 0 <= j < i ==> alike(#[trigger] items@[j], self.items@[j]),
            decreases self.items.len() - i,
        {
            items.push(self.items[i].copy());
            i = i + 1;
        }
        proof {
            lemma_by_name_same(items@, self.items@);
        }
        Table { items }
    }
}

impl<T: Named> Table<T> {
    pub fn new() -> (r: Self)
        ensures
            r@ == Map::<Seq<char>, T::V>::empty(),
    {
        Table { items: Vec::new() }
    }

    /// The value with the given name.
    pub fn get(&self, name: &str) -> (r: Option<&T>)
        ensures
            match r {
                Some(x) => self@.contains_key(name@) && x@ == self@[name@] && x.key() == name@,
                None => !self@.contains_key(name@),
            },
    {
        let mut i: usize = self.items.len();
        let ghost s = self.items@;
        assert(s.take(i as int) =~= s);
        while i > 0
            invariant
                i <= s.len(),
                s == self.items@,
                by_name(s.take(i as int)).contains_key(name@) == by_name(s).contains_key(name@),
                by_name(s).contains_key(name@) ==> by_name(s.take(i as int))[name@] == by_name(
                    s,
                )[name@],
            decreases i,
        {
            i = i - 1;
            assert(s.take(i + 1).drop_last() =~= s.take(i as int));
            if text_eq(self.items[i].name(), name) {
                return Some(&self.items[i]);
            }
        }
        None
    }

    pub fn contains_key(&self, name: &str) -> (r: bool)
        ensures
            r == self@.contains_key(name@),
    {
        self.get(name).is_some()
    }

    /// Takes out the value with the given name; says whether there was one.
    pub fn remove(&mut self, name: &str) -> (r: bool)
        ensures
            final(self)@ == old(self)@.remove(name@),
            r == old(self)@.contains_key(name@),
    {
        let ghost before = self.items@;
        let mut found = false;
        let mut i: usize = 0;
        proof {
            lemma_by_name_contains(before, name@);
        }
        while i < self.items.len()
            invariant
                i <= self.items@.len(),
                by_name(self.items@).remove(name@) == by_name(before).remove(name@),
                forall|j: int| 0 <= j < i ==> self.items@[j].key() != name@,
                found ==> by_name(before).contains_key(name@),
                !found ==> self.items@ == before,
            decreases self.items.len() - i,
        {
            let hit = text_eq(self.items[i].name(), name);
            if hit {
                proof {
                    lemma_by_name_remove(self.items@, i as int);
                    if !found {
                        assert(before[i as int].key() == name@);
                        lemma_by_name_contains(before, name@);
                    }
                }
                self.items.remove(i);
                found = true;
            } else {
                i = i + 1;
            }
        }
        proof {
            lemma_by_name_contains(self.items@, name@);
            assert(by_name(self.items@).remove(name@) =~= by_name(self.items@));
        }
        found
    }

    /// Puts in a value, in the place of the one with its name.
    pub fn insert(&mut self, x: T)
        ensures
            final(self)@ == old(self)@.insert(x.key(), x@),
    {
        let ghost before = self@;
        let ghost k = x.key();
        let ghost v = x@;
        self.remove(x.name());
        let ghost rest = self.items@;
        self.items.push(x);
        proof {
            assert(self.items@.drop_last() =~= rest);
            assert(before.remove(k).insert(k, v) =~= before.insert(k, v));
        }
    }

    pub fn clear(&mut self)
        ensures
            final(self)@ == Map::<Seq<char>, T::V>::empty(),
    {
        self.items.clear();
    }
}

} // verus!
