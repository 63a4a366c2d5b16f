//! What a statement does with a route.

use crate::bgp::community::LargeCommunity;
use crate::rib::{Path, PathAttrsView, PathView};
use crate::rpki::RpkiValidation;
use crate::seqs::{contains_item, copy_items, Same};
use vstd::prelude::*;

verus! {

// ---------------------------------------------------------------------------
// Changes to lists of communities
// ---------------------------------------------------------------------------

/// A change to the standard communities of a path.
#[derive(Debug, PartialEq, Eq)]
pub enum CommunityOp {
    Add(Vec<u32>),
    Remove(Vec<u32>),
    Replace(Vec<u32>),
}

/// A change to the extended communities of a path.
#[derive(Debug, PartialEq, Eq)]
pub enum ExtCommunityOp {
    Add(Vec<u64>),
    Remove(Vec<u64>),
    Replace(Vec<u64>),
}

/// A change to the large communities of a path.
#[derive(Debug, PartialEq, Eq)]
pub enum LargeCommunityOp {
    Add(Vec<LargeCommunity>),
    Remove(Vec<LargeCommunity>),
    Replace(Vec<LargeCommunity>),
}

/// A change to a list.
pub enum OpView<T> {
    Add(Seq<T>),
    Remove(Seq<T>),
    Replace(Seq<T>),
}

impl View for CommunityOp {
    type V = OpView<u32>;

    open spec fn view(&self) -> OpView<u32> {
        match self {
            CommunityOp::Add(v) => OpView::Add(v@),
            CommunityOp::Remove(v) => OpView::Remove(v@),
            CommunityOp::Replace(v) => OpView::Replace(v@),
        }
    }
}

impl View for ExtCommunityOp {
    type V = OpView<u64>;

    open spec fn view(&self) -> OpView<u64> {
        match self {
            ExtCommunityOp::Add(v) => OpView::Add(v@),
            ExtCommunityOp::Remove(v) => OpView::Remove(v@),
            ExtCommunityOp::Replace(v) => OpView::Replace(v@),
        }
    }
}

impl View for LargeCommunityOp {
    type V = OpView<LargeCommunity>;

    open spec fn view(&self) -> OpView<LargeCommunity> {
        match self {
            LargeCommunityOp::Add(v) => OpView::Add(v@),
            LargeCommunityOp::Remove(v) => OpView::Remove(v@),
            LargeCommunityOp::Replace(v) => OpView::Replace(v@),
        }
    }
}

impl Clone for CommunityOp {
    fn clone(&self) -> (r: Self)
        ensures
            r@ == self@,
    {
        match self {
            CommunityOp::Add(v) => CommunityOp::Add(copy_items(v)),
            CommunityOp::Remove(v) => CommunityOp::Remove(copy_items(v)),
            CommunityOp::Replace(v) => CommunityOp::Replace(copy_items(v)),
        }
    }
}

impl Clone for ExtCommunityOp {
    fn clone(&self) -> (r: Self)
        ensures
            r@ == self@,
    {
        match self {
            ExtCommunityOp::Add(v) => ExtCommunityOp::Add(copy_items(v)),
            ExtCommunityOp::Remove(v) => ExtCommunityOp::Remove(copy_items(v)),
            ExtCommunityOp::Replace(v) => ExtCommunityOp::Replace(copy_items(v)),
        }
    }
}

impl Clone for LargeCommunityOp {
    fn clone(&self) -> (r: Self)
        ensures
            r@ == self@,
    {
        match self {
            LargeCommunityOp::Add(v) => LargeCommunityOp::Add(copy_items(v)),
            LargeCommunityOp::Remove(v) => LargeCommunityOp::Remove(copy_items(v)),
            LargeCommunityOp::Replace(v) => LargeCommunityOp::Replace(copy_items(v)),
        }
    }
}

/// The list with the missing ones of `extra` behind it, each once.
pub open spec fn add_missing<T>(list: Seq<T>, extra: Seq<T>) -> Seq<T>
    decreases extra.len(),
{
    if extra.len() == 0 {
        list
    } else {
        let so_far = add_missing(list, extra.drop_last());
        if so_far.contains(extra.last()) {
            so_far
        } else {
            so_far.push(extra.last())
        }
    }
}

/// The list without the members of `gone`.
pub open spec fn without_items<T>(list: Seq<T>, gone: Seq<T>) -> Seq<T> {
    list.filter(|x: T| !gone.contains(x))
}

impl<T> OpView<T> {
    /// What the change makes of a list.
    pub open spec fn on(self, list: Seq<T>) -> Seq<T> {
        match self {
            OpView::Add(extra) => add_missing(list, extra),
            OpView::Remove(gone) => without_items(list, gone),
            OpView::Replace(new) => new,
        }
    }
}

/// The list with the missing ones of `extra` behind it.
fn with_missing<T: Same>(list: &Vec<T>, extra: &Vec<T>) -> (r: Vec<T>)
    ensures
        r@ == add_missing(list@, extra@),
{
    let mut r = copy_items(list);
    let mut i: usize = 0;
    while i < extra.len()
        invariant
            i <= extra@.len(),
            r@ == add_missing(list@, extra@.take(i as int)),
        decreases extra.len() - i,
    {
        proof {
            assert(extra@.take(i + 1).drop_last() =~= extra@.take(i as int));
            assert(extra@.take(i + 1).last() == extra@[i as int]);
        }
        if !contains_item(&r, &extra[i]) {
            r.push(extra[i]);
        }
        i = i + 1;
    }
    assert(extra@.take(extra@.len() as int) =~= extra@);
    r
}

/// The list without the members of `gone`.
fn without<T: Same>(list: &Vec<T>, gone: &Vec<T>) -> (r: Vec<T>)
    ensures
        r@ == without_items(list@, gone@),
{
    let ghost keep = |x: T| !gone@.contains(x);
    let mut r: Vec<T> = Vec::new();
    let mut i: usize = 0;
    assert(list@.take(0).filter(keep) =~= Seq::<T>::empty()) by {
        reveal(Seq::filter);
    }
    while i < list.len()
        invariant
            i <= list@.len(),
            keep == (|x: T| !gone@.contains(x)),
            r@ == list@.take(i as int).filter(keep),
        decreases list.len() - i,
    {
        proof {
            let t = list@.take(i as int);
            assert(list@.take(i + 1) =~= t.push(list@[i as int]));
            t.lemma_filter_push(list@[i as int], keep);
        }
        if !contains_item(gone, &list[i]) {
            r.push(list[i]);
        }
        i = i + 1;
    }
    assert(list@.take(list@.len() as int) =~= list@);
    r
}

impl CommunityOp {
    pub fn apply(&self, list: &Vec<u32>) -> (r: Vec<u32>)
        ensures
            r@ == self@.on(list@),
    {
        match self {
            CommunityOp::Add(v) => with_missing(list, v),
            CommunityOp::Remove(v) => without(list, v),
            CommunityOp::Replace(v) => copy_items(v),
        }
    }
}

impl ExtCommunityOp {
    pub fn apply(&self, list: &Vec<u64>) -> (r: Vec<u64>)
        ensures
            r@ == self@.on(list@),
    {
        match self {
            ExtCommunityOp::Add(v) => with_missing(list, v),
            ExtCommunityOp::Remove(v) => without(list, v),
            ExtCommunityOp::Replace(v) => copy_items(v),
        }
    }
}

impl LargeCommunityOp {
    pub fn apply(&self, list: &Vec<LargeCommunity>) -> (r: Vec<LargeCommunity>)
        ensures
            r@ == self@.on(list@),
    {
        match self {
            LargeCommunityOp::Add(v) => with_missing(list, v),
            LargeCommunityOp::Remove(v) => without(list, v),
            LargeCommunityOp::Replace(v) => copy_items(v),
        }
    }
}

/// Adding keeps what was there in place, brings in every member of `extra` and
/// nothing else, and adding again changes nothing.
pub proof fn law_add_missing<T>(list: Seq<T>, extra: Seq<T>)
    ensures
        list.len() <= add_missing(list, extra).len(),
        add_missing(list, extra).take(list.len() as int) == list,
        forall|x: T|
            #[trigger] add_missing(list, extra).contains(x) <==> list.contains(x)
                || extra.contains(x),
        list.no_duplicates() ==> add_missing(list, extra).no_duplicates(),
        add_missing(add_missing(list, extra), extra) == add_missing(list, extra),
{
    lemma_add_missing(list, extra);
    lemma_add_nothing(add_missing(list, extra), extra);
}

proof fn lemma_add_missing<T>(list: Seq<T>, extra: Seq<T>)
    ensures
        list.len() <= add_missing(list, extra).len(),
        add_missing(list, extra).take(list.len() as int) == list,
        forall|x: T|
            #[trigger] add_missing(list, extra).contains(x) <==> list.contains(x)
                || extra.contains(x),
        list.no_duplicates() ==> add_missing(list, extra).no_duplicates(),
    decreases extra.len(),
{
    let r = add_missing(list, extra);
    if extra.len() == 0 {
        assert(r.take(list.len() as int) =~= list);
    } else {
        let p = add_missing(list, extra.drop_last());
        lemma_add_missing(list, extra.drop_last());
        assert(r.take(list.len() as int) =~= p.take(list.len() as int));
        assert forall|x: T| #[trigger] r.contains(x) <==> list.contains(x) || extra.contains(x) by {
            let last = extra.last();
            assert(extra[extra.len() - 1] == last);
            if extra.contains(x) {
                let i = choose|i: int| 0 <= i < extra.len() && extra[i] == x;
                if i < extra.len() - 1 {
                    assert(extra.drop_last()[i] == x);
                    assert(extra.drop_last().contains(x));
                }
            }
            if extra.drop_last().contains(x) {
                let i = choose|i: int|
                    0 <= i < extra.drop_last().len() && extra.drop_last()[i] == x;
                assert(extra[i] == x);
            }
            if !p.contains(last) {
                assert(r[r.len() - 1] == last);
                if p.contains(x) {
                    let i = choose|i: int| 0 <= i < p.len() && p[i] == x;
                    assert(r[i] == x);
                }
                if r.contains(x) && x != last {
                    let i = choose|i: int| 0 <= i < r.len() && r[i] == x;
                    assert(p[i] == x);
                }
            }
        }
        if list.no_duplicates() && !p.contains(extra.last()) {
            assert forall|i: int, j: int| 0 <= i < r.len() && 0 <= j < r.len() && i != j implies r[i]
                != r[j] by {
                if i < p.len() {
                    assert(p.contains(p[i]));
                }
                if j < p.len() {
                    assert(p.contains(p[j]));
                }
            }
        }
    }
}

proof fn lemma_add_nothing<T>(list: Seq<T>, extra: Seq<T>)
    requires
        forall|i: int| 0 <= i < extra.len() ==> list.contains(#[trigger] extra[i]),
    ensures
        add_missing(list, extra) == list,
    decreases extra.len(),
{
    if extra.len() > 0 {
        assert forall|i: int| 0 <= i < extra.drop_last().len() implies list.contains(
            #[trigger] extra.drop_last()[i],
        ) by {
            assert(list.contains(extra[i]));
        }
        lemma_add_nothing(list, extra.drop_last());
        assert(list.contains(extra[extra.len() - 1]));
    }
}

/// Removing leaves exactly the members that were not to go, in their order,
/// and removing again changes nothing.
pub proof fn law_without_items<T>(list: Seq<T>, gone: Seq<T>)
    ensures
        forall|x: T|
            #[trigger] without_items(list, gone).contains(x) <==> list.contains(x)
                && !gone.contains(x),
        without_items(without_items(list, gone), gone) == without_items(list, gone),
    decreases list.len(),
{
    let keep = |x: T| !gone.contains(x);
    let r = without_items(list, gone);
    reveal(Seq::filter);
    if list.len() == 0 {
        assert forall|x: T| #[trigger] r.contains(x) <==> list.contains(x) && !gone.contains(x) by {
        }
    } else {
        let p = without_items(list.drop_last(), gone);
        law_without_items(list.drop_last(), gone);
        let last = list.last();
        assert(list[list.len() - 1] == last);
        assert(r == if keep(last) {
            p.push(last)
        } else {
            p
        });
        assert forall|x: T| #[trigger] r.contains(x) <==> list.contains(x) && !gone.contains(x) by {
            if list.contains(x) {
                let i = choose|i: int| 0 <= i < list.len() && list[i] == x;
                if i < list.len() - 1 {
                    assert(list.drop_last()[i] == x);
                    assert(list.drop_last().contains(x));
                }
            }
            if list.drop_last().contains(x) {
                let i = choose|i: int| 0 <= i < list.drop_last().len() && list.drop_last()[i] == x;
                assert(list[i] == x);
            }
            if keep(last) {
                assert(r[r.len() - 1] == last);
                if p.contains(x) {
                    let i = choose|i: int| 0 <= i < p.len() && p[i] == x;
                    assert(r[i] == x);
                }
                if r.contains(x) && x != last {
                    let i = choose|i: int| 0 <= i < r.len() && r[i] == x;
                    assert(p[i] == x);
                }
            }
        }
        if keep(last) {
            p.lemma_filter_push(last, keep);
        }
    }
}

// ---------------------------------------------------------------------------
// Actions
// ---------------------------------------------------------------------------

/// What a statement does with a route that meets its conditions.
#[derive(Debug, PartialEq, Eq)]
pub enum Action {
    Accept,
    Reject,
    SetLocalPref { value: u32, force: bool },
    SetMed(Option<u32>),
    SetCommunity(CommunityOp),
    SetExtCommunity(ExtCommunityOp),
    SetLargeCommunity(LargeCommunityOp),
    SetRpkiState(RpkiValidation),
}

pub enum ActionView {
    Accept,
    Reject,
    SetLocalPref { value: u32, force: bool },
    SetMed(Option<u32>),
    SetCommunity(OpView<u32>),
    SetExtCommunity(OpView<u64>),
    SetLargeCommunity(OpView<LargeCommunity>),
    SetRpkiState(RpkiValidation),
}

impl View for Action {
    type V = ActionView;

    open spec fn view(&self) -> ActionView {
        match self {
            Action::Accept => ActionView::Accept,
            Action::Reject => ActionView::Reject,
            Action::SetLocalPref { value, force } => ActionView::SetLocalPref {
                value: *value,
                force: *force,
            },
            Action::SetMed(v) => ActionView::SetMed(*v),
            Action::SetCommunity(op) => ActionView::SetCommunity(op@),
            Action::SetExtCommunity(op) => ActionView::SetExtCommunity(op@),
            Action::SetLargeCommunity(op) => ActionView::SetLargeCommunity(op@),
            Action::SetRpkiState(s) => ActionView::SetRpkiState(*s),
        }
    }
}

impl Clone for Action {
    fn clone(&self) -> (r: Self)
        ensures
            r@ == self@,
    {
        match self {
            Action::Accept => Action::Accept,
            Action::Reject => Action::Reject,
            Action::SetLocalPref { value, force } => Action::SetLocalPref {
                value: *value,
                force: *force,
            },
            Action::SetMed(v) => Action::SetMed(*v),
            Action::SetCommunity(op) => Action::SetCommunity(op.clone()),
            Action::SetExtCommunity(op) => Action::SetExtCommunity(op.clone()),
            Action::SetLargeCommunity(op) => Action::SetLargeCommunity(op.clone()),
            Action::SetRpkiState(s) => Action::SetRpkiState(*s),
        }
    }
}

impl ActionView {
    /// What the action makes of a path. A local preference that is already set
    /// stays unless the action forces its own.
    pub open spec fn on(self, p: PathView) -> PathView {
        match self {
            ActionView::Accept => p,
            ActionView::Reject => p,
            ActionView::SetLocalPref { value, force } => if force || p.attrs.local_pref is None {
                PathView { attrs: PathAttrsView { local_pref: Some(value), ..p.attrs }, ..p }
            } else {
                p
            },
            ActionView::SetMed(v) => PathView {
                attrs: PathAttrsView { med: v, ..p.attrs },
                ..p
            },
            ActionView::SetCommunity(op) => PathView {
                attrs: PathAttrsView { communities: op.on(p.attrs.communities), ..p.attrs },
                ..p
            },
            ActionView::SetExtCommunity(op) => PathView {
                attrs: PathAttrsView {
                    extended_communities: op.on(p.attrs.extended_communities),
                    ..p.attrs
                },
                ..p
            },
            ActionView::SetLargeCommunity(op) => PathView {
                attrs: PathAttrsView {
                    large_communities: op.on(p.attrs.large_communities),
                    ..p.attrs
                },
                ..p
            },
            ActionView::SetRpkiState(s) => PathView { rpki_state: s, ..p },
        }
    }
}

impl Action {
    /// Changes the path; says whether the route may still be accepted.
    pub fn apply(&self, path: &mut Path) -> (r: bool)
        ensures
            final(path)@ == self@.on(old(path)@),
            r == !(self@ is Reject),
    {
        match self {
            Action::Accept => true,
            Action::Reject => false,
            Action::SetLocalPref { value, force } => {
                if *force || path.local_pref().is_none() {
                    let mut attrs = (*path.attrs).clone();
                    attrs.local_pref = Some(*value);
                    path.set_attrs(attrs);
                }
                true
            },
            Action::SetMed(value) => {
                let mut attrs = (*path.attrs).clone();
                attrs.med = *value;
                path.set_attrs(attrs);
                true
            },
            Action::SetCommunity(op) => {
                let mut attrs = (*path.attrs).clone();
                attrs.communities = op.apply(&attrs.communities);
                path.set_attrs(attrs);
                true
            },
            Action::SetExtCommunity(op) => {
                let mut attrs = (*path.attrs).clone();
                attrs.extended_communities = op.apply(&attrs.extended_communities);
                path.set_attrs(attrs);
                true
            },
            Action::SetLargeCommunity(op) => {
                let mut attrs = (*path.attrs).clone();
                attrs.large_communities = op.apply(&attrs.large_communities);
                path.set_attrs(attrs);
                true
            },
            Action::SetRpkiState(state) => {
                path.rpki_state = *state;
                true
            },
        }
    }
}

} // verus!
