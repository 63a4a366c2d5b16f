//! What actions and statements do to routes.

use crate::bgp::community::LargeCommunity;
use crate::policy::action;
use crate::policy::action::{ActionView, OpView};
use crate::policy::statement;
use crate::policy::statement::StatementView;
use crate::rib::{PathAttrsView, PathView, RouteKeyView};
use crate::rpki::RpkiValidation;
use vstd::prelude::*;

verus! {

/// What no action changes: the identifiers of a path, whether it is stale, and all
/// attributes but the preferences and the communities.
pub proof fn law_actions_leave_the_rest(a: ActionView, p: PathView)
    ensures
        a.on(p).local_path_id == p.local_path_id,
        a.on(p).remote_path_id == p.remote_path_id,
        a.on(p).stale == p.stale,
        a.on(p).attrs == (PathAttrsView {
            local_pref: a.on(p).attrs.local_pref,
            med: a.on(p).attrs.med,
            communities: a.on(p).attrs.communities,
            extended_communities: a.on(p).attrs.extended_communities,
            large_communities: a.on(p).attrs.large_communities,
            ..p.attrs
        }),
        !(a is SetRpkiState) ==> a.on(p).rpki_state == p.rpki_state,
        !(a is SetLocalPref) ==> a.on(p).attrs.local_pref == p.attrs.local_pref,
        !(a is SetMed) ==> a.on(p).attrs.med == p.attrs.med,
        !(a is SetCommunity) ==> a.on(p).attrs.communities == p.attrs.communities,
        !(a is SetExtCommunity) ==> a.on(p).attrs.extended_communities
            == p.attrs.extended_communities,
        !(a is SetLargeCommunity) ==> a.on(p).attrs.large_communities == p.attrs.large_communities,
{
}

/// A preference, a discriminator or an outcome of validation that is set is what
/// the path has afterwards; an earlier preference stays unless it is overruled.
pub proof fn law_actions_set_values(
    p: PathView,
    value: u32,
    med: Option<u32>,
    s: RpkiValidation,
)
    ensures
        (ActionView::SetLocalPref { value, force: true }).on(p).attrs.local_pref == Some(value),
        p.attrs.local_pref is None ==> (ActionView::SetLocalPref { value, force: false }).on(
            p,
        ).attrs.local_pref == Some(value),
        p.attrs.local_pref is Some ==> (ActionView::SetLocalPref { value, force: false }).on(p)
            == p,
        ActionView::SetMed(med).on(p).attrs.med == med,
        ActionView::SetRpkiState(s).on(p).rpki_state == s,
        ActionView::Accept.on(p) == p,
        ActionView::Reject.on(p) == p,
{
}

/// Adding communities keeps those that are there, in front and in their order, and
/// brings in those that are missing; removing leaves those that are not named;
/// replacing gives just those that are named.
pub proof fn law_actions_change_communities(p: PathView, l: Seq<u32>)
    ensures
        ({
            let old = p.attrs.communities;
            let added = ActionView::SetCommunity(OpView::Add(l)).on(p).attrs.communities;
            let left = ActionView::SetCommunity(OpView::Remove(l)).on(p).attrs.communities;
            let new = ActionView::SetCommunity(OpView::Replace(l)).on(p).attrs.communities;
            &&& old.len() <= added.len() && added.take(old.len() as int) == old
            &&& forall|x: u32| #[trigger] added.contains(x) <==> old.contains(x) || l.contains(x)
            &&& forall|x: u32| #[trigger] left.contains(x) <==> old.contains(x) && !l.contains(x)
            &&& new == l
        }),
{
    action::law_add_missing(p.attrs.communities, l);
    action::law_without_items(p.attrs.communities, l);
}

/// The same of extended communities.
pub proof fn law_actions_change_ext_communities(p: PathView, l: Seq<u64>)
    ensures
        ({
            let old = p.attrs.extended_communities;
            let added = ActionView::SetExtCommunity(OpView::Add(l)).on(
                p,
            ).attrs.extended_communities;
            let left = ActionView::SetExtCommunity(OpView::Remove(l)).on(
                p,
            ).attrs.extended_communities;
            let new = ActionView::SetExtCommunity(OpView::Replace(l)).on(
                p,
            ).attrs.extended_communities;
            &&& old.len() <= added.len() && added.take(old.len() as int) == old
            &&& forall|x: u64| #[trigger] added.contains(x) <==> old.contains(x) || l.contains(x)
            &&& forall|x: u64| #[trigger] left.contains(x) <==> old.contains(x) && !l.contains(x)
            &&& new == l
        }),
{
    action::law_add_missing(p.attrs.extended_communities, l);
    action::law_without_items(p.attrs.extended_communities, l);
}

/// The same of large communities.
pub proof fn law_actions_change_large_communities(p: PathView, l: Seq<LargeCommunity>)
    ensures
        ({
            let old = p.attrs.large_communities;
            let added = ActionView::SetLargeCommunity(OpView::Add(l)).on(p).attrs.large_communities;
            let left = ActionView::SetLargeCommunity(OpView::Remove(l)).on(
                p,
            ).attrs.large_communities;
            let new = ActionView::SetLargeCommunity(OpView::Replace(l)).on(
                p,
            ).attrs.large_communities;
            &&& old.len() <= added.len() && added.take(old.len() as int) == old
            &&& forall|x: LargeCommunity| #[trigger]
                added.contains(x) <==> old.contains(x) || l.contains(x)
            &&& forall|x: LargeCommunity| #[trigger]
                left.contains(x) <==> old.contains(x) && !l.contains(x)
            &&& new == l
        }),
{
    action::law_add_missing(p.attrs.large_communities, l);
    action::law_without_items(p.attrs.large_communities, l);
}

/// Removing keeps the order of what is left: what is left of a list and one more
/// member is what is left of the list, and the member if it is not named.
pub proof fn law_removal_keeps_the_order<T>(list: Seq<T>, x: T, gone: Seq<T>)
    ensures
        action::without_items(Seq::<T>::empty(), gone) == Seq::<T>::empty(),
        action::without_items(list.push(x), gone) == (if gone.contains(x) {
            action::without_items(list, gone)
        } else {
            action::without_items(list, gone).push(x)
        }),
{
    reveal(Seq::filter);
    assert(list.push(x).drop_last() =~= list);
}

/// Actions are taken in their order: those of two lists one list after the other,
/// a single one by itself, and none without effect.
pub proof fn law_actions_run_in_order(
    a: Seq<ActionView>,
    b: Seq<ActionView>,
    x: ActionView,
    p: PathView,
)
    ensures
        statement::run_actions(a + b, p) == statement::run_actions(
            b,
            statement::run_actions(a, p),
        ),
        statement::run_actions(seq![x], p) == x.on(p),
        statement::run_actions(Seq::empty(), p) == p,
    decreases b.len(),
{
    let one = seq![x];
    assert(one.drop_last() =~= Seq::<ActionView>::empty());
    assert(one.last() == x);
    if b.len() == 0 {
        assert(a + b =~= a);
    } else {
        law_actions_run_in_order(a, b.drop_last(), x, p);
        assert((a + b).drop_last() =~= a + b.drop_last());
        assert((a + b).last() == b.last());
    }
}

/// A statement says something of a route exactly if the route meets every one of
/// its conditions; then it rejects the route exactly if one of its actions does,
/// and all of them are taken. A route that misses a condition is left as it is.
pub proof fn law_statements_need_every_condition(
    s: StatementView,
    key: RouteKeyView,
    path: PathView,
)
    ensures
        (forall|i: int|
            0 <= i < s.conditions.len() ==> (#[trigger] s.conditions[i]).holds(key, path)) ==> {
            &&& s.verdict(key, path) == Some(
                forall|i: int| 0 <= i < s.actions.len() ==> #[trigger] s.actions[i]
                    != ActionView::Reject,
            )
            &&& s.effect(key, path) == statement::run_actions(s.actions, path)
        },
        (exists|i: int|
            0 <= i < s.conditions.len() && !(#[trigger] s.conditions[i]).holds(key, path)) ==> s.verdict(
            key,
            path,
        ) is None && s.effect(key, path) == path,
{
    if s.rejects() {
        let i = choose|i: int| 0 <= i < s.actions.len() && (#[trigger] s.actions[i]) is Reject;
        assert(s.actions[i] == ActionView::Reject);
    } else {
        assert forall|i: int| 0 <= i < s.actions.len() implies #[trigger] s.actions[i]
            != ActionView::Reject by {
            assert(!(s.actions[i] is Reject));
        }
    }
}

/// Adding puts each value that is missing behind the others, once and in the order in
/// which it is named.
pub proof fn law_addition_keeps_the_order<T>(list: Seq<T>, extra: Seq<T>, x: T)
    ensures
        OpView::Add(Seq::<T>::empty()).on(list) == list,
        OpView::Add(extra.push(x)).on(list) == (if OpView::Add(extra).on(list).contains(x) {
            OpView::Add(extra).on(list)
        } else {
            OpView::Add(extra).on(list).push(x)
        }),
{
    assert(extra.push(x).drop_last() =~= extra);
}

} // verus!
