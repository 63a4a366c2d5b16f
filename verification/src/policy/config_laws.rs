//! A statement is written down as the configuration that it was built from.

use crate::bgp::community;
use crate::bgp::ext_community;
use crate::conf;
use crate::conf::{
    ActionsView, CommunityActionView, ConditionsView, LocalPrefActionConfig, MatchSetRefView,
    MedActionConfig, StatementConfigView,
};
use crate::net::addr_text;
use crate::policy::action::ActionView;
use crate::policy::condition::ConditionView;
use crate::policy::from_config;
use crate::policy::sets::{DefinedSetsView, NamedList};
use crate::policy::statement;
use vstd::prelude::*;

verus! {

// ---------------------------------------------------------------------------
// Notations
// ---------------------------------------------------------------------------

/// A reference is missing or names a set that is there, under its own name.
pub open spec fn names_a_set<T>(
    r: Option<MatchSetRefView>,
    m: Map<Seq<char>, NamedList<T>>,
) -> bool {
    match r {
        Some(x) => m.contains_key(x.set_name) && m[x.set_name].name == x.set_name,
        None => true,
    }
}

/// A text is missing or is the notation of the network that it denotes.
pub open spec fn own_network(v: Option<Seq<char>>) -> bool {
    match v {
        Some(t) => match addr_text::read_network(t) {
            Some(p) => p.text() == t,
            None => false,
        },
        None => true,
    }
}

/// A text is missing or is the notation of the address that it denotes.
pub open spec fn own_address(v: Option<Seq<char>>) -> bool {
    match v {
        Some(t) => match addr_text::read_ip(t) {
            Some(x) => x.text() == t,
            None => false,
        },
        None => true,
    }
}

/// `t` is what `writer` makes of what `reader` makes of it.
pub open spec fn own_text<T>(
    t: Seq<char>,
    reader: spec_fn(Seq<char>) -> Result<T, Seq<char>>,
    writer: spec_fn(T) -> Seq<char>,
) -> bool {
    match reader(t) {
        Ok(x) => writer(x) == t,
        Err(_) => false,
    }
}

/// An operation is missing or is one of the three, on communities in their own
/// notation.
pub open spec fn own_op<T>(
    v: Option<CommunityActionView>,
    reader: spec_fn(Seq<char>) -> Result<T, Seq<char>>,
    writer: spec_fn(T) -> Seq<char>,
) -> bool {
    match v {
        Some(c) => {
            &&& c.operation == "add"@ || c.operation == "remove"@ || c.operation == "replace"@
            &&& forall|i: int|
                0 <= i < c.values.len() ==> own_text(#[trigger] c.values[i], reader, writer)
        },
        None => true,
    }
}

/// The conditions are valid, and each text in them is the notation of what it
/// denotes.
pub open spec fn own_conditions(c: ConditionsView, s: DefinedSetsView) -> bool {
    &&& names_a_set(c.match_prefix_set, s.prefix_sets)
    &&& names_a_set(c.match_neighbor_set, s.neighbor_sets)
    &&& names_a_set(c.match_as_path_set, s.as_path_sets)
    &&& names_a_set(c.match_community_set, s.community_sets)
    &&& names_a_set(c.match_ext_community_set, s.ext_community_sets)
    &&& names_a_set(c.match_large_community_set, s.large_community_sets)
    &&& own_network(c.prefix)
    &&& own_address(c.neighbor)
    &&& match c.route_type {
        Some(t) => from_config::read_route_type(t) is Some,
        None => true,
    }
    &&& match c.community {
        Some(t) => own_text(
            t,
            from_config::community_reader(),
            statement::community_writer(),
        ),
        None => true,
    }
    &&& match c.afi_safi {
        Some(t) => from_config::read_afi_safi(t) is Some,
        None => true,
    }
    &&& match c.ls_nlri_type {
        Some(t) => from_config::read_ls_nlri_type(t) is Some,
        None => true,
    }
    &&& match c.ls_protocol_id {
        Some(t) => from_config::read_ls_protocol_id(t) is Some,
        None => true,
    }
    &&& own_address(c.ls_node_router_id)
}

/// The actions are valid, each text in them is the notation of what it denotes,
/// and none is named only to be switched off.
pub open spec fn own_actions(a: ActionsView) -> bool {
    &&& match a.local_pref {
        Some(LocalPrefActionConfig::Force { value: _, force }) => force,
        _ => true,
    }
    &&& match a.med {
        Some(MedActionConfig::Remove { remove }) => remove,
        _ => true,
    }
    &&& own_op(a.community, from_config::community_reader(), statement::community_writer())
    &&& own_op(
        a.ext_community,
        from_config::ext_community_reader(),
        statement::ext_community_writer(),
    )
    &&& own_op(
        a.large_community,
        from_config::large_community_reader(),
        statement::large_community_writer(),
    )
    &&& match a.accept {
        Some(on) => on,
        None => true,
    }
    &&& match a.reject {
        Some(on) => on,
        None => true,
    }
}

// ---------------------------------------------------------------------------
// Steps
// ---------------------------------------------------------------------------

/// One more entry.
proof fn lemma_collect_next<T>(
    steps: Seq<Option<Result<T, Seq<char>>>>,
    i: int,
    l: Seq<T>,
)
    requires
        0 <= i < steps.len(),
        from_config::collect(steps.take(i)) == Ok::<Seq<T>, Seq<char>>(l),
        !(steps[i] matches Some(Err(_))),
    ensures
        from_config::collect(steps.take(i + 1)) == Ok::<Seq<T>, Seq<char>>(
            match steps[i] {
                Some(Ok(x)) => l.push(x),
                _ => l,
            },
        ),
{
    assert(steps.take(i + 1).drop_last() =~= steps.take(i));
    assert(steps.take(i + 1).last() == steps[i]);
}

proof fn lemma_put_next(l: Seq<ConditionView>, x: ConditionView)
    ensures
        statement::conditions_config(l.push(x)) == statement::put_condition(
            statement::conditions_config(l),
            x,
        ),
{
    assert(l.push(x).drop_last() =~= l);
}

proof fn lemma_put_action_next(l: Seq<ActionView>, x: ActionView)
    ensures
        statement::actions_config(l.push(x)) == statement::put_action(
            statement::actions_config(l),
            x,
        ),
{
    assert(l.push(x).drop_last() =~= l);
}

/// The configuration of the conditions so far, when `x` is the next entry.
#[verifier::opaque]
pub open spec fn noted(
    c: ConditionsView,
    x: Option<Result<ConditionView, Seq<char>>>,
) -> ConditionsView {
    match x {
        Some(Ok(y)) => statement::put_condition(c, y),
        _ => c,
    }
}

/// The configuration of the actions so far, when `x` is the next entry.
pub open spec fn noted_action(
    c: ActionsView,
    x: Option<Result<ActionView, Seq<char>>>,
) -> ActionsView {
    match x {
        Some(Ok(y)) => statement::put_action(c, y),
        _ => c,
    }
}

/// The configuration of the conditions so far, after one more entry.
proof fn lemma_noted(
    steps: Seq<Option<Result<ConditionView, Seq<char>>>>,
    i: int,
    l: Seq<ConditionView>,
) -> (r: Seq<ConditionView>)
    requires
        0 <= i < steps.len(),
        from_config::collect(steps.take(i)) == Ok::<Seq<ConditionView>, Seq<char>>(l),
        !(steps[i] matches Some(Err(_))),
    ensures
        from_config::collect(steps.take(i + 1)) == Ok::<Seq<ConditionView>, Seq<char>>(r),
        statement::conditions_config(r) == noted(statement::conditions_config(l), steps[i]),
{
    reveal(noted);
    lemma_collect_next(steps, i, l);
    match steps[i] {
        Some(Ok(x)) => {
            lemma_put_next(l, x);
            l.push(x)
        },
        _ => l,
    }
}

/// The configuration of the actions so far, after one more entry.
proof fn lemma_noted_action(
    steps: Seq<Option<Result<ActionView, Seq<char>>>>,
    i: int,
    l: Seq<ActionView>,
) -> (r: Seq<ActionView>)
    requires
        0 <= i < steps.len(),
        from_config::collect(steps.take(i)) == Ok::<Seq<ActionView>, Seq<char>>(l),
        !(steps[i] matches Some(Err(_))),
    ensures
        from_config::collect(steps.take(i + 1)) == Ok::<Seq<ActionView>, Seq<char>>(r),
        statement::actions_config(r) == noted_action(statement::actions_config(l), steps[i]),
{
    lemma_collect_next(steps, i, l);
    match steps[i] {
        Some(Ok(x)) => {
            lemma_put_action_next(l, x);
            l.push(x)
        },
        _ => l,
    }
}

proof fn lemma_match_prefix_set(c: ConditionsView, s: DefinedSetsView, x: ConditionsView)
    requires
        own_conditions(c, s),
        x.match_prefix_set is None,
    ensures
        !(from_config::condition_steps(c, s)[0] matches Some(Err(_))),
        noted(x, from_config::condition_steps(c, s)[0]) == (ConditionsView {
            match_prefix_set: c.match_prefix_set,
            ..x
        }),
{
    reveal(noted);
    reveal(from_config::condition_steps);
}

proof fn lemma_match_neighbor_set(c: ConditionsView, s: DefinedSetsView, x: ConditionsView)
    requires
        own_conditions(c, s),
        x.match_neighbor_set is None,
    ensures
        !(from_config::condition_steps(c, s)[1] matches Some(Err(_))),
        noted(x, from_config::condition_steps(c, s)[1]) == (ConditionsView {
            match_neighbor_set: c.match_neighbor_set,
            ..x
        }),
{
    reveal(noted);
    reveal(from_config::condition_steps);
}

proof fn lemma_match_as_path_set(c: ConditionsView, s: DefinedSetsView, x: ConditionsView)
    requires
        own_conditions(c, s),
        x.match_as_path_set is None,
    ensures
        !(from_config::condition_steps(c, s)[2] matches Some(Err(_))),
        noted(x, from_config::condition_steps(c, s)[2]) == (ConditionsView {
            match_as_path_set: c.match_as_path_set,
            ..x
        }),
{
    reveal(noted);
    reveal(from_config::condition_steps);
}

proof fn lemma_match_community_set(c: ConditionsView, s: DefinedSetsView, x: ConditionsView)
    requires
        own_conditions(c, s),
        x.match_community_set is None,
    ensures
        !(from_config::condition_steps(c, s)[3] matches Some(Err(_))),
        noted(x, from_config::condition_steps(c, s)[3]) == (ConditionsView {
            match_community_set: c.match_community_set,
            ..x
        }),
{
    reveal(noted);
    reveal(from_config::condition_steps);
}

proof fn lemma_match_ext_community_set(c: ConditionsView, s: DefinedSetsView, x: ConditionsView)
    requires
        own_conditions(c, s),
        x.match_ext_community_set is None,
    ensures
        !(from_config::condition_steps(c, s)[4] matches Some(Err(_))),
        noted(x, from_config::condition_steps(c, s)[4]) == (ConditionsView {
            match_ext_community_set: c.match_ext_community_set,
            ..x
        }),
{
    reveal(noted);
    reveal(from_config::condition_steps);
}

proof fn lemma_match_large_community_set(c: ConditionsView, s: DefinedSetsView, x: ConditionsView)
    requires
        own_conditions(c, s),
        x.match_large_community_set is None,
    ensures
        !(from_config::condition_steps(c, s)[5] matches Some(Err(_))),
        noted(x, from_config::condition_steps(c, s)[5]) == (ConditionsView {
            match_large_community_set: c.match_large_community_set,
            ..x
        }),
{
    reveal(noted);
    reveal(from_config::condition_steps);
}

proof fn lemma_prefix(c: ConditionsView, s: DefinedSetsView, x: ConditionsView)
    requires
        own_conditions(c, s),
        x.prefix is None,
    ensures
        !(from_config::condition_steps(c, s)[6] matches Some(Err(_))),
        noted(x, from_config::condition_steps(c, s)[6]) == (ConditionsView {
            prefix: c.prefix,
            ..x
        }),
{
    reveal(noted);
    reveal(from_config::condition_steps);
}

proof fn lemma_neighbor(c: ConditionsView, s: DefinedSetsView, x: ConditionsView)
    requires
        own_conditions(c, s),
        x.neighbor is None,
    ensures
        !(from_config::condition_steps(c, s)[7] matches Some(Err(_))),
        noted(x, from_config::condition_steps(c, s)[7]) == (ConditionsView {
            neighbor: c.neighbor,
            ..x
        }),
{
    reveal(noted);
    reveal(from_config::condition_steps);
}

proof fn lemma_has_asn(c: ConditionsView, s: DefinedSetsView, x: ConditionsView)
    requires
        own_conditions(c, s),
        x.has_asn is None,
    ensures
        !(from_config::condition_steps(c, s)[8] matches Some(Err(_))),
        noted(x, from_config::condition_steps(c, s)[8]) == (ConditionsView {
            has_asn: c.has_asn,
            ..x
        }),
{
    reveal(noted);
    reveal(from_config::condition_steps);
}

proof fn lemma_route_type(c: ConditionsView, s: DefinedSetsView, x: ConditionsView)
    requires
        own_conditions(c, s),
        x.route_type is None,
    ensures
        !(from_config::condition_steps(c, s)[9] matches Some(Err(_))),
        noted(x, from_config::condition_steps(c, s)[9]) == (ConditionsView {
            route_type: c.route_type,
            ..x
        }),
{
    reveal(noted);
    reveal(from_config::condition_steps);
}

proof fn lemma_community(c: ConditionsView, s: DefinedSetsView, x: ConditionsView)
    requires
        own_conditions(c, s),
        x.community is None,
    ensures
        !(from_config::condition_steps(c, s)[10] matches Some(Err(_))),
        noted(x, from_config::condition_steps(c, s)[10]) == (ConditionsView {
            community: c.community,
            ..x
        }),
{
    reveal(noted);
    reveal(from_config::condition_steps);
}

proof fn lemma_rpki_validation(c: ConditionsView, s: DefinedSetsView, x: ConditionsView)
    requires
        own_conditions(c, s),
        x.rpki_validation is None,
    ensures
        !(from_config::condition_steps(c, s)[11] matches Some(Err(_))),
        noted(x, from_config::condition_steps(c, s)[11]) == (ConditionsView {
            rpki_validation: c.rpki_validation,
            ..x
        }),
{
    reveal(noted);
    reveal(from_config::condition_steps);
}

proof fn lemma_afi_safi(c: ConditionsView, s: DefinedSetsView, x: ConditionsView)
    requires
        own_conditions(c, s),
        x.afi_safi is None,
    ensures
        !(from_config::condition_steps(c, s)[12] matches Some(Err(_))),
        noted(x, from_config::condition_steps(c, s)[12]) == (ConditionsView {
            afi_safi: c.afi_safi,
            ..x
        }),
{
    reveal(noted);
    reveal(from_config::condition_steps);
}

proof fn lemma_ls_nlri_type(c: ConditionsView, s: DefinedSetsView, x: ConditionsView)
    requires
        own_conditions(c, s),
        x.ls_nlri_type is None,
    ensures
        !(from_config::condition_steps(c, s)[13] matches Some(Err(_))),
        noted(x, from_config::condition_steps(c, s)[13]) == (ConditionsView {
            ls_nlri_type: c.ls_nlri_type,
            ..x
        }),
{
    reveal(noted);
    reveal(from_config::condition_steps);
}

proof fn lemma_ls_protocol_id(c: ConditionsView, s: DefinedSetsView, x: ConditionsView)
    requires
        own_conditions(c, s),
        x.ls_protocol_id is None,
    ensures
        !(from_config::condition_steps(c, s)[14] matches Some(Err(_))),
        noted(x, from_config::condition_steps(c, s)[14]) == (ConditionsView {
            ls_protocol_id: c.ls_protocol_id,
            ..x
        }),
{
    reveal(noted);
    reveal(from_config::condition_steps);
}

proof fn lemma_ls_instance_id(c: ConditionsView, s: DefinedSetsView, x: ConditionsView)
    requires
        own_conditions(c, s),
        x.ls_instance_id is None,
    ensures
        !(from_config::condition_steps(c, s)[15] matches Some(Err(_))),
        noted(x, from_config::condition_steps(c, s)[15]) == (ConditionsView {
            ls_instance_id: c.ls_instance_id,
            ..x
        }),
{
    reveal(noted);
    reveal(from_config::condition_steps);
}

proof fn lemma_ls_node_as(c: ConditionsView, s: DefinedSetsView, x: ConditionsView)
    requires
        own_conditions(c, s),
        x.ls_node_as is None,
    ensures
        !(from_config::condition_steps(c, s)[16] matches Some(Err(_))),
        noted(x, from_config::condition_steps(c, s)[16]) == (ConditionsView {
            ls_node_as: c.ls_node_as,
            ..x
        }),
{
    reveal(noted);
    reveal(from_config::condition_steps);
}

proof fn lemma_ls_node_router_id(c: ConditionsView, s: DefinedSetsView, x: ConditionsView)
    requires
        own_conditions(c, s),
        x.ls_node_router_id is None,
    ensures
        !(from_config::condition_steps(c, s)[17] matches Some(Err(_))),
        noted(x, from_config::condition_steps(c, s)[17]) == (ConditionsView {
            ls_node_router_id: c.ls_node_router_id,
            ..x
        }),
{
    reveal(noted);
    reveal(from_config::condition_steps);
}

/// How many entries the conditions have.
proof fn lemma_step_count(c: ConditionsView, s: DefinedSetsView)
    ensures
        from_config::condition_steps(c, s).len() == 18,
{
    reveal(from_config::condition_steps);
}

proof fn lemma_conditions_sets(
    c: ConditionsView,
    s: DefinedSetsView,
    l: Seq<ConditionView>,
) -> (r: Seq<ConditionView>)
    requires
        own_conditions(c, s),
        from_config::collect(from_config::condition_steps(c, s).take(0)) == Ok::<
            Seq<ConditionView>,
            Seq<char>,
        >(l),
        statement::conditions_config(l) == (conf::no_conditions()),
    ensures
        from_config::collect(from_config::condition_steps(c, s).take(6)) == Ok::<
            Seq<ConditionView>,
            Seq<char>,
        >(r),
        statement::conditions_config(r) == (ConditionsView {
            match_prefix_set: c.match_prefix_set,
            match_neighbor_set: c.match_neighbor_set,
            match_as_path_set: c.match_as_path_set,
            match_community_set: c.match_community_set,
            match_ext_community_set: c.match_ext_community_set,
            match_large_community_set: c.match_large_community_set,
            ..conf::no_conditions()
        }),
{
    let steps = from_config::condition_steps(c, s);
    lemma_step_count(c, s);
    lemma_match_prefix_set(c, s, statement::conditions_config(l));
    let l0 = lemma_noted(steps, 0, l);
    assert(statement::conditions_config(l0) == (ConditionsView {
        match_prefix_set: c.match_prefix_set,
        ..conf::no_conditions()
    }));
    lemma_match_neighbor_set(c, s, statement::conditions_config(l0));
    let l1 = lemma_noted(steps, 1, l0);
    assert(statement::conditions_config(l1) == (ConditionsView {
        match_prefix_set: c.match_prefix_set,
        match_neighbor_set: c.match_neighbor_set,
        ..conf::no_conditions()
    }));
    lemma_match_as_path_set(c, s, statement::conditions_config(l1));
    let l2 = lemma_noted(steps, 2, l1);
    assert(statement::conditions_config(l2) == (ConditionsView {
        match_prefix_set: c.match_prefix_set,
        match_neighbor_set: c.match_neighbor_set,
        match_as_path_set: c.match_as_path_set,
        ..conf::no_conditions()
    }));
    lemma_match_community_set(c, s, statement::conditions_config(l2));
    let l3 = lemma_noted(steps, 3, l2);
    assert(statement::conditions_config(l3) == (ConditionsView {
        match_prefix_set: c.match_prefix_set,
        match_neighbor_set: c.match_neighbor_set,
        match_as_path_set: c.match_as_path_set,
        match_community_set: c.match_community_set,
        ..conf::no_conditions()
    }));
    lemma_match_ext_community_set(c, s, statement::conditions_config(l3));
    let l4 = lemma_noted(steps, 4, l3);
    assert(statement::conditions_config(l4) == (ConditionsView {
        match_prefix_set: c.match_prefix_set,
        match_neighbor_set: c.match_neighbor_set,
        match_as_path_set: c.match_as_path_set,
        match_community_set: c.match_community_set,
        match_ext_community_set: c.match_ext_community_set,
        ..conf::no_conditions()
    }));
    lemma_match_large_community_set(c, s, statement::conditions_config(l4));
    let l5 = lemma_noted(steps, 5, l4);
    assert(statement::conditions_config(l5) == (ConditionsView {
        match_prefix_set: c.match_prefix_set,
        match_neighbor_set: c.match_neighbor_set,
        match_as_path_set: c.match_as_path_set,
        match_community_set: c.match_community_set,
        match_ext_community_set: c.match_ext_community_set,
        match_large_community_set: c.match_large_community_set,
        ..conf::no_conditions()
    }));
    l5
}

proof fn lemma_conditions_values(
    c: ConditionsView,
    s: DefinedSetsView,
    l: Seq<ConditionView>,
) -> (r: Seq<ConditionView>)
    requires
        own_conditions(c, s),
        from_config::collect(from_config::condition_steps(c, s).take(6)) == Ok::<
            Seq<ConditionView>,
            Seq<char>,
        >(l),
        statement::conditions_config(l) == (ConditionsView {
            match_prefix_set: c.match_prefix_set,
            match_neighbor_set: c.match_neighbor_set,
            match_as_path_set: c.match_as_path_set,
            match_community_set: c.match_community_set,
            match_ext_community_set: c.match_ext_community_set,
            match_large_community_set: c.match_large_community_set,
            ..conf::no_conditions()
        }),
    ensures
        from_config::collect(from_config::condition_steps(c, s).take(12)) == Ok::<
            Seq<ConditionView>,
            Seq<char>,
        >(r),
        statement::conditions_config(r) == (ConditionsView {
            match_prefix_set: c.match_prefix_set,
            match_neighbor_set: c.match_neighbor_set,
            match_as_path_set: c.match_as_path_set,
            match_community_set: c.match_community_set,
            match_ext_community_set: c.match_ext_community_set,
            match_large_community_set: c.match_large_community_set,
            prefix: c.prefix,
            neighbor: c.neighbor,
            has_asn: c.has_asn,
            route_type: c.route_type,
            community: c.community,
            rpki_validation: c.rpki_validation,
            ..conf::no_conditions()
        }),
{
    let steps = from_config::condition_steps(c, s);
    lemma_step_count(c, s);
    lemma_prefix(c, s, statement::conditions_config(l));
    let l0 = lemma_noted(steps, 6, l);
    assert(statement::conditions_config(l0) == (ConditionsView {
        match_prefix_set: c.match_prefix_set,
        match_neighbor_set: c.match_neighbor_set,
        match_as_path_set: c.match_as_path_set,
        match_community_set: c.match_community_set,
        match_ext_community_set: c.match_ext_community_set,
        match_large_community_set: c.match_large_community_set,
        prefix: c.prefix,
        ..conf::no_conditions()
    }));
    lemma_neighbor(c, s, statement::conditions_config(l0));
    let l1 = lemma_noted(steps, 7, l0);
    assert(statement::conditions_config(l1) == (ConditionsView {
        match_prefix_set: c.match_prefix_set,
        match_neighbor_set: c.match_neighbor_set,
        match_as_path_set: c.match_as_path_set,
        match_community_set: c.match_community_set,
        match_ext_community_set: c.match_ext_community_set,
        match_large_community_set: c.match_large_community_set,
        prefix: c.prefix,
        neighbor: c.neighbor,
        ..conf::no_conditions()
    }));
    lemma_has_asn(c, s, statement::conditions_config(l1));
    let l2 = lemma_noted(steps, 8, l1);
    assert(statement::conditions_config(l2) == (ConditionsView {
        match_prefix_set: c.match_prefix_set,
        match_neighbor_set: c.match_neighbor_set,
        match_as_path_set: c.match_as_path_set,
        match_community_set: c.match_community_set,
        match_ext_community_set: c.match_ext_community_set,
        match_large_community_set: c.match_large_community_set,
        prefix: c.prefix,
        neighbor: c.neighbor,
        has_asn: c.has_asn,
        ..conf::no_conditions()
    }));
    lemma_route_type(c, s, statement::conditions_config(l2));
    let l3 = lemma_noted(steps, 9, l2);
    assert(statement::conditions_config(l3) == (ConditionsView {
        match_prefix_set: c.match_prefix_set,
        match_neighbor_set: c.match_neighbor_set,
        match_as_path_set: c.match_as_path_set,
        match_community_set: c.match_community_set,
        match_ext_community_set: c.match_ext_community_set,
        match_large_community_set: c.match_large_community_set,
        prefix: c.prefix,
        neighbor: c.neighbor,
        has_asn: c.has_asn,
        route_type: c.route_type,
        ..conf::no_conditions()
    }));
    lemma_community(c, s, statement::conditions_config(l3));
    let l4 = lemma_noted(steps, 10, l3);
    assert(statement::conditions_config(l4) == (ConditionsView {
        match_prefix_set: c.match_prefix_set,
        match_neighbor_set: c.match_neighbor_set,
        match_as_path_set: c.match_as_path_set,
        match_community_set: c.match_community_set,
        match_ext_community_set: c.match_ext_community_set,
        match_large_community_set: c.match_large_community_set,
        prefix: c.prefix,
        neighbor: c.neighbor,
        has_asn: c.has_asn,
        route_type: c.route_type,
        community: c.community,
        ..conf::no_conditions()
    }));
    lemma_rpki_validation(c, s, statement::conditions_config(l4));
    let l5 = lemma_noted(steps, 11, l4);
    assert(statement::conditions_config(l5) == (ConditionsView {
        match_prefix_set: c.match_prefix_set,
        match_neighbor_set: c.match_neighbor_set,
        match_as_path_set: c.match_as_path_set,
        match_community_set: c.match_community_set,
        match_ext_community_set: c.match_ext_community_set,
        match_large_community_set: c.match_large_community_set,
        prefix: c.prefix,
        neighbor: c.neighbor,
        has_asn: c.has_asn,
        route_type: c.route_type,
        community: c.community,
        rpki_validation: c.rpki_validation,
        ..conf::no_conditions()
    }));
    l5
}

proof fn lemma_conditions_link_state(
    c: ConditionsView,
    s: DefinedSetsView,
    l: Seq<ConditionView>,
) -> (r: Seq<ConditionView>)
    requires
        own_conditions(c, s),
        from_config::collect(from_config::condition_steps(c, s).take(12)) == Ok::<
            Seq<ConditionView>,
            Seq<char>,
        >(l),
        statement::conditions_config(l) == (ConditionsView {
            match_prefix_set: c.match_prefix_set,
            match_neighbor_set: c.match_neighbor_set,
            match_as_path_set: c.match_as_path_set,
            match_community_set: c.match_community_set,
            match_ext_community_set: c.match_ext_community_set,
            match_large_community_set: c.match_large_community_set,
            prefix: c.prefix,
            neighbor: c.neighbor,
            has_asn: c.has_asn,
            route_type: c.route_type,
            community: c.community,
            rpki_validation: c.rpki_validation,
            ..conf::no_conditions()
        }),
    ensures
        from_config::collect(from_config::condition_steps(c, s).take(18)) == Ok::<
            Seq<ConditionView>,
            Seq<char>,
        >(r),
        statement::conditions_config(r) == (c),
{
    let steps = from_config::condition_steps(c, s);
    lemma_step_count(c, s);
    lemma_afi_safi(c, s, statement::conditions_config(l));
    let l0 = lemma_noted(steps, 12, l);
    assert(statement::conditions_config(l0) == (ConditionsView {
        match_prefix_set: c.match_prefix_set,
        match_neighbor_set: c.match_neighbor_set,
        match_as_path_set: c.match_as_path_set,
        match_community_set: c.match_community_set,
        match_ext_community_set: c.match_ext_community_set,
        match_large_community_set: c.match_large_community_set,
        prefix: c.prefix,
        neighbor: c.neighbor,
        has_asn: c.has_asn,
        route_type: c.route_type,
        community: c.community,
        rpki_validation: c.rpki_validation,
        afi_safi: c.afi_safi,
        ..conf::no_conditions()
    }));
    lemma_ls_nlri_type(c, s, statement::conditions_config(l0));
    let l1 = lemma_noted(steps, 13, l0);
    assert(statement::conditions_config(l1) == (ConditionsView {
        match_prefix_set: c.match_prefix_set,
        match_neighbor_set: c.match_neighbor_set,
        match_as_path_set: c.match_as_path_set,
        match_community_set: c.match_community_set,
        match_ext_community_set: c.match_ext_community_set,
        match_large_community_set: c.match_large_community_set,
        prefix: c.prefix,
        neighbor: c.neighbor,
        has_asn: c.has_asn,
        route_type: c.route_type,
        community: c.community,
        rpki_validation: c.rpki_validation,
        afi_safi: c.afi_safi,
        ls_nlri_type: c.ls_nlri_type,
        ..conf::no_conditions()
    }));
    lemma_ls_protocol_id(c, s, statement::conditions_config(l1));
    let l2 = lemma_noted(steps, 14, l1);
    assert(statement::conditions_config(l2) == (ConditionsView {
        match_prefix_set: c.match_prefix_set,
        match_neighbor_set: c.match_neighbor_set,
        match_as_path_set: c.match_as_path_set,
        match_community_set: c.match_community_set,
        match_ext_community_set: c.match_ext_community_set,
        match_large_community_set: c.match_large_community_set,
        prefix: c.prefix,
        neighbor: c.neighbor,
        has_asn: c.has_asn,
        route_type: c.route_type,
        community: c.community,
        rpki_validation: c.rpki_validation,
        afi_safi: c.afi_safi,
        ls_nlri_type: c.ls_nlri_type,
        ls_protocol_id: c.ls_protocol_id,
        ..conf::no_conditions()
    }));
    lemma_ls_instance_id(c, s, statement::conditions_config(l2));
    let l3 = lemma_noted(steps, 15, l2);
    assert(statement::conditions_config(l3) == (ConditionsView {
        match_prefix_set: c.match_prefix_set,
        match_neighbor_set: c.match_neighbor_set,
        match_as_path_set: c.match_as_path_set,
        match_community_set: c.match_community_set,
        match_ext_community_set: c.match_ext_community_set,
        match_large_community_set: c.match_large_community_set,
        prefix: c.prefix,
        neighbor: c.neighbor,
        has_asn: c.has_asn,
        route_type: c.route_type,
        community: c.community,
        rpki_validation: c.rpki_validation,
        afi_safi: c.afi_safi,
        ls_nlri_type: c.ls_nlri_type,
        ls_protocol_id: c.ls_protocol_id,
        ls_instance_id: c.ls_instance_id,
        ..conf::no_conditions()
    }));
    lemma_ls_node_as(c, s, statement::conditions_config(l3));
    let l4 = lemma_noted(steps, 16, l3);
    assert(statement::conditions_config(l4) == (ConditionsView {
        match_prefix_set: c.match_prefix_set,
        match_neighbor_set: c.match_neighbor_set,
        match_as_path_set: c.match_as_path_set,
        match_community_set: c.match_community_set,
        match_ext_community_set: c.match_ext_community_set,
        match_large_community_set: c.match_large_community_set,
        prefix: c.prefix,
        neighbor: c.neighbor,
        has_asn: c.has_asn,
        route_type: c.route_type,
        community: c.community,
        rpki_validation: c.rpki_validation,
        afi_safi: c.afi_safi,
        ls_nlri_type: c.ls_nlri_type,
        ls_protocol_id: c.ls_protocol_id,
        ls_instance_id: c.ls_instance_id,
        ls_node_as: c.ls_node_as,
        ..conf::no_conditions()
    }));
    lemma_ls_node_router_id(c, s, statement::conditions_config(l4));
    let l5 = lemma_noted(steps, 17, l4);
    assert(statement::conditions_config(l5) == c);
    l5
}

/// Communities in their own notation are read and written as they were.
proof fn lemma_values_back<T>(
    values: Seq<Seq<char>>,
    reader: spec_fn(Seq<char>) -> Result<T, Seq<char>>,
    writer: spec_fn(T) -> Seq<char>,
)
    requires
        forall|i: int| 0 <= i < values.len() ==> own_text(#[trigger] values[i], reader, writer),
    ensures
        match conf::read_all(values, reader) {
            Ok(l) => l.map_values(writer) == values,
            Err(_) => false,
        },
    decreases values.len(),
{
    if values.len() == 0 {
        assert(Seq::<T>::empty().map_values(writer) =~= values);
    } else {
        let rest = values.drop_last();
        assert forall|i: int| 0 <= i < rest.len() implies own_text(
            #[trigger] rest[i],
            reader,
            writer,
        ) by {
            assert(rest[i] == values[i]);
        }
        lemma_values_back(rest, reader, writer);
        assert(own_text(values[values.len() - 1], reader, writer));
        let l = conf::read_all(rest, reader)->Ok_0;
        let x = reader(values.last())->Ok_0;
        assert(l.push(x).map_values(writer) =~= rest.push(values.last()));
        assert(rest.push(values.last()) =~= values);
    }
}

/// An operation on communities is read and written as it was.
proof fn lemma_op_back<T>(
    v: Option<CommunityActionView>,
    reader: spec_fn(Seq<char>) -> Result<T, Seq<char>>,
    writer: spec_fn(T) -> Seq<char>,
    kind: Seq<char>,
)
    requires
        own_op(v, reader, writer),
    ensures
        match v {
            Some(c) => match from_config::read_community_op(c, reader, kind) {
                Ok(op) => statement::op_config(op, writer) == c,
                Err(_) => false,
            },
            None => true,
        },
{
    if let Some(c) = v {
        lemma_values_back(c.values, reader, writer);
    }
}

proof fn lemma_actions(a: ActionsView)
    requires
        own_actions(a),
    ensures
        match from_config::read_actions(a) {
            Ok(l) => statement::actions_config(l) == a,
            Err(_) => false,
        },
{
    let steps = from_config::action_steps(a);
    lemma_op_back(
        a.community,
        from_config::community_reader(),
        statement::community_writer(),
        "invalid community operation '"@,
    );
    lemma_op_back(
        a.ext_community,
        from_config::ext_community_reader(),
        statement::ext_community_writer(),
        "invalid extended community operation '"@,
    );
    lemma_op_back(
        a.large_community,
        from_config::large_community_reader(),
        statement::large_community_writer(),
        "invalid large community operation '"@,
    );
    let l = Seq::<ActionView>::empty();
    assert(steps.take(0) =~= Seq::empty());
    let l0 = lemma_noted_action(steps, 0, l);
    assert(statement::actions_config(l0) == ActionsView {
        local_pref: a.local_pref,
        ..conf::no_actions()
    });
    let l1 = lemma_noted_action(steps, 1, l0);
    assert(statement::actions_config(l1) == ActionsView {
        local_pref: a.local_pref,
        med: a.med,
        ..conf::no_actions()
    });
    let l2 = lemma_noted_action(steps, 2, l1);
    assert(statement::actions_config(l2) == ActionsView {
        local_pref: a.local_pref,
        med: a.med,
        community: a.community,
        ..conf::no_actions()
    });
    let l3 = lemma_noted_action(steps, 3, l2);
    assert(statement::actions_config(l3) == ActionsView {
        local_pref: a.local_pref,
        med: a.med,
        community: a.community,
        ext_community: a.ext_community,
        ..conf::no_actions()
    });
    let l4 = lemma_noted_action(steps, 4, l3);
    assert(statement::actions_config(l4) == ActionsView {
        local_pref: a.local_pref,
        med: a.med,
        community: a.community,
        ext_community: a.ext_community,
        large_community: a.large_community,
        ..conf::no_actions()
    });
    let l5 = lemma_noted_action(steps, 5, l4);
    assert(statement::actions_config(l5) == ActionsView {
        local_pref: a.local_pref,
        med: a.med,
        community: a.community,
        ext_community: a.ext_community,
        large_community: a.large_community,
        set_rpki_state: a.set_rpki_state,
        ..conf::no_actions()
    });
    let l6 = lemma_noted_action(steps, 6, l5);
    assert(statement::actions_config(l6) == ActionsView {
        local_pref: a.local_pref,
        med: a.med,
        community: a.community,
        ext_community: a.ext_community,
        large_community: a.large_community,
        set_rpki_state: a.set_rpki_state,
        accept: a.accept,
        ..conf::no_actions()
    });
    let l7 = lemma_noted_action(steps, 7, l6);
    assert(statement::actions_config(l7) == a);
    assert(steps.take(8) =~= steps);
}

/// A statement that is built from a configuration in its own notation is written
/// down as that configuration, but for its name, which a statement does not keep.
pub proof fn law_statement_config_round_trip(c: StatementConfigView, s: DefinedSetsView)
    requires
        own_conditions(c.conditions, s),
        own_actions(c.actions),
    ensures
        match from_config::read_statement(c, s) {
            Ok(st) => st.config() == (StatementConfigView { name: None, ..c }),
            Err(_) => false,
        },
{
    let steps = from_config::condition_steps(c.conditions, s);
    lemma_step_count(c.conditions, s);
    assert(steps.take(0) =~= Seq::empty());
    let none = Seq::<ConditionView>::empty();
    let l1 = lemma_conditions_sets(c.conditions, s, none);
    let l2 = lemma_conditions_values(c.conditions, s, l1);
    let l3 = lemma_conditions_link_state(c.conditions, s, l2);
    assert(steps.take(18) =~= steps);
    lemma_actions(c.actions);
}

} // verus!
