//! What conditions and actions are made of a configuration.

use crate::bgp::community;
use crate::bgp::ext_community;
use crate::conf;
use crate::conf::{
    ActionsView, CommunityActionView, ConditionsView, LocalPrefActionConfig, MatchOptionConfig,
    MatchSetRefView, MedActionConfig, PolicyDefinitionView, PrefixMatchConfigView,
    RpkiValidationConfig, StatementConfigView,
};
use crate::net::addr_text;
use crate::net::network::IpNetwork;
use crate::policy;
use crate::policy::action::{ActionView, OpView};
use crate::policy::condition::{
    AfiSafiMatch, ConditionView, LsNlriTypeMatch, LsProtocolIdMatch, RouteType,
};
use crate::policy::from_config;
use crate::policy::sets;
use crate::policy::sets::{DefinedSetsView, NamedList};
use crate::policy::PolicyView;
use crate::rpki::RpkiValidation;
use crate::text;
use vstd::prelude::*;

verus! {

// ---------------------------------------------------------------------------
// Lists of steps
// ---------------------------------------------------------------------------

/// Of steps that each give something, nothing or an error, the first error counts; if
/// there is none, what they give is gathered in their order.
pub proof fn law_steps_in_order<T>(
    steps: Seq<Option<Result<T, Seq<char>>>>,
    last: Option<Result<T, Seq<char>>>,
)
    ensures
        from_config::collect(Seq::<Option<Result<T, Seq<char>>>>::empty()) == Ok::<
            Seq<T>,
            Seq<char>,
        >(Seq::empty()),
        match from_config::collect(steps) {
            Err(e) => from_config::collect(steps.push(last)) == Err::<Seq<T>, Seq<char>>(e),
            Ok(l) => match last {
                None => from_config::collect(steps.push(last)) == Ok::<Seq<T>, Seq<char>>(l),
                Some(Ok(x)) => from_config::collect(steps.push(last)) == Ok::<Seq<T>, Seq<char>>(
                    l.push(x),
                ),
                Some(Err(e)) => from_config::collect(steps.push(last)) == Err::<
                    Seq<T>,
                    Seq<char>,
                >(e),
            },
        },
{
    assert(steps.push(last).drop_last() =~= steps);
}

/// Every step that gives something has it in the outcome.
pub proof fn law_steps_are_kept<T>(steps: Seq<Option<Result<T, Seq<char>>>>, k: int, x: T)
    requires
        0 <= k < steps.len(),
        steps[k] == Some(Ok::<T, Seq<char>>(x)),
    ensures
        match from_config::collect(steps) {
            Ok(l) => l.contains(x),
            Err(_) => true,
        },
    decreases steps.len(),
{
    let d = steps.drop_last();
    if let Ok(l) = from_config::collect(steps) {
        let m = from_config::collect(d)->Ok_0;
        if k < d.len() {
            assert(d[k] == steps[k]);
            law_steps_are_kept(d, k, x);
            let i = choose|i: int| 0 <= i < m.len() && m[i] == x;
            assert(l[i] == x);
        } else {
            assert(l[l.len() - 1] == x);
        }
    }
}

// ---------------------------------------------------------------------------
// Conditions
// ---------------------------------------------------------------------------

/// A reference to a set gives a condition on the set of that name among those of its
/// kind, with the way that the reference says; without such a set it is an error.
pub proof fn law_references_to_sets(
    c: ConditionsView,
    s: DefinedSetsView,
    name: Seq<char>,
    o: MatchOptionConfig,
)
    ensures
        ({
            let r = Some(MatchSetRefView { set_name: name, match_option: o });
            &&& c.match_prefix_set == r ==> (if s.prefix_sets.contains_key(name) {
                from_config::prefix_set_step(c, s) == Some(
                    Ok::<ConditionView, Seq<char>>(
                        ConditionView::PrefixSet(s.prefix_sets[name], o),
                    ),
                )
            } else {
                is_refused(from_config::prefix_set_step(c, s))
            })
            &&& c.match_neighbor_set == r ==> (if s.neighbor_sets.contains_key(name) {
                from_config::neighbor_set_step(c, s) == Some(
                    Ok::<ConditionView, Seq<char>>(
                        ConditionView::NeighborSet(s.neighbor_sets[name], o),
                    ),
                )
            } else {
                is_refused(from_config::neighbor_set_step(c, s))
            })
            &&& c.match_as_path_set == r ==> (if s.as_path_sets.contains_key(name) {
                from_config::as_path_set_step(c, s) == Some(
                    Ok::<ConditionView, Seq<char>>(
                        ConditionView::AsPathSet(s.as_path_sets[name], o),
                    ),
                )
            } else {
                is_refused(from_config::as_path_set_step(c, s))
            })
            &&& c.match_community_set == r ==> (if s.community_sets.contains_key(name) {
                from_config::community_set_step(c, s) == Some(
                    Ok::<ConditionView, Seq<char>>(
                        ConditionView::CommunitySet(s.community_sets[name], o),
                    ),
                )
            } else {
                is_refused(from_config::community_set_step(c, s))
            })
            &&& c.match_ext_community_set == r ==> (if s.ext_community_sets.contains_key(name) {
                from_config::ext_community_set_step(c, s) == Some(
                    Ok::<ConditionView, Seq<char>>(
                        ConditionView::ExtCommunitySet(s.ext_community_sets[name], o),
                    ),
                )
            } else {
                is_refused(from_config::ext_community_set_step(c, s))
            })
            &&& c.match_large_community_set == r ==> (if s.large_community_sets.contains_key(name) {
                from_config::large_community_set_step(c, s) == Some(
                    Ok::<ConditionView, Seq<char>>(
                        ConditionView::LargeCommunitySet(s.large_community_sets[name], o),
                    ),
                )
            } else {
                is_refused(from_config::large_community_set_step(c, s))
            })
        }),
{
}

/// A step gives an error.
pub open spec fn is_refused<T>(step: Option<Result<T, Seq<char>>>) -> bool {
    step is Some && step->0 is Err
}

/// Prefixes, addresses and communities in conditions are read in their notation, and
/// refused where they have none.
pub proof fn law_conditions_in_notation(s: Seq<char>)
    ensures
        match addr_text::read_network(s) {
            Some(p) => from_config::prefix_step(Some(s)) == Some(
                Ok::<ConditionView, Seq<char>>(ConditionView::Prefix(p)),
            ),
            None => is_refused(from_config::prefix_step(Some(s))),
        },
        match addr_text::read_ip(s) {
            Some(x) => from_config::neighbor_step(Some(s)) == Some(
                Ok::<ConditionView, Seq<char>>(ConditionView::Neighbor(x)),
            ) && from_config::router_id_step(Some(s)) == Some(
                Ok::<ConditionView, Seq<char>>(ConditionView::LsNodeRouterId(x)),
            ),
            None => is_refused(from_config::neighbor_step(Some(s))) && is_refused(
                from_config::router_id_step(Some(s)),
            ),
        },
        match sets::read_community(s, "' in community"@) {
            Ok(x) => from_config::community_step(Some(s)) == Some(
                Ok::<ConditionView, Seq<char>>(ConditionView::Community(x)),
            ),
            Err(_) => is_refused(from_config::community_step(Some(s))),
        },
        from_config::prefix_step(None) is None,
        from_config::neighbor_step(None) is None,
        from_config::router_id_step(None) is None,
        from_config::community_step(None) is None,
        from_config::route_type_step(None) is None,
        from_config::afi_safi_step(None) is None,
        from_config::ls_nlri_type_step(None) is None,
        from_config::ls_protocol_id_step(None) is None,
{
}

/// The names of kinds of routes, families, and link-state objects and protocols.
pub proof fn law_names_in_conditions(s: Seq<char>)
    ensures
        match from_config::read_route_type(s) {
            Some(RouteType::Ebgp) => s == "ebgp"@,
            Some(RouteType::Ibgp) => s == "ibgp"@,
            Some(RouteType::Local) => s == "local"@,
            None => s != "ebgp"@ && s != "ibgp"@ && s != "local"@,
        },
        match from_config::read_afi_safi(s) {
            Some(AfiSafiMatch::Ipv4Unicast) => s == "ipv4-unicast"@,
            Some(AfiSafiMatch::Ipv6Unicast) => s == "ipv6-unicast"@,
            Some(AfiSafiMatch::BgpLs) => s == "bgp-ls"@,
            None => s != "ipv4-unicast"@ && s != "ipv6-unicast"@ && s != "bgp-ls"@,
        },
        match from_config::read_ls_nlri_type(s) {
            Some(LsNlriTypeMatch::Node) => s == "node"@,
            Some(LsNlriTypeMatch::Link) => s == "link"@,
            Some(LsNlriTypeMatch::PrefixV4) => s == "prefix-v4"@,
            Some(LsNlriTypeMatch::PrefixV6) => s == "prefix-v6"@,
            None => s != "node"@ && s != "link"@ && s != "prefix-v4"@ && s != "prefix-v6"@,
        },
        match from_config::read_ls_protocol_id(s) {
            Some(LsProtocolIdMatch::IsIsL1) => s == "isis-l1"@,
            Some(LsProtocolIdMatch::IsIsL2) => s == "isis-l2"@,
            Some(LsProtocolIdMatch::OspfV2) => s == "ospfv2"@,
            Some(LsProtocolIdMatch::Direct) => s == "direct"@,
            Some(LsProtocolIdMatch::Static) => s == "static"@,
            Some(LsProtocolIdMatch::OspfV3) => s == "ospfv3"@,
            None => s != "isis-l1"@ && s != "isis-l2"@ && s != "ospfv2"@ && s != "direct"@ && s
                != "static"@ && s != "ospfv3"@,
        },
        match from_config::read_route_type(s) {
            Some(t) => from_config::route_type_step(Some(s)) == Some(
                Ok::<ConditionView, Seq<char>>(ConditionView::RouteType(t)),
            ),
            None => is_refused(from_config::route_type_step(Some(s))),
        },
        match from_config::read_afi_safi(s) {
            Some(t) => from_config::afi_safi_step(Some(s)) == Some(
                Ok::<ConditionView, Seq<char>>(ConditionView::AfiSafi(t)),
            ),
            None => is_refused(from_config::afi_safi_step(Some(s))),
        },
        match from_config::read_ls_nlri_type(s) {
            Some(t) => from_config::ls_nlri_type_step(Some(s)) == Some(
                Ok::<ConditionView, Seq<char>>(ConditionView::LsNlriType(t)),
            ),
            None => is_refused(from_config::ls_nlri_type_step(Some(s))),
        },
        match from_config::read_ls_protocol_id(s) {
            Some(t) => from_config::ls_protocol_id_step(Some(s)) == Some(
                Ok::<ConditionView, Seq<char>>(ConditionView::LsProtocolId(t)),
            ),
            None => is_refused(from_config::ls_protocol_id_step(Some(s))),
        },
{
}

/// A configured condition is one of those of the statement: none is left out.
pub proof fn law_configured_conditions_hold(c: ConditionsView, s: DefinedSetsView)
    ensures
        match from_config::read_conditions(c, s) {
            Err(_) => true,
            Ok(l) => {
                &&& c.has_asn is Some ==> l.contains(ConditionView::AsPath(c.has_asn->0))
                &&& c.ls_instance_id is Some ==> l.contains(
                    ConditionView::LsInstanceId(c.ls_instance_id->0),
                )
                &&& c.ls_node_as is Some ==> l.contains(ConditionView::LsNodeAs(c.ls_node_as->0))
                &&& c.rpki_validation == Some(RpkiValidationConfig::Valid) ==> l.contains(
                    ConditionView::RpkiValidation(RpkiValidation::Valid),
                )
                &&& c.rpki_validation == Some(RpkiValidationConfig::Invalid) ==> l.contains(
                    ConditionView::RpkiValidation(RpkiValidation::Invalid),
                )
                &&& c.rpki_validation == Some(RpkiValidationConfig::NotFound) ==> l.contains(
                    ConditionView::RpkiValidation(RpkiValidation::NotFound),
                )
                &&& given(from_config::prefix_set_step(c, s), l)
                &&& given(from_config::neighbor_set_step(c, s), l)
                &&& given(from_config::as_path_set_step(c, s), l)
                &&& given(from_config::community_set_step(c, s), l)
                &&& given(from_config::ext_community_set_step(c, s), l)
                &&& given(from_config::large_community_set_step(c, s), l)
                &&& given(from_config::prefix_step(c.prefix), l)
                &&& given(from_config::neighbor_step(c.neighbor), l)
                &&& given(from_config::route_type_step(c.route_type), l)
                &&& given(from_config::community_step(c.community), l)
                &&& given(from_config::afi_safi_step(c.afi_safi), l)
                &&& given(from_config::ls_nlri_type_step(c.ls_nlri_type), l)
                &&& given(from_config::ls_protocol_id_step(c.ls_protocol_id), l)
                &&& given(from_config::router_id_step(c.ls_node_router_id), l)
            },
        },
{
    reveal(from_config::condition_steps);
    let steps = from_config::condition_steps(c, s);
    if let Ok(l) = from_config::read_conditions(c, s) {
        assert forall|k: int| 0 <= k < steps.len() implies given(#[trigger] steps[k], l) by {
            if let Some(Ok(x)) = steps[k] {
                law_steps_are_kept(steps, k, x);
            }
        }
        assert(given(steps[0], l) && given(steps[1], l) && given(steps[2], l));
        assert(given(steps[3], l) && given(steps[4], l) && given(steps[5], l));
        assert(given(steps[6], l) && given(steps[7], l) && given(steps[8], l));
        assert(given(steps[9], l) && given(steps[10], l) && given(steps[11], l));
        assert(given(steps[12], l) && given(steps[13], l) && given(steps[14], l));
        assert(given(steps[15], l) && given(steps[16], l) && given(steps[17], l));
    }
}

/// What a step gives is in a list.
pub open spec fn given<T>(step: Option<Result<T, Seq<char>>>, l: Seq<T>) -> bool {
    match step {
        Some(Ok(x)) => l.contains(x),
        _ => true,
    }
}

/// A statement without configured conditions has none, and one without configured
/// actions has none.
pub proof fn law_nothing_configured(c: ConditionsView, a: ActionsView, s: DefinedSetsView)
    ensures
        c == conf::no_conditions() ==> from_config::read_conditions(c, s) == Ok::<
            Seq<ConditionView>,
            Seq<char>,
        >(Seq::empty()),
        a == conf::no_actions() ==> from_config::read_actions(a) == Ok::<
            Seq<ActionView>,
            Seq<char>,
        >(Seq::empty()),
{
    reveal(from_config::condition_steps);
    if c == conf::no_conditions() {
        lemma_no_steps(from_config::condition_steps(c, s));
    }
    if a == conf::no_actions() {
        lemma_no_steps(from_config::action_steps(a));
    }
}

proof fn lemma_no_steps<T>(steps: Seq<Option<Result<T, Seq<char>>>>)
    requires
        forall|k: int| 0 <= k < steps.len() ==> (#[trigger] steps[k]) is None,
    ensures
        from_config::collect(steps) == Ok::<Seq<T>, Seq<char>>(Seq::empty()),
    decreases steps.len(),
{
    if steps.len() > 0 {
        let d = steps.drop_last();
        assert forall|k: int| 0 <= k < d.len() implies (#[trigger] d[k]) is None by {
            assert(d[k] == steps[k]);
        }
        lemma_no_steps(d);
        assert(steps[steps.len() - 1] is None);
    }
}

// ---------------------------------------------------------------------------
// Actions
// ---------------------------------------------------------------------------

/// A configured action is one of those of the statement: none is left out, and
/// accepting and rejecting only where that is wanted.
pub proof fn law_configured_actions_run(c: ActionsView)
    ensures
        match from_config::read_actions(c) {
            Err(_) => true,
            Ok(l) => {
                &&& c.accept == Some(true) ==> l.contains(ActionView::Accept)
                &&& c.reject == Some(true) ==> l.contains(ActionView::Reject)
                &&& match c.local_pref {
                    Some(LocalPrefActionConfig::Value(value)) => l.contains(
                        (ActionView::SetLocalPref { value, force: false }),
                    ),
                    Some(LocalPrefActionConfig::Force { value, force }) => l.contains(
                        (ActionView::SetLocalPref { value, force }),
                    ),
                    None => true,
                }
                &&& match c.med {
                    Some(MedActionConfig::Value(v)) => l.contains(ActionView::SetMed(Some(v))),
                    Some(MedActionConfig::Remove { remove: _ }) => l.contains(
                        ActionView::SetMed(None),
                    ),
                    None => true,
                }
                &&& c.set_rpki_state == Some(RpkiValidationConfig::Valid) ==> l.contains(
                    ActionView::SetRpkiState(RpkiValidation::Valid),
                )
                &&& c.set_rpki_state == Some(RpkiValidationConfig::Invalid) ==> l.contains(
                    ActionView::SetRpkiState(RpkiValidation::Invalid),
                )
                &&& c.set_rpki_state == Some(RpkiValidationConfig::NotFound) ==> l.contains(
                    ActionView::SetRpkiState(RpkiValidation::NotFound),
                )
                &&& given(from_config::community_op_step(c.community), l)
                &&& given(from_config::ext_community_op_step(c.ext_community), l)
                &&& given(from_config::large_community_op_step(c.large_community), l)
            },
        },
{
    let steps = from_config::action_steps(c);
    if let Ok(l) = from_config::read_actions(c) {
        assert forall|k: int| 0 <= k < steps.len() implies given(#[trigger] steps[k], l) by {
            if let Some(Ok(x)) = steps[k] {
                law_steps_are_kept(steps, k, x);
            }
        }
        assert(given(steps[0], l) && given(steps[1], l) && given(steps[2], l));
        assert(given(steps[3], l) && given(steps[4], l) && given(steps[5], l));
        assert(given(steps[6], l) && given(steps[7], l));
    }
}

/// An operation on communities is named `add`, `remove` or `replace`; its values are
/// all read, each in the notation of its kind.
pub proof fn law_operations_on_communities(c: CommunityActionView, k: int)
    requires
        0 <= k < c.values.len(),
    ensures
        match from_config::community_op_step(Some(c)) {
            Some(Ok(ActionView::SetCommunity(op))) => match op {
                OpView::Add(l) => c.operation == "add"@ && l.len() == c.values.len()
                    && sets::read_community(c.values[k], "' in community"@) == Ok::<u32, Seq<char>>(
                    l[k],
                ),
                OpView::Remove(l) => c.operation == "remove"@ && l.len() == c.values.len()
                    && sets::read_community(c.values[k], "' in community"@) == Ok::<u32, Seq<char>>(
                    l[k],
                ),
                OpView::Replace(l) => c.operation == "replace"@ && l.len() == c.values.len()
                    && sets::read_community(c.values[k], "' in community"@) == Ok::<u32, Seq<char>>(
                    l[k],
                ),
            },
            Some(Err(_)) => true,
            _ => false,
        },
        match from_config::ext_community_op_step(Some(c)) {
            Some(Ok(ActionView::SetExtCommunity(op))) => match op {
                OpView::Add(l) => c.operation == "add"@ && l.len() == c.values.len()
                    && ext_community::read_ext_community(c.values[k]) == Some(l[k]),
                OpView::Remove(l) => c.operation == "remove"@ && l.len() == c.values.len()
                    && ext_community::read_ext_community(c.values[k]) == Some(l[k]),
                OpView::Replace(l) => c.operation == "replace"@ && l.len() == c.values.len()
                    && ext_community::read_ext_community(c.values[k]) == Some(l[k]),
            },
            Some(Err(_)) => true,
            _ => false,
        },
        match from_config::large_community_op_step(Some(c)) {
            Some(Ok(ActionView::SetLargeCommunity(op))) => match op {
                OpView::Add(l) => c.operation == "add"@ && l.len() == c.values.len()
                    && community::read_large_community(c.values[k]) == Some(l[k]),
                OpView::Remove(l) => c.operation == "remove"@ && l.len() == c.values.len()
                    && community::read_large_community(c.values[k]) == Some(l[k]),
                OpView::Replace(l) => c.operation == "replace"@ && l.len() == c.values.len()
                    && community::read_large_community(c.values[k]) == Some(l[k]),
            },
            Some(Err(_)) => true,
            _ => false,
        },
        c.operation != "add"@ && c.operation != "remove"@ && c.operation != "replace"@
            ==> is_refused(from_config::community_op_step(Some(c))) && is_refused(
            from_config::ext_community_op_step(Some(c)),
        ) && is_refused(from_config::large_community_op_step(Some(c))),
{
    lemma_all_read(c.values, from_config::community_reader(), k);
    lemma_all_read(c.values, from_config::ext_community_reader(), k);
    lemma_all_read(c.values, from_config::large_community_reader(), k);
}

proof fn lemma_all_read<A, B>(s: Seq<A>, f: spec_fn(A) -> Result<B, Seq<char>>, k: int)
    requires
        0 <= k < s.len(),
    ensures
        match conf::read_all(s, f) {
            Ok(l) => l.len() == s.len() && f(s[k]) == Ok::<B, Seq<char>>(l[k]),
            Err(_) => true,
        },
    decreases s.len(),
{
    let d = s.drop_last();
    lemma_read_len(d, f);
    if k < d.len() {
        assert(d[k] == s[k]);
        lemma_all_read(d, f, k);
    }
}

proof fn lemma_read_len<A, B>(s: Seq<A>, f: spec_fn(A) -> Result<B, Seq<char>>)
    ensures
        match conf::read_all(s, f) {
            Ok(l) => l.len() == s.len(),
            Err(_) => true,
        },
    decreases s.len(),
{
    if s.len() > 0 {
        lemma_read_len(s.drop_last(), f);
    }
}

/// A list is read item by item: all of them in their order, or an error, exactly if one
/// of them cannot be read.
pub proof fn law_lists_are_read<A, B>(s: Seq<A>, f: spec_fn(A) -> Result<B, Seq<char>>)
    ensures
        match conf::read_all(s, f) {
            Ok(l) => l.len() == s.len() && forall|k: int|
                0 <= k < s.len() ==> f(#[trigger] s[k]) == Ok::<B, Seq<char>>(l[k]),
            Err(e) => exists|k: int|
                0 <= k < s.len() && f(#[trigger] s[k]) == Err::<B, Seq<char>>(e),
        },
    decreases s.len(),
{
    if s.len() > 0 {
        let d = s.drop_last();
        law_lists_are_read(d, f);
        match conf::read_all(s, f) {
            Ok(l) => {
                assert forall|k: int| 0 <= k < s.len() implies f(#[trigger] s[k]) == Ok::<
                    B,
                    Seq<char>,
                >(l[k]) by {
                    lemma_all_read(s, f, k);
                }
                lemma_read_len(s, f);
            },
            Err(e) => {
                if conf::read_all(d, f) is Err {
                    let k = choose|k: int|
                        0 <= k < d.len() && f(#[trigger] d[k]) == Err::<B, Seq<char>>(e);
                    assert(s[k] == d[k]);
                } else {
                    assert(f(s[s.len() - 1]) == Err::<B, Seq<char>>(e));
                }
            },
        }
    }
}

// ---------------------------------------------------------------------------
// Statements, policies and sets
// ---------------------------------------------------------------------------

/// A statement has the conditions and the actions of its configuration, and a policy
/// the statements of its own, under its name; the names of built-in policies are
/// refused.
pub proof fn law_configured_policies(
    c: PolicyDefinitionView,
    x: StatementConfigView,
    s: DefinedSetsView,
)
    ensures
        match from_config::read_statement(x, s) {
            Ok(t) => from_config::read_conditions(x.conditions, s) == Ok::<
                Seq<ConditionView>,
                Seq<char>,
            >(t.conditions) && from_config::read_actions(x.actions) == Ok::<
                Seq<ActionView>,
                Seq<char>,
            >(t.actions),
            Err(_) => from_config::read_conditions(x.conditions, s) is Err
                || from_config::read_actions(x.actions) is Err,
        },
        match policy::read_policy(c, s) {
            Ok(p) => {
                &&& p.name == c.name
                &&& p.statements.len() == c.statements.len()
                &&& forall|k: int|
                    0 <= k < c.statements.len() ==> from_config::read_statement(
                        #[trigger] c.statements[k],
                        s,
                    ) == Ok::<policy::statement::StatementView, Seq<char>>(p.statements[k])
            },
            Err(_) => true,
        },
        c.name == "default-permit-all"@ || c.name == "default-deny-all"@ ==> policy::read_policy(
            c,
            s,
        ) is Err,
        c.name != "default-permit-all"@ && c.name != "default-deny-all"@ && policy::read_policy(
            c,
            s,
        ) is Err ==> exists|k: int|
            0 <= k < c.statements.len() && from_config::read_statement(
                #[trigger] c.statements[k],
                s,
            ) is Err,
{
    law_lists_are_read(c.statements, policy::statement_reader(s));
}

/// Policies are found by their names; of two with one name the later counts.
pub proof fn law_policies_by_name(l: Seq<PolicyView>, p: PolicyView, name: Seq<char>)
    ensures
        ({
            let m = policy::policies_by_name(l.push(p));
            let before = policy::policies_by_name(l);
            &&& m.contains_key(p.name) && m[p.name] == p
            &&& name != p.name ==> (m.contains_key(name) <==> before.contains_key(name))
            &&& name != p.name && before.contains_key(name) ==> m[name] == before[name]
        }),
        !policy::policies_by_name(Seq::empty()).contains_key(name),
{
    assert(l.push(p).drop_last() =~= l);
}

/// A member of a set of prefixes has the network of its notation. Without a range, and
/// with `exact`, it admits its own length alone; else the lengths between the two that
/// the range names, its own and the longest of the family where one is left out.
pub proof fn law_ranges_of_lengths(c: PrefixMatchConfigView)
    ensures
        match sets::read_prefix_match(c) {
            Ok(m) => {
                let own = match m.network {
                    IpNetwork::V4(n) => n.prefix_length,
                    IpNetwork::V6(n) => n.prefix_length,
                };
                let longest = match m.network {
                    IpNetwork::V4(_) => 32u8,
                    IpNetwork::V6(_) => 128u8,
                };
                &&& addr_text::read_network(c.prefix) == Some(m.network)
                &&& c.masklength_range is None || c.masklength_range == Some("exact"@) ==> m.min_len
                    == own && m.max_len == own
                &&& c.masklength_range is Some && c.masklength_range != Some("exact"@) ==> {
                    &&& own <= m.min_len <= m.max_len <= longest
                    &&& match text::split_pair_from(c.masklength_range->0, '.', 0) {
                        Some((lo, hi)) => {
                            &&& lo.len() == 0 ==> m.min_len == own
                            &&& hi.len() == 0 ==> m.max_len == longest
                            &&& lo.len() > 0 ==> text::read_decimal(lo, 255) == Some(
                                m.min_len as nat,
                            )
                            &&& hi.len() > 0 ==> text::read_decimal(hi, 255) == Some(
                                m.max_len as nat,
                            )
                        },
                        None => false,
                    }
                }
            },
            Err(_) => addr_text::read_network(c.prefix) is None || (c.masklength_range is Some
                && c.masklength_range != Some("exact"@)),
        },
{
}

/// A community is one number, or two of sixteen bits around a colon, the first in the
/// upper half.
pub proof fn law_community_notation(s: Seq<char>, after_part: Seq<char>)
    ensures
        match text::read_decimal(s, 0xFFFF_FFFF) {
            Some(v) => sets::read_community(s, after_part) == Ok::<u32, Seq<char>>(v as u32),
            None => match text::split_once_at(s, ':') {
                Some((high, low)) => match (
                    text::read_decimal(high, 65535),
                    text::read_decimal(low, 65535),
                ) {
                    (Some(h), Some(l)) => match sets::read_community(s, after_part) {
                        Ok(c) => c == h * 65536 + l,
                        Err(_) => false,
                    },
                    _ => sets::read_community(s, after_part) is Err,
                },
                None => sets::read_community(s, after_part) is Err,
            },
        },
{
    if let Some((high, low)) = text::split_once_at(s, ':') {
        if let (Some(h), Some(l)) = (
            text::read_decimal(high, 65535),
            text::read_decimal(low, 65535),
        ) {
            let a = h as u16;
            let b = l as u16;
            assert((a as u32) << 16 | (b as u32) == a * 65536 + b) by (bit_vector);
        }
    }
}

} // verus!
