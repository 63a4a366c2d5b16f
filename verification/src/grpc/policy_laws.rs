//! What messages say of policies and sets, and what is made of such messages.

use crate::conf::{
    ActionsView, CommunityActionView, ConditionsView, DefinedSetConfig, DefinedSetConfigView,
    LocalPrefActionConfig, MatchOptionConfig, MatchSetRefView, MedActionConfig, NamedTexts,
    PolicyDefinitionConfig, PolicyDefinitionView, PrefixSetConfigView, RpkiValidationConfig,
};
use crate::grpc::listings;
use crate::grpc::proto::policy as messages;
use crate::grpc::proto_policy;
use crate::grpc::service;
use crate::grpc::service::{Reply, StatusView};
use vstd::prelude::*;

verus! {

// ---------------------------------------------------------------------------
// Sets
// ---------------------------------------------------------------------------

/// Every set and every policy is listed, in the order of the reply.
pub proof fn law_listed_sets_and_policies(
    v: Vec<DefinedSetConfig>,
    w: Vec<PolicyDefinitionConfig>,
)
    ensures
        match listings::sets_listed(Reply::Given(v)) {
            Ok(l) => l.len() == v@.len() && forall|i: int|
                0 <= i < l.len() ==> #[trigger] l[i] == proto_policy::defined_set_message(v@[i]@),
            Err(_) => false,
        },
        match listings::policies_listed(Reply::Given(w)) {
            Ok(l) => l.len() == w@.len() && forall|i: int|
                0 <= i < l.len() ==> #[trigger] l[i] == proto_policy::policy_message(w@[i]@),
            Err(_) => false,
        },
        listings::sets_listed(Reply::NotSent) is Err,
        listings::sets_listed(Reply::Lost) is Err,
        listings::policies_listed(Reply::NotSent) is Err,
        listings::policies_listed(Reply::Lost) is Err,
{
}

/// A listed set has the name of its kind, its own name, and its members.
pub proof fn law_listed_sets(name: Seq<char>, items: Seq<Seq<char>>)
    ensures
        ({
            let s = NamedTexts { name, items };
            let a = proto_policy::defined_set_message(DefinedSetConfigView::AsPathSet(s));
            let c = proto_policy::defined_set_message(DefinedSetConfigView::CommunitySet(s));
            let n = proto_policy::defined_set_message(DefinedSetConfigView::NeighborSet(s));
            let e = proto_policy::defined_set_message(DefinedSetConfigView::ExtCommunitySet(s));
            let l = proto_policy::defined_set_message(DefinedSetConfigView::LargeCommunitySet(s));
            &&& a.name == name && c.name == name && n.name == name && e.name == name && l.name
                == name
            &&& a.set_type == "as-path-set"@ && a.set_data == Some(
                messages::SetDataView::AsPathSet(items),
            )
            &&& c.set_type == "community-set"@ && c.set_data == Some(
                messages::SetDataView::CommunitySet(items),
            )
            &&& n.set_type == "neighbor-set"@ && n.set_data == Some(
                messages::SetDataView::NeighborSet(items),
            )
            &&& e.set_type == "ext-community-set"@ && e.set_data == Some(
                messages::SetDataView::ExtCommunitySet(items),
            )
            &&& l.set_type == "large-community-set"@ && l.set_data == Some(
                messages::SetDataView::LargeCommunitySet(items),
            )
        }),
{
}

/// A listed set of prefixes has its prefixes with their ranges, in their order.
pub proof fn law_listed_prefix_sets(s: PrefixSetConfigView)
    ensures
        ({
            let m = proto_policy::defined_set_message(DefinedSetConfigView::PrefixSet(s));
            &&& m.set_type == "prefix-set"@
            &&& m.name == s.name
            &&& match m.set_data {
                Some(messages::SetDataView::PrefixSet(l)) => l.len() == s.prefixes.len() && forall|
                    i: int,
                |
                    0 <= i < l.len() ==> (#[trigger] l[i]).prefix == s.prefixes[i].prefix
                        && l[i].masklength_range == s.prefixes[i].masklength_range,
                _ => false,
            }
        }),
{
}

/// A set that is to be added is of the kind of its members, and has its name; without
/// members, or a set at all, the request is refused.
pub proof fn law_added_sets(
    name: Seq<char>,
    items: Seq<Seq<char>>,
    m: messages::DefinedSetConfigView,
)
    ensures
        ({
            let s = NamedTexts { name, items };
            &&& m.name == name && m.config == Some(messages::SetDataView::AsPathSet(items))
                ==> service::read_new_set(Some(m)) == Ok::<DefinedSetConfigView, StatusView>(
                DefinedSetConfigView::AsPathSet(s),
            )
            &&& m.name == name && m.config == Some(messages::SetDataView::CommunitySet(items))
                ==> service::read_new_set(Some(m)) == Ok::<DefinedSetConfigView, StatusView>(
                DefinedSetConfigView::CommunitySet(s),
            )
            &&& m.name == name && m.config == Some(messages::SetDataView::NeighborSet(items))
                ==> service::read_new_set(Some(m)) == Ok::<DefinedSetConfigView, StatusView>(
                DefinedSetConfigView::NeighborSet(s),
            )
            &&& m.name == name && m.config == Some(messages::SetDataView::ExtCommunitySet(items))
                ==> service::read_new_set(Some(m)) == Ok::<DefinedSetConfigView, StatusView>(
                DefinedSetConfigView::ExtCommunitySet(s),
            )
            &&& m.name == name && m.config == Some(messages::SetDataView::LargeCommunitySet(items))
                ==> service::read_new_set(Some(m)) == Ok::<DefinedSetConfigView, StatusView>(
                DefinedSetConfigView::LargeCommunitySet(s),
            )
        }),
        m.config is None ==> service::read_new_set(Some(m)) is Err && service::read_new_set(
            Some(m),
        )->Err_0 is InvalidArgument,
        service::read_new_set(None) is Err,
        service::read_new_set(None)->Err_0 is InvalidArgument,
{
}

// ---------------------------------------------------------------------------
// Listed policies
// ---------------------------------------------------------------------------

/// A listed policy has its name and its statements in their order, each with its
/// conditions and actions.
pub proof fn law_listed_policies(p: PolicyDefinitionView)
    ensures
        proto_policy::policy_message(p).name == p.name,
        proto_policy::policy_message(p).statements.len() == p.statements.len(),
        forall|i: int|
            0 <= i < p.statements.len() ==> (#[trigger] proto_policy::policy_message(
                p,
            ).statements[i]).conditions == Some(
                proto_policy::conditions_message(p.statements[i].conditions),
            ) && proto_policy::policy_message(p).statements[i].actions == Some(
                proto_policy::actions_message(p.statements[i].actions),
            ),
{
}

/// A message names a set and the way to match it as a configuration does.
pub open spec fn same_reference(
    m: Option<messages::MatchSetRefView>,
    c: Option<MatchSetRefView>,
) -> bool {
    match (m, c) {
        (Some(x), Some(y)) => x.set_name == y.set_name && match y.match_option {
            MatchOptionConfig::Any => x.match_option == "any"@,
            MatchOptionConfig::All => x.match_option == "all"@,
            MatchOptionConfig::Invert => x.match_option == "invert"@,
        },
        (None, None) => true,
        _ => false,
    }
}

/// A message gives the number of an outcome of validation.
pub open spec fn same_outcome(m: Option<i32>, c: Option<RpkiValidationConfig>) -> bool {
    match c {
        Some(RpkiValidationConfig::NotFound) => m == Some(0i32),
        Some(RpkiValidationConfig::Valid) => m == Some(1i32),
        Some(RpkiValidationConfig::Invalid) => m == Some(2i32),
        None => m is None,
    }
}

/// The conditions that are listed are those of the statement, each under its own
/// heading.
pub proof fn law_listed_conditions(c: ConditionsView)
    ensures
        ({
            let m = proto_policy::conditions_message(c);
            &&& same_reference(m.match_prefix_set, c.match_prefix_set)
            &&& same_reference(m.match_neighbor_set, c.match_neighbor_set)
            &&& same_reference(m.match_as_path_set, c.match_as_path_set)
            &&& same_reference(m.match_community_set, c.match_community_set)
            &&& same_reference(m.match_ext_community_set, c.match_ext_community_set)
            &&& same_reference(m.match_large_community_set, c.match_large_community_set)
            &&& same_outcome(m.rpki_validation, c.rpki_validation)
            &&& m.prefix == c.prefix
            &&& m.neighbor == c.neighbor
            &&& m.afi_safi == c.afi_safi
            &&& m.ls_nlri_type == c.ls_nlri_type
            &&& m.ls_protocol_id == c.ls_protocol_id
            &&& m.ls_instance_id == c.ls_instance_id
            &&& m.ls_node_as == c.ls_node_as
            &&& m.ls_node_router_id == c.ls_node_router_id
        }),
{
}

/// The actions that are listed are those of the statement; communities are listed
/// among those to add if that is the operation, and else among those to remove.
pub proof fn law_listed_actions(a: ActionsView, value: u32, force: bool)
    ensures
        ({
            let m = proto_policy::actions_message(a);
            &&& m.accept == a.accept
            &&& m.reject == a.reject
            &&& same_outcome(m.set_rpki_state, a.set_rpki_state)
            &&& a.local_pref is None ==> m.local_pref is None
            &&& a.local_pref == Some(LocalPrefActionConfig::Value(value)) ==> m.local_pref == Some(
                value,
            )
            &&& a.local_pref == Some((LocalPrefActionConfig::Force { value, force }))
                ==> m.local_pref == Some(value)
            &&& a.med == Some(MedActionConfig::Value(value)) ==> m.med == Some(value)
            &&& !(a.med is Some && a.med->0 is Value) ==> m.med is None
            &&& match a.community {
                None => m.add_communities.len() == 0 && m.remove_communities.len() == 0,
                Some(x) => if x.operation == "add"@ {
                    m.add_communities == x.values && m.remove_communities.len() == 0
                } else {
                    m.remove_communities == x.values && m.add_communities.len() == 0
                },
            }
        }),
{
}

// ---------------------------------------------------------------------------
// Added policies
// ---------------------------------------------------------------------------

/// A configuration refers to a set as a message does; a way to match that is neither
/// `all` nor `invert` is any.
pub open spec fn read_reference(
    m: Option<messages::MatchSetRefView>,
    c: Option<MatchSetRefView>,
) -> bool {
    match (m, c) {
        (Some(x), Some(y)) => x.set_name == y.set_name && (y.match_option is All
            <==> x.match_option == "all"@) && (y.match_option is Invert <==> x.match_option
            == "invert"@),
        (None, None) => true,
        _ => false,
    }
}

/// A configuration has the outcome of validation with a number.
pub open spec fn read_outcome(m: Option<i32>, c: Option<RpkiValidationConfig>) -> bool {
    &&& c == Some(RpkiValidationConfig::NotFound) <==> m == Some(0i32)
    &&& c == Some(RpkiValidationConfig::Valid) <==> m == Some(1i32)
    &&& c == Some(RpkiValidationConfig::Invalid) <==> m == Some(2i32)
}

/// The conditions of a statement that is added are those of the message, each from its
/// own heading, and no others.
pub proof fn law_added_conditions(m: messages::ConditionsConfigView)
    ensures
        ({
            let c = proto_policy::read_conditions(m);
            &&& read_reference(m.match_prefix_set, c.match_prefix_set)
            &&& read_reference(m.match_neighbor_set, c.match_neighbor_set)
            &&& read_reference(m.match_as_path_set, c.match_as_path_set)
            &&& read_reference(m.match_community_set, c.match_community_set)
            &&& read_reference(m.match_ext_community_set, c.match_ext_community_set)
            &&& read_reference(m.match_large_community_set, c.match_large_community_set)
            &&& read_outcome(m.rpki_validation, c.rpki_validation)
            &&& c.prefix == m.prefix
            &&& c.neighbor == m.neighbor
            &&& c.afi_safi == m.afi_safi
            &&& c.ls_nlri_type == m.ls_nlri_type
            &&& c.ls_protocol_id == m.ls_protocol_id
            &&& c.ls_instance_id == m.ls_instance_id
            &&& c.ls_node_as == m.ls_node_as
            &&& c.ls_node_router_id == m.ls_node_router_id
            &&& c.has_asn is None && c.route_type is None && c.community is None
        }),
{
    reveal_strlit("all");
    reveal_strlit("invert");
    assert("all"@.len() == 3 && "invert"@.len() == 6);
}

/// The actions of a statement that is added are those of the message; communities are
/// added where there are some to add, and else removed.
pub proof fn law_added_actions(m: messages::ActionsConfigView)
    ensures
        ({
            let a = proto_policy::read_actions(m);
            &&& a.accept == m.accept
            &&& a.reject == m.reject
            &&& read_outcome(m.set_rpki_state, a.set_rpki_state)
            &&& m.local_pref is None ==> a.local_pref is None
            &&& m.local_pref is Some ==> a.local_pref == Some(
                LocalPrefActionConfig::Value(m.local_pref->0),
            )
            &&& m.med is None ==> a.med is None
            &&& m.med is Some ==> a.med == Some(MedActionConfig::Value(m.med->0))
            &&& m.add_communities.len() > 0 ==> a.community == Some(
                (CommunityActionView { operation: "add"@, values: m.add_communities }),
            )
            &&& m.add_communities.len() == 0 && m.remove_communities.len() > 0 ==> a.community
                == Some(
                (CommunityActionView { operation: "remove"@, values: m.remove_communities }),
            )
            &&& m.add_communities.len() == 0 && m.remove_communities.len() == 0
                ==> a.community is None
            &&& a.ext_community is None && a.large_community is None
        }),
{
}

/// The statements of a policy that is added are those of the request, in their order
/// and without names.
pub proof fn law_added_statements(s: Seq<messages::StatementConfigView>)
    ensures
        service::read_statements(s).len() == s.len(),
        forall|i: int|
            0 <= i < s.len() ==> {
                let t = #[trigger] service::read_statements(s)[i];
                &&& t.name is None
                &&& s[i].conditions is Some ==> t.conditions == proto_policy::read_conditions(
                    s[i].conditions->0,
                )
                &&& s[i].actions is Some ==> t.actions == proto_policy::read_actions(
                    s[i].actions->0,
                )
                &&& s[i].actions is None ==> t.actions.accept is None && t.actions.reject is None
                    && t.actions.local_pref is None && t.actions.med is None
                    && t.actions.community is None
                &&& s[i].conditions is None ==> t.conditions.prefix is None
                    && t.conditions.match_prefix_set is None && t.conditions.neighbor is None
            },
{
}

} // verus!
