//! Defined sets and policies of messages and those of the configuration.

use crate::conf;
use crate::conf::{
    ActionsConfig, ActionsView, AsPathSetConfig, CommunityActionConfig, CommunityActionView,
    CommunitySetConfig, ConditionsConfig, ConditionsView, DefinedSetConfig, DefinedSetConfigView,
    ExtCommunitySetConfig, LargeCommunitySetConfig, LocalPrefActionConfig, MatchOptionConfig,
    MatchSetRefConfig, MatchSetRefView, MedActionConfig, NamedTexts, NeighborSetConfig,
    PolicyDefinitionConfig, PolicyDefinitionView, PrefixMatchConfig, PrefixMatchConfigView,
    PrefixSetConfig, PrefixSetConfigView, RpkiValidationConfig, StatementConfig,
    StatementConfigView,
};
use crate::grpc::proto::policy as messages;
use crate::seqs;
use crate::seqs::{clone_opt_text, clone_texts};
use crate::text::text_eq;
use vstd::prelude::*;

verus! {

// ---------------------------------------------------------------------------
// Defined sets
// ---------------------------------------------------------------------------

/// A prefix of a message.
pub open spec fn read_prefix_match(m: messages::PrefixMatchView) -> PrefixMatchConfigView {
    PrefixMatchConfigView { prefix: m.prefix, masklength_range: m.masklength_range }
}

/// A prefix in a message.
pub open spec fn prefix_match_message(p: PrefixMatchConfigView) -> messages::PrefixMatchView {
    messages::PrefixMatchView { prefix: p.prefix, masklength_range: p.masklength_range }
}

pub open spec fn read_prefixes(s: Seq<messages::PrefixMatchView>) -> Seq<PrefixMatchConfigView> {
    Seq::new(s.len(), |i: int| read_prefix_match(s[i]))
}

pub open spec fn prefix_messages(s: Seq<PrefixMatchConfigView>) -> Seq<messages::PrefixMatchView> {
    Seq::new(s.len(), |i: int| prefix_match_message(s[i]))
}

fn prefixes_from_proto(v: &Vec<messages::PrefixMatch>) -> (r: Vec<PrefixMatchConfig>)
    ensures
        seqs::views(r@) == read_prefixes(seqs::views(v@)),
{
    let mut r: Vec<PrefixMatchConfig> = Vec::new();
    let ghost all = read_prefixes(seqs::views(v@));
    let mut i: usize = 0;
    while i < v.len()
        invariant
            i <= v@.len(),
            all == read_prefixes(seqs::views(v@)),
            seqs::views(r@) == all.take(i as int),
        decreases v.len() - i,
    {
        let x = PrefixMatchConfig {
            prefix: v[i].prefix.clone(),
            masklength_range: clone_opt_text(&v[i].masklength_range),
        };
        proof {
            seqs::lemma_views_push(r@, x);
            seqs::lemma_take_next(all, i as int);
        }
        r.push(x);
        i = i + 1;
    }
    proof {
        seqs::lemma_take_all(all);
    }
    r
}

fn prefixes_to_proto(v: Vec<PrefixMatchConfig>) -> (r: Vec<messages::PrefixMatch>)
    ensures
        seqs::views(r@) == prefix_messages(seqs::views(v@)),
{
    let mut r: Vec<messages::PrefixMatch> = Vec::new();
    let ghost all = prefix_messages(seqs::views(v@));
    for p in it: v
        invariant
            it.seq() == v@,
            all == prefix_messages(seqs::views(v@)),
            seqs::views(r@) == all.take(it.index()),
    {
        let ghost k = it.index();
        let x = messages::PrefixMatch { prefix: p.prefix, masklength_range: p.masklength_range };
        proof {
            assert(seqs::views(v@)[k] == p@);
            seqs::lemma_views_push(r@, x);
            seqs::lemma_take_next(all, k);
        }
        r.push(x);
    }
    proof {
        seqs::lemma_take_all(all);
    }
    r
}

/// The defined set that a message describes; one without members is refused.
pub open spec fn read_defined_set(
    m: messages::DefinedSetConfigView,
) -> Result<DefinedSetConfigView, Seq<char>> {
    let name = m.name;
    match m.config {
        Some(messages::SetDataView::PrefixSet(s)) => Ok(
            DefinedSetConfigView::PrefixSet(
                PrefixSetConfigView { name, prefixes: read_prefixes(s) },
            ),
        ),
        Some(messages::SetDataView::AsPathSet(items)) => Ok(
            DefinedSetConfigView::AsPathSet(NamedTexts { name, items }),
        ),
        Some(messages::SetDataView::CommunitySet(items)) => Ok(
            DefinedSetConfigView::CommunitySet(NamedTexts { name, items }),
        ),
        Some(messages::SetDataView::NeighborSet(items)) => Ok(
            DefinedSetConfigView::NeighborSet(NamedTexts { name, items }),
        ),
        Some(messages::SetDataView::ExtCommunitySet(items)) => Ok(
            DefinedSetConfigView::ExtCommunitySet(NamedTexts { name, items }),
        ),
        Some(messages::SetDataView::LargeCommunitySet(items)) => Ok(
            DefinedSetConfigView::LargeCommunitySet(NamedTexts { name, items }),
        ),
        None => Err("missing set config data"@),
    }
}

pub fn proto_to_defined_set_config(proto: &messages::DefinedSetConfig) -> (r: Result<
    DefinedSetConfig,
    String,
>)
    ensures
        conf::result_view(r) == read_defined_set(proto@),
{
    let name = proto.name.clone();
    match &proto.config {
        Some(messages::SetData::PrefixSet(s)) => Ok(
            DefinedSetConfig::PrefixSet(
                PrefixSetConfig { name, prefixes: prefixes_from_proto(&s.prefixes) },
            ),
        ),
        Some(messages::SetData::AsPathSet(s)) => Ok(
            DefinedSetConfig::AsPathSet(
                AsPathSetConfig { name, patterns: clone_texts(&s.patterns) },
            ),
        ),
        Some(messages::SetData::CommunitySet(s)) => Ok(
            DefinedSetConfig::CommunitySet(
                CommunitySetConfig { name, communities: clone_texts(&s.communities) },
            ),
        ),
        Some(messages::SetData::NeighborSet(s)) => Ok(
            DefinedSetConfig::NeighborSet(
                NeighborSetConfig { name, neighbors: clone_texts(&s.addresses) },
            ),
        ),
        Some(messages::SetData::ExtCommunitySet(s)) => Ok(
            DefinedSetConfig::ExtCommunitySet(
                ExtCommunitySetConfig { name, ext_communities: clone_texts(&s.ext_communities) },
            ),
        ),
        Some(messages::SetData::LargeCommunitySet(s)) => Ok(
            DefinedSetConfig::LargeCommunitySet(
                LargeCommunitySetConfig {
                    name,
                    large_communities: clone_texts(&s.large_communities),
                },
            ),
        ),
        None => Err("missing set config data".to_owned()),
    }
}

/// The message of a defined set.
pub open spec fn defined_set_message(c: DefinedSetConfigView) -> messages::DefinedSetInfoView {
    match c {
        DefinedSetConfigView::PrefixSet(s) => messages::DefinedSetInfoView {
            set_type: "prefix-set"@,
            name: s.name,
            set_data: Some(messages::SetDataView::PrefixSet(prefix_messages(s.prefixes))),
        },
        DefinedSetConfigView::AsPathSet(s) => messages::DefinedSetInfoView {
            set_type: "as-path-set"@,
            name: s.name,
            set_data: Some(messages::SetDataView::AsPathSet(s.items)),
        },
        DefinedSetConfigView::CommunitySet(s) => messages::DefinedSetInfoView {
            set_type: "community-set"@,
            name: s.name,
            set_data: Some(messages::SetDataView::CommunitySet(s.items)),
        },
        DefinedSetConfigView::NeighborSet(s) => messages::DefinedSetInfoView {
            set_type: "neighbor-set"@,
            name: s.name,
            set_data: Some(messages::SetDataView::NeighborSet(s.items)),
        },
        DefinedSetConfigView::ExtCommunitySet(s) => messages::DefinedSetInfoView {
            set_type: "ext-community-set"@,
            name: s.name,
            set_data: Some(messages::SetDataView::ExtCommunitySet(s.items)),
        },
        DefinedSetConfigView::LargeCommunitySet(s) => messages::DefinedSetInfoView {
            set_type: "large-community-set"@,
            name: s.name,
            set_data: Some(messages::SetDataView::LargeCommunitySet(s.items)),
        },
    }
}

pub fn defined_set_config_to_proto(config: DefinedSetConfig) -> (r: messages::DefinedSetInfo)
    ensures
        r@ == defined_set_message(config@),
{
    match config {
        DefinedSetConfig::PrefixSet(s) => messages::DefinedSetInfo {
            set_type: "prefix-set".to_owned(),
            name: s.name,
            set_data: Some(
                messages::SetData::PrefixSet(
                    messages::PrefixSetData { prefixes: prefixes_to_proto(s.prefixes) },
                ),
            ),
        },
        DefinedSetConfig::AsPathSet(s) => messages::DefinedSetInfo {
            set_type: "as-path-set".to_owned(),
            name: s.name,
            set_data: Some(
                messages::SetData::AsPathSet(messages::AsPathSetData { patterns: s.patterns }),
            ),
        },
        DefinedSetConfig::CommunitySet(s) => messages::DefinedSetInfo {
            set_type: "community-set".to_owned(),
            name: s.name,
            set_data: Some(
                messages::SetData::CommunitySet(
                    messages::CommunitySetData { communities: s.communities },
                ),
            ),
        },
        DefinedSetConfig::NeighborSet(s) => messages::DefinedSetInfo {
            set_type: "neighbor-set".to_owned(),
            name: s.name,
            set_data: Some(
                messages::SetData::NeighborSet(
                    messages::NeighborSetData { addresses: s.neighbors },
                ),
            ),
        },
        DefinedSetConfig::ExtCommunitySet(s) => messages::DefinedSetInfo {
            set_type: "ext-community-set".to_owned(),
            name: s.name,
            set_data: Some(
                messages::SetData::ExtCommunitySet(
                    messages::ExtendedCommunitySetData { ext_communities: s.ext_communities },
                ),
            ),
        },
        DefinedSetConfig::LargeCommunitySet(s) => messages::DefinedSetInfo {
            set_type: "large-community-set".to_owned(),
            name: s.name,
            set_data: Some(
                messages::SetData::LargeCommunitySet(
                    messages::LargeCommunitySetData { large_communities: s.large_communities },
                ),
            ),
        },
    }
}

/// A defined set that was taken from a message is shown under the same name and
/// with the same members.
pub proof fn law_defined_set_round_trip(m: messages::DefinedSetConfigView)
    requires
        m.config is Some,
    ensures
        match read_defined_set(m) {
            Ok(c) => {
                &&& defined_set_message(c).name == m.name
                &&& defined_set_message(c).set_data == m.config
            },
            Err(_) => false,
        },
{
    if let Some(messages::SetDataView::PrefixSet(s)) = m.config {
        assert(prefix_messages(read_prefixes(s)) =~= s);
    }
}

// ---------------------------------------------------------------------------
// Statements of messages
// ---------------------------------------------------------------------------

/// How the members have to match; any of them where nothing else is said.
pub open spec fn read_match_option(s: Seq<char>) -> MatchOptionConfig {
    if s == "all"@ {
        MatchOptionConfig::All
    } else if s == "invert"@ {
        MatchOptionConfig::Invert
    } else {
        MatchOptionConfig::Any
    }
}

pub open spec fn read_set_ref(m: Option<messages::MatchSetRefView>) -> Option<MatchSetRefView> {
    match m {
        Some(x) => Some(
            MatchSetRefView {
                set_name: x.set_name,
                match_option: read_match_option(x.match_option),
            },
        ),
        None => None,
    }
}

fn set_ref_from_proto(m: Option<messages::MatchSetRef>) -> (r: Option<MatchSetRefConfig>)
    ensures
        conf::opt_set_ref(r) == read_set_ref(conf::opt_view(m)),
{
    match m {
        Some(x) => {
            let match_option = if text_eq(x.match_option.as_str(), "all") {
                MatchOptionConfig::All
            } else if text_eq(x.match_option.as_str(), "invert") {
                MatchOptionConfig::Invert
            } else {
                MatchOptionConfig::Any
            };
            Some(MatchSetRefConfig { set_name: x.set_name, match_option })
        },
        None => None,
    }
}

/// The validation state that a number stands for; an unknown number says
/// nothing.
pub open spec fn read_rpki(v: Option<i32>) -> Option<RpkiValidationConfig> {
    match v {
        Some(0) => Some(RpkiValidationConfig::NotFound),
        Some(1) => Some(RpkiValidationConfig::Valid),
        Some(2) => Some(RpkiValidationConfig::Invalid),
        _ => None,
    }
}

fn rpki_from_proto(v: Option<i32>) -> (r: Option<RpkiValidationConfig>)
    ensures
        r == read_rpki(v),
{
    match v {
        Some(0) => Some(RpkiValidationConfig::NotFound),
        Some(1) => Some(RpkiValidationConfig::Valid),
        Some(2) => Some(RpkiValidationConfig::Invalid),
        _ => None,
    }
}

/// The conditions that a message describes. It has no room for conditions on the
/// systems of a path, the kind of a route or one community.
pub open spec fn read_conditions(m: messages::ConditionsConfigView) -> ConditionsView {
    ConditionsView {
        match_prefix_set: read_set_ref(m.match_prefix_set),
        match_neighbor_set: read_set_ref(m.match_neighbor_set),
        match_as_path_set: read_set_ref(m.match_as_path_set),
        match_community_set: read_set_ref(m.match_community_set),
        match_ext_community_set: read_set_ref(m.match_ext_community_set),
        match_large_community_set: read_set_ref(m.match_large_community_set),
        prefix: m.prefix,
        neighbor: m.neighbor,
        has_asn: None,
        route_type: None,
        community: None,
        rpki_validation: read_rpki(m.rpki_validation),
        afi_safi: m.afi_safi,
        ls_nlri_type: m.ls_nlri_type,
        ls_protocol_id: m.ls_protocol_id,
        ls_instance_id: m.ls_instance_id,
        ls_node_as: m.ls_node_as,
        ls_node_router_id: m.ls_node_router_id,
    }
}

fn conditions_from_proto(c: messages::ConditionsConfig) -> (r: ConditionsConfig)
    ensures
        r@ == read_conditions(c@),
{
    ConditionsConfig {
        match_prefix_set: set_ref_from_proto(c.match_prefix_set),
        match_neighbor_set: set_ref_from_proto(c.match_neighbor_set),
        match_as_path_set: set_ref_from_proto(c.match_as_path_set),
        match_community_set: set_ref_from_proto(c.match_community_set),
        match_ext_community_set: set_ref_from_proto(c.match_ext_community_set),
        match_large_community_set: set_ref_from_proto(c.match_large_community_set),
        prefix: c.prefix,
        neighbor: c.neighbor,
        has_asn: None,
        route_type: None,
        community: None,
        rpki_validation: rpki_from_proto(c.rpki_validation),
        afi_safi: c.afi_safi,
        ls_nlri_type: c.ls_nlri_type,
        ls_protocol_id: c.ls_protocol_id,
        ls_instance_id: c.ls_instance_id,
        ls_node_as: c.ls_node_as,
        ls_node_router_id: c.ls_node_router_id,
    }
}

/// The operation on communities: those to add go before those to remove, which
/// are left aside where there are any to add.
pub open spec fn read_community_action(
    add_communities: Seq<Seq<char>>,
    remove_communities: Seq<Seq<char>>,
) -> Option<CommunityActionView> {
    if add_communities.len() > 0 {
        Some(CommunityActionView { operation: "add"@, values: add_communities })
    } else if remove_communities.len() > 0 {
        Some(CommunityActionView { operation: "remove"@, values: remove_communities })
    } else {
        None
    }
}

/// The actions that a message describes.
pub open spec fn read_actions(m: messages::ActionsConfigView) -> ActionsView {
    ActionsView {
        local_pref: match m.local_pref {
            Some(v) => Some(LocalPrefActionConfig::Value(v)),
            None => None,
        },
        med: match m.med {
            Some(v) => Some(MedActionConfig::Value(v)),
            None => None,
        },
        community: read_community_action(m.add_communities, m.remove_communities),
        ext_community: None,
        large_community: None,
        set_rpki_state: read_rpki(m.set_rpki_state),
        accept: m.accept,
        reject: m.reject,
    }
}

fn actions_from_proto(a: messages::ActionsConfig) -> (r: ActionsConfig)
    ensures
        r@ == read_actions(a@),
{
    let community = if a.add_communities.len() > 0 {
        Some(
            CommunityActionConfig { operation: "add".to_owned(), communities: a.add_communities },
        )
    } else if a.remove_communities.len() > 0 {
        Some(
            CommunityActionConfig {
                operation: "remove".to_owned(),
                communities: a.remove_communities,
            },
        )
    } else {
        None
    };
    let local_pref = match a.local_pref {
        Some(v) => Some(LocalPrefActionConfig::Value(v)),
        None => None,
    };
    let med = match a.med {
        Some(v) => Some(MedActionConfig::Value(v)),
        None => None,
    };
    ActionsConfig {
        local_pref,
        med,
        community,
        ext_community: None,
        large_community: None,
        set_rpki_state: rpki_from_proto(a.set_rpki_state),
        accept: a.accept,
        reject: a.reject,
    }
}

/// The statement that a message describes; it has no name.
pub open spec fn read_statement(m: messages::StatementConfigView) -> StatementConfigView {
    StatementConfigView {
        name: None,
        conditions: match m.conditions {
            Some(c) => read_conditions(c),
            None => conf::no_conditions(),
        },
        actions: match m.actions {
            Some(a) => read_actions(a),
            None => conf::no_actions(),
        },
    }
}

/// The statement that a message describes. Every message describes one.
pub fn proto_to_statement_config(proto: messages::StatementConfig) -> (r: Result<
    StatementConfig,
    String,
>)
    ensures
        conf::result_view(r) == Ok::<StatementConfigView, Seq<char>>(read_statement(proto@)),
{
    let conditions = match proto.conditions {
        Some(c) => conditions_from_proto(c),
        None => ConditionsConfig::default(),
    };
    let actions = match proto.actions {
        Some(a) => actions_from_proto(a),
        None => ActionsConfig::default(),
    };
    Ok(StatementConfig { name: None, conditions, actions })
}

// ---------------------------------------------------------------------------
// Policies in messages
// ---------------------------------------------------------------------------

/// How the members have to match, in a message.
pub open spec fn match_option_text(o: MatchOptionConfig) -> Seq<char> {
    match o {
        MatchOptionConfig::Any => "any"@,
        MatchOptionConfig::All => "all"@,
        MatchOptionConfig::Invert => "invert"@,
    }
}

pub open spec fn set_ref_message(m: Option<MatchSetRefView>) -> Option<messages::MatchSetRefView> {
    match m {
        Some(x) => Some(
            messages::MatchSetRefView {
                set_name: x.set_name,
                match_option: match_option_text(x.match_option),
            },
        ),
        None => None,
    }
}

fn set_ref_to_proto(m: Option<MatchSetRefConfig>) -> (r: Option<messages::MatchSetRef>)
    ensures
        conf::opt_view(r) == set_ref_message(conf::opt_set_ref(m)),
{
    match m {
        Some(x) => {
            let match_option = match x.match_option {
                MatchOptionConfig::Any => "any".to_owned(),
                MatchOptionConfig::All => "all".to_owned(),
                MatchOptionConfig::Invert => "invert".to_owned(),
            };
            Some(messages::MatchSetRef { set_name: x.set_name, match_option })
        },
        None => None,
    }
}

/// The number of a validation state.
pub open spec fn rpki_number(v: Option<RpkiValidationConfig>) -> Option<i32> {
    match v {
        Some(RpkiValidationConfig::NotFound) => Some(0),
        Some(RpkiValidationConfig::Valid) => Some(1),
        Some(RpkiValidationConfig::Invalid) => Some(2),
        None => None,
    }
}

fn rpki_to_proto(v: Option<RpkiValidationConfig>) -> (r: Option<i32>)
    ensures
        r == rpki_number(v),
{
    match v {
        Some(RpkiValidationConfig::NotFound) => Some(0),
        Some(RpkiValidationConfig::Valid) => Some(1),
        Some(RpkiValidationConfig::Invalid) => Some(2),
        None => None,
    }
}

/// The message of conditions.
pub open spec fn conditions_message(c: ConditionsView) -> messages::ConditionsConfigView {
    messages::ConditionsConfigView {
        match_prefix_set: set_ref_message(c.match_prefix_set),
        match_neighbor_set: set_ref_message(c.match_neighbor_set),
        match_as_path_set: set_ref_message(c.match_as_path_set),
        match_community_set: set_ref_message(c.match_community_set),
        match_ext_community_set: set_ref_message(c.match_ext_community_set),
        match_large_community_set: set_ref_message(c.match_large_community_set),
        prefix: c.prefix,
        neighbor: c.neighbor,
        rpki_validation: rpki_number(c.rpki_validation),
        afi_safi: c.afi_safi,
        ls_nlri_type: c.ls_nlri_type,
        ls_protocol_id: c.ls_protocol_id,
        ls_instance_id: c.ls_instance_id,
        ls_node_as: c.ls_node_as,
        ls_node_router_id: c.ls_node_router_id,
    }
}

fn conditions_to_proto(c: ConditionsConfig) -> (r: messages::ConditionsConfig)
    ensures
        r@ == conditions_message(c@),
{
    messages::ConditionsConfig {
        match_prefix_set: set_ref_to_proto(c.match_prefix_set),
        match_neighbor_set: set_ref_to_proto(c.match_neighbor_set),
        match_as_path_set: set_ref_to_proto(c.match_as_path_set),
        match_community_set: set_ref_to_proto(c.match_community_set),
        match_ext_community_set: set_ref_to_proto(c.match_ext_community_set),
        match_large_community_set: set_ref_to_proto(c.match_large_community_set),
        prefix: c.prefix,
        neighbor: c.neighbor,
        rpki_validation: rpki_to_proto(c.rpki_validation),
        afi_safi: c.afi_safi,
        ls_nlri_type: c.ls_nlri_type,
        ls_protocol_id: c.ls_protocol_id,
        ls_instance_id: c.ls_instance_id,
        ls_node_as: c.ls_node_as,
        ls_node_router_id: c.ls_node_router_id,
    }
}

/// The communities to add: those of an operation `add`.
pub open spec fn communities_to_add(c: Option<CommunityActionView>) -> Seq<Seq<char>> {
    match c {
        Some(x) => if x.operation == "add"@ {
            x.values
        } else {
            Seq::empty()
        },
        None => Seq::empty(),
    }
}

/// The communities to remove: those of any other operation.
pub open spec fn communities_to_remove(c: Option<CommunityActionView>) -> Seq<Seq<char>> {
    match c {
        Some(x) => if x.operation == "add"@ {
            Seq::empty()
        } else {
            x.values
        },
        None => Seq::empty(),
    }
}

/// The message of actions.
pub open spec fn actions_message(a: ActionsView) -> messages::ActionsConfigView {
    messages::ActionsConfigView {
        accept: a.accept,
        reject: a.reject,
        local_pref: match a.local_pref {
            Some(LocalPrefActionConfig::Value(v)) => Some(v),
            Some(LocalPrefActionConfig::Force { value, force: _ }) => Some(value),
            None => None,
        },
        med: match a.med {
            Some(MedActionConfig::Value(v)) => Some(v),
            Some(MedActionConfig::Remove { remove: _ }) => None,
            None => None,
        },
        add_communities: communities_to_add(a.community),
        remove_communities: communities_to_remove(a.community),
        set_rpki_state: rpki_number(a.set_rpki_state),
    }
}

fn actions_to_proto(a: ActionsConfig) -> (r: messages::ActionsConfig)
    ensures
        r@ == actions_message(a@),
{
    let mut add_communities: Vec<String> = Vec::new();
    let mut remove_communities: Vec<String> = Vec::new();
    assert(seqs::views(add_communities@) =~= Seq::<Seq<char>>::empty());
    assert(seqs::views(remove_communities@) =~= Seq::<Seq<char>>::empty());
    match a.community {
        Some(c) => {
            if text_eq(c.operation.as_str(), "add") {
                add_communities = c.communities;
            } else {
                remove_communities = c.communities;
            }
        },
        None => {},
    }
    let local_pref: Option<u32> = match a.local_pref {
        Some(LocalPrefActionConfig::Value(v)) => Some(v),
        Some(LocalPrefActionConfig::Force { value, force: _ }) => Some(value),
        None => None,
    };
    let med: Option<u32> = match a.med {
        Some(MedActionConfig::Value(v)) => Some(v),
        Some(MedActionConfig::Remove { remove: _ }) => None,
        None => None,
    };
    messages::ActionsConfig {
        accept: a.accept,
        reject: a.reject,
        local_pref,
        med,
        add_communities,
        remove_communities,
        set_rpki_state: rpki_to_proto(a.set_rpki_state),
    }
}

/// The message of a statement.
pub open spec fn statement_message(s: StatementConfigView) -> messages::StatementInfoView {
    messages::StatementInfoView {
        conditions: Some(conditions_message(s.conditions)),
        actions: Some(actions_message(s.actions)),
    }
}

pub open spec fn statement_messages(
    s: Seq<StatementConfigView>,
) -> Seq<messages::StatementInfoView> {
    Seq::new(s.len(), |i: int| statement_message(s[i]))
}

/// The message of a policy.
pub open spec fn policy_message(p: PolicyDefinitionView) -> messages::PolicyInfoView {
    messages::PolicyInfoView { name: p.name, statements: statement_messages(p.statements) }
}

pub fn policy_info_to_proto(info: PolicyDefinitionConfig) -> (r: messages::PolicyInfo)
    ensures
        r@ == policy_message(info@),
{
    let statements = info.statements;
    let mut out: Vec<messages::StatementInfo> = Vec::new();
    let ghost all = statement_messages(seqs::views(statements@));
    for s in it: statements
        invariant
            it.seq() == statements@,
            all == statement_messages(seqs::views(statements@)),
            seqs::views(out@) == all.take(it.index()),
    {
        let ghost k = it.index();
        let x = messages::StatementInfo {
            conditions: Some(conditions_to_proto(s.conditions)),
            actions: Some(actions_to_proto(s.actions)),
        };
        proof {
            assert(seqs::views(statements@)[k] == s@);
            seqs::lemma_views_push(out@, x);
            seqs::lemma_take_next(all, k);
        }
        out.push(x);
    }
    proof {
        seqs::lemma_take_all(all);
    }
    messages::PolicyInfo { name: info.name, statements: out }
}

// ---------------------------------------------------------------------------
// There and back
// ---------------------------------------------------------------------------

/// A reference names one of the three ways to match.
pub open spec fn plain_set_ref(m: Option<messages::MatchSetRefView>) -> bool {
    match m {
        Some(x) => x.match_option == "any"@ || x.match_option == "all"@ || x.match_option
            == "invert"@,
        None => true,
    }
}

/// A number that is missing or stands for a validation state.
pub open spec fn plain_rpki(v: Option<i32>) -> bool {
    match v {
        Some(n) => 0 <= n <= 2,
        None => true,
    }
}

/// The message says nothing that is lost on the way.
pub open spec fn plain_statement(m: messages::StatementConfigView) -> bool {
    match (m.conditions, m.actions) {
        (Some(c), Some(a)) => {
            &&& plain_set_ref(c.match_prefix_set)
            &&& plain_set_ref(c.match_neighbor_set)
            &&& plain_set_ref(c.match_as_path_set)
            &&& plain_set_ref(c.match_community_set)
            &&& plain_set_ref(c.match_ext_community_set)
            &&& plain_set_ref(c.match_large_community_set)
            &&& plain_rpki(c.rpki_validation)
            &&& plain_rpki(a.set_rpki_state)
            &&& a.add_communities.len() == 0 || a.remove_communities.len() == 0
        },
        _ => false,
    }
}

/// A statement that was taken from a message that says nothing that is lost on
/// the way is shown with the same conditions and actions.
pub proof fn law_statement_message_round_trip(m: messages::StatementConfigView)
    requires
        plain_statement(m),
    ensures
        statement_message(read_statement(m)).conditions == m.conditions,
        statement_message(read_statement(m)).actions == m.actions,
{
    reveal_strlit("any");
    reveal_strlit("all");
    reveal_strlit("invert");
    reveal_strlit("add");
    reveal_strlit("remove");
    assert("any"@.len() == 3 && "any"@[1] == 'n');
    assert("all"@.len() == 3 && "all"@[1] == 'l');
    assert("invert"@.len() == 6);
    assert("add"@.len() == 3);
    assert("remove"@.len() == 6);
    let a = m.actions->0;
    assert(a.add_communities.len() == 0 ==> a.add_communities =~= Seq::empty());
    assert(a.remove_communities.len() == 0 ==> a.remove_communities =~= Seq::empty());
}

} // verus!
