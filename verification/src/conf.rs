//! The configuration that policies are built from.

use crate::seqs;
use vstd::prelude::*;

verus! {

/// What a result holds, with the text of its error.
pub open spec fn result_view<T: View>(r: Result<T, String>) -> Result<T::V, Seq<char>> {
    match r {
        Ok(x) => Ok(x@),
        Err(e) => Err(e@),
    }
}

/// What a result with a plain value holds.
pub open spec fn plain_result<T>(r: Result<T, String>) -> Result<T, Seq<char>> {
    match r {
        Ok(x) => Ok(x),
        Err(e) => Err(e@),
    }
}

/// What a result with a list holds.
pub open spec fn list_result<T: View>(r: Result<Vec<T>, String>) -> Result<Seq<T::V>, Seq<char>> {
    match r {
        Ok(x) => Ok(seqs::views(x@)),
        Err(e) => Err(e@),
    }
}

/// What `f` makes of each item, or the first error that it gives.
pub open spec fn read_all<A, B>(
    items: Seq<A>,
    f: spec_fn(A) -> Result<B, Seq<char>>,
) -> Result<Seq<B>, Seq<char>>
    decreases items.len(),
{
    if items.len() == 0 {
        Ok(Seq::empty())
    } else {
        match read_all(items.drop_last(), f) {
            Err(e) => Err(e),
            Ok(l) => match f(items.last()) {
                Ok(x) => Ok(l.push(x)),
                Err(e) => Err(e),
            },
        }
    }
}

/// An error among the first items is the error of the whole list.
pub proof fn lemma_read_all_error<A, B>(
    items: Seq<A>,
    f: spec_fn(A) -> Result<B, Seq<char>>,
    i: int,
)
    requires
        0 <= i <= items.len(),
        read_all(items.take(i), f) is Err,
    ensures
        read_all(items, f) == read_all(items.take(i), f),
    decreases items.len(),
{
    if i == items.len() {
        assert(items.take(i) =~= items);
    } else {
        assert(items.drop_last().take(i) =~= items.take(i));
        lemma_read_all_error(items.drop_last(), f, i);
    }
}

/// One more item.
pub proof fn lemma_read_all_next<A, B>(
    items: Seq<A>,
    f: spec_fn(A) -> Result<B, Seq<char>>,
    i: int,
)
    requires
        0 <= i < items.len(),
    ensures
        read_all(items.take(i + 1), f) == (match read_all(items.take(i), f) {
            Err(e) => Err(e),
            Ok(l) => match f(items[i]) {
                Ok(x) => Ok(l.push(x)),
                Err(e) => Err(e),
            },
        }),
{
    assert(items.take(i + 1).drop_last() =~= items.take(i));
    assert(items.take(i + 1).last() == items[i]);
}

/// What `f` makes of each item, or the first error that it gives.
pub(crate) fn parse_all<A: View, T: View, F: Fn(&A) -> Result<T, String>>(
    items: &Vec<A>,
    f: F,
    Ghost(g): Ghost<spec_fn(A::V) -> Result<T::V, Seq<char>>>,
) -> (r: Result<Vec<T>, String>)
    requires
        forall|x: &A| #[trigger] f.requires((x,)),
        forall|x: &A, y: Result<T, String>| #[trigger]
            f.ensures((x,), y) ==> result_view(y) == g(x@),
    ensures
        list_result(r) == read_all(seqs::views(items@), g),
{
    let ghost all = seqs::views(items@);
    let mut out: Vec<T> = Vec::new();
    let mut i: usize = 0;
    assert(seqs::views(out@) =~= Seq::<T::V>::empty());
    while i < items.len()
        invariant
            i <= items@.len(),
            all == seqs::views(items@),
            read_all(all.take(i as int), g) == Ok::<Seq<T::V>, Seq<char>>(seqs::views(out@)),
            forall|x: &A| #[trigger] f.requires((x,)),
            forall|x: &A, y: Result<T, String>| #[trigger]
                f.ensures((x,), y) ==> result_view(y) == g(x@),
        decreases items.len() - i,
    {
        proof {
            lemma_read_all_next(all, g, i as int);
        }
        match f(&items[i]) {
            Ok(x) => {
                proof {
                    seqs::lemma_views_push(out@, x);
                }
                out.push(x);
            },
            Err(e) => {
                proof {
                    lemma_read_all_error(all, g, i + 1);
                }
                return Err(e);
            },
        }
        i = i + 1;
    }
    proof {
        seqs::lemma_take_all(all);
    }
    Ok(out)
}

// ---------------------------------------------------------------------------
// Statements
// ---------------------------------------------------------------------------

/// How the members of a set have to match.
#[derive(Debug, Clone, Copy, PartialEq, Eq, Structural)]
pub enum MatchOptionConfig {
    Any,
    All,
    Invert,
}

#[derive(Debug, Clone, Copy, PartialEq, Eq, Structural)]
pub enum RpkiValidationConfig {
    Valid,
    Invalid,
    NotFound,
}

/// A reference to a defined set.
#[derive(Debug, PartialEq, Eq)]
pub struct MatchSetRefConfig {
    pub set_name: String,
    pub match_option: MatchOptionConfig,
}

pub struct MatchSetRefView {
    pub set_name: Seq<char>,
    pub match_option: MatchOptionConfig,
}

impl View for MatchSetRefConfig {
    type V = MatchSetRefView;

    open spec fn view(&self) -> MatchSetRefView {
        MatchSetRefView { set_name: self.set_name@, match_option: self.match_option }
    }
}

/// What an optional reference holds.
pub open spec fn opt_set_ref(v: Option<MatchSetRefConfig>) -> Option<MatchSetRefView> {
    match v {
        Some(x) => Some(x@),
        None => None,
    }
}

/// The conditions of a statement; those that are missing do not apply.
#[derive(Debug, PartialEq, Eq)]
pub struct ConditionsConfig {
    pub match_prefix_set: Option<MatchSetRefConfig>,
    pub match_neighbor_set: Option<MatchSetRefConfig>,
    pub match_as_path_set: Option<MatchSetRefConfig>,
    pub match_community_set: Option<MatchSetRefConfig>,
    pub match_ext_community_set: Option<MatchSetRefConfig>,
    pub match_large_community_set: Option<MatchSetRefConfig>,
    pub prefix: Option<String>,
    pub neighbor: Option<String>,
    pub has_asn: Option<u32>,
    pub route_type: Option<String>,
    pub community: Option<String>,
    pub rpki_validation: Option<RpkiValidationConfig>,
    pub afi_safi: Option<String>,
    pub ls_nlri_type: Option<String>,
    pub ls_protocol_id: Option<String>,
    pub ls_instance_id: Option<u64>,
    pub ls_node_as: Option<u32>,
    pub ls_node_router_id: Option<String>,
}

pub struct ConditionsView {
    pub match_prefix_set: Option<MatchSetRefView>,
    pub match_neighbor_set: Option<MatchSetRefView>,
    pub match_as_path_set: Option<MatchSetRefView>,
    pub match_community_set: Option<MatchSetRefView>,
    pub match_ext_community_set: Option<MatchSetRefView>,
    pub match_large_community_set: Option<MatchSetRefView>,
    pub prefix: Option<Seq<char>>,
    pub neighbor: Option<Seq<char>>,
    pub has_asn: Option<u32>,
    pub route_type: Option<Seq<char>>,
    pub community: Option<Seq<char>>,
    pub rpki_validation: Option<RpkiValidationConfig>,
    pub afi_safi: Option<Seq<char>>,
    pub ls_nlri_type: Option<Seq<char>>,
    pub ls_protocol_id: Option<Seq<char>>,
    pub ls_instance_id: Option<u64>,
    pub ls_node_as: Option<u32>,
    pub ls_node_router_id: Option<Seq<char>>,
}

impl View for ConditionsConfig {
    type V = ConditionsView;

    open spec fn view(&self) -> ConditionsView {
        ConditionsView {
            match_prefix_set: opt_set_ref(self.match_prefix_set),
            match_neighbor_set: opt_set_ref(self.match_neighbor_set),
            match_as_path_set: opt_set_ref(self.match_as_path_set),
            match_community_set: opt_set_ref(self.match_community_set),
            match_ext_community_set: opt_set_ref(self.match_ext_community_set),
            match_large_community_set: opt_set_ref(self.match_large_community_set),
            prefix: seqs::opt_text(self.prefix),
            neighbor: seqs::opt_text(self.neighbor),
            has_asn: self.has_asn,
            route_type: seqs::opt_text(self.route_type),
            community: seqs::opt_text(self.community),
            rpki_validation: self.rpki_validation,
            afi_safi: seqs::opt_text(self.afi_safi),
            ls_nlri_type: seqs::opt_text(self.ls_nlri_type),
            ls_protocol_id: seqs::opt_text(self.ls_protocol_id),
            ls_instance_id: self.ls_instance_id,
            ls_node_as: self.ls_node_as,
            ls_node_router_id: seqs::opt_text(self.ls_node_router_id),
        }
    }
}

/// No condition.
pub open spec fn no_conditions() -> ConditionsView {
    ConditionsView {
        match_prefix_set: None,
        match_neighbor_set: None,
        match_as_path_set: None,
        match_community_set: None,
        match_ext_community_set: None,
        match_large_community_set: None,
        prefix: None,
        neighbor: None,
        has_asn: None,
        route_type: None,
        community: None,
        rpki_validation: None,
        afi_safi: None,
        ls_nlri_type: None,
        ls_protocol_id: None,
        ls_instance_id: None,
        ls_node_as: None,
        ls_node_router_id: None,
    }
}

impl Default for ConditionsConfig {
    fn default() -> (r: Self)
        ensures
            r@ == no_conditions(),
    {
        ConditionsConfig {
            match_prefix_set: None,
            match_neighbor_set: None,
            match_as_path_set: None,
            match_community_set: None,
            match_ext_community_set: None,
            match_large_community_set: None,
            prefix: None,
            neighbor: None,
            has_asn: None,
            route_type: None,
            community: None,
            rpki_validation: None,
            afi_safi: None,
            ls_nlri_type: None,
            ls_protocol_id: None,
            ls_instance_id: None,
            ls_node_as: None,
            ls_node_router_id: None,
        }
    }
}

/// What to do with the local preference.
#[derive(Debug, Clone, Copy, PartialEq, Eq, Structural)]
pub enum LocalPrefActionConfig {
    Value(u32),
    Force { value: u32, force: bool },
}

/// What to do with the multi-exit discriminator.
#[derive(Debug, Clone, Copy, PartialEq, Eq, Structural)]
pub enum MedActionConfig {
    Value(u32),
    Remove { remove: bool },
}

#[derive(Debug, PartialEq, Eq)]
pub struct CommunityActionConfig {
    pub operation: String,
    pub communities: Vec<String>,
}

#[derive(Debug, PartialEq, Eq)]
pub struct ExtCommunityActionConfig {
    pub operation: String,
    pub ext_communities: Vec<String>,
}

#[derive(Debug, PartialEq, Eq)]
pub struct LargeCommunityActionConfig {
    pub operation: String,
    pub large_communities: Vec<String>,
}

/// An operation on communities: its name and the communities it is about.
pub struct CommunityActionView {
    pub operation: Seq<char>,
    pub values: Seq<Seq<char>>,
}

impl View for CommunityActionConfig {
    type V = CommunityActionView;

    open spec fn view(&self) -> CommunityActionView {
        CommunityActionView {
            operation: self.operation@,
            values: seqs::views(self.communities@),
        }
    }
}

impl View for ExtCommunityActionConfig {
    type V = CommunityActionView;

    open spec fn view(&self) -> CommunityActionView {
        CommunityActionView {
            operation: self.operation@,
            values: seqs::views(self.ext_communities@),
        }
    }
}

impl View for LargeCommunityActionConfig {
    type V = CommunityActionView;

    open spec fn view(&self) -> CommunityActionView {
        CommunityActionView {
            operation: self.operation@,
            values: seqs::views(self.large_communities@),
        }
    }
}

/// What an optional value holds.
pub open spec fn opt_view<T: View>(v: Option<T>) -> Option<T::V> {
    match v {
        Some(x) => Some(x@),
        None => None,
    }
}

/// The actions of a statement; those that are missing are not taken.
#[derive(Debug, PartialEq, Eq)]
pub struct ActionsConfig {
    pub local_pref: Option<LocalPrefActionConfig>,
    pub med: Option<MedActionConfig>,
    pub community: Option<CommunityActionConfig>,
    pub ext_community: Option<ExtCommunityActionConfig>,
    pub large_community: Option<LargeCommunityActionConfig>,
    pub set_rpki_state: Option<RpkiValidationConfig>,
    pub accept: Option<bool>,
    pub reject: Option<bool>,
}

pub struct ActionsView {
    pub local_pref: Option<LocalPrefActionConfig>,
    pub med: Option<MedActionConfig>,
    pub community: Option<CommunityActionView>,
    pub ext_community: Option<CommunityActionView>,
    pub large_community: Option<CommunityActionView>,
    pub set_rpki_state: Option<RpkiValidationConfig>,
    pub accept: Option<bool>,
    pub reject: Option<bool>,
}

impl View for ActionsConfig {
    type V = ActionsView;

    open spec fn view(&self) -> ActionsView {
        ActionsView {
            local_pref: self.local_pref,
            med: self.med,
            community: opt_view(self.community),
            ext_community: opt_view(self.ext_community),
            large_community: opt_view(self.large_community),
            set_rpki_state: self.set_rpki_state,
            accept: self.accept,
            reject: self.reject,
        }
    }
}

/// No action.
pub open spec fn no_actions() -> ActionsView {
    ActionsView {
        local_pref: None,
        med: None,
        community: None,
        ext_community: None,
        large_community: None,
        set_rpki_state: None,
        accept: None,
        reject: None,
    }
}

impl Default for ActionsConfig {
    fn default() -> (r: Self)
        ensures
            r@ == no_actions(),
    {
        ActionsConfig {
            local_pref: None,
            med: None,
            community: None,
            ext_community: None,
            large_community: None,
            set_rpki_state: None,
            accept: None,
            reject: None,
        }
    }
}

#[derive(Debug, PartialEq, Eq)]
pub struct StatementConfig {
    pub name: Option<String>,
    pub conditions: ConditionsConfig,
    pub actions: ActionsConfig,
}

pub struct StatementConfigView {
    pub name: Option<Seq<char>>,
    pub conditions: ConditionsView,
    pub actions: ActionsView,
}

impl View for StatementConfig {
    type V = StatementConfigView;

    open spec fn view(&self) -> StatementConfigView {
        StatementConfigView {
            name: seqs::opt_text(self.name),
            conditions: self.conditions@,
            actions: self.actions@,
        }
    }
}

#[derive(Debug, PartialEq, Eq)]
pub struct PolicyDefinitionConfig {
    pub name: String,
    pub statements: Vec<StatementConfig>,
}

pub struct PolicyDefinitionView {
    pub name: Seq<char>,
    pub statements: Seq<StatementConfigView>,
}

impl View for PolicyDefinitionConfig {
    type V = PolicyDefinitionView;

    open spec fn view(&self) -> PolicyDefinitionView {
        PolicyDefinitionView { name: self.name@, statements: seqs::views(self.statements@) }
    }
}

// ---------------------------------------------------------------------------
// Defined sets
// ---------------------------------------------------------------------------

#[derive(Debug, PartialEq, Eq)]
pub struct PrefixMatchConfig {
    pub prefix: String,
    pub masklength_range: Option<String>,
}

pub struct PrefixMatchConfigView {
    pub prefix: Seq<char>,
    pub masklength_range: Option<Seq<char>>,
}

impl View for PrefixMatchConfig {
    type V = PrefixMatchConfigView;

    open spec fn view(&self) -> PrefixMatchConfigView {
        PrefixMatchConfigView {
            prefix: self.prefix@,
            masklength_range: seqs::opt_text(self.masklength_range),
        }
    }
}

#[derive(Debug, PartialEq, Eq)]
pub struct PrefixSetConfig {
    pub name: String,
    pub prefixes: Vec<PrefixMatchConfig>,
}

pub struct PrefixSetConfigView {
    pub name: Seq<char>,
    pub prefixes: Seq<PrefixMatchConfigView>,
}

impl View for PrefixSetConfig {
    type V = PrefixSetConfigView;

    open spec fn view(&self) -> PrefixSetConfigView {
        PrefixSetConfigView { name: self.name@, prefixes: seqs::views(self.prefixes@) }
    }
}

/// A set that is given by the texts of its members.
pub struct NamedTexts {
    pub name: Seq<char>,
    pub items: Seq<Seq<char>>,
}

#[derive(Debug, PartialEq, Eq)]
pub struct NeighborSetConfig {
    pub name: String,
    pub neighbors: Vec<String>,
}

impl View for NeighborSetConfig {
    type V = NamedTexts;

    open spec fn view(&self) -> NamedTexts {
        NamedTexts { name: self.name@, items: seqs::views(self.neighbors@) }
    }
}

#[derive(Debug, PartialEq, Eq)]
pub struct AsPathSetConfig {
    pub name: String,
    pub patterns: Vec<String>,
}

impl View for AsPathSetConfig {
    type V = NamedTexts;

    open spec fn view(&self) -> NamedTexts {
        NamedTexts { name: self.name@, items: seqs::views(self.patterns@) }
    }
}

#[derive(Debug, PartialEq, Eq)]
pub struct CommunitySetConfig {
    pub name: String,
    pub communities: Vec<String>,
}

impl View for CommunitySetConfig {
    type V = NamedTexts;

    open spec fn view(&self) -> NamedTexts {
        NamedTexts { name: self.name@, items: seqs::views(self.communities@) }
    }
}

#[derive(Debug, PartialEq, Eq)]
pub struct ExtCommunitySetConfig {
    pub name: String,
    pub ext_communities: Vec<String>,
}

impl View for ExtCommunitySetConfig {
    type V = NamedTexts;

    open spec fn view(&self) -> NamedTexts {
        NamedTexts { name: self.name@, items: seqs::views(self.ext_communities@) }
    }
}

#[derive(Debug, PartialEq, Eq)]
pub struct LargeCommunitySetConfig {
    pub name: String,
    pub large_communities: Vec<String>,
}

impl View for LargeCommunitySetConfig {
    type V = NamedTexts;

    open spec fn view(&self) -> NamedTexts {
        NamedTexts { name: self.name@, items: seqs::views(self.large_communities@) }
    }
}

/// A defined set of any kind.
#[derive(Debug, PartialEq, Eq)]
pub enum DefinedSetConfig {
    PrefixSet(PrefixSetConfig),
    NeighborSet(NeighborSetConfig),
    AsPathSet(AsPathSetConfig),
    CommunitySet(CommunitySetConfig),
    ExtCommunitySet(ExtCommunitySetConfig),
    LargeCommunitySet(LargeCommunitySetConfig),
}

pub enum DefinedSetConfigView {
    PrefixSet(PrefixSetConfigView),
    NeighborSet(NamedTexts),
    AsPathSet(NamedTexts),
    CommunitySet(NamedTexts),
    ExtCommunitySet(NamedTexts),
    LargeCommunitySet(NamedTexts),
}

impl View for DefinedSetConfig {
    type V = DefinedSetConfigView;

    open spec fn view(&self) -> DefinedSetConfigView {
        match self {
            DefinedSetConfig::PrefixSet(s) => DefinedSetConfigView::PrefixSet(s@),
            DefinedSetConfig::NeighborSet(s) => DefinedSetConfigView::NeighborSet(s@),
            DefinedSetConfig::AsPathSet(s) => DefinedSetConfigView::AsPathSet(s@),
            DefinedSetConfig::CommunitySet(s) => DefinedSetConfigView::CommunitySet(s@),
            DefinedSetConfig::ExtCommunitySet(s) => DefinedSetConfigView::ExtCommunitySet(s@),
            DefinedSetConfig::LargeCommunitySet(s) => DefinedSetConfigView::LargeCommunitySet(s@),
        }
    }
}

#[derive(Debug, PartialEq, Eq)]
pub struct DefinedSetsConfig {
    pub prefix_sets: Vec<PrefixSetConfig>,
    pub neighbor_sets: Vec<NeighborSetConfig>,
    pub as_path_sets: Vec<AsPathSetConfig>,
    pub community_sets: Vec<CommunitySetConfig>,
    pub ext_community_sets: Vec<ExtCommunitySetConfig>,
    pub large_community_sets: Vec<LargeCommunitySetConfig>,
}

pub struct DefinedSetsConfigView {
    pub prefix_sets: Seq<PrefixSetConfigView>,
    pub neighbor_sets: Seq<NamedTexts>,
    pub as_path_sets: Seq<NamedTexts>,
    pub community_sets: Seq<NamedTexts>,
    pub ext_community_sets: Seq<NamedTexts>,
    pub large_community_sets: Seq<NamedTexts>,
}

impl View for DefinedSetsConfig {
    type V = DefinedSetsConfigView;

    open spec fn view(&self) -> DefinedSetsConfigView {
        DefinedSetsConfigView {
            prefix_sets: seqs::views(self.prefix_sets@),
            neighbor_sets: seqs::views(self.neighbor_sets@),
            as_path_sets: seqs::views(self.as_path_sets@),
            community_sets: seqs::views(self.community_sets@),
            ext_community_sets: seqs::views(self.ext_community_sets@),
            large_community_sets: seqs::views(self.large_community_sets@),
        }
    }
}

/// The part of the configuration that policies are made of.
#[derive(Debug, PartialEq, Eq)]
pub struct BgpConfig {
    pub defined_sets: DefinedSetsConfig,
    pub policy_definitions: Vec<PolicyDefinitionConfig>,
}

pub struct BgpConfigView {
    pub defined_sets: DefinedSetsConfigView,
    pub policy_definitions: Seq<PolicyDefinitionView>,
}

impl View for BgpConfig {
    type V = BgpConfigView;

    open spec fn view(&self) -> BgpConfigView {
        BgpConfigView {
            defined_sets: self.defined_sets@,
            policy_definitions: seqs::views(self.policy_definitions@),
        }
    }
}

} // verus!
