//! Defined sets and policies in messages.

use crate::conf;
use crate::seqs;
use vstd::prelude::*;

verus! {

/// A prefix and the lengths of the prefixes under it that count.
#[derive(Debug, PartialEq, Eq)]
pub struct PrefixMatch {
    pub prefix: String,
    pub masklength_range: Option<String>,
}

pub struct PrefixMatchView {
    pub prefix: Seq<char>,
    pub masklength_range: Option<Seq<char>>,
}

impl View for PrefixMatch {
    type V = PrefixMatchView;

    open spec fn view(&self) -> PrefixMatchView {
        PrefixMatchView {
            prefix: self.prefix@,
            masklength_range: seqs::opt_text(self.masklength_range),
        }
    }
}

#[derive(Debug, PartialEq, Eq)]
pub struct PrefixSetData {
    pub prefixes: Vec<PrefixMatch>,
}

#[derive(Debug, PartialEq, Eq)]
pub struct AsPathSetData {
    pub patterns: Vec<String>,
}

#[derive(Debug, PartialEq, Eq)]
pub struct CommunitySetData {
    pub communities: Vec<String>,
}

#[derive(Debug, PartialEq, Eq)]
pub struct NeighborSetData {
    pub addresses: Vec<String>,
}

#[derive(Debug, PartialEq, Eq)]
pub struct ExtendedCommunitySetData {
    pub ext_communities: Vec<String>,
}

#[derive(Debug, PartialEq, Eq)]
pub struct LargeCommunitySetData {
    pub large_communities: Vec<String>,
}

/// The members of a defined set.
#[derive(Debug, PartialEq, Eq)]
pub enum SetData {
    PrefixSet(PrefixSetData),
    AsPathSet(AsPathSetData),
    CommunitySet(CommunitySetData),
    NeighborSet(NeighborSetData),
    ExtCommunitySet(ExtendedCommunitySetData),
    LargeCommunitySet(LargeCommunitySetData),
}

pub enum SetDataView {
    PrefixSet(Seq<PrefixMatchView>),
    AsPathSet(Seq<Seq<char>>),
    CommunitySet(Seq<Seq<char>>),
    NeighborSet(Seq<Seq<char>>),
    ExtCommunitySet(Seq<Seq<char>>),
    LargeCommunitySet(Seq<Seq<char>>),
}

impl View for SetData {
    type V = SetDataView;

    open spec fn view(&self) -> SetDataView {
        match self {
            SetData::PrefixSet(s) => SetDataView::PrefixSet(seqs::views(s.prefixes@)),
            SetData::AsPathSet(s) => SetDataView::AsPathSet(seqs::views(s.patterns@)),
            SetData::CommunitySet(s) => SetDataView::CommunitySet(seqs::views(s.communities@)),
            SetData::NeighborSet(s) => SetDataView::NeighborSet(seqs::views(s.addresses@)),
            SetData::ExtCommunitySet(s) => SetDataView::ExtCommunitySet(
                seqs::views(s.ext_communities@),
            ),
            SetData::LargeCommunitySet(s) => SetDataView::LargeCommunitySet(
                seqs::views(s.large_communities@),
            ),
        }
    }
}

/// A defined set that is to be added.
#[derive(Debug, PartialEq, Eq)]
pub struct DefinedSetConfig {
    pub name: String,
    pub config: Option<SetData>,
}

pub struct DefinedSetConfigView {
    pub name: Seq<char>,
    pub config: Option<SetDataView>,
}

impl View for DefinedSetConfig {
    type V = DefinedSetConfigView;

    open spec fn view(&self) -> DefinedSetConfigView {
        DefinedSetConfigView {
            name: self.name@,
            config: conf::opt_view(self.config),
        }
    }
}

/// A defined set that there is.
#[derive(Debug, PartialEq, Eq)]
pub struct DefinedSetInfo {
    pub set_type: String,
    pub name: String,
    pub set_data: Option<SetData>,
}

pub struct DefinedSetInfoView {
    pub set_type: Seq<char>,
    pub name: Seq<char>,
    pub set_data: Option<SetDataView>,
}

impl View for DefinedSetInfo {
    type V = DefinedSetInfoView;

    open spec fn view(&self) -> DefinedSetInfoView {
        DefinedSetInfoView {
            set_type: self.set_type@,
            name: self.name@,
            set_data: conf::opt_view(self.set_data),
        }
    }
}

/// A reference to a defined set.
#[derive(Debug, PartialEq, Eq)]
pub struct MatchSetRef {
    pub set_name: String,
    pub match_option: String,
}

pub struct MatchSetRefView {
    pub set_name: Seq<char>,
    pub match_option: Seq<char>,
}

impl View for MatchSetRef {
    type V = MatchSetRefView;

    open spec fn view(&self) -> MatchSetRefView {
        MatchSetRefView {
            set_name: self.set_name@,
            match_option: self.match_option@,
        }
    }
}

/// The conditions of a statement.
#[derive(Debug, PartialEq, Eq)]
pub struct ConditionsConfig {
    pub match_prefix_set: Option<MatchSetRef>,
    pub match_neighbor_set: Option<MatchSetRef>,
    pub match_as_path_set: Option<MatchSetRef>,
    pub match_community_set: Option<MatchSetRef>,
    pub match_ext_community_set: Option<MatchSetRef>,
    pub match_large_community_set: Option<MatchSetRef>,
    pub prefix: Option<String>,
    pub neighbor: Option<String>,
    pub rpki_validation: Option<i32>,
    pub afi_safi: Option<String>,
    pub ls_nlri_type: Option<String>,
    pub ls_protocol_id: Option<String>,
    pub ls_instance_id: Option<u64>,
    pub ls_node_as: Option<u32>,
    pub ls_node_router_id: Option<String>,
}

pub struct ConditionsConfigView {
    pub match_prefix_set: Option<MatchSetRefView>,
    pub match_neighbor_set: Option<MatchSetRefView>,
    pub match_as_path_set: Option<MatchSetRefView>,
    pub match_community_set: Option<MatchSetRefView>,
    pub match_ext_community_set: Option<MatchSetRefView>,
    pub match_large_community_set: Option<MatchSetRefView>,
    pub prefix: Option<Seq<char>>,
    pub neighbor: Option<Seq<char>>,
    pub rpki_validation: Option<i32>,
    pub afi_safi: Option<Seq<char>>,
    pub ls_nlri_type: Option<Seq<char>>,
    pub ls_protocol_id: Option<Seq<char>>,
    pub ls_instance_id: Option<u64>,
    pub ls_node_as: Option<u32>,
    pub ls_node_router_id: Option<Seq<char>>,
}

impl View for ConditionsConfig {
    type V = ConditionsConfigView;

    open spec fn view(&self) -> ConditionsConfigView {
        ConditionsConfigView {
            match_prefix_set: conf::opt_view(self.match_prefix_set),
            match_neighbor_set: conf::opt_view(self.match_neighbor_set),
            match_as_path_set: conf::opt_view(self.match_as_path_set),
            match_community_set: conf::opt_view(self.match_community_set),
            match_ext_community_set: conf::opt_view(self.match_ext_community_set),
            match_large_community_set: conf::opt_view(self.match_large_community_set),
            prefix: seqs::opt_text(self.prefix),
            neighbor: seqs::opt_text(self.neighbor),
            rpki_validation: self.rpki_validation,
            afi_safi: seqs::opt_text(self.afi_safi),
            ls_nlri_type: seqs::opt_text(self.ls_nlri_type),
            ls_protocol_id: seqs::opt_text(self.ls_protocol_id),
            ls_instance_id: self.ls_instance_id,
            ls_node_as: self.ls_node_as,
            ls_node_router_id: seqs::opt_text(self.ls_node_router_id),
        }
    }
}

/// The actions of a statement.
#[derive(Debug, PartialEq, Eq)]
pub struct ActionsConfig {
    pub accept: Option<bool>,
    pub reject: Option<bool>,
    pub local_pref: Option<u32>,
    pub med: Option<u32>,
    pub add_communities: Vec<String>,
    pub remove_communities: Vec<String>,
    pub set_rpki_state: Option<i32>,
}

pub struct ActionsConfigView {
    pub accept: Option<bool>,
    pub reject: Option<bool>,
    pub local_pref: Option<u32>,
    pub med: Option<u32>,
    pub add_communities: Seq<Seq<char>>,
    pub remove_communities: Seq<Seq<char>>,
    pub set_rpki_state: Option<i32>,
}

impl View for ActionsConfig {
    type V = ActionsConfigView;

    open spec fn view(&self) -> ActionsConfigView {
        ActionsConfigView {
            accept: self.accept,
            reject: self.reject,
            local_pref: self.local_pref,
            med: self.med,
            add_communities: seqs::views(self.add_communities@),
            remove_communities: seqs::views(self.remove_communities@),
            set_rpki_state: self.set_rpki_state,
        }
    }
}

/// A statement of a policy that is to be added.
#[derive(Debug, PartialEq, Eq)]
pub struct StatementConfig {
    pub conditions: Option<ConditionsConfig>,
    pub actions: Option<ActionsConfig>,
}

pub struct StatementConfigView {
    pub conditions: Option<ConditionsConfigView>,
    pub actions: Option<ActionsConfigView>,
}

impl View for StatementConfig {
    type V = StatementConfigView;

    open spec fn view(&self) -> StatementConfigView {
        StatementConfigView {
            conditions: conf::opt_view(self.conditions),
            actions: conf::opt_view(self.actions),
        }
    }
}

/// A statement of a policy that there is.
#[derive(Debug, PartialEq, Eq)]
pub struct StatementInfo {
    pub conditions: Option<ConditionsConfig>,
    pub actions: Option<ActionsConfig>,
}

pub struct StatementInfoView {
    pub conditions: Option<ConditionsConfigView>,
    pub actions: Option<ActionsConfigView>,
}

impl View for StatementInfo {
    type V = StatementInfoView;

    open spec fn view(&self) -> StatementInfoView {
        StatementInfoView {
            conditions: conf::opt_view(self.conditions),
            actions: conf::opt_view(self.actions),
        }
    }
}

/// A policy that there is.
#[derive(Debug, PartialEq, Eq)]
pub struct PolicyInfo {
    pub name: String,
    pub statements: Vec<StatementInfo>,
}

pub struct PolicyInfoView {
    pub name: Seq<char>,
    pub statements: Seq<StatementInfoView>,
}

impl View for PolicyInfo {
    type V = PolicyInfoView;

    open spec fn view(&self) -> PolicyInfoView {
        PolicyInfoView {
            name: self.name@,
            statements: seqs::views(self.statements@),
        }
    }
}

} // verus!
