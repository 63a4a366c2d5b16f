//! Statements: actions for the routes that meet some conditions.

use crate::bgp::community;
use crate::bgp::ext_community;
use crate::bgp::ext_community::format_extended_community;
use crate::conf;
use crate::conf::{
    ActionsConfig, ActionsView, CommunityActionConfig, CommunityActionView, ConditionsConfig,
    ConditionsView, ExtCommunityActionConfig, LargeCommunityActionConfig, LocalPrefActionConfig,
    MatchOptionConfig, MatchSetRefConfig, MatchSetRefView, MedActionConfig, RpkiValidationConfig,
    StatementConfig, StatementConfigView,
};
pub use crate::policy::action::{Action, CommunityOp, ExtCommunityOp, LargeCommunityOp};
use crate::policy::action::{ActionView, OpView};
pub use crate::policy::condition::{
    AfiSafiMatch, Condition, LsNlriTypeMatch, LsProtocolIdMatch, RouteType,
};
use crate::policy::condition::ConditionView;
use crate::policy::sets;
use crate::bgp::community::LargeCommunity;
use crate::rib::{Path, PathView, RouteKey, RouteKeyView};
use crate::rpki::RpkiValidation;
use crate::seqs;
use crate::text::{push_char, render_decimal};
use vstd::prelude::*;

verus! {

// ---------------------------------------------------------------------------
// Statements
// ---------------------------------------------------------------------------

/// If a route meets all conditions, all actions are taken on it.
#[derive(Debug, PartialEq)]
pub struct Statement {
    conditions: Vec<Condition>,
    actions: Vec<Action>,
}

pub struct StatementView {
    pub conditions: Seq<ConditionView>,
    pub actions: Seq<ActionView>,
}

impl View for Statement {
    type V = StatementView;

    closed spec fn view(&self) -> StatementView {
        StatementView {
            conditions: seqs::views(self.conditions@),
            actions: seqs::views(self.actions@),
        }
    }
}

impl Statement {
    fn copy_conditions(&self) -> (r: Vec<Condition>)
        ensures
            seqs::views(r@) == self@.conditions,
    {
        let ghost all = seqs::views(self.conditions@);
        let mut conditions: Vec<Condition> = Vec::new();
        let mut i: usize = 0;
        assert(seqs::views(conditions@) =~= all.take(0));
        while i < self.conditions.len()
            invariant
                i <= self.conditions@.len(),
                all == seqs::views(self.conditions@),
                seqs::views(conditions@) == all.take(i as int),
            decreases self.conditions.len() - i,
        {
            let x = self.conditions[i].clone();
            proof {
                seqs::lemma_views_push(conditions@, x);
                seqs::lemma_take_next(all, i as int);
            }
            conditions.push(x);
            i = i + 1;
        }
        proof {
            seqs::lemma_take_all(all);
        }
        conditions
    }

    fn copy_actions(&self) -> (r: Vec<Action>)
        ensures
            seqs::views(r@) == self@.actions,
    {
        let ghost all = seqs::views(self.actions@);
        let mut actions: Vec<Action> = Vec::new();
        let mut i: usize = 0;
        assert(seqs::views(actions@) =~= all.take(0));
        while i < self.actions.len()
            invariant
                i <= self.actions@.len(),
                all == seqs::views(self.actions@),
                seqs::views(actions@) == all.take(i as int),
            decreases self.actions.len() - i,
        {
            let x = self.actions[i].clone();
            proof {
                seqs::lemma_views_push(actions@, x);
                seqs::lemma_take_next(all, i as int);
            }
            actions.push(x);
            i = i + 1;
        }
        proof {
            seqs::lemma_take_all(all);
        }
        actions
    }
}

impl Clone for Statement {
    fn clone(&self) -> (r: Self)
        ensures
            r@ == self@,
    {
        Statement { conditions: self.copy_conditions(), actions: self.copy_actions() }
    }
}

/// What actions make of a path, one after the other.
pub open spec fn run_actions(actions: Seq<ActionView>, path: PathView) -> PathView
    decreases actions.len(),
{
    if actions.len() == 0 {
        path
    } else {
        actions.last().on(run_actions(actions.drop_last(), path))
    }
}

impl StatementView {
    /// The route meets every condition.
    pub open spec fn matches(self, key: RouteKeyView, path: PathView) -> bool {
        forall|i: int|
            0 <= i < self.conditions.len() ==> (#[trigger] self.conditions[i]).holds(key, path)
    }

    /// One of the actions rejects the route.
    pub open spec fn rejects(self) -> bool {
        exists|i: int| 0 <= i < self.actions.len() && (#[trigger] self.actions[i]) is Reject
    }

    /// What the statement says of a route: nothing where a condition is not
    /// met, else whether the route is accepted.
    pub open spec fn verdict(self, key: RouteKeyView, path: PathView) -> Option<bool> {
        if self.matches(key, path) {
            Some(!self.rejects())
        } else {
            None
        }
    }

    /// What the statement makes of a path.
    pub open spec fn effect(self, key: RouteKeyView, path: PathView) -> PathView {
        if self.matches(key, path) {
            run_actions(self.actions, path)
        } else {
            path
        }
    }
}

impl Statement {
    /// A statement without conditions and actions.
    pub fn new() -> (r: Self)
        ensures
            r@ == (StatementView { conditions: Seq::empty(), actions: Seq::empty() }),
    {
        let r = Statement { conditions: Vec::new(), actions: Vec::new() };
        assert(r@.conditions =~= Seq::<ConditionView>::empty());
        assert(r@.actions =~= Seq::<ActionView>::empty());
        r
    }

    /// A statement with the given conditions and actions.
    pub(crate) fn from_parts(conditions: Vec<Condition>, actions: Vec<Action>) -> (r: Self)
        ensures
            r@ == (StatementView {
                conditions: seqs::views(conditions@),
                actions: seqs::views(actions@),
            }),
    {
        Statement { conditions, actions }
    }

    /// Adds a condition that a route has to meet.
    pub fn when(self, condition: Condition) -> (r: Self)
        ensures
            r@ == (StatementView {
                conditions: self@.conditions.push(condition@),
                actions: self@.actions,
            }),
    {
        let mut r = self;
        proof {
            seqs::lemma_views_push(r.conditions@, condition);
        }
        r.conditions.push(condition);
        r
    }

    /// Adds an action for the routes that meet all conditions.
    pub fn then_do(self, action: Action) -> (r: Self)
        ensures
            r@ == (StatementView {
                conditions: self@.conditions,
                actions: self@.actions.push(action@),
            }),
    {
        let mut r = self;
        proof {
            seqs::lemma_views_push(r.actions@, action);
        }
        r.actions.push(action);
        r
    }

    /// Whether the route meets all conditions.
    fn matches(&self, route_key: &RouteKey, path: &Path) -> (r: bool)
        ensures
            r == self@.matches(route_key@, path@),
    {
        let mut i: usize = 0;
        while i < self.conditions.len()
            invariant
                i <= self.conditions@.len(),
                forall|j: int|
                    0 <= j < i ==> (#[trigger] self@.conditions[j]).holds(route_key@, path@),
            decreases self.conditions.len() - i,
        {
            if !self.conditions[i].matches(route_key, path) {
                assert(!self@.conditions[i as int].holds(route_key@, path@));
                return false;
            }
            i = i + 1;
        }
        true
    }

    /// Takes all actions if the route meets all conditions. Says nothing where
    /// it does not, else whether the route is accepted.
    pub fn apply(&self, route_key: &RouteKey, path: &mut Path) -> (r: Option<bool>)
        ensures
            r == self@.verdict(route_key@, old(path)@),
            final(path)@ == self@.effect(route_key@, old(path)@),
    {
        if !self.matches(route_key, path) {
            return None;
        }
        let ghost start = path@;
        let ghost all = self@.actions;
        let mut accept = true;
        let mut i: usize = 0;
        while i < self.actions.len()
            invariant
                i <= self.actions@.len(),
                all == self@.actions,
                all == seqs::views(self.actions@),
                path@ == run_actions(all.take(i as int), start),
                accept == !(exists|j: int| 0 <= j < i && (#[trigger] all[j]) is Reject),
            decreases self.actions.len() - i,
        {
            proof {
                assert(all.take(i + 1).drop_last() =~= all.take(i as int));
                assert(all.take(i + 1).last() == all[i as int]);
                assert(all[i as int] == self.actions@[i as int]@);
            }
            if !self.actions[i].apply(path) {
                accept = false;
            }
            i = i + 1;
        }
        proof {
            seqs::lemma_take_all(all);
        }
        Some(accept)
    }
}

impl Default for Statement {
    fn default() -> (r: Self)
        ensures
            r@ == (StatementView { conditions: Seq::empty(), actions: Seq::empty() }),
    {
        Statement::new()
    }
}

// ---------------------------------------------------------------------------
// Names of values
// ---------------------------------------------------------------------------

impl RouteType {
    pub open spec fn text(self) -> Seq<char> {
        match self {
            RouteType::Ebgp => "ebgp"@,
            RouteType::Ibgp => "ibgp"@,
            RouteType::Local => "local"@,
        }
    }

    pub fn as_str(&self) -> (r: &'static str)
        ensures
            r@ == self.text(),
    {
        match self {
            RouteType::Ebgp => "ebgp",
            RouteType::Ibgp => "ibgp",
            RouteType::Local => "local",
        }
    }
}

impl AfiSafiMatch {
    pub open spec fn text(self) -> Seq<char> {
        match self {
            AfiSafiMatch::Ipv4Unicast => "ipv4-unicast"@,
            AfiSafiMatch::Ipv6Unicast => "ipv6-unicast"@,
            AfiSafiMatch::BgpLs => "bgp-ls"@,
        }
    }

    pub fn as_str(&self) -> (r: &'static str)
        ensures
            r@ == self.text(),
    {
        match self {
            AfiSafiMatch::Ipv4Unicast => "ipv4-unicast",
            AfiSafiMatch::Ipv6Unicast => "ipv6-unicast",
            AfiSafiMatch::BgpLs => "bgp-ls",
        }
    }
}

impl LsNlriTypeMatch {
    pub open spec fn text(self) -> Seq<char> {
        match self {
            LsNlriTypeMatch::Node => "node"@,
            LsNlriTypeMatch::Link => "link"@,
            LsNlriTypeMatch::PrefixV4 => "prefix-v4"@,
            LsNlriTypeMatch::PrefixV6 => "prefix-v6"@,
        }
    }

    pub fn as_str(&self) -> (r: &'static str)
        ensures
            r@ == self.text(),
    {
        match self {
            LsNlriTypeMatch::Node => "node",
            LsNlriTypeMatch::Link => "link",
            LsNlriTypeMatch::PrefixV4 => "prefix-v4",
            LsNlriTypeMatch::PrefixV6 => "prefix-v6",
        }
    }
}

impl LsProtocolIdMatch {
    pub open spec fn text(self) -> Seq<char> {
        match self {
            LsProtocolIdMatch::IsIsL1 => "isis-l1"@,
            LsProtocolIdMatch::IsIsL2 => "isis-l2"@,
            LsProtocolIdMatch::OspfV2 => "ospfv2"@,
            LsProtocolIdMatch::Direct => "direct"@,
            LsProtocolIdMatch::Static => "static"@,
            LsProtocolIdMatch::OspfV3 => "ospfv3"@,
        }
    }

    pub fn as_str(&self) -> (r: &'static str)
        ensures
            r@ == self.text(),
    {
        match self {
            LsProtocolIdMatch::IsIsL1 => "isis-l1",
            LsProtocolIdMatch::IsIsL2 => "isis-l2",
            LsProtocolIdMatch::OspfV2 => "ospfv2",
            LsProtocolIdMatch::Direct => "direct",
            LsProtocolIdMatch::Static => "static",
            LsProtocolIdMatch::OspfV3 => "ospfv3",
        }
    }
}

/// The configuration of a validation outcome.
pub open spec fn rpki_config(s: RpkiValidation) -> RpkiValidationConfig {
    match s {
        RpkiValidation::Valid => RpkiValidationConfig::Valid,
        RpkiValidation::Invalid => RpkiValidationConfig::Invalid,
        RpkiValidation::NotFound => RpkiValidationConfig::NotFound,
    }
}

/// The validation outcome that a configuration names.
pub open spec fn rpki_state(c: RpkiValidationConfig) -> RpkiValidation {
    match c {
        RpkiValidationConfig::Valid => RpkiValidation::Valid,
        RpkiValidationConfig::Invalid => RpkiValidation::Invalid,
        RpkiValidationConfig::NotFound => RpkiValidation::NotFound,
    }
}

pub fn rpki_validation_to_config(s: RpkiValidation) -> (r: RpkiValidationConfig)
    ensures
        r == rpki_config(s),
{
    match s {
        RpkiValidation::Valid => RpkiValidationConfig::Valid,
        RpkiValidation::Invalid => RpkiValidationConfig::Invalid,
        RpkiValidation::NotFound => RpkiValidationConfig::NotFound,
    }
}

pub fn rpki_validation_from_config(c: RpkiValidationConfig) -> (r: RpkiValidation)
    ensures
        r == rpki_state(c),
{
    match c {
        RpkiValidationConfig::Valid => RpkiValidation::Valid,
        RpkiValidationConfig::Invalid => RpkiValidation::Invalid,
        RpkiValidationConfig::NotFound => RpkiValidation::NotFound,
    }
}

// ---------------------------------------------------------------------------
// Back to configuration
// ---------------------------------------------------------------------------

/// A reference to a set.
pub open spec fn set_ref<T>(s: sets::NamedList<T>, o: MatchOptionConfig) -> Option<
    MatchSetRefView,
> {
    Some(MatchSetRefView { set_name: s.name, match_option: o })
}

/// Writes a condition down in a configuration, in the place of one of its kind.
pub open spec fn put_condition(c: ConditionsView, x: ConditionView) -> ConditionsView {
    match x {
        ConditionView::Prefix(p) => ConditionsView { prefix: Some(p.text()), ..c },
        ConditionView::PrefixSet(s, o) => ConditionsView { match_prefix_set: set_ref(s, o), ..c },
        ConditionView::Neighbor(ip) => ConditionsView { neighbor: Some(ip.text()), ..c },
        ConditionView::NeighborSet(s, o) => ConditionsView {
            match_neighbor_set: set_ref(s, o),
            ..c
        },
        ConditionView::AsPath(asn) => ConditionsView { has_asn: Some(asn), ..c },
        ConditionView::AsPathSet(s, o) => ConditionsView { match_as_path_set: set_ref(s, o), ..c },
        ConditionView::Community(v) => ConditionsView {
            community: Some(sets::community_text(v)),
            ..c
        },
        ConditionView::CommunitySet(s, o) => ConditionsView {
            match_community_set: set_ref(s, o),
            ..c
        },
        ConditionView::ExtCommunitySet(s, o) => ConditionsView {
            match_ext_community_set: set_ref(s, o),
            ..c
        },
        ConditionView::LargeCommunitySet(s, o) => ConditionsView {
            match_large_community_set: set_ref(s, o),
            ..c
        },
        ConditionView::RouteType(t) => ConditionsView { route_type: Some(t.text()), ..c },
        ConditionView::RpkiValidation(s) => ConditionsView {
            rpki_validation: Some(rpki_config(s)),
            ..c
        },
        ConditionView::AfiSafi(m) => ConditionsView { afi_safi: Some(m.text()), ..c },
        ConditionView::LsNlriType(t) => ConditionsView { ls_nlri_type: Some(t.text()), ..c },
        ConditionView::LsProtocolId(p) => ConditionsView { ls_protocol_id: Some(p.text()), ..c },
        ConditionView::LsInstanceId(id) => ConditionsView { ls_instance_id: Some(id), ..c },
        ConditionView::LsNodeAs(asn) => ConditionsView { ls_node_as: Some(asn), ..c },
        ConditionView::LsNodeRouterId(ip) => ConditionsView {
            ls_node_router_id: Some(ip.text()),
            ..c
        },
    }
}

/// The configuration of conditions; of several of one kind the last counts.
pub open spec fn conditions_config(l: Seq<ConditionView>) -> ConditionsView
    decreases l.len(),
{
    if l.len() == 0 {
        conf::no_conditions()
    } else {
        put_condition(conditions_config(l.drop_last()), l.last())
    }
}

/// The name of an operation and the texts of the communities it is about.
pub open spec fn op_config<T>(op: OpView<T>, f: spec_fn(T) -> Seq<char>) -> CommunityActionView {
    match op {
        OpView::Add(l) => CommunityActionView { operation: "add"@, values: l.map_values(f) },
        OpView::Remove(l) => CommunityActionView { operation: "remove"@, values: l.map_values(f) },
        OpView::Replace(l) => CommunityActionView {
            operation: "replace"@,
            values: l.map_values(f),
        },
    }
}

pub open spec fn community_writer() -> spec_fn(u32) -> Seq<char> {
    |c: u32| sets::community_text(c)
}

pub open spec fn ext_community_writer() -> spec_fn(u64) -> Seq<char> {
    |c: u64| ext_community::ext_community_text(c)
}

pub open spec fn large_community_writer() -> spec_fn(LargeCommunity) -> Seq<char> {
    |c: LargeCommunity| community::large_community_text(c)
}

/// Writes an action down in a configuration, in the place of one of its kind.
pub open spec fn put_action(c: ActionsView, x: ActionView) -> ActionsView {
    match x {
        ActionView::Accept => ActionsView { accept: Some(true), ..c },
        ActionView::Reject => ActionsView { reject: Some(true), ..c },
        ActionView::SetLocalPref { value, force } => ActionsView {
            local_pref: Some(
                if force {
                    LocalPrefActionConfig::Force { value, force: true }
                } else {
                    LocalPrefActionConfig::Value(value)
                },
            ),
            ..c
        },
        ActionView::SetMed(v) => ActionsView {
            med: Some(
                match v {
                    Some(n) => MedActionConfig::Value(n),
                    None => MedActionConfig::Remove { remove: true },
                },
            ),
            ..c
        },
        ActionView::SetCommunity(op) => ActionsView {
            community: Some(op_config(op, community_writer())),
            ..c
        },
        ActionView::SetExtCommunity(op) => ActionsView {
            ext_community: Some(op_config(op, ext_community_writer())),
            ..c
        },
        ActionView::SetLargeCommunity(op) => ActionsView {
            large_community: Some(op_config(op, large_community_writer())),
            ..c
        },
        ActionView::SetRpkiState(s) => ActionsView { set_rpki_state: Some(rpki_config(s)), ..c },
    }
}

/// The configuration of actions; of several of one kind the last counts.
pub open spec fn actions_config(l: Seq<ActionView>) -> ActionsView
    decreases l.len(),
{
    if l.len() == 0 {
        conf::no_actions()
    } else {
        put_action(actions_config(l.drop_last()), l.last())
    }
}

impl StatementView {
    /// The configuration of the statement.
    pub open spec fn config(self) -> StatementConfigView {
        StatementConfigView {
            name: None,
            conditions: conditions_config(self.conditions),
            actions: actions_config(self.actions),
        }
    }
}

fn write_set_ref(name: &String, o: MatchOptionConfig) -> (r: Option<MatchSetRefConfig>)
    ensures
        conf::opt_set_ref(r) == Some(MatchSetRefView { set_name: name@, match_option: o }),
{
    Some(MatchSetRefConfig { set_name: name.clone(), match_option: o })
}

/// The two halves of a community around a colon.
pub fn format_community(c: u32) -> (r: String)
    ensures
        r@ == sets::community_text(c),
{
    let high: u32 = c >> 16;
    let low: u32 = c & 0xFFFF;
    let mut r = render_decimal(high as u64);
    push_char(&mut r, ':');
    r.append(render_decimal(low as u64).as_str());
    assert(r@ =~= sets::community_text(c));
    r
}

/// Writes a condition on a set down.
fn write_set_condition(c: &mut ConditionsConfig, x: &Condition)
    requires
        x is PrefixSet || x is NeighborSet || x is AsPathSet || x is CommunitySet
            || x is ExtCommunitySet || x is LargeCommunitySet,
    ensures
        final(c)@ == put_condition(old(c)@, x@),
{
    match x {
        Condition::PrefixSet(s, o) => {
            c.match_prefix_set = write_set_ref(&s.name, *o);
        },
        Condition::NeighborSet(s, o) => {
            c.match_neighbor_set = write_set_ref(&s.name, *o);
        },
        Condition::AsPathSet(s, o) => {
            c.match_as_path_set = write_set_ref(&s.name, *o);
        },
        Condition::CommunitySet(s, o) => {
            c.match_community_set = write_set_ref(&s.name, *o);
        },
        Condition::ExtCommunitySet(s, o) => {
            c.match_ext_community_set = write_set_ref(&s.name, *o);
        },
        Condition::LargeCommunitySet(s, o) => {
            c.match_large_community_set = write_set_ref(&s.name, *o);
        },
        _ => {},
    }
}

/// Writes a condition down.
fn write_condition(c: &mut ConditionsConfig, x: &Condition)
    ensures
        final(c)@ == put_condition(old(c)@, x@),
{
    match x {
        Condition::Prefix(p) => {
            c.prefix = Some(p.to_text());
        },
        Condition::Neighbor(ip) => {
            c.neighbor = Some(ip.to_text());
        },
        Condition::AsPath(asn) => {
            c.has_asn = Some(*asn);
        },
        Condition::Community(v) => {
            c.community = Some(format_community(*v));
        },
        Condition::RouteType(t) => {
            c.route_type = Some(t.as_str().to_owned());
        },
        Condition::RpkiValidation(s) => {
            c.rpki_validation = Some(rpki_validation_to_config(*s));
        },
        Condition::AfiSafi(m) => {
            c.afi_safi = Some(m.as_str().to_owned());
        },
        Condition::LsNlriType(t) => {
            c.ls_nlri_type = Some(t.as_str().to_owned());
        },
        Condition::LsProtocolId(p) => {
            c.ls_protocol_id = Some(p.as_str().to_owned());
        },
        Condition::LsInstanceId(id) => {
            c.ls_instance_id = Some(*id);
        },
        Condition::LsNodeAs(asn) => {
            c.ls_node_as = Some(*asn);
        },
        Condition::LsNodeRouterId(ip) => {
            c.ls_node_router_id = Some(ip.to_text());
        },
        _ => write_set_condition(c, x),
    }
}

fn write_communities(l: &Vec<u32>) -> (r: Vec<String>)
    ensures
        seqs::views(r@) == l@.map_values(community_writer()),
{
    let mut r: Vec<String> = Vec::new();
    let mut i: usize = 0;
    while i < l.len()
        invariant
            i <= l@.len(),
            r@.len() == i,
            forall|j: int| 0 <= j < i ==> (#[trigger] r@[j])@ == sets::community_text(l@[j]),
        decreases l.len() - i,
    {
        r.push(format_community(l[i]));
        i = i + 1;
    }
    assert(seqs::views(r@) =~= l@.map_values(community_writer()));
    r
}

fn write_ext_communities(l: &Vec<u64>) -> (r: Vec<String>)
    ensures
        seqs::views(r@) == l@.map_values(ext_community_writer()),
{
    let mut r: Vec<String> = Vec::new();
    let mut i: usize = 0;
    while i < l.len()
        invariant
            i <= l@.len(),
            r@.len() == i,
            forall|j: int|
                0 <= j < i ==> (#[trigger] r@[j])@ == ext_community::ext_community_text(l@[j]),
        decreases l.len() - i,
    {
        r.push(format_extended_community(l[i]));
        i = i + 1;
    }
    assert(seqs::views(r@) =~= l@.map_values(ext_community_writer()));
    r
}

fn write_large_communities(l: &Vec<LargeCommunity>) -> (r: Vec<String>)
    ensures
        seqs::views(r@) == l@.map_values(large_community_writer()),
{
    let mut r: Vec<String> = Vec::new();
    let mut i: usize = 0;
    while i < l.len()
        invariant
            i <= l@.len(),
            r@.len() == i,
            forall|j: int|
                0 <= j < i ==> (#[trigger] r@[j])@ == community::large_community_text(l@[j]),
        decreases l.len() - i,
    {
        r.push(l[i].to_text());
        i = i + 1;
    }
    assert(seqs::views(r@) =~= l@.map_values(large_community_writer()));
    r
}

fn write_community_op(op: &CommunityOp) -> (r: CommunityActionConfig)
    ensures
        r@ == op_config(op@, community_writer()),
{
    match op {
        CommunityOp::Add(l) => CommunityActionConfig {
            operation: "add".to_owned(),
            communities: write_communities(l),
        },
        CommunityOp::Remove(l) => CommunityActionConfig {
            operation: "remove".to_owned(),
            communities: write_communities(l),
        },
        CommunityOp::Replace(l) => CommunityActionConfig {
            operation: "replace".to_owned(),
            communities: write_communities(l),
        },
    }
}

fn write_ext_community_op(op: &ExtCommunityOp) -> (r: ExtCommunityActionConfig)
    ensures
        r@ == op_config(op@, ext_community_writer()),
{
    match op {
        ExtCommunityOp::Add(l) => ExtCommunityActionConfig {
            operation: "add".to_owned(),
            ext_communities: write_ext_communities(l),
        },
        ExtCommunityOp::Remove(l) => ExtCommunityActionConfig {
            operation: "remove".to_owned(),
            ext_communities: write_ext_communities(l),
        },
        ExtCommunityOp::Replace(l) => ExtCommunityActionConfig {
            operation: "replace".to_owned(),
            ext_communities: write_ext_communities(l),
        },
    }
}

fn write_large_community_op(op: &LargeCommunityOp) -> (r: LargeCommunityActionConfig)
    ensures
        r@ == op_config(op@, large_community_writer()),
{
    match op {
        LargeCommunityOp::Add(l) => LargeCommunityActionConfig {
            operation: "add".to_owned(),
            large_communities: write_large_communities(l),
        },
        LargeCommunityOp::Remove(l) => LargeCommunityActionConfig {
            operation: "remove".to_owned(),
            large_communities: write_large_communities(l),
        },
        LargeCommunityOp::Replace(l) => LargeCommunityActionConfig {
            operation: "replace".to_owned(),
            large_communities: write_large_communities(l),
        },
    }
}

/// Writes an action down.
fn write_action(c: &mut ActionsConfig, x: &Action)
    ensures
        final(c)@ == put_action(old(c)@, x@),
{
    match x {
        Action::Accept => {
            c.accept = Some(true);
        },
        Action::Reject => {
            c.reject = Some(true);
        },
        Action::SetLocalPref { value, force } => {
            c.local_pref = Some(
                if *force {
                    LocalPrefActionConfig::Force { value: *value, force: true }
                } else {
                    LocalPrefActionConfig::Value(*value)
                },
            );
        },
        Action::SetMed(v) => {
            c.med = Some(
                match v {
                    Some(n) => MedActionConfig::Value(*n),
                    None => MedActionConfig::Remove { remove: true },
                },
            );
        },
        Action::SetCommunity(op) => {
            c.community = Some(write_community_op(op));
        },
        Action::SetExtCommunity(op) => {
            c.ext_community = Some(write_ext_community_op(op));
        },
        Action::SetLargeCommunity(op) => {
            c.large_community = Some(write_large_community_op(op));
        },
        Action::SetRpkiState(s) => {
            c.set_rpki_state = Some(rpki_validation_to_config(*s));
        },
    }
}

impl Statement {
    /// The configuration of the statement. Of several conditions or actions of
    /// one kind the last counts.
    pub fn to_config(&self) -> (r: StatementConfig)
        ensures
            r@ == self@.config(),
    {
        let ghost cs = self@.conditions;
        let ghost acts = self@.actions;
        let mut conditions = ConditionsConfig::default();
        let mut i: usize = 0;
        while i < self.conditions.len()
            invariant
                i <= self.conditions@.len(),
                cs == seqs::views(self.conditions@),
                conditions@ == conditions_config(cs.take(i as int)),
            decreases self.conditions.len() - i,
        {
            proof {
                assert(cs.take(i + 1).drop_last() =~= cs.take(i as int));
                assert(cs.take(i + 1).last() == self.conditions@[i as int]@);
            }
            write_condition(&mut conditions, &self.conditions[i]);
            i = i + 1;
        }
        let mut actions = ActionsConfig::default();
        let mut k: usize = 0;
        while k < self.actions.len()
            invariant
                k <= self.actions@.len(),
                acts == seqs::views(self.actions@),
                actions@ == actions_config(acts.take(k as int)),
            decreases self.actions.len() - k,
        {
            proof {
                assert(acts.take(k + 1).drop_last() =~= acts.take(k as int));
                assert(acts.take(k + 1).last() == self.actions@[k as int]@);
            }
            write_action(&mut actions, &self.actions[k]);
            k = k + 1;
        }
        proof {
            seqs::lemma_take_all(cs);
            seqs::lemma_take_all(acts);
        }
        StatementConfig { name: None, conditions, actions }
    }
}

} // verus!
