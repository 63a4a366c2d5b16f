//! Routing policy: which routes are accepted and how they are changed.

pub mod action;
pub mod action_laws;
pub mod condition;
pub mod condition_laws;
pub mod config_laws;
pub mod from_config;
pub mod pattern;
pub mod reading_laws;
pub mod set_laws;
pub mod sets;
pub mod statement;
pub mod table;

pub use sets::{DefinedSetType, DefinedSets};
pub use statement::{CommunityOp, RouteType, Statement};

use crate::bgp::multiprotocol::AfiSafi;
use crate::conf;
use crate::conf::{BgpConfig, BgpConfigView, PolicyDefinitionConfig, PolicyDefinitionView};
use crate::rib::{share, Path, PathView, RouteKey, RouteKeyView};
use crate::seqs;
use crate::text::{cat3, text_eq};
use action::{Action, ActionView};
use from_config::build_statement;
use sets::DefinedSetsView;
use statement::StatementView;
use std::sync::Arc;
use table::{Named, Table};
use vstd::prelude::*;

verus! {

/// The built-in policy that permits all routes, which internal sessions fall
/// back to.
pub const DEFAULT_PERMIT_ALL: &'static str = "default-permit-all";

/// The built-in policy that denies all routes, which external sessions fall
/// back to.
pub const DEFAULT_DENY_ALL: &'static str = "default-deny-all";

/// What a policy says of a route.
#[derive(Debug, Clone, Copy, PartialEq, Eq, Structural)]
pub enum PolicyResult {
    /// The route is accepted; no further policy is asked.
    Accept,
    /// The route is rejected; no further policy is asked.
    Reject,
    /// No statement is about the route; the next policy is asked.
    Continue,
}

/// Statements that are tried in their order.
#[derive(Debug, PartialEq)]
pub struct Policy {
    pub name: String,
    statements: Vec<Statement>,
}

pub struct PolicyView {
    pub name: Seq<char>,
    pub statements: Seq<StatementView>,
}

impl View for Policy {
    type V = PolicyView;

    closed spec fn view(&self) -> PolicyView {
        PolicyView { name: self.name@, statements: seqs::views(self.statements@) }
    }
}

impl Clone for Policy {
    fn clone(&self) -> (r: Self)
        ensures
            r@ == self@,
    {
        let ghost all = seqs::views(self.statements@);
        let mut statements: Vec<Statement> = Vec::new();
        let mut i: usize = 0;
        assert(seqs::views(statements@) =~= all.take(0));
        while i < self.statements.len()
            invariant
                i <= self.statements@.len(),
                all == seqs::views(self.statements@),
                seqs::views(statements@) == all.take(i as int),
            decreases self.statements.len() - i,
        {
            let x = self.statements[i].clone();
            proof {
                seqs::lemma_views_push(statements@, x);
                seqs::lemma_take_next(all, i as int);
            }
            statements.push(x);
            i = i + 1;
        }
        proof {
            seqs::lemma_take_all(all);
        }
        Policy { name: self.name.clone(), statements }
    }
}

/// What statements say of a route and make of its path: the first one that the
/// route meets decides, and no other changes the path.
pub open spec fn decide(statements: Seq<StatementView>, key: RouteKeyView, path: PathView) -> (
    PolicyResult,
    PathView,
)
    decreases statements.len(),
{
    if statements.len() == 0 {
        (PolicyResult::Continue, path)
    } else {
        match statements[0].verdict(key, path) {
            Some(accept) => (
                if accept {
                    PolicyResult::Accept
                } else {
                    PolicyResult::Reject
                },
                statements[0].effect(key, path),
            ),
            None => decide(statements.skip(1), key, path),
        }
    }
}

impl PolicyView {
    /// What the policy says of a route.
    pub open spec fn result(self, key: RouteKeyView, path: PathView) -> PolicyResult {
        decide(self.statements, key, path).0
    }

    /// What the policy makes of a path.
    pub open spec fn effect(self, key: RouteKeyView, path: PathView) -> PathView {
        decide(self.statements, key, path).1
    }
}

/// A policy of one statement that takes one action on every route.
pub open spec fn one_action_policy(name: Seq<char>, action: ActionView) -> PolicyView {
    PolicyView {
        name,
        statements: seq![StatementView { conditions: Seq::empty(), actions: seq![action] }],
    }
}

/// The name belongs to a built-in policy.
pub open spec fn reserved(name: Seq<char>) -> bool {
    name == DEFAULT_PERMIT_ALL@ || name == DEFAULT_DENY_ALL@
}

/// Reads a statement with the given sets.
pub open spec fn statement_reader(s: DefinedSetsView) -> spec_fn(
    conf::StatementConfigView,
) -> Result<StatementView, Seq<char>> {
    |c: conf::StatementConfigView| from_config::read_statement(c, s)
}

/// The policy that a configuration describes, or why there is none.
pub open spec fn read_policy(c: PolicyDefinitionView, s: DefinedSetsView) -> Result<
    PolicyView,
    Seq<char>,
> {
    if reserved(c.name) {
        Err("policy name '"@ + c.name + "' is reserved"@)
    } else {
        match conf::read_all(c.statements, statement_reader(s)) {
            Err(e) => Err(e),
            Ok(statements) => Ok(PolicyView { name: c.name, statements }),
        }
    }
}

impl Policy {
    /// A policy without statements.
    pub fn new(name: String) -> (r: Self)
        ensures
            r@ == (PolicyView { name: name@, statements: Seq::empty() }),
    {
        let r = Policy { name, statements: Vec::new() };
        assert(r@.statements =~= Seq::<StatementView>::empty());
        r
    }

    pub fn statements(&self) -> (r: &Vec<Statement>)
        ensures
            seqs::views(r@) == self@.statements,
    {
        &self.statements
    }

    /// The policy that accepts every route.
    pub fn permit_all() -> (r: Self)
        ensures
            r@ == one_action_policy(DEFAULT_PERMIT_ALL@, ActionView::Accept),
    {
        let r = Policy::new(DEFAULT_PERMIT_ALL.to_owned()).with(
            Statement::new().then_do(Action::Accept),
        );
        proof {
            let want = one_action_policy(DEFAULT_PERMIT_ALL@, ActionView::Accept);
            assert(r@.statements[0].actions =~= want.statements[0].actions);
            assert(r@.statements =~= want.statements);
        }
        r
    }

    /// The policy that rejects every route.
    pub fn deny_all() -> (r: Self)
        ensures
            r@ == one_action_policy(DEFAULT_DENY_ALL@, ActionView::Reject),
    {
        let r = Policy::new(DEFAULT_DENY_ALL.to_owned()).with(
            Statement::new().then_do(Action::Reject),
        );
        proof {
            let want = one_action_policy(DEFAULT_DENY_ALL@, ActionView::Reject);
            assert(r@.statements[0].actions =~= want.statements[0].actions);
            assert(r@.statements =~= want.statements);
        }
        r
    }

    /// Whether the name belongs to a built-in policy.
    pub fn is_reserved_name(name: &str) -> (r: bool)
        ensures
            r == reserved(name@),
    {
        text_eq(name, DEFAULT_PERMIT_ALL) || text_eq(name, DEFAULT_DENY_ALL)
    }

    /// Builds a policy from its configuration.
    pub fn from_config(def: &PolicyDefinitionConfig, defined_sets: &DefinedSets) -> (r: Result<
        Self,
        String,
    >)
        ensures
            conf::result_view(r) == read_policy(def@, defined_sets@),
    {
        if Policy::is_reserved_name(def.name.as_str()) {
            return Err(cat3("policy name '", def.name.as_str(), "' is reserved"));
        }
        let build = |c: &conf::StatementConfig| -> (y: Result<Statement, String>)
            ensures
                conf::result_view(y) == statement_reader(defined_sets@)(c@),
            { build_statement(c, defined_sets) };
        match conf::parse_all(&def.statements, build, Ghost(statement_reader(defined_sets@))) {
            Ok(statements) => Ok(Policy { name: def.name.clone(), statements }),
            Err(e) => Err(e),
        }
    }

    /// Adds a statement behind the others.
    pub fn with(self, statement: Statement) -> (r: Self)
        ensures
            r@ == (PolicyView {
                name: self@.name,
                statements: self@.statements.push(statement@),
            }),
    {
        let mut r = self;
        proof {
            seqs::lemma_views_push(r.statements@, statement);
        }
        r.statements.push(statement);
        r
    }

    /// What the policy says of a route; the first statement that the route
    /// meets changes the path.
    pub fn evaluate(&self, route_key: &RouteKey, path: &mut Path) -> (r: PolicyResult)
        ensures
            r == self@.result(route_key@, old(path)@),
            final(path)@ == self@.effect(route_key@, old(path)@),
    {
        let ghost all = self@.statements;
        let ghost start = path@;
        let mut i: usize = 0;
        assert(all.skip(0) =~= all);
        while i < self.statements.len()
            invariant
                i <= self.statements@.len(),
                all == seqs::views(self.statements@),
                all == self@.statements,
                path@ == start,
                start == old(path)@,
                decide(all, route_key@, start) == decide(all.skip(i as int), route_key@, start),
            decreases self.statements.len() - i,
        {
            proof {
                assert(all.skip(i as int)[0] == self.statements@[i as int]@);
                assert(all.skip(i as int).skip(1) =~= all.skip(i + 1));
            }
            if let Some(accept) = self.statements[i].apply(route_key, path) {
                return if accept {
                    PolicyResult::Accept
                } else {
                    PolicyResult::Reject
                };
            }
            i = i + 1;
        }
        PolicyResult::Continue
    }

    /// Whether the policy accepts a route; one that no statement is about is
    /// not accepted.
    pub fn accept(&self, route_key: &RouteKey, path: &mut Path) -> (r: bool)
        ensures
            r == (self@.result(route_key@, old(path)@) is Accept),
            final(path)@ == self@.effect(route_key@, old(path)@),
    {
        match self.evaluate(route_key, path) {
            PolicyResult::Accept => true,
            _ => false,
        }
    }
}

impl Default for Policy {
    fn default() -> (r: Self)
        ensures
            r@ == (PolicyView { name: Seq::empty(), statements: Seq::empty() }),
    {
        Policy::new(String::new())
    }
}

/// Policies for the routes of each family: of the entries of one family the
/// first counts.
pub type AfiSafiPolicies = Vec<(AfiSafi, Vec<Arc<Policy>>)>;

/// What policies hold.
pub open spec fn policy_views(s: Seq<Arc<Policy>>) -> Seq<PolicyView> {
    Seq::new(s.len(), |i: int| s[i]@)
}

// ---------------------------------------------------------------------------
// All policies of a configuration
// ---------------------------------------------------------------------------

impl Named for Arc<Policy> {
    open spec fn key(&self) -> Seq<char> {
        self@.name
    }

    fn name(&self) -> (r: &str) {
        self.name.as_str()
    }

    fn copy(&self) -> (r: Self) {
        share(self)
    }
}

/// The policies and the sets of a configuration.
#[derive(Debug)]
pub struct PolicyContext {
    pub policies: Table<Arc<Policy>>,
    pub defined_sets: Arc<DefinedSets>,
}

pub struct PolicyContextView {
    pub policies: Map<Seq<char>, PolicyView>,
    pub defined_sets: DefinedSetsView,
}

impl View for PolicyContext {
    type V = PolicyContextView;

    open spec fn view(&self) -> PolicyContextView {
        PolicyContextView { policies: self.policies@, defined_sets: self.defined_sets@ }
    }
}

/// Policies by their names; of two with one name the later counts.
pub open spec fn policies_by_name(l: Seq<PolicyView>) -> Map<Seq<char>, PolicyView>
    decreases l.len(),
{
    if l.len() == 0 {
        Map::empty()
    } else {
        policies_by_name(l.drop_last()).insert(l.last().name, l.last())
    }
}

/// Reads a policy with the given sets.
pub open spec fn policy_reader(s: DefinedSetsView) -> spec_fn(PolicyDefinitionView) -> Result<
    PolicyView,
    Seq<char>,
> {
    |c: PolicyDefinitionView| read_policy(c, s)
}

/// Adds the built-in policies.
pub open spec fn with_built_ins(m: Map<Seq<char>, PolicyView>) -> Map<Seq<char>, PolicyView> {
    m.insert(
        DEFAULT_PERMIT_ALL@,
        one_action_policy(DEFAULT_PERMIT_ALL@, ActionView::Accept),
    ).insert(DEFAULT_DENY_ALL@, one_action_policy(DEFAULT_DENY_ALL@, ActionView::Reject))
}

/// The policies and sets of a configuration, or the first error; sets are read
/// before policies.
pub open spec fn read_context(c: BgpConfigView) -> Result<PolicyContextView, Seq<char>> {
    match sets::read_defined_sets(c.defined_sets) {
        Err(e) => Err(e),
        Ok(defined_sets) => match conf::read_all(
            c.policy_definitions,
            policy_reader(defined_sets),
        ) {
            Err(e) => Err(e),
            Ok(l) => Ok(
                PolicyContextView { policies: with_built_ins(policies_by_name(l)), defined_sets },
            ),
        },
    }
}

impl PolicyContext {
    /// Builds all policies of a configuration and registers the built-in ones.
    pub fn from_config(config: &BgpConfig) -> (r: Result<Self, String>)
        ensures
            conf::result_view(r) == read_context(config@),
    {
        let defined_sets = match DefinedSets::new(&config.defined_sets) {
            Ok(s) => s,
            Err(e) => {
                return Err(e);
            },
        };
        let sets = &defined_sets;
        let build = |c: &PolicyDefinitionConfig| -> (y: Result<Policy, String>)
            ensures
                conf::result_view(y) == policy_reader(sets@)(c@),
            { Policy::from_config(c, sets) };
        let list = match conf::parse_all(
            &config.policy_definitions,
            build,
            Ghost(policy_reader(sets@)),
        ) {
            Ok(l) => l,
            Err(e) => {
                return Err(e);
            },
        };
        let ghost all = seqs::views(list@);
        let mut policies: Table<Arc<Policy>> = Table::new();
        for p in it: list
            invariant
                it.seq() == list@,
                all == seqs::views(list@),
                policies@ == policies_by_name(all.take(it.index() as int)),
        {
            proof {
                let i = it.index() as int;
                assert(all.take(i + 1).drop_last() =~= all.take(i));
                assert(all.take(i + 1).last() == p@);
            }
            policies.insert(Arc::new(p));
        }
        proof {
            seqs::lemma_take_all(all);
        }
        policies.insert(Arc::new(Policy::permit_all()));
        policies.insert(Arc::new(Policy::deny_all()));
        Ok(PolicyContext { policies, defined_sets: Arc::new(defined_sets) })
    }
}

// ---------------------------------------------------------------------------
// Laws
// ---------------------------------------------------------------------------

/// The policy that permits all routes accepts every one and leaves its path as
/// it is.
pub proof fn law_permit_all(key: RouteKeyView, path: PathView)
    ensures
        one_action_policy(DEFAULT_PERMIT_ALL@, ActionView::Accept).result(key, path)
            == PolicyResult::Accept,
        one_action_policy(DEFAULT_PERMIT_ALL@, ActionView::Accept).effect(key, path) == path,
{
    lemma_one_action(DEFAULT_PERMIT_ALL@, ActionView::Accept, key, path);
}

/// The policy that denies all routes rejects every one and leaves its path as
/// it is.
pub proof fn law_deny_all(key: RouteKeyView, path: PathView)
    ensures
        one_action_policy(DEFAULT_DENY_ALL@, ActionView::Reject).result(key, path)
            == PolicyResult::Reject,
        one_action_policy(DEFAULT_DENY_ALL@, ActionView::Reject).effect(key, path) == path,
{
    lemma_one_action(DEFAULT_DENY_ALL@, ActionView::Reject, key, path);
}

proof fn lemma_one_action(name: Seq<char>, a: ActionView, key: RouteKeyView, path: PathView)
    ensures
        one_action_policy(name, a).result(key, path) == (if a is Reject {
            PolicyResult::Reject
        } else {
            PolicyResult::Accept
        }),
        one_action_policy(name, a).effect(key, path) == a.on(path),
{
    let p = one_action_policy(name, a);
    let s = p.statements[0];
    assert(s.matches(key, path));
    assert(s.actions[0] == a);
    assert(s.rejects() == (a is Reject));
    assert(s.actions.drop_last() =~= Seq::<ActionView>::empty());
    assert(statement::run_actions(s.actions.drop_last(), path) == path);
    assert(s.actions.last() == a);
}

/// The first statement that a route meets decides, whatever comes behind it.
pub proof fn law_first_match_decides(
    statements: Seq<StatementView>,
    key: RouteKeyView,
    path: PathView,
    i: int,
)
    requires
        0 <= i < statements.len(),
        statements[i].matches(key, path),
        forall|j: int| 0 <= j < i ==> !(#[trigger] statements[j]).matches(key, path),
    ensures
        decide(statements, key, path) == (
            if statements[i].rejects() {
                PolicyResult::Reject
            } else {
                PolicyResult::Accept
            },
            statement::run_actions(statements[i].actions, path),
        ),
    decreases i,
{
    if i > 0 {
        assert(!statements[0].matches(key, path));
        assert forall|j: int| 0 <= j < i - 1 implies !(#[trigger] statements.skip(1)[j]).matches(
            key,
            path,
        ) by {
            assert(!statements[j + 1].matches(key, path));
        }
        law_first_match_decides(statements.skip(1), key, path, i - 1);
    }
}

/// A policy says nothing of a route exactly if the route meets none of its
/// statements, and then leaves the path as it is.
pub proof fn law_no_match_continues(
    statements: Seq<StatementView>,
    key: RouteKeyView,
    path: PathView,
)
    ensures
        decide(statements, key, path).0 is Continue <==> forall|j: int|
            0 <= j < statements.len() ==> !(#[trigger] statements[j]).matches(key, path),
        decide(statements, key, path).0 is Continue ==> decide(statements, key, path).1 == path,
    decreases statements.len(),
{
    if statements.len() > 0 {
        let rest = statements.skip(1);
        law_no_match_continues(rest, key, path);
        if !statements[0].matches(key, path) {
            if forall|j: int| 0 <= j < rest.len() ==> !(#[trigger] rest[j]).matches(key, path) {
                assert forall|j: int| 0 <= j < statements.len() implies !(
                #[trigger] statements[j]).matches(key, path) by {
                    if j > 0 {
                        assert(!rest[j - 1].matches(key, path));
                    }
                }
            } else {
                let j = choose|j: int|
                    0 <= j < rest.len() && (#[trigger] rest[j]).matches(key, path);
                assert(statements[j + 1].matches(key, path));
            }
        }
    }
}

/// Every context that is built has both built-in policies under their names,
/// whatever the configuration.
pub proof fn law_built_ins_are_registered(c: BgpConfigView)
    ensures
        read_context(c) matches Ok(x) ==> {
            &&& x.policies.contains_key(DEFAULT_PERMIT_ALL@)
            &&& x.policies.contains_key(DEFAULT_DENY_ALL@)
            &&& x.policies[DEFAULT_PERMIT_ALL@] == one_action_policy(
                DEFAULT_PERMIT_ALL@,
                ActionView::Accept,
            )
            &&& x.policies[DEFAULT_DENY_ALL@] == one_action_policy(
                DEFAULT_DENY_ALL@,
                ActionView::Reject,
            )
        },
{
    reveal_strlit("default-permit-all");
    reveal_strlit("default-deny-all");
    assert(DEFAULT_PERMIT_ALL@.len() == 18);
    assert(DEFAULT_DENY_ALL@.len() == 16);
}

} // verus!
