//! Statements from their configuration.

use crate::bgp::community;
use crate::bgp::community::{parse_large_community, LargeCommunity};
use crate::bgp::ext_community;
use crate::bgp::ext_community::parse_extended_community;
use crate::conf;
use crate::conf::{
    parse_all, ActionsConfig, ActionsView, CommunityActionConfig, CommunityActionView,
    ConditionsConfig, ConditionsView, ExtCommunityActionConfig, LargeCommunityActionConfig,
    LocalPrefActionConfig, MatchSetRefConfig, MatchSetRefView, MedActionConfig, StatementConfig,
    StatementConfigView,
};
use crate::net::addr::IpAddr;
use crate::net::addr_text;
use crate::net::network::IpNetwork;
use crate::policy::action::{
    Action, ActionView, CommunityOp, ExtCommunityOp, LargeCommunityOp, OpView,
};
use crate::policy::condition::{
    AfiSafiMatch, Condition, ConditionView, LsNlriTypeMatch, LsProtocolIdMatch, RouteType,
};
use crate::policy::sets;
use crate::policy::sets::{
    bad_prefix_error, parse_community_text, DefinedSets, DefinedSetsView, NamedList,
};
use crate::policy::statement;
use crate::policy::statement::{rpki_validation_from_config, Statement, StatementView};
use crate::seqs;
use crate::text::{cat2, cat3, cat4, text_eq};
use std::sync::Arc;
use vstd::prelude::*;

verus! {

// ---------------------------------------------------------------------------
// Steps
// ---------------------------------------------------------------------------

/// One entry of a configuration: nothing, a value or an error.
pub type Step<T> = Option<Result<T, String>>;

/// What an entry holds.
pub open spec fn step_view<T: View>(s: Step<T>) -> Option<Result<T::V, Seq<char>>> {
    match s {
        None => None,
        Some(r) => Some(conf::result_view(r)),
    }
}

/// What entries hold.
pub open spec fn step_views<T: View>(s: Seq<Step<T>>) -> Seq<Option<Result<T::V, Seq<char>>>> {
    Seq::new(s.len(), |i: int| step_view(s[i]))
}

/// The values of entries in their order, or the first error.
pub open spec fn collect<T>(steps: Seq<Option<Result<T, Seq<char>>>>) -> Result<Seq<T>, Seq<char>>
    decreases steps.len(),
{
    if steps.len() == 0 {
        Ok(Seq::empty())
    } else {
        match collect(steps.drop_last()) {
            Err(e) => Err(e),
            Ok(l) => match steps.last() {
                None => Ok(l),
                Some(Ok(x)) => Ok(l.push(x)),
                Some(Err(e)) => Err(e),
            },
        }
    }
}

proof fn lemma_collect_error<T>(steps: Seq<Option<Result<T, Seq<char>>>>, i: int)
    requires
        0 <= i <= steps.len(),
        collect(steps.take(i)) is Err,
    ensures
        collect(steps) == collect(steps.take(i)),
    decreases steps.len(),
{
    if i == steps.len() {
        assert(steps.take(i) =~= steps);
    } else {
        assert(steps.drop_last().take(i) =~= steps.take(i));
        lemma_collect_error(steps.drop_last(), i);
    }
}

/// The values of entries in their order, or the first error.
fn collect_steps<T: View>(steps: Vec<Step<T>>) -> (r: Result<Vec<T>, String>)
    ensures
        conf::list_result(r) == collect(step_views(steps@)),
{
    let ghost all = step_views(steps@);
    let mut out: Vec<T> = Vec::new();
    assert(seqs::views(out@) =~= Seq::<T::V>::empty());
    for s in it: steps
        invariant
            it.seq() == steps@,
            all == step_views(steps@),
            collect(all.take(it.index() as int)) == Ok::<Seq<T::V>, Seq<char>>(
                seqs::views(out@),
            ),
    {
        proof {
            let i = it.index() as int;
            assert(all.take(i + 1).drop_last() =~= all.take(i));
            assert(all.take(i + 1).last() == step_view(s));
        }
        match s {
            None => {},
            Some(Ok(x)) => {
                proof {
                    seqs::lemma_views_push(out@, x);
                }
                out.push(x);
            },
            Some(Err(e)) => {
                proof {
                    lemma_collect_error(all, it.index() + 1);
                }
                return Err(e);
            },
        }
    }
    proof {
        seqs::lemma_take_all(all);
    }
    Ok(out)
}

// ---------------------------------------------------------------------------
// Conditions
// ---------------------------------------------------------------------------

/// The set that a reference names, or the error that there is none.
pub open spec fn find_set<T>(
    m: Map<Seq<char>, NamedList<T>>,
    r: Option<MatchSetRefView>,
    kind: Seq<char>,
) -> Option<Result<NamedList<T>, Seq<char>>> {
    match r {
        None => None,
        Some(x) => if m.contains_key(x.set_name) {
            Some(Ok(m[x.set_name]))
        } else {
            Some(Err(kind + x.set_name + "' not found"@))
        },
    }
}

/// The entry for a value that is always valid.
pub open spec fn plain_step<A, B>(v: Option<A>, f: spec_fn(A) -> B) -> Option<
    Result<B, Seq<char>>,
> {
    match v {
        None => None,
        Some(x) => Some(Ok(f(x))),
    }
}

pub open spec fn prefix_set_step(c: ConditionsView, s: DefinedSetsView) -> Option<
    Result<ConditionView, Seq<char>>,
> {
    match find_set(s.prefix_sets, c.match_prefix_set, "prefix-set '"@) {
        None => None,
        Some(Err(e)) => Some(Err(e)),
        Some(Ok(l)) => Some(Ok(ConditionView::PrefixSet(l, c.match_prefix_set->0.match_option))),
    }
}

pub open spec fn neighbor_set_step(c: ConditionsView, s: DefinedSetsView) -> Option<
    Result<ConditionView, Seq<char>>,
> {
    match find_set(s.neighbor_sets, c.match_neighbor_set, "neighbor-set '"@) {
        None => None,
        Some(Err(e)) => Some(Err(e)),
        Some(Ok(l)) => Some(
            Ok(ConditionView::NeighborSet(l, c.match_neighbor_set->0.match_option)),
        ),
    }
}

pub open spec fn as_path_set_step(c: ConditionsView, s: DefinedSetsView) -> Option<
    Result<ConditionView, Seq<char>>,
> {
    match find_set(s.as_path_sets, c.match_as_path_set, "as-path-set '"@) {
        None => None,
        Some(Err(e)) => Some(Err(e)),
        Some(Ok(l)) => Some(Ok(ConditionView::AsPathSet(l, c.match_as_path_set->0.match_option))),
    }
}

pub open spec fn community_set_step(c: ConditionsView, s: DefinedSetsView) -> Option<
    Result<ConditionView, Seq<char>>,
> {
    match find_set(s.community_sets, c.match_community_set, "community-set '"@) {
        None => None,
        Some(Err(e)) => Some(Err(e)),
        Some(Ok(l)) => Some(
            Ok(ConditionView::CommunitySet(l, c.match_community_set->0.match_option)),
        ),
    }
}

pub open spec fn ext_community_set_step(c: ConditionsView, s: DefinedSetsView) -> Option<
    Result<ConditionView, Seq<char>>,
> {
    match find_set(s.ext_community_sets, c.match_ext_community_set, "ext-community-set '"@) {
        None => None,
        Some(Err(e)) => Some(Err(e)),
        Some(Ok(l)) => Some(
            Ok(ConditionView::ExtCommunitySet(l, c.match_ext_community_set->0.match_option)),
        ),
    }
}

pub open spec fn large_community_set_step(c: ConditionsView, s: DefinedSetsView) -> Option<
    Result<ConditionView, Seq<char>>,
> {
    match find_set(s.large_community_sets, c.match_large_community_set, "large-community-set '"@) {
        None => None,
        Some(Err(e)) => Some(Err(e)),
        Some(Ok(l)) => Some(
            Ok(ConditionView::LargeCommunitySet(l, c.match_large_community_set->0.match_option)),
        ),
    }
}

pub open spec fn prefix_step(v: Option<Seq<char>>) -> Option<Result<ConditionView, Seq<char>>> {
    match v {
        None => None,
        Some(s) => Some(
            match addr_text::read_network(s) {
                Some(p) => Ok(ConditionView::Prefix(p)),
                None => Err(sets::bad_prefix(s)),
            },
        ),
    }
}

/// The error for a text that denotes no address.
pub open spec fn bad_address(what: Seq<char>, s: Seq<char>) -> Seq<char> {
    what + s + "': "@ + "invalid IP address syntax"@
}

pub open spec fn neighbor_step(v: Option<Seq<char>>) -> Option<Result<ConditionView, Seq<char>>> {
    match v {
        None => None,
        Some(s) => Some(
            match addr_text::read_ip(s) {
                Some(ip) => Ok(ConditionView::Neighbor(ip)),
                None => Err(bad_address("invalid neighbor '"@, s)),
            },
        ),
    }
}

pub open spec fn router_id_step(v: Option<Seq<char>>) -> Option<Result<ConditionView, Seq<char>>> {
    match v {
        None => None,
        Some(s) => Some(
            match addr_text::read_ip(s) {
                Some(ip) => Ok(ConditionView::LsNodeRouterId(ip)),
                None => Err(bad_address("invalid ls-node-router-id '"@, s)),
            },
        ),
    }
}

/// How a route was learned, by its name.
pub open spec fn read_route_type(s: Seq<char>) -> Option<RouteType> {
    if s == RouteType::Ebgp.text() {
        Some(RouteType::Ebgp)
    } else if s == RouteType::Ibgp.text() {
        Some(RouteType::Ibgp)
    } else if s == RouteType::Local.text() {
        Some(RouteType::Local)
    } else {
        None
    }
}

pub open spec fn route_type_step(v: Option<Seq<char>>) -> Option<
    Result<ConditionView, Seq<char>>,
> {
    match v {
        None => None,
        Some(s) => Some(
            match read_route_type(s) {
                Some(t) => Ok(ConditionView::RouteType(t)),
                None => Err(
                    "invalid route-type '"@ + s + "' (must be 'ebgp', 'ibgp', or 'local')"@,
                ),
            },
        ),
    }
}

pub open spec fn community_step(v: Option<Seq<char>>) -> Option<Result<ConditionView, Seq<char>>> {
    match v {
        None => None,
        Some(s) => Some(
            match sets::read_community(s, "' in community"@) {
                Ok(c) => Ok(ConditionView::Community(c)),
                Err(e) => Err(e),
            },
        ),
    }
}

/// A group of address families, by its name.
pub open spec fn read_afi_safi(s: Seq<char>) -> Option<AfiSafiMatch> {
    if s == AfiSafiMatch::Ipv4Unicast.text() {
        Some(AfiSafiMatch::Ipv4Unicast)
    } else if s == AfiSafiMatch::Ipv6Unicast.text() {
        Some(AfiSafiMatch::Ipv6Unicast)
    } else if s == AfiSafiMatch::BgpLs.text() {
        Some(AfiSafiMatch::BgpLs)
    } else {
        None
    }
}

pub open spec fn afi_safi_step(v: Option<Seq<char>>) -> Option<Result<ConditionView, Seq<char>>> {
    match v {
        None => None,
        Some(s) => Some(
            match read_afi_safi(s) {
                Some(m) => Ok(ConditionView::AfiSafi(m)),
                None => Err(
                    "invalid afi-safi '"@ + s
                        + "' (must be 'ipv4-unicast', 'ipv6-unicast', or 'bgp-ls')"@,
                ),
            },
        ),
    }
}

/// A kind of link-state routes, by its name.
pub open spec fn read_ls_nlri_type(s: Seq<char>) -> Option<LsNlriTypeMatch> {
    if s == LsNlriTypeMatch::Node.text() {
        Some(LsNlriTypeMatch::Node)
    } else if s == LsNlriTypeMatch::Link.text() {
        Some(LsNlriTypeMatch::Link)
    } else if s == LsNlriTypeMatch::PrefixV4.text() {
        Some(LsNlriTypeMatch::PrefixV4)
    } else if s == LsNlriTypeMatch::PrefixV6.text() {
        Some(LsNlriTypeMatch::PrefixV6)
    } else {
        None
    }
}

pub open spec fn ls_nlri_type_step(v: Option<Seq<char>>) -> Option<
    Result<ConditionView, Seq<char>>,
> {
    match v {
        None => None,
        Some(s) => Some(
            match read_ls_nlri_type(s) {
                Some(t) => Ok(ConditionView::LsNlriType(t)),
                None => Err(
                    "invalid ls-nlri-type '"@ + s
                        + "' (must be 'node', 'link', 'prefix-v4', or 'prefix-v6')"@,
                ),
            },
        ),
    }
}

/// A protocol, by its name.
pub open spec fn read_ls_protocol_id(s: Seq<char>) -> Option<LsProtocolIdMatch> {
    if s == LsProtocolIdMatch::IsIsL1.text() {
        Some(LsProtocolIdMatch::IsIsL1)
    } else if s == LsProtocolIdMatch::IsIsL2.text() {
        Some(LsProtocolIdMatch::IsIsL2)
    } else if s == LsProtocolIdMatch::OspfV2.text() {
        Some(LsProtocolIdMatch::OspfV2)
    } else if s == LsProtocolIdMatch::Direct.text() {
        Some(LsProtocolIdMatch::Direct)
    } else if s == LsProtocolIdMatch::Static.text() {
        Some(LsProtocolIdMatch::Static)
    } else if s == LsProtocolIdMatch::OspfV3.text() {
        Some(LsProtocolIdMatch::OspfV3)
    } else {
        None
    }
}

pub open spec fn ls_protocol_id_step(v: Option<Seq<char>>) -> Option<
    Result<ConditionView, Seq<char>>,
> {
    match v {
        None => None,
        Some(s) => Some(
            match read_ls_protocol_id(s) {
                Some(p) => Ok(ConditionView::LsProtocolId(p)),
                None => Err(
                    "invalid ls-protocol-id '"@ + s
                        + "' (must be 'isis-l1', 'isis-l2', 'ospfv2', 'ospfv3', 'direct', or 'static')"@,
                ),
            },
        ),
    }
}

/// The entries of a configuration's conditions in the order in which they are
/// read: first the sets, then the single values.
#[verifier::opaque]
pub open spec fn condition_steps(c: ConditionsView, s: DefinedSetsView) -> Seq<
    Option<Result<ConditionView, Seq<char>>>,
> {
    seq![
        prefix_set_step(c, s),
        neighbor_set_step(c, s),
        as_path_set_step(c, s),
        community_set_step(c, s),
        ext_community_set_step(c, s),
        large_community_set_step(c, s),
        prefix_step(c.prefix),
        neighbor_step(c.neighbor),
        plain_step(c.has_asn, |x: u32| ConditionView::AsPath(x)),
        route_type_step(c.route_type),
        community_step(c.community),
        plain_step(
            c.rpki_validation,
            |x: conf::RpkiValidationConfig| ConditionView::RpkiValidation(statement::rpki_state(x)),
        ),
        afi_safi_step(c.afi_safi),
        ls_nlri_type_step(c.ls_nlri_type),
        ls_protocol_id_step(c.ls_protocol_id),
        plain_step(c.ls_instance_id, |x: u64| ConditionView::LsInstanceId(x)),
        plain_step(c.ls_node_as, |x: u32| ConditionView::LsNodeAs(x)),
        router_id_step(c.ls_node_router_id),
    ]
}

/// The conditions of a configuration, or the first error.
pub open spec fn read_conditions(c: ConditionsView, s: DefinedSetsView) -> Result<
    Seq<ConditionView>,
    Seq<char>,
> {
    collect(condition_steps(c, s))
}

fn not_found(kind: &str, r: &MatchSetRefConfig) -> (e: String)
    ensures
        e@ == kind@ + r@.set_name + "' not found"@,
{
    cat3(kind, r.set_name.as_str(), "' not found")
}

fn take_prefix_set(c: &ConditionsConfig, s: &DefinedSets) -> (r: Step<Condition>)
    ensures
        step_view(r) == prefix_set_step(c@, s@),
{
    match &c.match_prefix_set {
        None => None,
        Some(m) => match s.prefix_sets.get(m.set_name.as_str()) {
            Some(set) => Some(Ok(Condition::PrefixSet(Arc::new(set.clone()), m.match_option))),
            None => Some(Err(not_found("prefix-set '", m))),
        },
    }
}

fn take_neighbor_set(c: &ConditionsConfig, s: &DefinedSets) -> (r: Step<Condition>)
    ensures
        step_view(r) == neighbor_set_step(c@, s@),
{
    match &c.match_neighbor_set {
        None => None,
        Some(m) => match s.neighbor_sets.get(m.set_name.as_str()) {
            Some(set) => Some(Ok(Condition::NeighborSet(Arc::new(set.clone()), m.match_option))),
            None => Some(Err(not_found("neighbor-set '", m))),
        },
    }
}

fn take_as_path_set(c: &ConditionsConfig, s: &DefinedSets) -> (r: Step<Condition>)
    ensures
        step_view(r) == as_path_set_step(c@, s@),
{
    match &c.match_as_path_set {
        None => None,
        Some(m) => match s.as_path_sets.get(m.set_name.as_str()) {
            Some(set) => Some(Ok(Condition::AsPathSet(Arc::new(set.clone()), m.match_option))),
            None => Some(Err(not_found("as-path-set '", m))),
        },
    }
}

fn take_community_set(c: &ConditionsConfig, s: &DefinedSets) -> (r: Step<Condition>)
    ensures
        step_view(r) == community_set_step(c@, s@),
{
    match &c.match_community_set {
        None => None,
        Some(m) => match s.community_sets.get(m.set_name.as_str()) {
            Some(set) => Some(Ok(Condition::CommunitySet(Arc::new(set.clone()), m.match_option))),
            None => Some(Err(not_found("community-set '", m))),
        },
    }
}

fn take_ext_community_set(c: &ConditionsConfig, s: &DefinedSets) -> (r: Step<Condition>)
    ensures
        step_view(r) == ext_community_set_step(c@, s@),
{
    match &c.match_ext_community_set {
        None => None,
        Some(m) => match s.ext_community_sets.get(m.set_name.as_str()) {
            Some(set) => Some(
                Ok(Condition::ExtCommunitySet(Arc::new(set.clone()), m.match_option)),
            ),
            None => Some(Err(not_found("ext-community-set '", m))),
        },
    }
}

fn take_large_community_set(c: &ConditionsConfig, s: &DefinedSets) -> (r: Step<Condition>)
    ensures
        step_view(r) == large_community_set_step(c@, s@),
{
    match &c.match_large_community_set {
        None => None,
        Some(m) => match s.large_community_sets.get(m.set_name.as_str()) {
            Some(set) => Some(
                Ok(Condition::LargeCommunitySet(Arc::new(set.clone()), m.match_option)),
            ),
            None => Some(Err(not_found("large-community-set '", m))),
        },
    }
}

fn take_prefix(v: &Option<String>) -> (r: Step<Condition>)
    ensures
        step_view(r) == prefix_step(seqs::opt_text(*v)),
{
    match v {
        None => None,
        Some(s) => match IpNetwork::parse(s.as_str()) {
            Some(p) => Some(Ok(Condition::Prefix(p))),
            None => Some(Err(bad_prefix_error(s.as_str()))),
        },
    }
}

fn take_neighbor(v: &Option<String>) -> (r: Step<Condition>)
    ensures
        step_view(r) == neighbor_step(seqs::opt_text(*v)),
{
    match v {
        None => None,
        Some(s) => match IpAddr::parse(s.as_str()) {
            Some(ip) => Some(Ok(Condition::Neighbor(ip))),
            None => Some(
                Err(cat4("invalid neighbor '", s.as_str(), "': ", "invalid IP address syntax")),
            ),
        },
    }
}

fn take_router_id(v: &Option<String>) -> (r: Step<Condition>)
    ensures
        step_view(r) == router_id_step(seqs::opt_text(*v)),
{
    match v {
        None => None,
        Some(s) => match IpAddr::parse(s.as_str()) {
            Some(ip) => Some(Ok(Condition::LsNodeRouterId(ip))),
            None => Some(
                Err(
                    cat4(
                        "invalid ls-node-router-id '",
                        s.as_str(),
                        "': ",
                        "invalid IP address syntax",
                    ),
                ),
            ),
        },
    }
}

fn take_route_type(v: &Option<String>) -> (r: Step<Condition>)
    ensures
        step_view(r) == route_type_step(seqs::opt_text(*v)),
{
    match v {
        None => None,
        Some(s) => {
            let t = if text_eq(s.as_str(), "ebgp") {
                RouteType::Ebgp
            } else if text_eq(s.as_str(), "ibgp") {
                RouteType::Ibgp
            } else if text_eq(s.as_str(), "local") {
                RouteType::Local
            } else {
                return Some(
                    Err(
                        cat3(
                            "invalid route-type '",
                            s.as_str(),
                            "' (must be 'ebgp', 'ibgp', or 'local')",
                        ),
                    ),
                );
            };
            Some(Ok(Condition::RouteType(t)))
        },
    }
}

/// Reads a community: `65000:100` or one decimal number.
pub fn parse_community_value(s: &str) -> (r: Result<u32, String>)
    ensures
        conf::plain_result(r) == sets::read_community(s@, "' in community"@),
{
    parse_community_text(s, "' in community")
}

fn take_community(v: &Option<String>) -> (r: Step<Condition>)
    ensures
        step_view(r) == community_step(seqs::opt_text(*v)),
{
    match v {
        None => None,
        Some(s) => match parse_community_value(s.as_str()) {
            Ok(c) => Some(Ok(Condition::Community(c))),
            Err(e) => Some(Err(e)),
        },
    }
}

fn take_afi_safi(v: &Option<String>) -> (r: Step<Condition>)
    ensures
        step_view(r) == afi_safi_step(seqs::opt_text(*v)),
{
    match v {
        None => None,
        Some(s) => {
            let m = if text_eq(s.as_str(), "ipv4-unicast") {
                AfiSafiMatch::Ipv4Unicast
            } else if text_eq(s.as_str(), "ipv6-unicast") {
                AfiSafiMatch::Ipv6Unicast
            } else if text_eq(s.as_str(), "bgp-ls") {
                AfiSafiMatch::BgpLs
            } else {
                return Some(
                    Err(
                        cat3(
                            "invalid afi-safi '",
                            s.as_str(),
                            "' (must be 'ipv4-unicast', 'ipv6-unicast', or 'bgp-ls')",
                        ),
                    ),
                );
            };
            Some(Ok(Condition::AfiSafi(m)))
        },
    }
}

fn take_ls_nlri_type(v: &Option<String>) -> (r: Step<Condition>)
    ensures
        step_view(r) == ls_nlri_type_step(seqs::opt_text(*v)),
{
    match v {
        None => None,
        Some(s) => {
            let t = if text_eq(s.as_str(), "node") {
                LsNlriTypeMatch::Node
            } else if text_eq(s.as_str(), "link") {
                LsNlriTypeMatch::Link
            } else if text_eq(s.as_str(), "prefix-v4") {
                LsNlriTypeMatch::PrefixV4
            } else if text_eq(s.as_str(), "prefix-v6") {
                LsNlriTypeMatch::PrefixV6
            } else {
                return Some(
                    Err(
                        cat3(
                            "invalid ls-nlri-type '",
                            s.as_str(),
                            "' (must be 'node', 'link', 'prefix-v4', or 'prefix-v6')",
                        ),
                    ),
                );
            };
            Some(Ok(Condition::LsNlriType(t)))
        },
    }
}

fn take_ls_protocol_id(v: &Option<String>) -> (r: Step<Condition>)
    ensures
        step_view(r) == ls_protocol_id_step(seqs::opt_text(*v)),
{
    match v {
        None => None,
        Some(s) => {
            let p = if text_eq(s.as_str(), "isis-l1") {
                LsProtocolIdMatch::IsIsL1
            } else if text_eq(s.as_str(), "isis-l2") {
                LsProtocolIdMatch::IsIsL2
            } else if text_eq(s.as_str(), "ospfv2") {
                LsProtocolIdMatch::OspfV2
            } else if text_eq(s.as_str(), "direct") {
                LsProtocolIdMatch::Direct
            } else if text_eq(s.as_str(), "static") {
                LsProtocolIdMatch::Static
            } else if text_eq(s.as_str(), "ospfv3") {
                LsProtocolIdMatch::OspfV3
            } else {
                return Some(
                    Err(
                        cat3(
                            "invalid ls-protocol-id '",
                            s.as_str(),
                            "' (must be 'isis-l1', 'isis-l2', 'ospfv2', 'ospfv3', 'direct', or 'static')",
                        ),
                    ),
                );
            };
            Some(Ok(Condition::LsProtocolId(p)))
        },
    }
}

/// The conditions of a configuration, or the first error.
pub fn build_conditions(cond: &ConditionsConfig, defined_sets: &DefinedSets) -> (r: Result<
    Vec<Condition>,
    String,
>)
    ensures
        conf::list_result(r) == read_conditions(cond@, defined_sets@),
{
    let has_asn: Step<Condition> = match cond.has_asn {
        Some(x) => Some(Ok(Condition::AsPath(x))),
        None => None,
    };
    let rpki: Step<Condition> = match cond.rpki_validation {
        Some(x) => Some(Ok(Condition::RpkiValidation(rpki_validation_from_config(x)))),
        None => None,
    };
    let instance: Step<Condition> = match cond.ls_instance_id {
        Some(x) => Some(Ok(Condition::LsInstanceId(x))),
        None => None,
    };
    let node_as: Step<Condition> = match cond.ls_node_as {
        Some(x) => Some(Ok(Condition::LsNodeAs(x))),
        None => None,
    };
    let steps: Vec<Step<Condition>> = vec![
        take_prefix_set(cond, defined_sets),
        take_neighbor_set(cond, defined_sets),
        take_as_path_set(cond, defined_sets),
        take_community_set(cond, defined_sets),
        take_ext_community_set(cond, defined_sets),
        take_large_community_set(cond, defined_sets),
        take_prefix(&cond.prefix),
        take_neighbor(&cond.neighbor),
        has_asn,
        take_route_type(&cond.route_type),
        take_community(&cond.community),
        rpki,
        take_afi_safi(&cond.afi_safi),
        take_ls_nlri_type(&cond.ls_nlri_type),
        take_ls_protocol_id(&cond.ls_protocol_id),
        instance,
        node_as,
        take_router_id(&cond.ls_node_router_id),
    ];
    proof {
        reveal(condition_steps);
    }
    assert(step_views(steps@) =~= condition_steps(cond@, defined_sets@));
    collect_steps(steps)
}

// ---------------------------------------------------------------------------
// Actions
// ---------------------------------------------------------------------------

/// The operation with the given name on a list.
pub open spec fn read_op<T>(name: Seq<char>, l: Seq<T>) -> Option<OpView<T>> {
    if name == "add"@ {
        Some(OpView::Add(l))
    } else if name == "remove"@ {
        Some(OpView::Remove(l))
    } else if name == "replace"@ {
        Some(OpView::Replace(l))
    } else {
        None
    }
}

/// The error for the name of no operation.
pub open spec fn bad_op(kind: Seq<char>, name: Seq<char>) -> Seq<char> {
    kind + name + "' (must be 'add', 'remove', or 'replace')"@
}

/// The operation that a configuration describes. The communities are read
/// before the name of the operation.
pub open spec fn read_community_op<T>(
    c: CommunityActionView,
    f: spec_fn(Seq<char>) -> Result<T, Seq<char>>,
    kind: Seq<char>,
) -> Result<OpView<T>, Seq<char>> {
    match conf::read_all(c.values, f) {
        Err(e) => Err(e),
        Ok(l) => match read_op(c.operation, l) {
            Some(op) => Ok(op),
            None => Err(bad_op(kind, c.operation)),
        },
    }
}

pub open spec fn community_reader() -> spec_fn(Seq<char>) -> Result<u32, Seq<char>> {
    |s: Seq<char>| sets::read_community(s, "' in community"@)
}

pub open spec fn ext_community_reader() -> spec_fn(Seq<char>) -> Result<u64, Seq<char>> {
    |s: Seq<char>|
        match ext_community::read_ext_community(s) {
            Some(v) => Ok(v),
            None => Err("invalid extended community: "@ + "invalid format"@),
        }
}

pub open spec fn large_community_reader() -> spec_fn(Seq<char>) -> Result<
    LargeCommunity,
    Seq<char>,
> {
    |s: Seq<char>|
        match community::read_large_community(s) {
            Some(v) => Ok(v),
            None => Err("invalid large community: "@ + "invalid format"@),
        }
}

pub open spec fn community_op_step(v: Option<CommunityActionView>) -> Option<
    Result<ActionView, Seq<char>>,
> {
    match v {
        None => None,
        Some(c) => Some(
            match read_community_op(c, community_reader(), "invalid community operation '"@) {
                Ok(op) => Ok(ActionView::SetCommunity(op)),
                Err(e) => Err(e),
            },
        ),
    }
}

pub open spec fn ext_community_op_step(v: Option<CommunityActionView>) -> Option<
    Result<ActionView, Seq<char>>,
> {
    match v {
        None => None,
        Some(c) => Some(
            match read_community_op(
                c,
                ext_community_reader(),
                "invalid extended community operation '"@,
            ) {
                Ok(op) => Ok(ActionView::SetExtCommunity(op)),
                Err(e) => Err(e),
            },
        ),
    }
}

pub open spec fn large_community_op_step(v: Option<CommunityActionView>) -> Option<
    Result<ActionView, Seq<char>>,
> {
    match v {
        None => None,
        Some(c) => Some(
            match read_community_op(
                c,
                large_community_reader(),
                "invalid large community operation '"@,
            ) {
                Ok(op) => Ok(ActionView::SetLargeCommunity(op)),
                Err(e) => Err(e),
            },
        ),
    }
}

pub open spec fn local_pref_action(c: LocalPrefActionConfig) -> ActionView {
    match c {
        LocalPrefActionConfig::Value(value) => ActionView::SetLocalPref { value, force: false },
        LocalPrefActionConfig::Force { value, force } => ActionView::SetLocalPref { value, force },
    }
}

pub open spec fn med_action(c: MedActionConfig) -> ActionView {
    match c {
        MedActionConfig::Value(v) => ActionView::SetMed(Some(v)),
        MedActionConfig::Remove { remove: _ } => ActionView::SetMed(None),
    }
}

/// The entry of an action that is switched on.
pub open spec fn switch_step(v: Option<bool>, a: ActionView) -> Option<
    Result<ActionView, Seq<char>>,
> {
    if v == Some(true) {
        Some(Ok(a))
    } else {
        None
    }
}

/// The entries of a configuration's actions in the order in which they are
/// taken; whether the route is accepted comes last.
pub open spec fn action_steps(c: ActionsView) -> Seq<Option<Result<ActionView, Seq<char>>>> {
    seq![
        plain_step(c.local_pref, |x: LocalPrefActionConfig| local_pref_action(x)),
        plain_step(c.med, |x: MedActionConfig| med_action(x)),
        community_op_step(c.community),
        ext_community_op_step(c.ext_community),
        large_community_op_step(c.large_community),
        plain_step(
            c.set_rpki_state,
            |x: conf::RpkiValidationConfig| ActionView::SetRpkiState(statement::rpki_state(x)),
        ),
        switch_step(c.accept, ActionView::Accept),
        switch_step(c.reject, ActionView::Reject),
    ]
}

/// The actions of a configuration, or the first error.
pub open spec fn read_actions(c: ActionsView) -> Result<Seq<ActionView>, Seq<char>> {
    collect(action_steps(c))
}

fn bad_op_error(kind: &str, name: &str) -> (e: String)
    ensures
        e@ == bad_op(kind@, name@),
{
    cat3(kind, name, "' (must be 'add', 'remove', or 'replace')")
}

fn read_one_community(s: &String) -> (r: Result<u32, String>)
    ensures
        conf::result_view(r) == community_reader()(s@),
{
    parse_community_value(s.as_str())
}

fn read_one_ext_community(s: &String) -> (r: Result<u64, String>)
    ensures
        conf::result_view(r) == ext_community_reader()(s@),
{
    match parse_extended_community(s.as_str()) {
        Some(v) => Ok(v),
        None => Err(cat2("invalid extended community: ", "invalid format")),
    }
}

fn read_one_large_community(s: &String) -> (r: Result<LargeCommunity, String>)
    ensures
        conf::result_view(r) == large_community_reader()(s@),
{
    match parse_large_community(s.as_str()) {
        Some(v) => Ok(v),
        None => Err(cat2("invalid large community: ", "invalid format")),
    }
}

fn take_community_op(v: &Option<CommunityActionConfig>) -> (r: Step<Action>)
    ensures
        step_view(r) == community_op_step(conf::opt_view(*v)),
{
    match v {
        None => None,
        Some(c) => {
            let l = match parse_all(
                &c.communities,
                read_one_community,
                Ghost(community_reader()),
            ) {
                Ok(l) => l,
                Err(e) => {
                    return Some(Err(e));
                },
            };
            assert(seqs::views(l@) =~= l@);
            let name = c.operation.as_str();
            if text_eq(name, "add") {
                Some(Ok(Action::SetCommunity(CommunityOp::Add(l))))
            } else if text_eq(name, "remove") {
                Some(Ok(Action::SetCommunity(CommunityOp::Remove(l))))
            } else if text_eq(name, "replace") {
                Some(Ok(Action::SetCommunity(CommunityOp::Replace(l))))
            } else {
                Some(Err(bad_op_error("invalid community operation '", name)))
            }
        },
    }
}

fn take_ext_community_op(v: &Option<ExtCommunityActionConfig>) -> (r: Step<Action>)
    ensures
        step_view(r) == ext_community_op_step(conf::opt_view(*v)),
{
    match v {
        None => None,
        Some(c) => {
            let l = match parse_all(
                &c.ext_communities,
                read_one_ext_community,
                Ghost(ext_community_reader()),
            ) {
                Ok(l) => l,
                Err(e) => {
                    return Some(Err(e));
                },
            };
            assert(seqs::views(l@) =~= l@);
            let name = c.operation.as_str();
            if text_eq(name, "add") {
                Some(Ok(Action::SetExtCommunity(ExtCommunityOp::Add(l))))
            } else if text_eq(name, "remove") {
                Some(Ok(Action::SetExtCommunity(ExtCommunityOp::Remove(l))))
            } else if text_eq(name, "replace") {
                Some(Ok(Action::SetExtCommunity(ExtCommunityOp::Replace(l))))
            } else {
                Some(Err(bad_op_error("invalid extended community operation '", name)))
            }
        },
    }
}

fn take_large_community_op(v: &Option<LargeCommunityActionConfig>) -> (r: Step<Action>)
    ensures
        step_view(r) == large_community_op_step(conf::opt_view(*v)),
{
    match v {
        None => None,
        Some(c) => {
            let l = match parse_all(
                &c.large_communities,
                read_one_large_community,
                Ghost(large_community_reader()),
            ) {
                Ok(l) => l,
                Err(e) => {
                    return Some(Err(e));
                },
            };
            assert(seqs::views(l@) =~= l@);
            let name = c.operation.as_str();
            if text_eq(name, "add") {
                Some(Ok(Action::SetLargeCommunity(LargeCommunityOp::Add(l))))
            } else if text_eq(name, "remove") {
                Some(Ok(Action::SetLargeCommunity(LargeCommunityOp::Remove(l))))
            } else if text_eq(name, "replace") {
                Some(Ok(Action::SetLargeCommunity(LargeCommunityOp::Replace(l))))
            } else {
                Some(Err(bad_op_error("invalid large community operation '", name)))
            }
        },
    }
}

fn take_switch(v: Option<bool>, a: Action) -> (r: Step<Action>)
    ensures
        step_view(r) == switch_step(v, a@),
{
    match v {
        Some(on) => if on {
            Some(Ok(a))
        } else {
            None
        },
        None => None,
    }
}

/// The actions of a configuration, or the first error.
pub fn build_actions(actions: &ActionsConfig) -> (r: Result<Vec<Action>, String>)
    ensures
        conf::list_result(r) == read_actions(actions@),
{
    let local_pref: Step<Action> = match actions.local_pref {
        Some(LocalPrefActionConfig::Value(value)) => Some(
            Ok(Action::SetLocalPref { value, force: false }),
        ),
        Some(LocalPrefActionConfig::Force { value, force }) => Some(
            Ok(Action::SetLocalPref { value, force }),
        ),
        None => None,
    };
    let med: Step<Action> = match actions.med {
        Some(MedActionConfig::Value(v)) => Some(Ok(Action::SetMed(Some(v)))),
        Some(MedActionConfig::Remove { remove: _ }) => Some(Ok(Action::SetMed(None))),
        None => None,
    };
    let rpki: Step<Action> = match actions.set_rpki_state {
        Some(x) => Some(Ok(Action::SetRpkiState(rpki_validation_from_config(x)))),
        None => None,
    };
    let steps: Vec<Step<Action>> = vec![
        local_pref,
        med,
        take_community_op(&actions.community),
        take_ext_community_op(&actions.ext_community),
        take_large_community_op(&actions.large_community),
        rpki,
        take_switch(actions.accept, Action::Accept),
        take_switch(actions.reject, Action::Reject),
    ];
    assert(step_views(steps@) =~= action_steps(actions@));
    collect_steps(steps)
}

// ---------------------------------------------------------------------------
// Statements
// ---------------------------------------------------------------------------

/// The statement that a configuration describes, or the first error; the
/// conditions are read before the actions.
pub open spec fn read_statement(c: StatementConfigView, s: DefinedSetsView) -> Result<
    StatementView,
    Seq<char>,
> {
    match read_conditions(c.conditions, s) {
        Err(e) => Err(e),
        Ok(conditions) => match read_actions(c.actions) {
            Err(e) => Err(e),
            Ok(actions) => Ok(StatementView { conditions, actions }),
        },
    }
}

/// Builds a statement from its configuration.
pub fn build_statement(def: &StatementConfig, defined_sets: &DefinedSets) -> (r: Result<
    Statement,
    String,
>)
    ensures
        conf::result_view(r) == read_statement(def@, defined_sets@),
{
    let conditions = match build_conditions(&def.conditions, defined_sets) {
        Ok(l) => l,
        Err(e) => {
            return Err(e);
        },
    };
    let actions = match build_actions(&def.actions) {
        Ok(l) => l,
        Err(e) => {
            return Err(e);
        },
    };
    Ok(Statement::from_parts(conditions, actions))
}

} // verus!
