//! Defined sets: named collections that conditions refer to.

use crate::bgp::community;
use crate::bgp::community::{parse_large_community, LargeCommunity};
use crate::bgp::ext_community;
use crate::bgp::ext_community::parse_extended_community;
use crate::conf;
use crate::conf::{
    parse_all, AsPathSetConfig, CommunitySetConfig, DefinedSetsConfig, DefinedSetsConfigView,
    ExtCommunitySetConfig, LargeCommunitySetConfig, NamedTexts, NeighborSetConfig,
    PrefixMatchConfig, PrefixMatchConfigView, PrefixSetConfig, PrefixSetConfigView,
};
use crate::net::addr::IpAddr;
use crate::net::addr_text;
use crate::net::network::IpNetwork;
use crate::policy::pattern;
use crate::policy::pattern::AsPathPattern;
use crate::policy::table;
use crate::policy::table::{Named, Table};
use crate::seqs;
use crate::text;
use crate::text::{
    cat2, cat3, cat4, cat6, parse_decimal, render_decimal, split_once, split_pair, text_eq,
};
use crate::seqs::{copy_items, Same};
use vstd::prelude::*;

verus! {

// ---------------------------------------------------------------------------
// Kinds of sets
// ---------------------------------------------------------------------------

/// The kinds of defined sets.
#[derive(Debug, Clone, Copy, PartialEq, Eq, Structural)]
pub enum DefinedSetType {
    PrefixSet,
    AsPathSet,
    CommunitySet,
    ExtCommunitySet,
    LargeCommunitySet,
    NeighborSet,
}

impl DefinedSetType {
    /// The name of the kind.
    pub open spec fn text(self) -> Seq<char> {
        match self {
            DefinedSetType::PrefixSet => "prefix-set"@,
            DefinedSetType::AsPathSet => "as-path-set"@,
            DefinedSetType::CommunitySet => "community-set"@,
            DefinedSetType::ExtCommunitySet => "ext-community-set"@,
            DefinedSetType::LargeCommunitySet => "large-community-set"@,
            DefinedSetType::NeighborSet => "neighbor-set"@,
        }
    }

    /// The kind with the given name.
    pub fn parse(s: &str) -> (r: Result<Self, String>)
        ensures
            match r {
                Ok(t) => t.text() == s@,
                Err(e) => {
                    &&& forall|t: DefinedSetType| #[trigger] t.text() != s@
                    &&& e@ == "invalid set type: "@ + s@
                },
            },
    {
        if text_eq(s, "prefix-set") {
            Ok(DefinedSetType::PrefixSet)
        } else if text_eq(s, "as-path-set") {
            Ok(DefinedSetType::AsPathSet)
        } else if text_eq(s, "community-set") {
            Ok(DefinedSetType::CommunitySet)
        } else if text_eq(s, "ext-community-set") {
            Ok(DefinedSetType::ExtCommunitySet)
        } else if text_eq(s, "large-community-set") {
            Ok(DefinedSetType::LargeCommunitySet)
        } else if text_eq(s, "neighbor-set") {
            Ok(DefinedSetType::NeighborSet)
        } else {
            Err(cat2("invalid set type: ", s))
        }
    }

    pub fn as_str(&self) -> (r: &'static str)
        ensures
            r@ == self.text(),
    {
        match self {
            DefinedSetType::PrefixSet => "prefix-set",
            DefinedSetType::AsPathSet => "as-path-set",
            DefinedSetType::CommunitySet => "community-set",
            DefinedSetType::ExtCommunitySet => "ext-community-set",
            DefinedSetType::LargeCommunitySet => "large-community-set",
            DefinedSetType::NeighborSet => "neighbor-set",
        }
    }
}

/// No two kinds have one name, so the name of a kind is parsed as that kind.
pub proof fn law_set_type_names_differ(a: DefinedSetType, b: DefinedSetType)
    requires
        a.text() == b.text(),
    ensures
        a == b,
{
    reveal_strlit("prefix-set");
    reveal_strlit("as-path-set");
    reveal_strlit("community-set");
    reveal_strlit("ext-community-set");
    reveal_strlit("large-community-set");
    reveal_strlit("neighbor-set");
    assert("prefix-set"@.len() == 10);
    assert("as-path-set"@.len() == 11);
    assert("community-set"@.len() == 13);
    assert("ext-community-set"@.len() == 17);
    assert("large-community-set"@.len() == 19);
    assert("neighbor-set"@.len() == 12);
}

// ---------------------------------------------------------------------------
// Prefixes
// ---------------------------------------------------------------------------

/// Networks within `network` whose prefix length lies in a range.
#[derive(Debug, Clone, Copy, PartialEq, Eq, Structural)]
pub struct PrefixMatch {
    pub network: IpNetwork,
    pub min_len: u8,
    pub max_len: u8,
}

impl View for PrefixMatch {
    type V = PrefixMatch;

    open spec fn view(&self) -> PrefixMatch {
        *self
    }
}

/// The text of a number.
pub open spec fn num(n: u8) -> Seq<char> {
    text::decimal(n as nat)
}

/// One end of a range of lengths: `missing` where the text is empty.
pub open spec fn read_length(s: Seq<char>, missing: u8, what: Seq<char>) -> Result<u8, Seq<char>> {
    if s.len() == 0 {
        Ok(missing)
    } else {
        match text::read_decimal(s, 255) {
            Some(v) => Ok(v as u8),
            None => Err(what + s + "'"@),
        }
    }
}

/// The range of lengths that a text denotes: `exact` for `prefix_len` alone, or
/// two ends around `..`, of which a missing one is `prefix_len` or `max_len`.
pub open spec fn read_masklength_range(s: Seq<char>, prefix_len: u8, max_len: u8) -> Result<
    (u8, u8),
    Seq<char>,
> {
    if s == "exact"@ {
        Ok((prefix_len, prefix_len))
    } else {
        match text::split_pair_from(s, '.', 0) {
            None => Err("invalid masklength range format '"@ + s + "'"@),
            Some((lo, hi)) => match read_length(lo, prefix_len, "invalid min length '"@) {
                Err(e) => Err(e),
                Ok(min) => match read_length(hi, max_len, "invalid max length '"@) {
                    Err(e) => Err(e),
                    Ok(max) => if min > max {
                        Err("min length "@ + num(min) + " > max length "@ + num(max))
                    } else if min < prefix_len {
                        Err("min length "@ + num(min) + " < prefix length "@ + num(prefix_len))
                    } else if max > max_len {
                        Err("max length "@ + num(max) + " > max allowed "@ + num(max_len))
                    } else {
                        Ok((min, max))
                    },
                },
            },
        }
    }
}

fn parse_length(s: &str, missing: u8, what: &str) -> (r: Result<u8, String>)
    ensures
        conf::plain_result(r) == read_length(s@, missing, what@),
{
    if s.is_empty() {
        Ok(missing)
    } else {
        match parse_decimal(s, 255) {
            Some(v) => Ok(v as u8),
            None => Err(cat3(what, s, "'")),
        }
    }
}

/// Reads a range of prefix lengths: `exact`, `21..24`, `..24` or `21..`.
pub fn parse_masklength_range(s: &str, prefix_len: u8, max_len: u8) -> (r: Result<
    (u8, u8),
    String,
>)
    ensures
        conf::plain_result(r) == read_masklength_range(s@, prefix_len, max_len),
{
    if text_eq(s, "exact") {
        return Ok((prefix_len, prefix_len));
    }
    match split_pair(s, '.') {
        None => Err(cat3("invalid masklength range format '", s, "'")),
        Some((lo, hi)) => {
            let min: u8 = match parse_length(lo, prefix_len, "invalid min length '") {
                Ok(v) => v,
                Err(e) => {
                    return Err(e);
                },
            };
            let max: u8 = match parse_length(hi, max_len, "invalid max length '") {
                Ok(v) => v,
                Err(e) => {
                    return Err(e);
                },
            };
            let min_text = render_decimal(min as u64);
            let max_text = render_decimal(max as u64);
            if min > max {
                return Err(
                    cat4("min length ", min_text.as_str(), " > max length ", max_text.as_str()),
                );
            }
            if min < prefix_len {
                let len_text = render_decimal(prefix_len as u64);
                return Err(
                    cat4("min length ", min_text.as_str(), " < prefix length ", len_text.as_str()),
                );
            }
            if max > max_len {
                let len_text = render_decimal(max_len as u64);
                return Err(
                    cat4("max length ", max_text.as_str(), " > max allowed ", len_text.as_str()),
                );
            }
            Ok((min, max))
        },
    }
}

/// A range that is read lies between the length of the prefix and the longest
/// one possible, and is not empty.
pub proof fn law_masklength_range_bounds(s: Seq<char>, prefix_len: u8, max_len: u8)
    requires
        prefix_len <= max_len,
    ensures
        read_masklength_range(s, prefix_len, max_len) matches Ok((min, max)) ==> prefix_len <= min
            <= max <= max_len,
{
}

/// The error for a text that denotes no network.
pub open spec fn bad_prefix(s: Seq<char>) -> Seq<char> {
    "invalid prefix '"@ + s + "': "@ + "invalid network"@
}

pub(crate) fn bad_prefix_error(s: &str) -> (r: String)
    ensures
        r@ == bad_prefix(s@),
{
    cat4("invalid prefix '", s, "': ", "invalid network")
}

/// The prefix match that a configuration describes; without a range of lengths
/// only the prefix itself.
pub open spec fn read_prefix_match(c: PrefixMatchConfigView) -> Result<PrefixMatch, Seq<char>> {
    match addr_text::read_network(c.prefix) {
        None => Err(bad_prefix(c.prefix)),
        Some(network) => match c.masklength_range {
            None => Ok(
                PrefixMatch { network, min_len: network.len_spec(), max_len: network.len_spec() },
            ),
            Some(range) => match read_masklength_range(
                range,
                network.len_spec(),
                network.max_len_spec(),
            ) {
                Err(e) => Err(e),
                Ok((min_len, max_len)) => Ok(PrefixMatch { network, min_len, max_len }),
            },
        },
    }
}

impl PrefixMatch {
    /// The length of `prefix` is in the range, and `prefix` lies in the network.
    pub open spec fn admits(self, prefix: IpNetwork) -> bool {
        self.min_len <= prefix.len_spec() <= self.max_len && self.network.covers(prefix)
    }

    pub fn new(config: &PrefixMatchConfig) -> (r: Result<Self, String>)
        ensures
            conf::plain_result(r) == read_prefix_match(config@),
    {
        let network = match IpNetwork::parse(config.prefix.as_str()) {
            Some(n) => n,
            None => {
                return Err(bad_prefix_error(config.prefix.as_str()));
            },
        };
        let prefix_len: u8 = network.prefix_len();
        let max: u8 = match &network {
            IpNetwork::V4(_) => 32,
            IpNetwork::V6(_) => 128,
        };
        match &config.masklength_range {
            None => Ok(PrefixMatch { network, min_len: prefix_len, max_len: prefix_len }),
            Some(range) => match parse_masklength_range(range.as_str(), prefix_len, max) {
                Ok((min_len, max_len)) => Ok(PrefixMatch { network, min_len, max_len }),
                Err(e) => Err(e),
            },
        }
    }

    /// Whether `prefix` lies within the network and the range of lengths.
    pub fn contains(&self, prefix: &IpNetwork) -> (r: bool)
        ensures
            r == self.admits(*prefix),
    {
        let prefix_len: u8 = prefix.prefix_len();
        if prefix_len < self.min_len || prefix_len > self.max_len {
            return false;
        }
        self.network.contains(prefix)
    }
}

// ---------------------------------------------------------------------------
// Communities
// ---------------------------------------------------------------------------

/// A community from its halves.
pub open spec fn community_of(high: u16, low: u16) -> u32 {
    (high as u32) << 16 | (low as u32)
}

/// The community that a text denotes: one number, or two halves around a
/// colon. `after_part` ends the error for a half that is no number.
pub open spec fn read_community(s: Seq<char>, after_part: Seq<char>) -> Result<u32, Seq<char>> {
    match text::read_decimal(s, u32::MAX as nat) {
        Some(v) => Ok(v as u32),
        None => match text::split_once_at(s, ':') {
            Some((high, low)) => match text::read_decimal(high, 65535) {
                None => Err("invalid high part '"@ + high + after_part),
                Some(h) => match text::read_decimal(low, 65535) {
                    None => Err("invalid low part '"@ + low + after_part),
                    Some(l) => Ok(community_of(h as u16, l as u16)),
                },
            },
            None => Err(
                "invalid community format '"@ + s + "' (expected '65000:100' or decimal)"@,
            ),
        },
    }
}

/// The two halves of a community around a colon.
pub open spec fn community_text(c: u32) -> Seq<char> {
    text::decimal((c >> 16) as nat) + seq![':'] + text::decimal((c & 0xFFFF) as nat)
}

/// The text of a community is read as that community.
pub proof fn law_community_round_trip(c: u32, after_part: Seq<char>)
    ensures
        read_community(community_text(c), after_part) == Ok::<u32, Seq<char>>(c),
{
    let (h, l) = (c >> 16, c & 0xFFFF);
    assert(h <= 65535 && l <= 65535 && (h as u16 as u32) << 16 | (l as u16 as u32) == c)
        by (bit_vector)
        requires
            h == c >> 16,
            l == c & 0xFFFF,
    ;
    let s = community_text(c);
    let d = text::decimal(h as nat);
    text::lemma_decimal(h as nat);
    text::lemma_decimal_lacks(h as nat, ':');
    text::lemma_split_once_after(d, ':', text::decimal(l as nat));
    text::law_decimal_round_trip(h as nat, 65535);
    text::law_decimal_round_trip(l as nat, 65535);
    assert(s[0] == d[0]);
    assert(text::is_dec_digit(d[0]));
    assert(text::unsigned_digits(s) == s);
    assert(s[d.len() as int] == ':');
    assert(!text::is_dec_digit(s[d.len() as int]));
}

/// Reads a community; `after_part` ends the error for a half that is no number.
pub(crate) fn parse_community_text(s: &str, after_part: &str) -> (r: Result<u32, String>)
    ensures
        conf::plain_result(r) == read_community(s@, after_part@),
{
    if let Some(v) = parse_decimal(s, u32::MAX as u64) {
        return Ok(v as u32);
    }
    match split_once(s, ':') {
        Some((high, low)) => match parse_decimal(high, 65535) {
            None => Err(cat3("invalid high part '", high, after_part)),
            Some(h) => match parse_decimal(low, 65535) {
                None => Err(cat3("invalid low part '", low, after_part)),
                Some(l) => {
                    let (hi, lo) = (h as u16, l as u16);
                    Ok((hi as u32) << 16 | (lo as u32))
                },
            },
        },
        None => Err(
            cat3("invalid community format '", s, "' (expected '65000:100' or decimal)"),
        ),
    }
}

/// Reads a community: `65000:100` or one decimal number.
pub fn parse_community(s: &str) -> (r: Result<u32, String>)
    ensures
        conf::plain_result(r) == read_community(s@, "'"@),
{
    parse_community_text(s, "'")
}

// ---------------------------------------------------------------------------
// Sets
// ---------------------------------------------------------------------------

/// A name and the members of a set.
pub struct NamedList<T> {
    pub name: Seq<char>,
    pub items: Seq<T>,
}

#[derive(Debug, PartialEq)]
pub struct PrefixSet {
    pub name: String,
    pub prefixes: Vec<PrefixMatch>,
}

impl View for PrefixSet {
    type V = NamedList<PrefixMatch>;

    open spec fn view(&self) -> NamedList<PrefixMatch> {
        NamedList { name: self.name@, items: self.prefixes@ }
    }
}

#[derive(Debug, PartialEq)]
pub struct NeighborSet {
    pub name: String,
    pub neighbors: Vec<IpAddr>,
}

impl View for NeighborSet {
    type V = NamedList<IpAddr>;

    open spec fn view(&self) -> NamedList<IpAddr> {
        NamedList { name: self.name@, items: self.neighbors@ }
    }
}

/// Patterns over AS paths; they are known by their texts.
#[derive(Debug)]
pub struct AsPathSet {
    pub name: String,
    pub patterns: Vec<AsPathPattern>,
}

impl View for AsPathSet {
    type V = NamedList<Seq<char>>;

    open spec fn view(&self) -> NamedList<Seq<char>> {
        NamedList { name: self.name@, items: seqs::views(self.patterns@) }
    }
}

#[derive(Debug, PartialEq)]
pub struct CommunitySet {
    pub name: String,
    pub communities: Vec<u32>,
}

impl View for CommunitySet {
    type V = NamedList<u32>;

    open spec fn view(&self) -> NamedList<u32> {
        NamedList { name: self.name@, items: self.communities@ }
    }
}

#[derive(Debug, PartialEq)]
pub struct ExtCommunitySet {
    pub name: String,
    pub ext_communities: Vec<u64>,
}

impl View for ExtCommunitySet {
    type V = NamedList<u64>;

    open spec fn view(&self) -> NamedList<u64> {
        NamedList { name: self.name@, items: self.ext_communities@ }
    }
}

#[derive(Debug, PartialEq)]
pub struct LargeCommunitySet {
    pub name: String,
    pub large_communities: Vec<LargeCommunity>,
}

impl View for LargeCommunitySet {
    type V = NamedList<LargeCommunity>;

    open spec fn view(&self) -> NamedList<LargeCommunity> {
        NamedList { name: self.name@, items: self.large_communities@ }
    }
}

/// Equal sets have one name and the same patterns in the same order.
impl PartialEq for AsPathSet {
    fn eq(&self, other: &Self) -> (r: bool) {
        let a = &self.patterns;
        let b = &other.patterns;
        if self.name != other.name || a.len() != b.len() {
            assert(self@.items.len() != other@.items.len() || self@.name != other@.name);
            return false;
        }
        let mut i: usize = 0;
        while i < a.len()
            invariant
                i <= a@.len(),
                a@.len() == b@.len(),
                a@ == self.patterns@,
                b@ == other.patterns@,
                forall|j: int| 0 <= j < i ==> self@.items[j] == other@.items[j],
            decreases a.len() - i,
        {
            if !text_eq(a[i].as_str(), b[i].as_str()) {
                assert(self@.items[i as int] != other@.items[i as int]);
                return false;
            }
            i = i + 1;
        }
        assert(self@.items =~= other@.items);
        true
    }
}

impl vstd::std_specs::cmp::PartialEqSpecImpl for AsPathSet {
    open spec fn obeys_eq_spec() -> bool {
        true
    }

    open spec fn eq_spec(&self, other: &Self) -> bool {
        self@ == other@
    }
}

impl Clone for PrefixSet {
    fn clone(&self) -> (r: Self)
        ensures
            r@ == self@,
    {
        PrefixSet { name: self.name.clone(), prefixes: copy_items(&self.prefixes) }
    }
}

impl Clone for NeighborSet {
    fn clone(&self) -> (r: Self)
        ensures
            r@ == self@,
    {
        NeighborSet { name: self.name.clone(), neighbors: copy_items(&self.neighbors) }
    }
}

impl Clone for AsPathSet {
    fn clone(&self) -> (r: Self)
        ensures
            r@ == self@,
    {
        let v = &self.patterns;
        let ghost all = seqs::views(v@);
        let mut patterns: Vec<AsPathPattern> = Vec::new();
        let mut i: usize = 0;
        while i < v.len()
            invariant
                i <= v@.len(),
                all == seqs::views(v@),
                seqs::views(patterns@) == all.take(i as int),
            decreases v.len() - i,
        {
            let x = v[i].clone();
            proof {
                seqs::lemma_views_push(patterns@, x);
                seqs::lemma_take_next(all, i as int);
            }
            patterns.push(x);
            i = i + 1;
        }
        proof {
            seqs::lemma_take_all(all);
        }
        AsPathSet { name: self.name.clone(), patterns }
    }
}

impl Clone for CommunitySet {
    fn clone(&self) -> (r: Self)
        ensures
            r@ == self@,
    {
        CommunitySet { name: self.name.clone(), communities: copy_items(&self.communities) }
    }
}

impl Clone for ExtCommunitySet {
    fn clone(&self) -> (r: Self)
        ensures
            r@ == self@,
    {
        ExtCommunitySet {
            name: self.name.clone(),
            ext_communities: copy_items(&self.ext_communities),
        }
    }
}

impl Clone for LargeCommunitySet {
    fn clone(&self) -> (r: Self)
        ensures
            r@ == self@,
    {
        LargeCommunitySet {
            name: self.name.clone(),
            large_communities: copy_items(&self.large_communities),
        }
    }
}

impl Same for PrefixMatch {
    fn same_as(&self, other: &Self) -> (r: bool) {
        *self == *other
    }
}

impl Named for PrefixSet {
    open spec fn key(&self) -> Seq<char> {
        self.name@
    }

    fn name(&self) -> (r: &str) {
        self.name.as_str()
    }

    fn copy(&self) -> (r: Self) {
        self.clone()
    }
}

impl Named for NeighborSet {
    open spec fn key(&self) -> Seq<char> {
        self.name@
    }

    fn name(&self) -> (r: &str) {
        self.name.as_str()
    }

    fn copy(&self) -> (r: Self) {
        self.clone()
    }
}

impl Named for AsPathSet {
    open spec fn key(&self) -> Seq<char> {
        self.name@
    }

    fn name(&self) -> (r: &str) {
        self.name.as_str()
    }

    fn copy(&self) -> (r: Self) {
        self.clone()
    }
}

impl Named for CommunitySet {
    open spec fn key(&self) -> Seq<char> {
        self.name@
    }

    fn name(&self) -> (r: &str) {
        self.name.as_str()
    }

    fn copy(&self) -> (r: Self) {
        self.clone()
    }
}

impl Named for ExtCommunitySet {
    open spec fn key(&self) -> Seq<char> {
        self.name@
    }

    fn name(&self) -> (r: &str) {
        self.name.as_str()
    }

    fn copy(&self) -> (r: Self) {
        self.clone()
    }
}

impl Named for LargeCommunitySet {
    open spec fn key(&self) -> Seq<char> {
        self.name@
    }

    fn name(&self) -> (r: &str) {
        self.name.as_str()
    }

    fn copy(&self) -> (r: Self) {
        self.clone()
    }
}

// ---------------------------------------------------------------------------
// Sets from their configuration
// ---------------------------------------------------------------------------

/// The error of a set for one of its members.
pub open spec fn member_error(
    kind: Seq<char>,
    name: Seq<char>,
    what: Seq<char>,
    s: Seq<char>,
    why: Seq<char>,
) -> Seq<char> {
    kind + name + what + s + "': "@ + why
}

/// Reads a member of the neighbor set with the given name.
pub open spec fn neighbor_reader(name: Seq<char>) -> spec_fn(Seq<char>) -> Result<
    IpAddr,
    Seq<char>,
> {
    |s: Seq<char>|
        match addr_text::read_ip(s) {
            Some(x) => Ok(x),
            None => Err(
                member_error(
                    "neighbor-set '"@,
                    name,
                    "': invalid IP '"@,
                    s,
                    "invalid IP address syntax"@,
                ),
            ),
        }
}

/// Reads a member of the AS path set with the given name.
pub open spec fn pattern_reader(name: Seq<char>) -> spec_fn(Seq<char>) -> Result<
    Seq<char>,
    Seq<char>,
> {
    |s: Seq<char>|
        match pattern::pattern_error(s) {
            None => Ok(s),
            Some(e) => Err(
                member_error("as-path-set '"@, name, "': invalid regex '"@, s, e),
            ),
        }
}

/// Reads a member of the community set with the given name.
pub open spec fn community_reader(name: Seq<char>) -> spec_fn(Seq<char>) -> Result<
    u32,
    Seq<char>,
> {
    |s: Seq<char>|
        match read_community(s, "'"@) {
            Ok(v) => Ok(v),
            Err(e) => Err(
                member_error("community-set '"@, name, "': invalid community '"@, s, e),
            ),
        }
}

/// Reads a member of the extended community set with the given name.
pub open spec fn ext_community_reader(name: Seq<char>) -> spec_fn(Seq<char>) -> Result<
    u64,
    Seq<char>,
> {
    |s: Seq<char>|
        match ext_community::read_ext_community(s) {
            Some(v) => Ok(v),
            None => Err(
                member_error(
                    "ext-community-set '"@,
                    name,
                    "': invalid extended community '"@,
                    s,
                    "invalid format"@,
                ),
            ),
        }
}

/// Reads a member of the large community set with the given name.
pub open spec fn large_community_reader(name: Seq<char>) -> spec_fn(Seq<char>) -> Result<
    LargeCommunity,
    Seq<char>,
> {
    |s: Seq<char>|
        match community::read_large_community(s) {
            Some(v) => Ok(v),
            None => Err(
                member_error(
                    "large-community-set '"@,
                    name,
                    "': invalid large community '"@,
                    s,
                    "invalid format"@,
                ),
            ),
        }
}

/// Gives a list a name.
pub open spec fn name_list<T>(name: Seq<char>, r: Result<Seq<T>, Seq<char>>) -> Result<
    NamedList<T>,
    Seq<char>,
> {
    match r {
        Ok(items) => Ok(NamedList { name, items }),
        Err(e) => Err(e),
    }
}

pub open spec fn prefix_match_reader() -> spec_fn(PrefixMatchConfigView) -> Result<
    PrefixMatch,
    Seq<char>,
> {
    |c: PrefixMatchConfigView| read_prefix_match(c)
}

pub open spec fn prefix_set_reader() -> spec_fn(PrefixSetConfigView) -> Result<
    NamedList<PrefixMatch>,
    Seq<char>,
> {
    |c: PrefixSetConfigView|
        name_list(c.name, conf::read_all(c.prefixes, prefix_match_reader()))
}

pub open spec fn neighbor_set_reader() -> spec_fn(NamedTexts) -> Result<
    NamedList<IpAddr>,
    Seq<char>,
> {
    |c: NamedTexts| name_list(c.name, conf::read_all(c.items, neighbor_reader(c.name)))
}

pub open spec fn as_path_set_reader() -> spec_fn(NamedTexts) -> Result<
    NamedList<Seq<char>>,
    Seq<char>,
> {
    |c: NamedTexts| name_list(c.name, conf::read_all(c.items, pattern_reader(c.name)))
}

pub open spec fn community_set_reader() -> spec_fn(NamedTexts) -> Result<
    NamedList<u32>,
    Seq<char>,
> {
    |c: NamedTexts| name_list(c.name, conf::read_all(c.items, community_reader(c.name)))
}

pub open spec fn ext_community_set_reader() -> spec_fn(NamedTexts) -> Result<
    NamedList<u64>,
    Seq<char>,
> {
    |c: NamedTexts| name_list(c.name, conf::read_all(c.items, ext_community_reader(c.name)))
}

pub open spec fn large_community_set_reader() -> spec_fn(NamedTexts) -> Result<
    NamedList<LargeCommunity>,
    Seq<char>,
> {
    |c: NamedTexts| name_list(c.name, conf::read_all(c.items, large_community_reader(c.name)))
}

/// The sets of a list by their names; of two with one name the later counts.
pub open spec fn sets_by_name<T>(l: Seq<NamedList<T>>) -> Map<Seq<char>, NamedList<T>>
    decreases l.len(),
{
    if l.len() == 0 {
        Map::empty()
    } else {
        sets_by_name(l.drop_last()).insert(l.last().name, l.last())
    }
}

/// The sets of one kind, or the first error.
pub open spec fn read_sets<C, T>(
    configs: Seq<C>,
    f: spec_fn(C) -> Result<NamedList<T>, Seq<char>>,
) -> Result<Map<Seq<char>, NamedList<T>>, Seq<char>> {
    match conf::read_all(configs, f) {
        Ok(l) => Ok(sets_by_name(l)),
        Err(e) => Err(e),
    }
}

fn build_prefix_set(c: &PrefixSetConfig) -> (r: Result<PrefixSet, String>)
    ensures
        conf::result_view(r) == prefix_set_reader()(c@),
{
    let items = parse_all(
        &c.prefixes,
        PrefixMatch::new,
        Ghost(prefix_match_reader()),
    );
    match items {
        Ok(prefixes) => {
            assert(seqs::views(prefixes@) =~= prefixes@);
            Ok(PrefixSet { name: c.name.clone(), prefixes })
        },
        Err(e) => Err(e),
    }
}

fn parse_neighbor(name: &str, s: &str) -> (r: Result<IpAddr, String>)
    ensures
        conf::plain_result(r) == neighbor_reader(name@)(s@),
{
    match IpAddr::parse(s) {
        Some(x) => Ok(x),
        None => Err(
            cat6(
                "neighbor-set '",
                name,
                "': invalid IP '",
                s,
                "': ",
                "invalid IP address syntax",
            ),
        ),
    }
}

fn build_neighbor_set(c: &NeighborSetConfig) -> (r: Result<NeighborSet, String>)
    ensures
        conf::result_view(r) == neighbor_set_reader()(c@),
{
    let name = c.name.as_str();
    let read = |x: &String| -> (y: Result<IpAddr, String>)
            ensures
                conf::result_view(y) == neighbor_reader(name@)(x@),
            { parse_neighbor(name, x.as_str()) };
    let items = parse_all(
        &c.neighbors,
        read,
        Ghost(neighbor_reader(name@)),
    );
    match items {
        Ok(neighbors) => {
            assert(seqs::views(neighbors@) =~= neighbors@);
            Ok(NeighborSet { name: c.name.clone(), neighbors })
        },
        Err(e) => Err(e),
    }
}

fn parse_pattern(name: &str, s: &str) -> (r: Result<AsPathPattern, String>)
    ensures
        conf::result_view(r) == pattern_reader(name@)(s@),
{
    match AsPathPattern::new(s) {
        Ok(x) => Ok(x),
        Err(e) => Err(pattern_refusal(name, s, e.as_str())),
    }
}

/// Why the AS path set with a name cannot have a pattern, from why that is none.
pub fn pattern_refusal(name: &str, pattern: &str, why: &str) -> (r: String)
    ensures
        r@ == member_error("as-path-set '"@, name@, "': invalid regex '"@, pattern@, why@),
{
    cat6("as-path-set '", name, "': invalid regex '", pattern, "': ", why)
}

fn build_as_path_set(c: &AsPathSetConfig) -> (r: Result<AsPathSet, String>)
    ensures
        conf::result_view(r) == as_path_set_reader()(c@),
{
    let name = c.name.as_str();
    let read = |x: &String| -> (y: Result<AsPathPattern, String>)
            ensures
                conf::result_view(y) == pattern_reader(name@)(x@),
            { parse_pattern(name, x.as_str()) };
    let items = parse_all(
        &c.patterns,
        read,
        Ghost(pattern_reader(name@)),
    );
    match items {
        Ok(patterns) => Ok(AsPathSet { name: c.name.clone(), patterns }),
        Err(e) => Err(e),
    }
}

fn parse_member_community(name: &str, s: &str) -> (r: Result<u32, String>)
    ensures
        conf::plain_result(r) == community_reader(name@)(s@),
{
    match parse_community(s) {
        Ok(x) => Ok(x),
        Err(e) => Err(
            cat6("community-set '", name, "': invalid community '", s, "': ", e.as_str()),
        ),
    }
}

fn build_community_set(c: &CommunitySetConfig) -> (r: Result<CommunitySet, String>)
    ensures
        conf::result_view(r) == community_set_reader()(c@),
{
    let name = c.name.as_str();
    let read = |x: &String| -> (y: Result<u32, String>)
            ensures
                conf::result_view(y) == community_reader(name@)(x@),
            { parse_member_community(name, x.as_str()) };
    let items = parse_all(
        &c.communities,
        read,
        Ghost(community_reader(name@)),
    );
    match items {
        Ok(communities) => {
            assert(seqs::views(communities@) =~= communities@);
            Ok(CommunitySet { name: c.name.clone(), communities })
        },
        Err(e) => Err(e),
    }
}

fn parse_member_ext_community(name: &str, s: &str) -> (r: Result<u64, String>)
    ensures
        conf::plain_result(r) == ext_community_reader(name@)(s@),
{
    match parse_extended_community(s) {
        Some(x) => Ok(x),
        None => Err(
            cat6(
                "ext-community-set '",
                name,
                "': invalid extended community '",
                s,
                "': ",
                "invalid format",
            ),
        ),
    }
}

fn build_ext_community_set(c: &ExtCommunitySetConfig) -> (r: Result<ExtCommunitySet, String>)
    ensures
        conf::result_view(r) == ext_community_set_reader()(c@),
{
    let name = c.name.as_str();
    let read = |x: &String| -> (y: Result<u64, String>)
            ensures
                conf::result_view(y) == ext_community_reader(name@)(x@),
            { parse_member_ext_community(name, x.as_str()) };
    let items = parse_all(
        &c.ext_communities,
        read,
        Ghost(ext_community_reader(name@)),
    );
    match items {
        Ok(ext_communities) => {
            assert(seqs::views(ext_communities@) =~= ext_communities@);
            Ok(ExtCommunitySet { name: c.name.clone(), ext_communities })
        },
        Err(e) => Err(e),
    }
}

fn parse_member_large_community(name: &str, s: &str) -> (r: Result<LargeCommunity, String>)
    ensures
        conf::plain_result(r) == large_community_reader(name@)(s@),
{
    match parse_large_community(s) {
        Some(x) => Ok(x),
        None => Err(
            cat6(
                "large-community-set '",
                name,
                "': invalid large community '",
                s,
                "': ",
                "invalid format",
            ),
        ),
    }
}

fn build_large_community_set(c: &LargeCommunitySetConfig) -> (r: Result<LargeCommunitySet, String>)
    ensures
        conf::result_view(r) == large_community_set_reader()(c@),
{
    let name = c.name.as_str();
    let read = |x: &String| -> (y: Result<LargeCommunity, String>)
            ensures
                conf::result_view(y) == large_community_reader(name@)(x@),
            { parse_member_large_community(name, x.as_str()) };
    let items = parse_all(
        &c.large_communities,
        read,
        Ghost(large_community_reader(name@)),
    );
    match items {
        Ok(large_communities) => {
            assert(seqs::views(large_communities@) =~= large_communities@);
            Ok(LargeCommunitySet { name: c.name.clone(), large_communities })
        },
        Err(e) => Err(e),
    }
}

proof fn lemma_by_name<T, S: Named<V = NamedList<T>>>(v: Seq<S>)
    requires
        forall|i: int| 0 <= i < v.len() ==> (#[trigger] v[i]).key() == v[i]@.name,
    ensures
        table::by_name(v) == sets_by_name(seqs::views(v)),
    decreases v.len(),
{
    if v.len() > 0 {
        lemma_by_name(v.drop_last());
        assert(seqs::views(v).drop_last() =~= seqs::views(v.drop_last()));
        assert(v.last().key() == v[v.len() - 1]@.name);
    }
}

/// A table of the values of a list.
fn tabulate<T: Named>(items: Vec<T>) -> (r: Table<T>)
    ensures
        r@ == table::by_name(items@),
{
    let ghost all = items@;
    let mut r: Table<T> = Table::new();
    for x in it: items
        invariant
            it.seq() == all,
            r@ == table::by_name(all.take(it.index() as int)),
    {
        proof {
            let i = it.index() as int;
            assert(all.take(i + 1).drop_last() =~= all.take(i));
            assert(all.take(i + 1).last() == all[i]);
        }
        r.insert(x);
    }
    proof {
        seqs::lemma_take_all(all);
    }
    r
}

/// All defined sets by kind and name.
#[derive(Debug)]
pub struct DefinedSets {
    pub prefix_sets: Table<PrefixSet>,
    pub neighbor_sets: Table<NeighborSet>,
    pub as_path_sets: Table<AsPathSet>,
    pub community_sets: Table<CommunitySet>,
    pub ext_community_sets: Table<ExtCommunitySet>,
    pub large_community_sets: Table<LargeCommunitySet>,
}

pub struct DefinedSetsView {
    pub prefix_sets: Map<Seq<char>, NamedList<PrefixMatch>>,
    pub neighbor_sets: Map<Seq<char>, NamedList<IpAddr>>,
    pub as_path_sets: Map<Seq<char>, NamedList<Seq<char>>>,
    pub community_sets: Map<Seq<char>, NamedList<u32>>,
    pub ext_community_sets: Map<Seq<char>, NamedList<u64>>,
    pub large_community_sets: Map<Seq<char>, NamedList<LargeCommunity>>,
}

impl View for DefinedSets {
    type V = DefinedSetsView;

    open spec fn view(&self) -> DefinedSetsView {
        DefinedSetsView {
            prefix_sets: self.prefix_sets@,
            neighbor_sets: self.neighbor_sets@,
            as_path_sets: self.as_path_sets@,
            community_sets: self.community_sets@,
            ext_community_sets: self.ext_community_sets@,
            large_community_sets: self.large_community_sets@,
        }
    }
}

impl Clone for DefinedSets {
    fn clone(&self) -> (r: Self)
        ensures
            r@ == self@,
    {
        DefinedSets {
            prefix_sets: self.prefix_sets.clone(),
            neighbor_sets: self.neighbor_sets.clone(),
            as_path_sets: self.as_path_sets.clone(),
            community_sets: self.community_sets.clone(),
            ext_community_sets: self.ext_community_sets.clone(),
            large_community_sets: self.large_community_sets.clone(),
        }
    }
}

impl DefinedSetsView {
    /// No sets.
    pub open spec fn empty() -> DefinedSetsView {
        DefinedSetsView {
            prefix_sets: Map::empty(),
            neighbor_sets: Map::empty(),
            as_path_sets: Map::empty(),
            community_sets: Map::empty(),
            ext_community_sets: Map::empty(),
            large_community_sets: Map::empty(),
        }
    }

    /// There is a set of the given kind and name.
    pub open spec fn has(self, t: DefinedSetType, name: Seq<char>) -> bool {
        match t {
            DefinedSetType::PrefixSet => self.prefix_sets.contains_key(name),
            DefinedSetType::AsPathSet => self.as_path_sets.contains_key(name),
            DefinedSetType::CommunitySet => self.community_sets.contains_key(name),
            DefinedSetType::ExtCommunitySet => self.ext_community_sets.contains_key(name),
            DefinedSetType::LargeCommunitySet => self.large_community_sets.contains_key(name),
            DefinedSetType::NeighborSet => self.neighbor_sets.contains_key(name),
        }
    }

    /// All sets but the one of the given kind and name.
    pub open spec fn without(self, t: DefinedSetType, name: Seq<char>) -> DefinedSetsView {
        match t {
            DefinedSetType::PrefixSet => DefinedSetsView {
                prefix_sets: self.prefix_sets.remove(name),
                ..self
            },
            DefinedSetType::AsPathSet => DefinedSetsView {
                as_path_sets: self.as_path_sets.remove(name),
                ..self
            },
            DefinedSetType::CommunitySet => DefinedSetsView {
                community_sets: self.community_sets.remove(name),
                ..self
            },
            DefinedSetType::ExtCommunitySet => DefinedSetsView {
                ext_community_sets: self.ext_community_sets.remove(name),
                ..self
            },
            DefinedSetType::LargeCommunitySet => DefinedSetsView {
                large_community_sets: self.large_community_sets.remove(name),
                ..self
            },
            DefinedSetType::NeighborSet => DefinedSetsView {
                neighbor_sets: self.neighbor_sets.remove(name),
                ..self
            },
        }
    }

    /// All sets but those of the given kind.
    pub open spec fn without_all(self, t: DefinedSetType) -> DefinedSetsView {
        match t {
            DefinedSetType::PrefixSet => DefinedSetsView { prefix_sets: Map::empty(), ..self },
            DefinedSetType::AsPathSet => DefinedSetsView { as_path_sets: Map::empty(), ..self },
            DefinedSetType::CommunitySet => DefinedSetsView {
                community_sets: Map::empty(),
                ..self
            },
            DefinedSetType::ExtCommunitySet => DefinedSetsView {
                ext_community_sets: Map::empty(),
                ..self
            },
            DefinedSetType::LargeCommunitySet => DefinedSetsView {
                large_community_sets: Map::empty(),
                ..self
            },
            DefinedSetType::NeighborSet => DefinedSetsView { neighbor_sets: Map::empty(), ..self },
        }
    }
}

/// The defined sets of a configuration. The kinds are read one after the other
/// and the first error counts.
pub open spec fn read_defined_sets(c: DefinedSetsConfigView) -> Result<
    DefinedSetsView,
    Seq<char>,
> {
    match read_sets(c.prefix_sets, prefix_set_reader()) {
        Err(e) => Err(e),
        Ok(prefix_sets) => match read_sets(c.neighbor_sets, neighbor_set_reader()) {
            Err(e) => Err(e),
            Ok(neighbor_sets) => match read_sets(c.as_path_sets, as_path_set_reader()) {
                Err(e) => Err(e),
                Ok(as_path_sets) => match read_sets(c.community_sets, community_set_reader()) {
                    Err(e) => Err(e),
                    Ok(community_sets) => match read_sets(
                        c.ext_community_sets,
                        ext_community_set_reader(),
                    ) {
                        Err(e) => Err(e),
                        Ok(ext_community_sets) => match read_sets(
                            c.large_community_sets,
                            large_community_set_reader(),
                        ) {
                            Err(e) => Err(e),
                            Ok(large_community_sets) => Ok(
                                DefinedSetsView {
                                    prefix_sets,
                                    neighbor_sets,
                                    as_path_sets,
                                    community_sets,
                                    ext_community_sets,
                                    large_community_sets,
                                },
                            ),
                        },
                    },
                },
            },
        },
    }
}

impl Default for DefinedSets {
    fn default() -> (r: Self)
        ensures
            r@ == DefinedSetsView::empty(),
    {
        DefinedSets {
            prefix_sets: Table::new(),
            neighbor_sets: Table::new(),
            as_path_sets: Table::new(),
            community_sets: Table::new(),
            ext_community_sets: Table::new(),
            large_community_sets: Table::new(),
        }
    }
}

impl DefinedSets {
    /// Reads and checks all sets of a configuration.
    pub fn new(config: &DefinedSetsConfig) -> (r: Result<Self, String>)
        ensures
            conf::result_view(r) == read_defined_sets(config@),
    {
        let prefix_sets = match parse_all(
            &config.prefix_sets,
            build_prefix_set,
            Ghost(prefix_set_reader()),
        ) {
            Ok(v) => v,
            Err(e) => {
                return Err(e);
            },
        };
        let neighbor_sets = match parse_all(
            &config.neighbor_sets,
            build_neighbor_set,
            Ghost(neighbor_set_reader()),
        ) {
            Ok(v) => v,
            Err(e) => {
                return Err(e);
            },
        };
        let as_path_sets = match parse_all(
            &config.as_path_sets,
            build_as_path_set,
            Ghost(as_path_set_reader()),
        ) {
            Ok(v) => v,
            Err(e) => {
                return Err(e);
            },
        };
        let community_sets = match parse_all(
            &config.community_sets,
            build_community_set,
            Ghost(community_set_reader()),
        ) {
            Ok(v) => v,
            Err(e) => {
                return Err(e);
            },
        };
        let ext_community_sets = match parse_all(
            &config.ext_community_sets,
            build_ext_community_set,
            Ghost(ext_community_set_reader()),
        ) {
            Ok(v) => v,
            Err(e) => {
                return Err(e);
            },
        };
        let large_community_sets = match parse_all(
            &config.large_community_sets,
            build_large_community_set,
            Ghost(large_community_set_reader()),
        ) {
            Ok(v) => v,
            Err(e) => {
                return Err(e);
            },
        };
        proof {
            lemma_by_name(prefix_sets@);
            lemma_by_name(neighbor_sets@);
            lemma_by_name(as_path_sets@);
            lemma_by_name(community_sets@);
            lemma_by_name(ext_community_sets@);
            lemma_by_name(large_community_sets@);
        }
        Ok(
            DefinedSets {
                prefix_sets: tabulate(prefix_sets),
                neighbor_sets: tabulate(neighbor_sets),
                as_path_sets: tabulate(as_path_sets),
                community_sets: tabulate(community_sets),
                ext_community_sets: tabulate(ext_community_sets),
                large_community_sets: tabulate(large_community_sets),
            },
        )
    }

    /// Whether there is a set of the given kind and name.
    pub fn contains(&self, set_type: DefinedSetType, name: &str) -> (r: bool)
        ensures
            r == self@.has(set_type, name@),
    {
        match set_type {
            DefinedSetType::PrefixSet => self.prefix_sets.contains_key(name),
            DefinedSetType::AsPathSet => self.as_path_sets.contains_key(name),
            DefinedSetType::CommunitySet => self.community_sets.contains_key(name),
            DefinedSetType::ExtCommunitySet => self.ext_community_sets.contains_key(name),
            DefinedSetType::LargeCommunitySet => self.large_community_sets.contains_key(name),
            DefinedSetType::NeighborSet => self.neighbor_sets.contains_key(name),
        }
    }

    /// Takes out the set of the given kind and name; says whether there was one.
    pub fn remove(&mut self, set_type: DefinedSetType, name: &str) -> (r: bool)
        ensures
            final(self)@ == old(self)@.without(set_type, name@),
            r == old(self)@.has(set_type, name@),
    {
        match set_type {
            DefinedSetType::PrefixSet => self.prefix_sets.remove(name),
            DefinedSetType::AsPathSet => self.as_path_sets.remove(name),
            DefinedSetType::CommunitySet => self.community_sets.remove(name),
            DefinedSetType::ExtCommunitySet => self.ext_community_sets.remove(name),
            DefinedSetType::LargeCommunitySet => self.large_community_sets.remove(name),
            DefinedSetType::NeighborSet => self.neighbor_sets.remove(name),
        }
    }

    /// Takes out all sets of the given kind.
    pub fn clear(&mut self, set_type: DefinedSetType)
        ensures
            final(self)@ == old(self)@.without_all(set_type),
    {
        match set_type {
            DefinedSetType::PrefixSet => self.prefix_sets.clear(),
            DefinedSetType::AsPathSet => self.as_path_sets.clear(),
            DefinedSetType::CommunitySet => self.community_sets.clear(),
            DefinedSetType::ExtCommunitySet => self.ext_community_sets.clear(),
            DefinedSetType::LargeCommunitySet => self.large_community_sets.clear(),
            DefinedSetType::NeighborSet => self.neighbor_sets.clear(),
        }
    }
}

/// A set that was taken out is gone, the others are as before, and taking it
/// out again changes nothing.
pub proof fn law_removed_sets_are_gone(
    sets: DefinedSetsView,
    t: DefinedSetType,
    name: Seq<char>,
    u: DefinedSetType,
    other: Seq<char>,
)
    ensures
        !sets.without(t, name).has(t, name),
        (u != t || other != name) ==> sets.without(t, name).has(u, other) == sets.has(u, other),
        sets.without(t, name).without(t, name) == sets.without(t, name),
        !sets.without_all(t).has(t, other),
        u != t ==> sets.without_all(t).has(u, other) == sets.has(u, other),
{
    let once = sets.without(t, name);
    let twice = once.without(t, name);
    assert(twice.prefix_sets =~= once.prefix_sets);
    assert(twice.neighbor_sets =~= once.neighbor_sets);
    assert(twice.as_path_sets =~= once.as_path_sets);
    assert(twice.community_sets =~= once.community_sets);
    assert(twice.ext_community_sets =~= once.ext_community_sets);
    assert(twice.large_community_sets =~= once.large_community_sets);
}

} // verus!
