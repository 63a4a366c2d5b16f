//! Which sets there are after reading a configuration and after taking sets out.

use crate::bgp::community;
use crate::bgp::community::LargeCommunity;
use crate::bgp::ext_community;
use crate::conf;
use crate::conf::{
    DefinedSetsConfigView, NamedTexts, PrefixMatchConfigView, PrefixSetConfigView,
};
use crate::net::addr::IpAddr;
use crate::net::addr_text;
use crate::policy::pattern;
use crate::policy::reading_laws;
use crate::policy::sets;
use crate::policy::sets::{DefinedSetType, DefinedSetsView, NamedList, PrefixMatch};
use vstd::prelude::*;

verus! {

/// Each kind of set has names of its own: a name of one kind says nothing of another.
pub proof fn law_kinds_of_sets(s: DefinedSetsView, name: Seq<char>)
    ensures
        s.has(DefinedSetType::PrefixSet, name) <==> s.prefix_sets.dom().contains(name),
        s.has(DefinedSetType::NeighborSet, name) <==> s.neighbor_sets.dom().contains(name),
        s.has(DefinedSetType::AsPathSet, name) <==> s.as_path_sets.dom().contains(name),
        s.has(DefinedSetType::CommunitySet, name) <==> s.community_sets.dom().contains(name),
        s.has(DefinedSetType::ExtCommunitySet, name) <==> s.ext_community_sets.dom().contains(
            name,
        ),
        s.has(DefinedSetType::LargeCommunitySet, name) <==> s.large_community_sets.dom().contains(
            name,
        ),
{
}

/// `after` has the entries of `before` without the one under `name`, where the name is
/// to go, and all of them elsewhere.
pub open spec fn only_loses<T>(
    before: Map<Seq<char>, NamedList<T>>,
    after: Map<Seq<char>, NamedList<T>>,
    goes: bool,
    name: Seq<char>,
) -> bool {
    &&& forall|n: Seq<char>| #[trigger]
        after.contains_key(n) <==> before.contains_key(n) && !(goes && n == name)
    &&& forall|n: Seq<char>| #[trigger] after.contains_key(n) ==> after[n] == before[n]
}

/// Taking a set out takes out that set of that kind and changes no other set.
pub proof fn law_one_set_is_removed(s: DefinedSetsView, t: DefinedSetType, name: Seq<char>)
    ensures
        ({
            let r = s.without(t, name);
            &&& only_loses(s.prefix_sets, r.prefix_sets, t is PrefixSet, name)
            &&& only_loses(s.neighbor_sets, r.neighbor_sets, t is NeighborSet, name)
            &&& only_loses(s.as_path_sets, r.as_path_sets, t is AsPathSet, name)
            &&& only_loses(s.community_sets, r.community_sets, t is CommunitySet, name)
            &&& only_loses(s.ext_community_sets, r.ext_community_sets, t is ExtCommunitySet, name)
            &&& only_loses(
                s.large_community_sets,
                r.large_community_sets,
                t is LargeCommunitySet,
                name,
            )
        }),
{
}

/// Taking out all sets of a kind leaves none of that kind and changes no other kind.
pub proof fn law_one_kind_is_cleared(s: DefinedSetsView, t: DefinedSetType, name: Seq<char>)
    ensures
        ({
            let r = s.without_all(t);
            &&& if t is PrefixSet {
                !r.prefix_sets.contains_key(name)
            } else {
                r.prefix_sets == s.prefix_sets
            }
            &&& if t is NeighborSet {
                !r.neighbor_sets.contains_key(name)
            } else {
                r.neighbor_sets == s.neighbor_sets
            }
            &&& if t is AsPathSet {
                !r.as_path_sets.contains_key(name)
            } else {
                r.as_path_sets == s.as_path_sets
            }
            &&& if t is CommunitySet {
                !r.community_sets.contains_key(name)
            } else {
                r.community_sets == s.community_sets
            }
            &&& if t is ExtCommunitySet {
                !r.ext_community_sets.contains_key(name)
            } else {
                r.ext_community_sets == s.ext_community_sets
            }
            &&& if t is LargeCommunitySet {
                !r.large_community_sets.contains_key(name)
            } else {
                r.large_community_sets == s.large_community_sets
            }
        }),
{
}

// ---------------------------------------------------------------------------
// Reading
// ---------------------------------------------------------------------------

proof fn lemma_last_of_a_name<T>(l: Seq<NamedList<T>>, i: int)
    requires
        0 <= i < l.len(),
        forall|j: int| i < j < l.len() ==> (#[trigger] l[j]).name != l[i].name,
    ensures
        sets::sets_by_name(l).contains_key(l[i].name),
        sets::sets_by_name(l)[l[i].name] == l[i],
    decreases l.len(),
{
    if i < l.len() - 1 {
        let d = l.drop_last();
        assert forall|j: int| i < j < d.len() implies (#[trigger] d[j]).name != d[i].name by {
            assert(l[j].name != l[i].name);
        }
        lemma_last_of_a_name(d, i);
        assert(l[l.len() - 1].name != l[i].name);
    }
}

proof fn lemma_names_are_given<T>(l: Seq<NamedList<T>>, name: Seq<char>)
    requires
        sets::sets_by_name(l).contains_key(name),
    ensures
        exists|i: int| 0 <= i < l.len() && (#[trigger] l[i]).name == name,
    decreases l.len(),
{
    if l.len() > 0 {
        if l.last().name == name {
            assert(l[l.len() - 1].name == name);
        } else {
            lemma_names_are_given(l.drop_last(), name);
            let i = choose|i: int|
                0 <= i < l.drop_last().len() && (#[trigger] l.drop_last()[i]).name == name;
            assert(l[i].name == name);
        }
    }
}

/// The sets of a list are there under their names, the last one where a name comes
/// twice, each with its items in their order as `read` gives them; and there are no
/// others.
pub open spec fn sets_hold<A, T>(
    lists: Seq<NamedList<A>>,
    m: Map<Seq<char>, NamedList<T>>,
    read: spec_fn(A) -> Option<T>,
) -> bool {
    &&& forall|i: int|
        0 <= i < lists.len() && is_last_of_its_name(lists, i) ==> {
            &&& m.contains_key((#[trigger] lists[i]).name)
            &&& is_read_as(lists[i], m[lists[i].name], read)
        }
    &&& forall|n: Seq<char>| #[trigger]
        m.contains_key(n) ==> exists|i: int|
            0 <= i < lists.len() && (#[trigger] lists[i]).name == n
}

/// No later list has the name of the one at `i`.
pub open spec fn is_last_of_its_name<A>(lists: Seq<NamedList<A>>, i: int) -> bool {
    forall|j: int| i < j < lists.len() ==> (#[trigger] lists[j]).name != lists[i].name
}

/// `to` has the name of `from` and its items, each as `read` gives it.
pub open spec fn is_read_as<A, T>(
    from: NamedList<A>,
    to: NamedList<T>,
    read: spec_fn(A) -> Option<T>,
) -> bool {
    &&& to.name == from.name
    &&& to.items.len() == from.items.len()
    &&& forall|k: int|
        0 <= k < from.items.len() ==> read(#[trigger] from.items[k]) == Some(to.items[k])
}

/// Every item of every list can be read.
pub open spec fn all_readable<A, T>(
    lists: Seq<NamedList<A>>,
    read: spec_fn(A) -> Option<T>,
) -> bool {
    forall|i: int, k: int|
        0 <= i < lists.len() && 0 <= k < lists[i].items.len() ==> read(
            #[trigger] lists[i].items[k],
        ) is Some
}

proof fn lemma_sets_hold<A, T>(
    lists: Seq<NamedList<A>>,
    l: Seq<NamedList<T>>,
    read: spec_fn(A) -> Option<T>,
)
    requires
        l.len() == lists.len(),
        forall|i: int| 0 <= i < lists.len() ==> is_read_as(#[trigger] lists[i], l[i], read),
    ensures
        sets_hold(lists, sets::sets_by_name(l), read),
{
    let m = sets::sets_by_name(l);
    assert forall|i: int| 0 <= i < lists.len() && is_last_of_its_name(lists, i) implies {
        &&& m.contains_key((#[trigger] lists[i]).name)
        &&& is_read_as(lists[i], m[lists[i].name], read)
    } by {
        assert forall|j: int| i < j < l.len() implies (#[trigger] l[j]).name != l[i].name by {
            assert(is_read_as(lists[j], l[j], read));
            assert(is_read_as(lists[i], l[i], read));
        }
        lemma_last_of_a_name(l, i);
    }
    assert forall|n: Seq<char>| #[trigger] m.contains_key(n) implies exists|i: int|
        0 <= i < lists.len() && (#[trigger] lists[i]).name == n by {
        lemma_names_are_given(l, n);
        let i = choose|i: int| 0 <= i < l.len() && (#[trigger] l[i]).name == n;
        assert(is_read_as(lists[i], l[i], read));
    }
}

proof fn lemma_kind_is_read<C, A, T>(
    configs: Seq<C>,
    lists: Seq<NamedList<A>>,
    f: spec_fn(C) -> Result<NamedList<T>, Seq<char>>,
    item: spec_fn(Seq<char>) -> (spec_fn(A) -> Result<T, Seq<char>>),
    read: spec_fn(A) -> Option<T>,
)
    requires
        configs.len() == lists.len(),
        forall|i: int|
            0 <= i < configs.len() ==> f(#[trigger] configs[i]) == sets::name_list(
                lists[i].name,
                conf::read_all(lists[i].items, item(lists[i].name)),
            ),
        forall|n: Seq<char>, a: A|
            match #[trigger] item(n)(a) {
                Ok(x) => read(a) == Some(x),
                Err(_) => read(a) is None,
            },
    ensures
        match sets::read_sets(configs, f) {
            Ok(m) => all_readable(lists, read) && sets_hold(lists, m, read),
            Err(_) => !all_readable(lists, read),
        },
{
    reading_laws::law_lists_are_read(configs, f);
    match conf::read_all(configs, f) {
        Ok(l) => {
            assert forall|i: int| 0 <= i < lists.len() implies is_read_as(
                #[trigger] lists[i],
                l[i],
                read,
            ) by {
                let g = item(lists[i].name);
                reading_laws::law_lists_are_read(lists[i].items, g);
                assert(f(configs[i]) == Ok::<NamedList<T>, Seq<char>>(l[i]));
                assert forall|k: int| 0 <= k < lists[i].items.len() implies read(
                    #[trigger] lists[i].items[k],
                ) == Some(l[i].items[k]) by {
                    assert(item(lists[i].name)(lists[i].items[k]) is Ok);
                }
            }
            lemma_sets_hold(lists, l, read);
            assert forall|i: int, k: int|
                0 <= i < lists.len() && 0 <= k < lists[i].items.len() implies read(
                #[trigger] lists[i].items[k],
            ) is Some by {
                assert(is_read_as(lists[i], l[i], read));
            }
        },
        Err(e) => {
            let i = choose|i: int|
                0 <= i < configs.len() && f(#[trigger] configs[i]) == Err::<
                    NamedList<T>,
                    Seq<char>,
                >(e);
            let g = item(lists[i].name);
            reading_laws::law_lists_are_read(lists[i].items, g);
            let k = choose|k: int|
                0 <= k < lists[i].items.len() && g(#[trigger] lists[i].items[k]) == Err::<
                    T,
                    Seq<char>,
                >(e);
            assert(item(lists[i].name)(lists[i].items[k]) is Err);
            assert(read(lists[i].items[k]) is None);
        },
    }
}

/// The lists of texts of a configuration.
pub open spec fn text_lists(l: Seq<NamedTexts>) -> Seq<NamedList<Seq<char>>> {
    Seq::new(l.len(), |i: int| NamedList { name: l[i].name, items: l[i].items })
}

/// The lists of prefixes of a configuration.
pub open spec fn prefix_lists(
    l: Seq<PrefixSetConfigView>,
) -> Seq<NamedList<PrefixMatchConfigView>> {
    Seq::new(l.len(), |i: int| NamedList { name: l[i].name, items: l[i].prefixes })
}

/// The prefix that a member of a prefix set stands for.
pub open spec fn prefix_of() -> spec_fn(PrefixMatchConfigView) -> Option<PrefixMatch> {
    |c: PrefixMatchConfigView|
        match sets::read_prefix_match(c) {
            Ok(m) => Some(m),
            Err(_) => None,
        }
}

/// The address that a text stands for.
pub open spec fn address_of() -> spec_fn(Seq<char>) -> Option<IpAddr> {
    |s: Seq<char>| addr_text::read_ip(s)
}

/// A text that is a pattern stands for itself.
pub open spec fn pattern_of() -> spec_fn(Seq<char>) -> Option<Seq<char>> {
    |s: Seq<char>|
        match pattern::pattern_error(s) {
            None => Some(s),
            Some(_) => None,
        }
}

/// The community that a text stands for.
pub open spec fn community_of() -> spec_fn(Seq<char>) -> Option<u32> {
    |s: Seq<char>|
        match sets::read_community(s, "'"@) {
            Ok(c) => Some(c),
            Err(_) => None,
        }
}

/// The extended community that a text stands for.
pub open spec fn ext_community_of() -> spec_fn(Seq<char>) -> Option<u64> {
    |s: Seq<char>| ext_community::read_ext_community(s)
}

/// The large community that a text stands for.
pub open spec fn large_community_of() -> spec_fn(Seq<char>) -> Option<LargeCommunity> {
    |s: Seq<char>| community::read_large_community(s)
}

/// The sets of a configuration can be read exactly if every member of every set can.
/// They are then there by kind and name, with all their members.
pub proof fn law_configured_sets(c: DefinedSetsConfigView)
    ensures
        match sets::read_defined_sets(c) {
            Ok(s) => {
                &&& sets_hold(prefix_lists(c.prefix_sets), s.prefix_sets, prefix_of())
                &&& sets_hold(text_lists(c.neighbor_sets), s.neighbor_sets, address_of())
                &&& sets_hold(text_lists(c.as_path_sets), s.as_path_sets, pattern_of())
                &&& sets_hold(text_lists(c.community_sets), s.community_sets, community_of())
                &&& sets_hold(
                    text_lists(c.ext_community_sets),
                    s.ext_community_sets,
                    ext_community_of(),
                )
                &&& sets_hold(
                    text_lists(c.large_community_sets),
                    s.large_community_sets,
                    large_community_of(),
                )
            },
            Err(_) => true,
        },
        sets::read_defined_sets(c) is Ok <==> {
            &&& all_readable(prefix_lists(c.prefix_sets), prefix_of())
            &&& all_readable(text_lists(c.neighbor_sets), address_of())
            &&& all_readable(text_lists(c.as_path_sets), pattern_of())
            &&& all_readable(text_lists(c.community_sets), community_of())
            &&& all_readable(text_lists(c.ext_community_sets), ext_community_of())
            &&& all_readable(text_lists(c.large_community_sets), large_community_of())
        },
{
    lemma_kind_is_read(
        c.prefix_sets,
        prefix_lists(c.prefix_sets),
        sets::prefix_set_reader(),
        |n: Seq<char>| sets::prefix_match_reader(),
        prefix_of(),
    );
    lemma_kind_is_read(
        c.neighbor_sets,
        text_lists(c.neighbor_sets),
        sets::neighbor_set_reader(),
        |n: Seq<char>| sets::neighbor_reader(n),
        address_of(),
    );
    lemma_kind_is_read(
        c.as_path_sets,
        text_lists(c.as_path_sets),
        sets::as_path_set_reader(),
        |n: Seq<char>| sets::pattern_reader(n),
        pattern_of(),
    );
    lemma_kind_is_read(
        c.community_sets,
        text_lists(c.community_sets),
        sets::community_set_reader(),
        |n: Seq<char>| sets::community_reader(n),
        community_of(),
    );
    lemma_kind_is_read(
        c.ext_community_sets,
        text_lists(c.ext_community_sets),
        sets::ext_community_set_reader(),
        |n: Seq<char>| sets::ext_community_reader(n),
        ext_community_of(),
    );
    lemma_kind_is_read(
        c.large_community_sets,
        text_lists(c.large_community_sets),
        sets::large_community_set_reader(),
        |n: Seq<char>| sets::large_community_reader(n),
        large_community_of(),
    );
}

} // verus!
