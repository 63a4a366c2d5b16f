//! What is said when a session is opened, and what both sides agree on.

use crate::bgp::msg_open;
use crate::bgp::msg_open::{
    AddPathCapability, AddPathMode, BgpCapabiltyCode, Capability, CapabilityView,
    GracefulRestartView, LlgrEntry,
};
use crate::bgp::multiprotocol;
use crate::bgp::multiprotocol::{Afi, AfiSafi, AfiSafiSet, Safi};
use crate::bgp::open_message;
use crate::bgp::open_message::{OpenMessage, OpenView, OptionalParam, OptionalParamView};
use crate::conf;
use crate::net::addr::Ipv4Addr;
use crate::peer::capabilities;
use crate::peer::capabilities::{CapabilitiesView, PeerCapabilities};
use crate::peer_config;
use crate::peer_config::{AddPathSend, LlgrConfig, LlgrConfigView, PeerConfig, PeerConfigView};
use crate::seqs;
use vstd::prelude::*;

verus! {

// ---------------------------------------------------------------------------
// What is offered
// ---------------------------------------------------------------------------

/// The entries that a long-lived configuration asks for.
pub open spec fn llgr_entries_of(c: LlgrConfigView) -> Seq<LlgrEntry> {
    let families = match c.afi_safis {
        Some(l) => l,
        None => Seq::empty(),
    };
    Seq::new(
        families.len(),
        |i: int|
            LlgrEntry {
                afi_safi: families[i],
                forwarding_preserved: false,
                stale_time: match c.stale_time {
                    Some(t) => t,
                    None => 0,
                },
            },
    )
}

/// The entries that a long-lived configuration asks for.
pub fn llgr_to_entries(config: &LlgrConfig) -> (r: Vec<LlgrEntry>)
    ensures
        r@ == llgr_entries_of(config@),
{
    let stale_time: u32 = match config.stale_time {
        Some(t) => t,
        None => 0,
    };
    let mut r: Vec<LlgrEntry> = Vec::new();
    if let Some(families) = &config.afi_safis {
        let mut i: usize = 0;
        while i < families.len()
            invariant
                i <= families@.len(),
                config@.afi_safis == Some(families@),
                stale_time == (match config@.stale_time {
                    Some(t) => t,
                    None => 0,
                }),
                r@ == llgr_entries_of(config@).take(i as int),
            decreases families.len() - i,
        {
            r.push(
                LlgrEntry { afi_safi: families[i], forwarding_preserved: false, stale_time },
            );
            proof {
                seqs::lemma_take_next(llgr_entries_of(config@), i as int);
            }
            i = i + 1;
        }
    }
    proof {
        seqs::lemma_take_all(llgr_entries_of(config@));
    }
    r
}

/// The families that are offered: those that are configured, else IPv4 unicast.
pub open spec fn offered_families(c: PeerConfigView) -> Seq<AfiSafi> {
    if c.afi_safis.len() == 0 {
        seq![multiprotocol::ipv4_unicast()]
    } else {
        peer_config::families_of(c.afi_safis)
    }
}

/// The families that are offered.
pub fn advertised_afi_safis(config: &PeerConfig) -> (r: Vec<AfiSafi>)
    ensures
        r@ == offered_families(config@),
{
    let configured = config.afi_safi_list();
    if configured.len() == 0 {
        let r: Vec<AfiSafi> = vec![AfiSafi::new(Afi::Ipv4, Safi::Unicast)];
        assert(r@ =~= seq![multiprotocol::ipv4_unicast()]);
        r
    } else {
        configured
    }
}

/// A capability for each family.
pub open spec fn family_capabilities(l: Seq<AfiSafi>) -> Seq<CapabilityView> {
    Seq::new(
        l.len(),
        |i: int|
            CapabilityView {
                code: BgpCapabiltyCode::Multiprotocol,
                val: msg_open::multiprotocol_octets(l[i]),
            },
    )
}

/// Families paired with a value.
pub open spec fn paired<T>(l: Seq<AfiSafi>, x: T) -> Seq<(AfiSafi, T)> {
    Seq::new(l.len(), |i: int| (l[i], x))
}

/// The direction in which several paths are offered.
pub open spec fn offered_add_path(c: PeerConfigView) -> Option<AddPathMode> {
    match (c.add_path_send, c.add_path_receive) {
        (AddPathSend::All, true) => Some(AddPathMode::Both),
        (AddPathSend::All, false) => Some(AddPathMode::Send),
        (AddPathSend::Disabled, true) => Some(AddPathMode::Receive),
        (AddPathSend::Disabled, false) => None,
    }
}

/// The entries that are offered for stale routes.
pub open spec fn offered_llgr(llgr: Option<LlgrConfigView>) -> Seq<LlgrEntry> {
    match llgr {
        Some(c) => llgr_entries_of(c),
        None => Seq::empty(),
    }
}

/// The capabilities that are offered, in their order: families, route refresh
/// in both forms, graceful restart where it is enabled, the AS number, stale
/// routes and several paths where they are wanted.
pub open spec fn offered_capabilities(
    asn: u32,
    c: PeerConfigView,
    llgr: Option<LlgrConfigView>,
) -> Seq<CapabilityView> {
    let families = offered_families(c);
    let entries = offered_llgr(llgr);
    let none = Seq::<CapabilityView>::empty();
    family_capabilities(families) + seq![
        CapabilityView { code: BgpCapabiltyCode::RouteRefresh, val: Seq::empty() },
        CapabilityView { code: BgpCapabiltyCode::EnhancedRouteRefresh, val: Seq::empty() },
    ] + (if c.graceful_restart.enabled {
        seq![
            CapabilityView {
                code: BgpCapabiltyCode::GracefulRestart,
                val: msg_open::restart_octets(
                    c.graceful_restart.restart_time,
                    false,
                    paired(families, false),
                ),
            },
        ]
    } else {
        none
    }) + seq![
        CapabilityView { code: BgpCapabiltyCode::FourOctetAsn, val: msg_open::asn_octets(asn) },
    ] + (if entries.len() > 0 {
        seq![CapabilityView { code: BgpCapabiltyCode::Llgr, val: msg_open::llgr_octets(entries) }]
    } else {
        none
    }) + (match offered_add_path(c) {
        Some(mode) => seq![
            CapabilityView {
                code: BgpCapabiltyCode::AddPath,
                val: msg_open::add_path_octets(paired(families, mode)),
            },
        ],
        None => none,
    })
}

fn pair_families<T: Copy>(l: &Vec<AfiSafi>, x: T) -> (r: Vec<(AfiSafi, T)>)
    ensures
        r@ == paired(l@, x),
{
    let mut r: Vec<(AfiSafi, T)> = Vec::new();
    let mut i: usize = 0;
    while i < l.len()
        invariant
            i <= l@.len(),
            r@ == paired(l@, x).take(i as int),
        decreases l.len() - i,
    {
        r.push((l[i], x));
        proof {
            seqs::lemma_take_next(paired(l@, x), i as int);
        }
        i = i + 1;
    }
    proof {
        seqs::lemma_take_all(paired(l@, x));
    }
    r
}

fn push_families(caps: &mut Vec<Capability>, l: &Vec<AfiSafi>)
    ensures
        seqs::views(final(caps)@) == seqs::views(old(caps)@) + family_capabilities(l@),
{
    let ghost start = seqs::views(caps@);
    let ghost all = family_capabilities(l@);
    let mut i: usize = 0;
    assert(start =~= start + all.take(0));
    while i < l.len()
        invariant
            i <= l@.len(),
            all == family_capabilities(l@),
            start == seqs::views(old(caps)@),
            seqs::views(caps@) == start + all.take(i as int),
        decreases l.len() - i,
    {
        let x = Capability::new_multiprotocol(&l[i]);
        proof {
            seqs::lemma_views_push(caps@, x);
            seqs::lemma_take_next(all, i as int);
            assert(start + all.take(i as int).push(all[i as int]) =~= (start + all.take(
                i as int,
            )).push(all[i as int]));
        }
        caps.push(x);
        i = i + 1;
    }
    proof {
        seqs::lemma_take_all(all);
    }
}

/// Pushing one more capability appends it.
proof fn lemma_push_capability(s: Seq<Capability>, x: Capability)
    ensures
        seqs::views(s.push(x)) == seqs::views(s) + seq![x@],
{
    assert(seqs::views(s.push(x)) =~= seqs::views(s) + seq![x@]);
}

/// The parameters of an OPEN message: one, with all capabilities.
pub fn build_optional_params(asn: u32, config: &PeerConfig, llgr: &Option<LlgrConfig>) -> (r: Vec<
    OptionalParam,
>)
    ensures
        seqs::views(r@) == seq![
            OptionalParamView {
                param_len: (open_message::capabilities_len(
                    offered_capabilities(asn, config@, peer_config::opt_llgr(*llgr)),
                ) % 256) as u8,
                capabilities: offered_capabilities(asn, config@, peer_config::opt_llgr(*llgr)),
            },
        ],
{
    let ghost c = config@;
    let ghost none = Seq::<CapabilityView>::empty();
    let families = advertised_afi_safis(config);
    let mut caps: Vec<Capability> = Vec::new();
    assert(seqs::views(caps@) + family_capabilities(families@) =~= family_capabilities(families@));
    push_families(&mut caps, &families);
    let ghost s0 = seqs::views(caps@);
    let x = Capability::new_route_refresh();
    proof {
        lemma_push_capability(caps@, x);
    }
    caps.push(x);
    let x = Capability::new_enhanced_route_refresh();
    proof {
        lemma_push_capability(caps@, x);
    }
    caps.push(x);
    let ghost s1 = seqs::views(caps@);
    proof {
        assert(s1 =~= s0 + seq![
            CapabilityView { code: BgpCapabiltyCode::RouteRefresh, val: Seq::empty() },
            CapabilityView { code: BgpCapabiltyCode::EnhancedRouteRefresh, val: Seq::empty() },
        ]);
    }
    if config.graceful_restart.enabled {
        let list = pair_families(&families, false);
        let x = Capability::new_graceful_restart(
            config.graceful_restart.restart_time,
            false,
            &list,
        );
        proof {
            lemma_push_capability(caps@, x);
        }
        caps.push(x);
    } else {
        assert(s1 + none =~= s1);
    }
    let x = Capability::new_four_octet_asn(asn);
    proof {
        lemma_push_capability(caps@, x);
    }
    caps.push(x);
    let ghost s3 = seqs::views(caps@);
    let entries = match llgr {
        Some(l) => llgr_to_entries(l),
        None => Vec::new(),
    };
    assert(entries@ =~= offered_llgr(peer_config::opt_llgr(*llgr)));
    if entries.len() > 0 {
        let x = Capability::new_llgr(&entries);
        proof {
            lemma_push_capability(caps@, x);
        }
        caps.push(x);
    } else {
        assert(s3 + none =~= s3);
    }
    let ghost s4 = seqs::views(caps@);
    let send = match config.add_path_send {
        AddPathSend::Disabled => false,
        AddPathSend::All => true,
    };
    let mode = AddPathMode::from_flags(send, config.add_path_receive);
    assert(mode == offered_add_path(c));
    if let Some(m) = mode {
        let list = pair_families(&families, m);
        let x = Capability::new_add_path(&list);
        proof {
            lemma_push_capability(caps@, x);
        }
        caps.push(x);
    } else {
        assert(s4 + none =~= s4);
    }
    assert(seqs::views(caps@) == offered_capabilities(asn, c, peer_config::opt_llgr(*llgr)));
    let p = OptionalParam::from_capabilities(caps);
    let r: Vec<OptionalParam> = vec![p];
    assert(seqs::views(r@) =~= seq![p@]);
    r
}

/// The OPEN message with all capabilities that are offered.
pub open spec fn offered_open(
    asn: u32,
    hold_time: u16,
    router_id: Ipv4Addr,
    c: PeerConfigView,
    llgr: Option<LlgrConfigView>,
) -> OpenView {
    let caps = offered_capabilities(asn, c, llgr);
    let len = (open_message::capabilities_len(caps) % 256) as u8;
    OpenView {
        version: 4,
        asn,
        hold_time,
        bgp_identifier: router_id.bits(),
        optional_params_len: ((2 + len) % 256) as u8,
        optional_params: seq![OptionalParamView { param_len: len, capabilities: caps }],
    }
}

/// The OPEN message with all capabilities that are offered.
pub fn create_open_message(
    asn: u32,
    hold_time: u16,
    router_id: Ipv4Addr,
    config: &PeerConfig,
    llgr: &Option<LlgrConfig>,
) -> (r: OpenMessage)
    ensures
        r@ == offered_open(asn, hold_time, router_id, config@, peer_config::opt_llgr(*llgr)),
{
    let optional_params = build_optional_params(asn, config, llgr);
    let ghost views = seqs::views(optional_params@);
    assert(views.len() == 1);
    assert(views[0] == optional_params@[0]@);
    let len: u16 = optional_params[0].len_octet() as u16;
    OpenMessage {
        version: 4,
        asn,
        hold_time,
        bgp_identifier: router_id.to_u32(),
        optional_params_len: ((2 + len) % 256) as u8,
        optional_params,
    }
}

// ---------------------------------------------------------------------------
// What is understood
// ---------------------------------------------------------------------------

/// What one more capability adds to what is known.
pub open spec fn with_capability(c: CapabilitiesView, x: CapabilityView) -> CapabilitiesView {
    match x.code {
        BgpCapabiltyCode::Multiprotocol => match msg_open::read_multiprotocol(x.val) {
            Some(f) => CapabilitiesView { multiprotocol: c.multiprotocol.insert(f), ..c },
            None => c,
        },
        BgpCapabiltyCode::RouteRefresh => CapabilitiesView { route_refresh: true, ..c },
        BgpCapabiltyCode::EnhancedRouteRefresh => CapabilitiesView {
            enhanced_route_refresh: true,
            ..c
        },
        BgpCapabiltyCode::FourOctetAsn => match msg_open::read_four_octet_asn(x.val) {
            Some(asn) => CapabilitiesView { four_octet_asn: Some(asn), ..c },
            None => c,
        },
        BgpCapabiltyCode::GracefulRestart => CapabilitiesView {
            graceful_restart: msg_open::read_restart(x.val),
            ..c
        },
        BgpCapabiltyCode::AddPath => CapabilitiesView {
            add_path: msg_open::read_add_path(x.val),
            ..c
        },
        BgpCapabiltyCode::Llgr => CapabilitiesView { llgr: msg_open::read_llgr(x.val), ..c },
        BgpCapabiltyCode::Unknown(_) => c,
    }
}

/// What capabilities say, one after the other.
pub open spec fn gathered(s: Seq<CapabilityView>) -> CapabilitiesView
    decreases s.len(),
{
    if s.len() == 0 {
        capabilities::no_capabilities()
    } else {
        with_capability(gathered(s.drop_last()), s.last())
    }
}

/// What a peer can do: stale routes are kept long only beside graceful restart.
pub open spec fn understood(s: Seq<CapabilityView>) -> CapabilitiesView {
    let c = gathered(s);
    if c.graceful_restart is None {
        CapabilitiesView { llgr: None, ..c }
    } else {
        c
    }
}

fn note_capability(c: &mut PeerCapabilities, x: &Capability)
    ensures
        final(c)@ == with_capability(old(c)@, x@),
{
    match x.code {
        BgpCapabiltyCode::Multiprotocol => {
            if let Some(f) = x.as_multiprotocol() {
                c.multiprotocol.insert(f);
            }
        },
        BgpCapabiltyCode::RouteRefresh => {
            c.route_refresh = true;
        },
        BgpCapabiltyCode::EnhancedRouteRefresh => {
            c.enhanced_route_refresh = true;
        },
        BgpCapabiltyCode::FourOctetAsn => {
            if let Some(asn) = x.as_four_octet_asn() {
                c.four_octet_asn = Some(asn);
            }
        },
        BgpCapabiltyCode::GracefulRestart => {
            c.graceful_restart = x.as_graceful_restart();
        },
        BgpCapabiltyCode::AddPath => {
            c.add_path = x.as_add_path();
        },
        BgpCapabiltyCode::Llgr => {
            c.llgr = x.as_llgr();
        },
        BgpCapabiltyCode::Unknown(_) => {},
    }
}

/// What a peer can do, as its OPEN message says. Capabilities may stand in one
/// parameter or in several.
pub fn extract_capabilities(open_msg: &OpenMessage) -> (r: PeerCapabilities)
    ensures
        r@ == understood(open_message::all_capabilities(open_msg@.optional_params)),
{
    let ghost params = seqs::views(open_msg.optional_params@);
    let mut c = PeerCapabilities::default();
    let mut i: usize = 0;
    while i < open_msg.optional_params.len()
        invariant
            i <= open_msg.optional_params@.len(),
            params == seqs::views(open_msg.optional_params@),
            c@ == gathered(open_message::all_capabilities(params.take(i as int))),
        decreases open_msg.optional_params.len() - i,
    {
        let caps = open_msg.optional_params[i].capabilities();
        let ghost before = open_message::all_capabilities(params.take(i as int));
        let ghost here = seqs::views(caps@);
        let mut j: usize = 0;
        assert(before + here.take(0) =~= before);
        while j < caps.len()
            invariant
                j <= caps@.len(),
                here == seqs::views(caps@),
                c@ == gathered(before + here.take(j as int)),
            decreases caps.len() - j,
        {
            proof {
                let next = before + here.take(j + 1);
                assert(next.drop_last() =~= before + here.take(j as int));
                assert(next.last() == here[j as int]);
            }
            note_capability(&mut c, &caps[j]);
            j = j + 1;
        }
        proof {
            seqs::lemma_take_all(here);
            assert(params.take(i + 1).drop_last() =~= params.take(i as int));
            assert(params.take(i + 1).last() == open_msg.optional_params@[i as int]@);
        }
        i = i + 1;
    }
    proof {
        seqs::lemma_take_all(params);
    }
    if c.llgr.is_some() && c.graceful_restart.is_none() {
        c.llgr = None;
    }
    c
}

// ---------------------------------------------------------------------------
// What is agreed on
// ---------------------------------------------------------------------------

/// The families that both sides exchange.
pub fn negotiate_multiprotocol(local: &Vec<AfiSafi>, peer: &AfiSafiSet) -> (r: AfiSafiSet)
    ensures
        r@ == local@.to_set().intersect(peer@),
{
    let mut r = AfiSafiSet::new();
    let mut i: usize = 0;
    assert(local@.take(0).to_set().intersect(peer@) =~= Set::<AfiSafi>::empty());
    while i < local.len()
        invariant
            i <= local@.len(),
            r@ == local@.take(i as int).to_set().intersect(peer@),
        decreases local.len() - i,
    {
        proof {
            let t = local@.take(i as int);
            seqs::lemma_take_next(local@, i as int);
            t.lemma_push_to_set_commute(local@[i as int]);
            let x = local@[i as int];
            if peer@.contains(x) {
                assert(t.to_set().insert(x).intersect(peer@) =~= t.to_set().intersect(
                    peer@,
                ).insert(x));
            } else {
                assert(t.to_set().insert(x).intersect(peer@) =~= t.to_set().intersect(peer@));
            }
        }
        if peer.contains(&local[i]) {
            r.insert(local[i]);
        }
        i = i + 1;
    }
    proof {
        seqs::lemma_take_all(local@);
    }
    r
}

/// The direction that both sides want: this side sends if it wants to and the
/// peer receives, and the other way round.
pub open spec fn agreed_mode(send: bool, receive: bool, peer: AddPathMode) -> Option<AddPathMode> {
    let sends = send && peer.receives();
    let receives = receive && peer.sends();
    if sends && receives {
        Some(AddPathMode::Both)
    } else if sends {
        Some(AddPathMode::Send)
    } else if receives {
        Some(AddPathMode::Receive)
    } else {
        None
    }
}

/// The families with a direction that both sides want.
pub open spec fn agreed_modes(
    send: bool,
    receive: bool,
    peer: Seq<(AfiSafi, AddPathMode)>,
) -> Seq<(AfiSafi, AddPathMode)>
    decreases peer.len(),
{
    if peer.len() == 0 {
        Seq::empty()
    } else {
        let before = agreed_modes(send, receive, peer.drop_last());
        match agreed_mode(send, receive, peer.last().1) {
            Some(m) => before.push((peer.last().0, m)),
            None => before,
        }
    }
}

/// The exchange of several paths that both sides want; none where no family has
/// a direction.
pub open spec fn agreed_add_path(
    c: PeerConfigView,
    peer: Option<Seq<(AfiSafi, AddPathMode)>>,
) -> Option<Seq<(AfiSafi, AddPathMode)>> {
    match peer {
        None => None,
        Some(l) => {
            let agreed = agreed_modes(c.add_path_send is All, c.add_path_receive, l);
            if agreed.len() == 0 {
                None
            } else {
                Some(agreed)
            }
        },
    }
}

/// The exchange of several paths that both sides want.
pub fn negotiate_add_path(config: &PeerConfig, peer_caps: &PeerCapabilities) -> (r: Option<
    AddPathCapability,
>)
    ensures
        conf::opt_view(r) == agreed_add_path(config@, peer_caps@.add_path),
{
    let send = match config.add_path_send {
        AddPathSend::Disabled => false,
        AddPathSend::All => true,
    };
    let receive = config.add_path_receive;
    let peer = match &peer_caps.add_path {
        Some(p) => p,
        None => {
            return None;
        },
    };
    let ghost all = peer.entries@;
    let mut entries: Vec<(AfiSafi, AddPathMode)> = Vec::new();
    let mut i: usize = 0;
    while i < peer.entries.len()
        invariant
            i <= peer.entries@.len(),
            all == peer.entries@,
            entries@ == agreed_modes(send, receive, all.take(i as int)),
        decreases peer.entries.len() - i,
    {
        proof {
            assert(all.take(i + 1).drop_last() =~= all.take(i as int));
        }
        let mode = peer.entries[i].1;
        let agreed = AddPathMode::from_flags(
            send && mode.can_receive(),
            receive && mode.can_send(),
        );
        assert(agreed == agreed_mode(send, receive, mode));
        if let Some(m) = agreed {
            entries.push((peer.entries[i].0, m));
        }
        i = i + 1;
    }
    proof {
        seqs::lemma_take_all(all);
    }
    if entries.len() == 0 {
        None
    } else {
        Some(AddPathCapability { entries })
    }
}

// ---------------------------------------------------------------------------
// Laws
// ---------------------------------------------------------------------------

/// A peer that keeps stale routes long restarts gracefully too.
pub proof fn law_long_lived_needs_restart(s: Seq<CapabilityView>)
    ensures
        understood(s).llgr is Some ==> understood(s).graceful_restart is Some,
{
}

/// Capabilities say the same in one parameter as in two.
pub proof fn law_split_parameters(
    a: OptionalParamView,
    b: OptionalParamView,
    both: OptionalParamView,
)
    requires
        both.capabilities == a.capabilities + b.capabilities,
    ensures
        understood(open_message::all_capabilities(seq![a, b])) == understood(
            open_message::all_capabilities(seq![both]),
        ),
{
    let two = seq![a, b];
    assert(two.drop_last() =~= seq![a]);
    assert(seq![a].drop_last() =~= Seq::<OptionalParamView>::empty());
    assert(seq![both].drop_last() =~= Seq::<OptionalParamView>::empty());
    let none = Seq::<CapabilityView>::empty();
    assert(open_message::all_capabilities(Seq::<OptionalParamView>::empty()) == none);
    assert(open_message::all_capabilities(seq![a]) =~= none + a.capabilities);
    assert(open_message::all_capabilities(two) =~= both.capabilities);
    assert(open_message::all_capabilities(seq![both]) =~= both.capabilities);
}

proof fn lemma_gathered_families(l: Seq<AfiSafi>)
    ensures
        gathered(family_capabilities(l)) == (CapabilitiesView {
            multiprotocol: l.to_set(),
            ..capabilities::no_capabilities()
        }),
    decreases l.len(),
{
    let s = family_capabilities(l);
    if l.len() == 0 {
        assert(l.to_set() =~= Set::<AfiSafi>::empty());
    } else {
        let p = l.drop_last();
        lemma_gathered_families(p);
        assert(s.drop_last() =~= family_capabilities(p));
        msg_open::law_multiprotocol_round_trip(l.last());
        assert(l =~= p.push(l.last()));
        p.lemma_push_to_set_commute(l.last());
    }
}

proof fn lemma_gathered_next(s: Seq<CapabilityView>, x: CapabilityView)
    ensures
        gathered(s + seq![x]) == with_capability(gathered(s), x),
{
    assert((s + seq![x]).drop_last() =~= s);
    assert((s + seq![x]).last() == x);
}

/// What a peer understands of the OPEN message that is sent to it: exactly what
/// was offered.
pub proof fn law_open_says_what_is_offered(
    asn: u32,
    hold_time: u16,
    router_id: Ipv4Addr,
    c: PeerConfigView,
    llgr: Option<LlgrConfigView>,
)
    requires
        c.graceful_restart.restart_time < 4096,
        llgr matches Some(l) && l.stale_time matches Some(t) ==> t < 16777216,
    ensures
        ({
            let families = offered_families(c);
            let restarts = c.graceful_restart.enabled;
            understood(
                open_message::all_capabilities(
                    offered_open(asn, hold_time, router_id, c, llgr).optional_params,
                ),
            ) == (CapabilitiesView {
                multiprotocol: families.to_set(),
                route_refresh: true,
                enhanced_route_refresh: true,
                four_octet_asn: Some(asn),
                graceful_restart: if restarts {
                    Some(
                        GracefulRestartView {
                            restart_time: c.graceful_restart.restart_time,
                            restart_state: false,
                            afi_safi_list: paired(families, false),
                        },
                    )
                } else {
                    None
                },
                add_path: match offered_add_path(c) {
                    Some(m) => Some(paired(families, m)),
                    None => None,
                },
                llgr: if restarts && offered_llgr(llgr).len() > 0 {
                    Some(offered_llgr(llgr))
                } else {
                    None
                },
            })
        }),
{
    let families = offered_families(c);
    let entries = offered_llgr(llgr);
    let none = Seq::<CapabilityView>::empty();
    let params = offered_open(asn, hold_time, router_id, c, llgr).optional_params;
    assert(params.drop_last() =~= Seq::<OptionalParamView>::empty());
    assert(open_message::all_capabilities(params.drop_last()) == none);
    assert(none + params.last().capabilities =~= offered_capabilities(asn, c, llgr));
    let refresh = CapabilityView { code: BgpCapabiltyCode::RouteRefresh, val: Seq::empty() };
    let enhanced = CapabilityView {
        code: BgpCapabiltyCode::EnhancedRouteRefresh,
        val: Seq::empty(),
    };
    let s0 = family_capabilities(families);
    lemma_gathered_families(families);
    lemma_gathered_next(s0, refresh);
    lemma_gathered_next(s0 + seq![refresh], enhanced);
    let s1 = s0 + seq![refresh, enhanced];
    assert(s1 =~= s0 + seq![refresh] + seq![enhanced]);
    let time = c.graceful_restart.restart_time;
    let restart = CapabilityView {
        code: BgpCapabiltyCode::GracefulRestart,
        val: msg_open::restart_octets(time, false, paired(families, false)),
    };
    msg_open::law_restart_round_trip(time, false, paired(families, false));
    let s2 = s1 + (if c.graceful_restart.enabled {
        seq![restart]
    } else {
        none
    });
    if c.graceful_restart.enabled {
        lemma_gathered_next(s1, restart);
    } else {
        assert(s2 =~= s1);
    }
    let number = CapabilityView {
        code: BgpCapabiltyCode::FourOctetAsn,
        val: msg_open::asn_octets(asn),
    };
    msg_open::law_asn_round_trip(asn);
    let s3 = s2 + seq![number];
    lemma_gathered_next(s2, number);
    let stale = CapabilityView {
        code: BgpCapabiltyCode::Llgr,
        val: msg_open::llgr_octets(entries),
    };
    let s4 = s3 + (if entries.len() > 0 {
        seq![stale]
    } else {
        none
    });
    msg_open::law_llgr_round_trip(entries);
    if entries.len() > 0 {
        lemma_gathered_next(s3, stale);
    } else {
        assert(s4 =~= s3);
    }
    match offered_add_path(c) {
        Some(m) => {
            msg_open::law_add_path_round_trip(paired(families, m));
            lemma_gathered_next(
                s4,
                CapabilityView {
                    code: BgpCapabiltyCode::AddPath,
                    val: msg_open::add_path_octets(paired(families, m)),
                },
            );
        },
        None => {
            assert(s4 + none =~= s4);
        },
    }
}

/// Several paths of a family are exchanged in a direction only if this side
/// wants to and the peer offers the other end of it.
pub proof fn law_both_sides_agree(
    send: bool,
    receive: bool,
    peer: Seq<(AfiSafi, AddPathMode)>,
    f: AfiSafi,
)
    ensures
        capabilities::sends_paths(agreed_modes(send, receive, peer), f) <==> send
            && capabilities::receives_paths(peer, f),
        capabilities::receives_paths(agreed_modes(send, receive, peer), f) <==> receive
            && capabilities::sends_paths(peer, f),
    decreases peer.len(),
{
    let agreed = agreed_modes(send, receive, peer);
    if peer.len() > 0 {
        let p = peer.drop_last();
        let before = agreed_modes(send, receive, p);
        law_both_sides_agree(send, receive, p, f);
        lemma_modes_push(p, peer.last(), f);
        assert(peer =~= p.push(peer.last()));
        match agreed_mode(send, receive, peer.last().1) {
            Some(m) => {
                lemma_modes_push(before, (peer.last().0, m), f);
            },
            None => {},
        }
    }
}

proof fn lemma_modes_push(l: Seq<(AfiSafi, AddPathMode)>, x: (AfiSafi, AddPathMode), f: AfiSafi)
    ensures
        capabilities::sends_paths(l.push(x), f) <==> capabilities::sends_paths(l, f) || (x.0 == f
            && x.1.sends()),
        capabilities::receives_paths(l.push(x), f) <==> capabilities::receives_paths(l, f) || (x.0
            == f && x.1.receives()),
{
    let t = l.push(x);
    assert(t[l.len() as int] == x);
    if capabilities::sends_paths(l, f) {
        let i = choose|i: int| 0 <= i < l.len() && (#[trigger] l[i]).0 == f && l[i].1.sends();
        assert(t[i] == l[i]);
    }
    if capabilities::receives_paths(l, f) {
        let i = choose|i: int| 0 <= i < l.len() && (#[trigger] l[i]).0 == f && l[i].1.receives();
        assert(t[i] == l[i]);
    }
    if capabilities::sends_paths(t, f) {
        let i = choose|i: int| 0 <= i < t.len() && (#[trigger] t[i]).0 == f && t[i].1.sends();
        if i < l.len() {
            assert(t[i] == l[i]);
        }
    }
    if capabilities::receives_paths(t, f) {
        let i = choose|i: int| 0 <= i < t.len() && (#[trigger] t[i]).0 == f && t[i].1.receives();
        if i < l.len() {
            assert(t[i] == l[i]);
        }
    }
}

} // verus!
