//! What a speaker can do, and how it says so when a session is opened.

use crate::bgp::multiprotocol;
use crate::bgp::multiprotocol::{Afi, AfiSafi, Safi};
use crate::seqs;
use crate::seqs::copy_items;
use vstd::prelude::*;

verus! {

/// The codes of capabilities.
#[derive(Debug, Clone, Copy, PartialEq, Eq, Structural)]
pub enum BgpCapabiltyCode {
    Multiprotocol,
    RouteRefresh,
    GracefulRestart,
    FourOctetAsn,
    AddPath,
    EnhancedRouteRefresh,
    Llgr,
    Unknown(u8),
}

impl BgpCapabiltyCode {
    /// The assigned number.
    pub open spec fn number_spec(self) -> u8 {
        match self {
            BgpCapabiltyCode::Multiprotocol => 1,
            BgpCapabiltyCode::RouteRefresh => 2,
            BgpCapabiltyCode::GracefulRestart => 64,
            BgpCapabiltyCode::FourOctetAsn => 65,
            BgpCapabiltyCode::AddPath => 69,
            BgpCapabiltyCode::EnhancedRouteRefresh => 70,
            BgpCapabiltyCode::Llgr => 71,
            BgpCapabiltyCode::Unknown(n) => n,
        }
    }

    pub fn number(&self) -> (r: u8)
        ensures
            r == self.number_spec(),
    {
        match self {
            BgpCapabiltyCode::Multiprotocol => 1,
            BgpCapabiltyCode::RouteRefresh => 2,
            BgpCapabiltyCode::GracefulRestart => 64,
            BgpCapabiltyCode::FourOctetAsn => 65,
            BgpCapabiltyCode::AddPath => 69,
            BgpCapabiltyCode::EnhancedRouteRefresh => 70,
            BgpCapabiltyCode::Llgr => 71,
            BgpCapabiltyCode::Unknown(n) => *n,
        }
    }

    /// The code with a number.
    pub fn from_number(n: u8) -> (r: Self)
        ensures
            r == code_of_number(n),
    {
        match n {
            1 => BgpCapabiltyCode::Multiprotocol,
            2 => BgpCapabiltyCode::RouteRefresh,
            64 => BgpCapabiltyCode::GracefulRestart,
            65 => BgpCapabiltyCode::FourOctetAsn,
            69 => BgpCapabiltyCode::AddPath,
            70 => BgpCapabiltyCode::EnhancedRouteRefresh,
            71 => BgpCapabiltyCode::Llgr,
            _ => BgpCapabiltyCode::Unknown(n),
        }
    }
}

/// The code with a number.
pub open spec fn code_of_number(n: u8) -> BgpCapabiltyCode {
    match n {
        1 => BgpCapabiltyCode::Multiprotocol,
        2 => BgpCapabiltyCode::RouteRefresh,
        64 => BgpCapabiltyCode::GracefulRestart,
        65 => BgpCapabiltyCode::FourOctetAsn,
        69 => BgpCapabiltyCode::AddPath,
        70 => BgpCapabiltyCode::EnhancedRouteRefresh,
        71 => BgpCapabiltyCode::Llgr,
        _ => BgpCapabiltyCode::Unknown(n),
    }
}

/// In which direction several paths per route are exchanged.
#[derive(Debug, Clone, Copy, PartialEq, Eq, Structural)]
pub enum AddPathMode {
    Receive,
    Send,
    Both,
}

impl AddPathMode {
    pub open spec fn sends(self) -> bool {
        self is Send || self is Both
    }

    pub open spec fn receives(self) -> bool {
        self is Receive || self is Both
    }

    /// The number on the wire.
    pub open spec fn code_spec(self) -> u8 {
        match self {
            AddPathMode::Receive => 1,
            AddPathMode::Send => 2,
            AddPathMode::Both => 3,
        }
    }

    pub fn can_send(&self) -> (r: bool)
        ensures
            r == self.sends(),
    {
        match self {
            AddPathMode::Receive => false,
            _ => true,
        }
    }

    pub fn can_receive(&self) -> (r: bool)
        ensures
            r == self.receives(),
    {
        match self {
            AddPathMode::Send => false,
            _ => true,
        }
    }

    /// The mode with the given directions; none where neither is wanted.
    pub fn from_flags(send: bool, receive: bool) -> (r: Option<AddPathMode>)
        ensures
            match r {
                Some(m) => m.sends() == send && m.receives() == receive,
                None => !send && !receive,
            },
    {
        if send && receive {
            Some(AddPathMode::Both)
        } else if send {
            Some(AddPathMode::Send)
        } else if receive {
            Some(AddPathMode::Receive)
        } else {
            None
        }
    }

    fn code(&self) -> (r: u8)
        ensures
            r == self.code_spec(),
    {
        match self {
            AddPathMode::Receive => 1,
            AddPathMode::Send => 2,
            AddPathMode::Both => 3,
        }
    }
}

/// The mode with a number on the wire.
pub open spec fn mode_of_code(code: u8) -> Option<AddPathMode> {
    if code == 1 {
        Some(AddPathMode::Receive)
    } else if code == 2 {
        Some(AddPathMode::Send)
    } else if code == 3 {
        Some(AddPathMode::Both)
    } else {
        None
    }
}

fn mode_from_code(code: u8) -> (r: Option<AddPathMode>)
    ensures
        r == mode_of_code(code),
{
    match code {
        1 => Some(AddPathMode::Receive),
        2 => Some(AddPathMode::Send),
        3 => Some(AddPathMode::Both),
        _ => None,
    }
}

/// The families for which several paths per route are exchanged.
#[derive(Debug, PartialEq, Eq)]
pub struct AddPathCapability {
    pub entries: Vec<(AfiSafi, AddPathMode)>,
}

impl View for AddPathCapability {
    type V = Seq<(AfiSafi, AddPathMode)>;

    open spec fn view(&self) -> Seq<(AfiSafi, AddPathMode)> {
        self.entries@
    }
}

/// How long and for which families routes are kept while a speaker restarts.
#[derive(Debug, PartialEq, Eq)]
pub struct GracefulRestartCapability {
    pub restart_time: u16,
    pub restart_state: bool,
    pub afi_safi_list: Vec<(AfiSafi, bool)>,
}

pub struct GracefulRestartView {
    pub restart_time: u16,
    pub restart_state: bool,
    pub afi_safi_list: Seq<(AfiSafi, bool)>,
}

impl View for GracefulRestartCapability {
    type V = GracefulRestartView;

    open spec fn view(&self) -> GracefulRestartView {
        GracefulRestartView {
            restart_time: self.restart_time,
            restart_state: self.restart_state,
            afi_safi_list: self.afi_safi_list@,
        }
    }
}

/// The families of a list of pairs.
pub open spec fn families<T>(s: Seq<(AfiSafi, T)>) -> Seq<AfiSafi> {
    Seq::new(s.len(), |i: int| s[i].0)
}

impl GracefulRestartCapability {
    /// The families in their order.
    pub fn afi_safis(&self) -> (r: Vec<AfiSafi>)
        ensures
            r@ == families(self@.afi_safi_list),
    {
        let mut r: Vec<AfiSafi> = Vec::new();
        let mut i: usize = 0;
        while i < self.afi_safi_list.len()
            invariant
                i <= self.afi_safi_list@.len(),
                r@ == families(self@.afi_safi_list).take(i as int),
            decreases self.afi_safi_list.len() - i,
        {
            r.push(self.afi_safi_list[i].0);
            proof {
                seqs::lemma_take_next(families(self@.afi_safi_list), i as int);
            }
            i = i + 1;
        }
        proof {
            seqs::lemma_take_all(families(self@.afi_safi_list));
        }
        r
    }
}

impl Clone for GracefulRestartCapability {
    fn clone(&self) -> (r: Self)
        ensures
            r@ == self@,
    {
        let mut l: Vec<(AfiSafi, bool)> = Vec::new();
        let mut i: usize = 0;
        while i < self.afi_safi_list.len()
            invariant
                i <= self.afi_safi_list@.len(),
                l@ == self.afi_safi_list@.take(i as int),
            decreases self.afi_safi_list.len() - i,
        {
            l.push(self.afi_safi_list[i]);
            proof {
                seqs::lemma_take_next(self.afi_safi_list@, i as int);
            }
            i = i + 1;
        }
        proof {
            seqs::lemma_take_all(self.afi_safi_list@);
        }
        GracefulRestartCapability {
            restart_time: self.restart_time,
            restart_state: self.restart_state,
            afi_safi_list: l,
        }
    }
}

impl Clone for AddPathCapability {
    fn clone(&self) -> (r: Self)
        ensures
            r@ == self@,
    {
        let mut l: Vec<(AfiSafi, AddPathMode)> = Vec::new();
        let mut i: usize = 0;
        while i < self.entries.len()
            invariant
                i <= self.entries@.len(),
                l@ == self.entries@.take(i as int),
            decreases self.entries.len() - i,
        {
            l.push(self.entries[i]);
            proof {
                seqs::lemma_take_next(self.entries@, i as int);
            }
            i = i + 1;
        }
        proof {
            seqs::lemma_take_all(self.entries@);
        }
        AddPathCapability { entries: l }
    }
}

/// How long stale routes of a family are kept.
#[derive(Debug, Clone, Copy, PartialEq, Eq, Structural)]
pub struct LlgrEntry {
    pub afi_safi: AfiSafi,
    pub forwarding_preserved: bool,
    pub stale_time: u32,
}

impl seqs::Same for LlgrEntry {
    fn same_as(&self, other: &Self) -> (r: bool) {
        *self == *other
    }
}

/// The families whose stale routes are kept long.
#[derive(Debug, PartialEq, Eq)]
pub struct LlgrCapability {
    pub entries: Vec<LlgrEntry>,
}

impl View for LlgrCapability {
    type V = Seq<LlgrEntry>;

    open spec fn view(&self) -> Seq<LlgrEntry> {
        self.entries@
    }
}

impl Clone for LlgrCapability {
    fn clone(&self) -> (r: Self)
        ensures
            r@ == self@,
    {
        LlgrCapability { entries: copy_items(&self.entries) }
    }
}

// ---------------------------------------------------------------------------
// Values of capabilities
// ---------------------------------------------------------------------------

/// A capability: its code and its value.
#[derive(Debug, PartialEq, Eq)]
pub struct Capability {
    pub code: BgpCapabiltyCode,
    pub val: Vec<u8>,
}

pub struct CapabilityView {
    pub code: BgpCapabiltyCode,
    pub val: Seq<u8>,
}

impl View for Capability {
    type V = CapabilityView;

    open spec fn view(&self) -> CapabilityView {
        CapabilityView { code: self.code, val: self.val@ }
    }
}

impl Clone for Capability {
    fn clone(&self) -> (r: Self)
        ensures
            r@ == self@,
    {
        Capability { code: self.code, val: copy_items(&self.val) }
    }
}

/// The octets of a family's numbers: two for the family, one for the
/// subsequent one.
pub open spec fn family_octets(f: AfiSafi) -> Seq<u8> {
    seq![(f.afi.code_spec() / 256) as u8, (f.afi.code_spec() % 256) as u8, f.safi.code_spec()]
}

/// The family with the given octets.
pub open spec fn family_of_octets(a: u8, b: u8, s: u8) -> Option<AfiSafi> {
    match (multiprotocol::afi_of_code((a * 256 + b) as u16), multiprotocol::safi_of_code(s)) {
        (Some(afi), Some(safi)) => Some(AfiSafi { afi, safi }),
        _ => None,
    }
}

fn family_from_octets(a: u8, b: u8, s: u8) -> (r: Option<AfiSafi>)
    ensures
        r == family_of_octets(a, b, s),
{
    match (Afi::from_code(a as u16 * 256 + b as u16), Safi::from_code(s)) {
        (Some(afi), Some(safi)) => Some(AfiSafi { afi, safi }),
        _ => None,
    }
}

/// The family in the value of a multiprotocol capability: two octets, an unused
/// one and one more.
pub open spec fn read_multiprotocol(v: Seq<u8>) -> Option<AfiSafi> {
    if v.len() == 4 {
        family_of_octets(v[0], v[1], v[3])
    } else {
        None
    }
}

/// The AS number in the value of a capability: four octets.
pub open spec fn read_four_octet_asn(v: Seq<u8>) -> Option<u32> {
    if v.len() == 4 {
        Some((v[0] * 16777216 + v[1] * 65536 + v[2] * 256 + v[3]) as u32)
    } else {
        None
    }
}

/// The first `n` families behind the two octets of a restart capability, each
/// with the flag that forwarding goes on; unknown families are left out.
pub open spec fn restart_entries(v: Seq<u8>, n: nat) -> Seq<(AfiSafi, bool)>
    decreases n,
{
    if n == 0 {
        Seq::empty()
    } else {
        let before = restart_entries(v, (n - 1) as nat);
        let o = 2 + 4 * (n - 1);
        match family_of_octets(v[o], v[o + 1], v[o + 2]) {
            Some(f) => before.push((f, v[o + 3] >= 128)),
            None => before,
        }
    }
}

/// The value of a restart capability: a flag and twelve bits of seconds, then
/// four octets per family.
pub open spec fn read_restart(v: Seq<u8>) -> Option<GracefulRestartView> {
    if v.len() >= 2 && (v.len() - 2) % 4 == 0 {
        Some(
            GracefulRestartView {
                restart_time: ((v[0] % 16) * 256 + v[1]) as u16,
                restart_state: v[0] >= 128,
                afi_safi_list: restart_entries(v, ((v.len() - 2) / 4) as nat),
            },
        )
    } else {
        None
    }
}

/// The first `n` families with the direction in which several paths are
/// exchanged; unknown families and directions are left out.
pub open spec fn add_path_entries(v: Seq<u8>, n: nat) -> Seq<(AfiSafi, AddPathMode)>
    decreases n,
{
    if n == 0 {
        Seq::empty()
    } else {
        let before = add_path_entries(v, (n - 1) as nat);
        let o = 4 * (n - 1);
        match (family_of_octets(v[o], v[o + 1], v[o + 2]), mode_of_code(v[o + 3])) {
            (Some(f), Some(m)) => before.push((f, m)),
            _ => before,
        }
    }
}

/// The value of an additional-paths capability: four octets per family.
pub open spec fn read_add_path(v: Seq<u8>) -> Option<Seq<(AfiSafi, AddPathMode)>> {
    if v.len() % 4 == 0 {
        Some(add_path_entries(v, v.len() / 4))
    } else {
        None
    }
}

/// The first `n` families with the seconds for which stale routes are kept;
/// unknown families are left out.
pub open spec fn llgr_entries(v: Seq<u8>, n: nat) -> Seq<LlgrEntry>
    decreases n,
{
    if n == 0 {
        Seq::empty()
    } else {
        let before = llgr_entries(v, (n - 1) as nat);
        let o = 7 * (n - 1);
        match family_of_octets(v[o], v[o + 1], v[o + 2]) {
            Some(f) => before.push(
                LlgrEntry {
                    afi_safi: f,
                    forwarding_preserved: v[o + 3] >= 128,
                    stale_time: (v[o + 4] * 65536 + v[o + 5] * 256 + v[o + 6]) as u32,
                },
            ),
            None => before,
        }
    }
}

/// The value of a long-lived restart capability: seven octets per family.
pub open spec fn read_llgr(v: Seq<u8>) -> Option<Seq<LlgrEntry>> {
    if v.len() % 7 == 0 {
        Some(llgr_entries(v, v.len() / 7))
    } else {
        None
    }
}

/// The octet of a flag.
pub open spec fn flag_octet(b: bool) -> u8 {
    if b {
        128
    } else {
        0
    }
}

pub open spec fn multiprotocol_octets(f: AfiSafi) -> Seq<u8> {
    seq![
        (f.afi.code_spec() / 256) as u8,
        (f.afi.code_spec() % 256) as u8,
        0u8,
        f.safi.code_spec(),
    ]
}

pub open spec fn asn_octets(asn: u32) -> Seq<u8> {
    seq![
        (asn / 16777216) as u8,
        (asn / 65536 % 256) as u8,
        (asn / 256 % 256) as u8,
        (asn % 256) as u8,
    ]
}

pub open spec fn restart_list_octets(l: Seq<(AfiSafi, bool)>) -> Seq<u8>
    decreases l.len(),
{
    if l.len() == 0 {
        Seq::empty()
    } else {
        restart_list_octets(l.drop_last()) + family_octets(l.last().0).push(
            flag_octet(l.last().1),
        )
    }
}

/// The value of a restart capability; of the seconds the lower twelve bits.
pub open spec fn restart_octets(time: u16, state: bool, l: Seq<(AfiSafi, bool)>) -> Seq<u8> {
    seq![(flag_octet(state) + time / 256 % 16) as u8, (time % 256) as u8] + restart_list_octets(l)
}

pub open spec fn add_path_octets(l: Seq<(AfiSafi, AddPathMode)>) -> Seq<u8>
    decreases l.len(),
{
    if l.len() == 0 {
        Seq::empty()
    } else {
        add_path_octets(l.drop_last()) + family_octets(l.last().0).push(l.last().1.code_spec())
    }
}

/// The value of a long-lived restart capability; of the seconds the lower
/// twenty-four bits.
pub open spec fn llgr_octets(l: Seq<LlgrEntry>) -> Seq<u8>
    decreases l.len(),
{
    if l.len() == 0 {
        Seq::empty()
    } else {
        let e = l.last();
        llgr_octets(l.drop_last()) + (family_octets(e.afi_safi) + seq![
            flag_octet(e.forwarding_preserved),
            (e.stale_time / 65536 % 256) as u8,
            (e.stale_time / 256 % 256) as u8,
            (e.stale_time % 256) as u8,
        ])
    }
}

fn push_family(v: &mut Vec<u8>, f: &AfiSafi)
    ensures
        final(v)@ == old(v)@ + family_octets(*f),
{
    let code: u16 = f.afi.code();
    v.push((code / 256) as u8);
    v.push((code % 256) as u8);
    v.push(f.safi.code());
    assert(v@ =~= old(v)@ + family_octets(*f));
}

impl Capability {
    pub fn new_multiprotocol(f: &AfiSafi) -> (r: Self)
        ensures
            r@ == (CapabilityView {
                code: BgpCapabiltyCode::Multiprotocol,
                val: multiprotocol_octets(*f),
            }),
    {
        let code: u16 = f.afi.code();
        let val: Vec<u8> = vec![(code / 256) as u8, (code % 256) as u8, 0u8, f.safi.code()];
        assert(val@ =~= multiprotocol_octets(*f));
        Capability { code: BgpCapabiltyCode::Multiprotocol, val }
    }

    pub fn new_route_refresh() -> (r: Self)
        ensures
            r@ == (CapabilityView { code: BgpCapabiltyCode::RouteRefresh, val: Seq::empty() }),
    {
        Capability { code: BgpCapabiltyCode::RouteRefresh, val: Vec::new() }
    }

    pub fn new_enhanced_route_refresh() -> (r: Self)
        ensures
            r@ == (CapabilityView {
                code: BgpCapabiltyCode::EnhancedRouteRefresh,
                val: Seq::empty(),
            }),
    {
        Capability { code: BgpCapabiltyCode::EnhancedRouteRefresh, val: Vec::new() }
    }

    pub fn new_four_octet_asn(asn: u32) -> (r: Self)
        ensures
            r@ == (CapabilityView { code: BgpCapabiltyCode::FourOctetAsn, val: asn_octets(asn) }),
    {
        let val: Vec<u8> = vec![
            (asn / 16777216) as u8,
            (asn / 65536 % 256) as u8,
            (asn / 256 % 256) as u8,
            (asn % 256) as u8,
        ];
        assert(val@ =~= asn_octets(asn));
        Capability { code: BgpCapabiltyCode::FourOctetAsn, val }
    }

    pub fn new_graceful_restart(time: u16, state: bool, l: &Vec<(AfiSafi, bool)>) -> (r: Self)
        ensures
            r@ == (CapabilityView {
                code: BgpCapabiltyCode::GracefulRestart,
                val: restart_octets(time, state, l@),
            }),
    {
        let flag: u8 = if state {
            128
        } else {
            0
        };
        let mut val: Vec<u8> = vec![flag + (time / 256 % 16) as u8, (time % 256) as u8];
        let ghost head = val@;
        assert(head =~= seq![
            (flag_octet(state) + time / 256 % 16) as u8,
            (time % 256) as u8,
        ]);
        let mut i: usize = 0;
        assert(val@ =~= head + restart_list_octets(l@.take(0)));
        while i < l.len()
            invariant
                i <= l@.len(),
                val@ == head + restart_list_octets(l@.take(i as int)),
            decreases l.len() - i,
        {
            let ghost before = val@;
            push_family(&mut val, &l[i].0);
            val.push(
                if l[i].1 {
                    128
                } else {
                    0
                },
            );
            proof {
                assert(l@.take(i + 1).drop_last() =~= l@.take(i as int));
                assert(l@.take(i + 1).last() == l@[i as int]);
                assert(val@ =~= head + restart_list_octets(l@.take(i + 1)));
            }
            i = i + 1;
        }
        proof {
            seqs::lemma_take_all(l@);
        }
        Capability { code: BgpCapabiltyCode::GracefulRestart, val }
    }

    pub fn new_add_path(l: &Vec<(AfiSafi, AddPathMode)>) -> (r: Self)
        ensures
            r@ == (CapabilityView {
                code: BgpCapabiltyCode::AddPath,
                val: add_path_octets(l@),
            }),
    {
        let mut val: Vec<u8> = Vec::new();
        let mut i: usize = 0;
        while i < l.len()
            invariant
                i <= l@.len(),
                val@ == add_path_octets(l@.take(i as int)),
            decreases l.len() - i,
        {
            push_family(&mut val, &l[i].0);
            val.push(l[i].1.code());
            proof {
                assert(l@.take(i + 1).drop_last() =~= l@.take(i as int));
                assert(l@.take(i + 1).last() == l@[i as int]);
                assert(val@ =~= add_path_octets(l@.take(i + 1)));
            }
            i = i + 1;
        }
        proof {
            seqs::lemma_take_all(l@);
        }
        Capability { code: BgpCapabiltyCode::AddPath, val }
    }

    pub fn new_llgr(l: &Vec<LlgrEntry>) -> (r: Self)
        ensures
            r@ == (CapabilityView { code: BgpCapabiltyCode::Llgr, val: llgr_octets(l@) }),
    {
        let mut val: Vec<u8> = Vec::new();
        let mut i: usize = 0;
        while i < l.len()
            invariant
                i <= l@.len(),
                val@ == llgr_octets(l@.take(i as int)),
            decreases l.len() - i,
        {
            let e = l[i];
            push_family(&mut val, &e.afi_safi);
            val.push(
                if e.forwarding_preserved {
                    128
                } else {
                    0
                },
            );
            val.push((e.stale_time / 65536 % 256) as u8);
            val.push((e.stale_time / 256 % 256) as u8);
            val.push((e.stale_time % 256) as u8);
            proof {
                assert(l@.take(i + 1).drop_last() =~= l@.take(i as int));
                assert(l@.take(i + 1).last() == l@[i as int]);
                assert(val@ =~= llgr_octets(l@.take(i + 1)));
            }
            i = i + 1;
        }
        proof {
            seqs::lemma_take_all(l@);
        }
        Capability { code: BgpCapabiltyCode::Llgr, val }
    }

    /// The family of a multiprotocol capability.
    pub fn as_multiprotocol(&self) -> (r: Option<AfiSafi>)
        ensures
            r == read_multiprotocol(self@.val),
    {
        if self.val.len() == 4 {
            family_from_octets(self.val[0], self.val[1], self.val[3])
        } else {
            None
        }
    }

    /// The AS number of a capability.
    pub fn as_four_octet_asn(&self) -> (r: Option<u32>)
        ensures
            r == read_four_octet_asn(self@.val),
    {
        if self.val.len() == 4 {
            let v = &self.val;
            Some(
                v[0] as u32 * 16777216 + v[1] as u32 * 65536 + v[2] as u32 * 256 + v[3] as u32,
            )
        } else {
            None
        }
    }

    pub fn as_graceful_restart(&self) -> (r: Option<GracefulRestartCapability>)
        ensures
            crate::conf::opt_view(r) == read_restart(self@.val),
    {
        let v = &self.val;
        if v.len() < 2 || (v.len() - 2) % 4 != 0 {
            return None;
        }
        let n: usize = v.len();
        let count: usize = (n - 2) / 4;
        let mut l: Vec<(AfiSafi, bool)> = Vec::new();
        let mut i: usize = 0;
        while i < count
            invariant
                i <= count,
                v@ == self@.val,
                n == v@.len(),
                n == 2 + 4 * count,
                l@ == restart_entries(v@, i as nat),
            decreases count - i,
        {
            let o: usize = 2 + 4 * i;
            if let Some(f) = family_from_octets(v[o], v[o + 1], v[o + 2]) {
                l.push((f, v[o + 3] >= 128));
            }
            i = i + 1;
        }
        Some(
            GracefulRestartCapability {
                restart_time: (v[0] % 16) as u16 * 256 + v[1] as u16,
                restart_state: v[0] >= 128,
                afi_safi_list: l,
            },
        )
    }

    pub fn as_add_path(&self) -> (r: Option<AddPathCapability>)
        ensures
            crate::conf::opt_view(r) == read_add_path(self@.val),
    {
        let v = &self.val;
        if v.len() % 4 != 0 {
            return None;
        }
        let n: usize = v.len();
        let count: usize = n / 4;
        let mut l: Vec<(AfiSafi, AddPathMode)> = Vec::new();
        let mut i: usize = 0;
        while i < count
            invariant
                i <= count,
                v@ == self@.val,
                n == v@.len(),
                n == 4 * count,
                l@ == add_path_entries(v@, i as nat),
            decreases count - i,
        {
            let o: usize = 4 * i;
            if let Some(f) = family_from_octets(v[o], v[o + 1], v[o + 2]) {
                if let Some(m) = mode_from_code(v[o + 3]) {
                    l.push((f, m));
                }
            }
            i = i + 1;
        }
        Some(AddPathCapability { entries: l })
    }

    pub fn as_llgr(&self) -> (r: Option<LlgrCapability>)
        ensures
            crate::conf::opt_view(r) == read_llgr(self@.val),
    {
        let v = &self.val;
        if v.len() % 7 != 0 {
            return None;
        }
        let n: usize = v.len();
        let count: usize = n / 7;
        let mut l: Vec<LlgrEntry> = Vec::new();
        let mut i: usize = 0;
        while i < count
            invariant
                i <= count,
                v@ == self@.val,
                n == v@.len(),
                n == 7 * count,
                l@ == llgr_entries(v@, i as nat),
            decreases count - i,
        {
            let o: usize = 7 * i;
            if let Some(f) = family_from_octets(v[o], v[o + 1], v[o + 2]) {
                l.push(
                    LlgrEntry {
                        afi_safi: f,
                        forwarding_preserved: v[o + 3] >= 128,
                        stale_time: v[o + 4] as u32 * 65536 + v[o + 5] as u32 * 256 + v[o
                            + 6] as u32,
                    },
                );
            }
            i = i + 1;
        }
        Some(LlgrCapability { entries: l })
    }
}

// ---------------------------------------------------------------------------
// Round trips
// ---------------------------------------------------------------------------

proof fn lemma_family_round_trip(f: AfiSafi)
    ensures
        family_of_octets(family_octets(f)[0], family_octets(f)[1], family_octets(f)[2]) == Some(f),
{
}

/// A family survives its way through a multiprotocol capability.
pub proof fn law_multiprotocol_round_trip(f: AfiSafi)
    ensures
        read_multiprotocol(multiprotocol_octets(f)) == Some(f),
{
}

/// An AS number survives its way through a capability.
pub proof fn law_asn_round_trip(asn: u32)
    ensures
        read_four_octet_asn(asn_octets(asn)) == Some(asn),
{
}

proof fn lemma_restart_prefix(v: Seq<u8>, w: Seq<u8>, n: nat)
    requires
        2 + 4 * n <= v.len(),
        v.len() <= w.len(),
        w.take(v.len() as int) == v,
    ensures
        restart_entries(v, n) == restart_entries(w, n),
    decreases n,
{
    if n > 0 {
        lemma_restart_prefix(v, w, (n - 1) as nat);
        let o = 2 + 4 * (n - 1);
        assert(w.take(v.len() as int)[o] == w[o]);
        assert(w.take(v.len() as int)[o + 1] == w[o + 1]);
        assert(w.take(v.len() as int)[o + 2] == w[o + 2]);
        assert(w.take(v.len() as int)[o + 3] == w[o + 3]);
    }
}

proof fn lemma_restart_list(head: Seq<u8>, l: Seq<(AfiSafi, bool)>)
    requires
        head.len() == 2,
    ensures
        (head + restart_list_octets(l)).len() == 2 + 4 * l.len(),
        restart_entries(head + restart_list_octets(l), l.len()) == l,
    decreases l.len(),
{
    if l.len() == 0 {
        assert(restart_entries(head + restart_list_octets(l), 0) =~= l);
    } else {
        let shorter = l.drop_last();
        lemma_restart_list(head, shorter);
        let v = head + restart_list_octets(shorter);
        let w = head + restart_list_octets(l);
        let e = family_octets(l.last().0).push(flag_octet(l.last().1));
        assert(w =~= v + e);
        assert(w.take(v.len() as int) =~= v);
        lemma_restart_prefix(v, w, shorter.len());
        lemma_family_round_trip(l.last().0);
        let o = 2 + 4 * (l.len() - 1);
        assert(w[o] == e[0] && w[o + 1] == e[1] && w[o + 2] == e[2] && w[o + 3] == e[3]);
        assert(restart_entries(w, l.len()) =~= l);
    }
}

/// A restart capability survives its way through its octets, if its seconds
/// fit in twelve bits.
pub proof fn law_restart_round_trip(time: u16, state: bool, l: Seq<(AfiSafi, bool)>)
    requires
        time < 4096,
    ensures
        read_restart(restart_octets(time, state, l)) == Some(
            GracefulRestartView { restart_time: time, restart_state: state, afi_safi_list: l },
        ),
{
    let head = seq![(flag_octet(state) + time / 256 % 16) as u8, (time % 256) as u8];
    lemma_restart_list(head, l);
    let v = restart_octets(time, state, l);
    assert(v[0] == head[0] && v[1] == head[1]);
}

proof fn lemma_add_path_prefix(v: Seq<u8>, w: Seq<u8>, n: nat)
    requires
        4 * n <= v.len(),
        v.len() <= w.len(),
        w.take(v.len() as int) == v,
    ensures
        add_path_entries(v, n) == add_path_entries(w, n),
    decreases n,
{
    if n > 0 {
        lemma_add_path_prefix(v, w, (n - 1) as nat);
        let o = 4 * (n - 1);
        assert(w.take(v.len() as int)[o] == w[o]);
        assert(w.take(v.len() as int)[o + 1] == w[o + 1]);
        assert(w.take(v.len() as int)[o + 2] == w[o + 2]);
        assert(w.take(v.len() as int)[o + 3] == w[o + 3]);
    }
}

/// An additional-paths capability survives its way through its octets.
pub proof fn law_add_path_round_trip(l: Seq<(AfiSafi, AddPathMode)>)
    ensures
        add_path_octets(l).len() == 4 * l.len(),
        read_add_path(add_path_octets(l)) == Some(l),
    decreases l.len(),
{
    if l.len() == 0 {
        assert(add_path_entries(add_path_octets(l), 0) =~= l);
    } else {
        let shorter = l.drop_last();
        law_add_path_round_trip(shorter);
        let v = add_path_octets(shorter);
        let w = add_path_octets(l);
        let e = family_octets(l.last().0).push(l.last().1.code_spec());
        assert(w.take(v.len() as int) =~= v);
        lemma_add_path_prefix(v, w, shorter.len());
        lemma_family_round_trip(l.last().0);
        let o = 4 * (l.len() - 1);
        assert(w[o] == e[0] && w[o + 1] == e[1] && w[o + 2] == e[2] && w[o + 3] == e[3]);
        assert(add_path_entries(w, l.len()) =~= l);
    }
}

proof fn lemma_llgr_prefix(v: Seq<u8>, w: Seq<u8>, n: nat)
    requires
        7 * n <= v.len(),
        v.len() <= w.len(),
        w.take(v.len() as int) == v,
    ensures
        llgr_entries(v, n) == llgr_entries(w, n),
    decreases n,
{
    if n > 0 {
        lemma_llgr_prefix(v, w, (n - 1) as nat);
        let o = 7 * (n - 1);
        assert forall|k: int| 0 <= k < 7 implies v[o + k] == #[trigger] w[o + k] by {
            assert(w.take(v.len() as int)[o + k] == w[o + k]);
        }
        assert(v[o + 0] == w[o + 0]);
        assert(v[o + 1] == w[o + 1]);
        assert(v[o + 2] == w[o + 2]);
        assert(v[o + 3] == w[o + 3]);
        assert(v[o + 4] == w[o + 4]);
        assert(v[o + 5] == w[o + 5]);
        assert(v[o + 6] == w[o + 6]);
    }
}

/// A long-lived restart capability survives its way through its octets, if its
/// seconds fit in twenty-four bits.
pub proof fn law_llgr_round_trip(l: Seq<LlgrEntry>)
    requires
        forall|i: int| 0 <= i < l.len() ==> (#[trigger] l[i]).stale_time < 16777216,
    ensures
        llgr_octets(l).len() == 7 * l.len(),
        read_llgr(llgr_octets(l)) == Some(l),
    decreases l.len(),
{
    if l.len() == 0 {
        assert(llgr_entries(llgr_octets(l), 0) =~= l);
    } else {
        let shorter = l.drop_last();
        assert forall|i: int| 0 <= i < shorter.len() implies (#[trigger] shorter[i]).stale_time
            < 16777216 by {
            assert(l[i].stale_time < 16777216);
        }
        law_llgr_round_trip(shorter);
        let v = llgr_octets(shorter);
        let w = llgr_octets(l);
        let x = l.last();
        assert(l[l.len() - 1].stale_time < 16777216);
        let e = family_octets(x.afi_safi) + seq![
            flag_octet(x.forwarding_preserved),
            (x.stale_time / 65536 % 256) as u8,
            (x.stale_time / 256 % 256) as u8,
            (x.stale_time % 256) as u8,
        ];
        assert(w.take(v.len() as int) =~= v);
        lemma_llgr_prefix(v, w, shorter.len());
        lemma_family_round_trip(x.afi_safi);
        let o = 7 * (l.len() - 1);
        assert(w[o] == e[0] && w[o + 1] == e[1] && w[o + 2] == e[2] && w[o + 3] == e[3]);
        assert(w[o + 4] == e[4] && w[o + 5] == e[5] && w[o + 6] == e[6]);
        assert(llgr_entries(w, l.len()) =~= l);
    }
}

} // verus!
