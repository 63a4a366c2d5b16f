//! What both sides of a session agreed on.

use crate::bgp::msg::{AddPathMask, MessageFormat};
use crate::bgp::msg_open;
use crate::bgp::msg_open::{
    AddPathCapability, AddPathMode, GracefulRestartCapability, GracefulRestartView, LlgrCapability,
    LlgrEntry,
};
use crate::bgp::multiprotocol;
use crate::bgp::multiprotocol::{Afi, AfiSafi, AfiSafiSet, Safi};
use crate::conf;
use vstd::prelude::*;

verus! {

/// Whether both sides belong to one autonomous system.
#[derive(Debug, Clone, Copy, PartialEq, Eq, Structural)]
pub enum SessionType {
    Ebgp,
    Ibgp,
}

/// The capabilities of a session.
#[derive(Debug, PartialEq, Eq)]
pub struct PeerCapabilities {
    /// The families whose routes are exchanged.
    pub multiprotocol: AfiSafiSet,
    /// Routes may be asked for again.
    pub route_refresh: bool,
    /// The routes that are sent again are marked at both ends.
    pub enhanced_route_refresh: bool,
    /// The peer's AS number, if it uses four octets for them.
    pub four_octet_asn: Option<u32>,
    /// How the peer wants its routes to be kept while it restarts.
    pub graceful_restart: Option<GracefulRestartCapability>,
    /// The families for which several paths per route are exchanged.
    pub add_path: Option<AddPathCapability>,
    /// The families whose stale routes are kept long.
    pub llgr: Option<LlgrCapability>,
}

pub struct CapabilitiesView {
    pub multiprotocol: Set<AfiSafi>,
    pub route_refresh: bool,
    pub enhanced_route_refresh: bool,
    pub four_octet_asn: Option<u32>,
    pub graceful_restart: Option<GracefulRestartView>,
    pub add_path: Option<Seq<(AfiSafi, AddPathMode)>>,
    pub llgr: Option<Seq<LlgrEntry>>,
}

impl View for PeerCapabilities {
    type V = CapabilitiesView;

    open spec fn view(&self) -> CapabilitiesView {
        CapabilitiesView {
            multiprotocol: self.multiprotocol@,
            route_refresh: self.route_refresh,
            enhanced_route_refresh: self.enhanced_route_refresh,
            four_octet_asn: self.four_octet_asn,
            graceful_restart: conf::opt_view(self.graceful_restart),
            add_path: conf::opt_view(self.add_path),
            llgr: conf::opt_view(self.llgr),
        }
    }
}

/// No capabilities.
pub open spec fn no_capabilities() -> CapabilitiesView {
    CapabilitiesView {
        multiprotocol: Set::empty(),
        route_refresh: false,
        enhanced_route_refresh: false,
        four_octet_asn: None,
        graceful_restart: None,
        add_path: None,
        llgr: None,
    }
}

/// Some entry for the family sends.
pub open spec fn sends_paths(l: Seq<(AfiSafi, AddPathMode)>, f: AfiSafi) -> bool {
    exists|i: int| 0 <= i < l.len() && (#[trigger] l[i]).0 == f && l[i].1.sends()
}

/// Some entry for the family receives.
pub open spec fn receives_paths(l: Seq<(AfiSafi, AddPathMode)>, f: AfiSafi) -> bool {
    exists|i: int| 0 <= i < l.len() && (#[trigger] l[i]).0 == f && l[i].1.receives()
}

impl CapabilitiesView {
    /// Several paths per route of the family are sent.
    pub open spec fn sends(self, f: AfiSafi) -> bool {
        self.add_path matches Some(l) && sends_paths(l, f)
    }

    /// Several paths per route of the family are received.
    pub open spec fn receives(self, f: AfiSafi) -> bool {
        self.add_path matches Some(l) && receives_paths(l, f)
    }

    /// The families whose routes are kept while the peer restarts.
    pub open spec fn restart_families(self) -> Seq<AfiSafi> {
        match self.graceful_restart {
            Some(g) => msg_open::families(g.afi_safi_list),
            None => Seq::empty(),
        }
    }

    /// Messages to the peer, or from it, are encoded in a format.
    pub open spec fn encodes(
        self,
        session_type: Option<SessionType>,
        sending: bool,
        format: MessageFormat,
    ) -> bool {
        &&& format.use_4byte_asn == (self.four_octet_asn is Some)
        &&& forall|f: AfiSafi| #[trigger]
            format.add_path.has(f) == (if sending {
                self.sends(f)
            } else {
                self.receives(f)
            })
        &&& format.is_ebgp == (session_type == Some(SessionType::Ebgp))
        &&& format.enhanced_rr == self.enhanced_route_refresh
    }
}

impl Default for PeerCapabilities {
    fn default() -> (r: Self)
        ensures
            r@ == no_capabilities(),
    {
        PeerCapabilities {
            multiprotocol: AfiSafiSet::new(),
            route_refresh: false,
            enhanced_route_refresh: false,
            four_octet_asn: None,
            graceful_restart: None,
            add_path: None,
            llgr: None,
        }
    }
}

impl Clone for PeerCapabilities {
    fn clone(&self) -> (r: Self)
        ensures
            r@ == self@,
    {
        let graceful_restart = match &self.graceful_restart {
            Some(x) => Some(x.clone()),
            None => None,
        };
        let add_path = match &self.add_path {
            Some(x) => Some(x.clone()),
            None => None,
        };
        let llgr = match &self.llgr {
            Some(x) => Some(x.clone()),
            None => None,
        };
        PeerCapabilities {
            multiprotocol: self.multiprotocol.clone(),
            route_refresh: self.route_refresh,
            enhanced_route_refresh: self.enhanced_route_refresh,
            four_octet_asn: self.four_octet_asn,
            graceful_restart,
            add_path,
            llgr,
        }
    }
}

/// The families of which an entry sends, or of which an entry receives.
fn path_mask(l: &Vec<(AfiSafi, AddPathMode)>, send: bool) -> (r: AddPathMask)
    ensures
        r.wf(),
        forall|f: AfiSafi| #[trigger]
            r.has(f) == (if send {
                sends_paths(l@, f)
            } else {
                receives_paths(l@, f)
            }),
{
    let mut r = AddPathMask::none();
    let mut i: usize = 0;
    while i < l.len()
        invariant
            r.wf(),
            i <= l@.len(),
            forall|f: AfiSafi| #[trigger]
                r.has(f) <==> exists|j: int|
                    0 <= j < i && (#[trigger] l@[j]).0 == f && (if send {
                        l@[j].1.sends()
                    } else {
                        l@[j].1.receives()
                    }),
        decreases l.len() - i,
    {
        let on = if send {
            l[i].1.can_send()
        } else {
            l[i].1.can_receive()
        };
        if on {
            r = r.with(&l[i].0);
        }
        i = i + 1;
    }
    r
}

impl PeerCapabilities {
    /// Whether routes of the family are exchanged.
    pub fn supports_afi_safi(&self, afi_safi: &AfiSafi) -> (r: bool)
        ensures
            r == self@.multiprotocol.contains(*afi_safi),
    {
        self.multiprotocol.contains(afi_safi)
    }

    /// Whether the peer uses four octets for AS numbers.
    pub fn supports_four_octet_asn(&self) -> (r: bool)
        ensures
            r == (self@.four_octet_asn is Some),
    {
        self.four_octet_asn.is_some()
    }

    /// The families whose routes are kept while the peer restarts.
    pub fn gr_afi_safis(&self) -> (r: Vec<AfiSafi>)
        ensures
            r@ == self@.restart_families(),
    {
        match &self.graceful_restart {
            Some(g) => g.afi_safis(),
            None => Vec::new(),
        }
    }

    /// Whether several paths per route of the family are sent.
    pub fn add_path_send_negotiated(&self, afi_safi: &AfiSafi) -> (r: bool)
        ensures
            r == self@.sends(*afi_safi),
    {
        match &self.add_path {
            Some(ap) => {
                let l = &ap.entries;
                let mut i: usize = 0;
                while i < l.len()
                    invariant
                        i <= l@.len(),
                        self@.add_path == Some(l@),
                        forall|j: int|
                            0 <= j < i ==> !((#[trigger] l@[j]).0 == *afi_safi && l@[j].1.sends()),
                    decreases l.len() - i,
                {
                    if l[i].0 == *afi_safi && l[i].1.can_send() {
                        assert(l@[i as int].0 == *afi_safi);
                        return true;
                    }
                    i = i + 1;
                }
                false
            },
            None => false,
        }
    }

    /// The families whose routes are exchanged; where none was agreed on, IPv4
    /// unicast.
    pub fn afi_safis(&self) -> (r: Vec<AfiSafi>)
        ensures
            r@.no_duplicates(),
            self@.multiprotocol == Set::<AfiSafi>::empty() ==> r@ == seq![
                multiprotocol::ipv4_unicast(),
            ],
            self@.multiprotocol != Set::<AfiSafi>::empty() ==> r@.to_set() == self@.multiprotocol,
    {
        if self.multiprotocol.is_empty() {
            let r: Vec<AfiSafi> = vec![AfiSafi::new(Afi::Ipv4, Safi::Unicast)];
            assert(r@ =~= seq![multiprotocol::ipv4_unicast()]);
            r
        } else {
            self.multiprotocol.to_vec()
        }
    }

    /// How messages from the peer are encoded.
    pub fn receive_format(&self, session_type: Option<SessionType>) -> (r: MessageFormat)
        ensures
            r.add_path.wf(),
            self@.encodes(session_type, false, r),
    {
        let add_path = match &self.add_path {
            Some(ap) => path_mask(&ap.entries, false),
            None => AddPathMask::none(),
        };
        MessageFormat {
            use_4byte_asn: self.supports_four_octet_asn(),
            add_path,
            is_ebgp: is_external(session_type),
            enhanced_rr: self.enhanced_route_refresh,
        }
    }

    /// How messages to the peer are encoded.
    pub fn send_format(&self, session_type: Option<SessionType>) -> (r: MessageFormat)
        ensures
            r.add_path.wf(),
            self@.encodes(session_type, true, r),
    {
        let add_path = match &self.add_path {
            Some(ap) => path_mask(&ap.entries, true),
            None => AddPathMask::none(),
        };
        MessageFormat {
            use_4byte_asn: self.supports_four_octet_asn(),
            add_path,
            is_ebgp: is_external(session_type),
            enhanced_rr: self.enhanced_route_refresh,
        }
    }

    /// Whether several paths per route of the family are received.
    pub fn add_path_receive_negotiated(&self, afi_safi: &AfiSafi) -> (r: bool)
        ensures
            r == self@.receives(*afi_safi),
    {
        match &self.add_path {
            Some(ap) => {
                let l = &ap.entries;
                let mut i: usize = 0;
                while i < l.len()
                    invariant
                        i <= l@.len(),
                        self@.add_path == Some(l@),
                        forall|j: int|
                            0 <= j < i ==> !((#[trigger] l@[j]).0 == *afi_safi
                                && l@[j].1.receives()),
                    decreases l.len() - i,
                {
                    if l[i].0 == *afi_safi && l[i].1.can_receive() {
                        assert(l@[i as int].0 == *afi_safi);
                        return true;
                    }
                    i = i + 1;
                }
                false
            },
            None => false,
        }
    }

    /// Whether several paths per route are received for any family.
    pub fn add_path_receive(&self) -> (r: bool)
        ensures
            r == exists|f: AfiSafi| #[trigger] self@.receives(f),
    {
        match &self.add_path {
            Some(ap) => {
                let l = &ap.entries;
                let mut i: usize = 0;
                while i < l.len()
                    invariant
                        i <= l@.len(),
                        self@.add_path == Some(l@),
                        forall|j: int| 0 <= j < i ==> !(#[trigger] l@[j]).1.receives(),
                    decreases l.len() - i,
                {
                    if l[i].1.can_receive() {
                        assert(l@[i as int].1.receives());
                        assert(self@.receives(l@[i as int].0));
                        return true;
                    }
                    i = i + 1;
                }
                false
            },
            None => false,
        }
    }
}

fn is_external(t: Option<SessionType>) -> (r: bool)
    ensures
        r == (t == Some(SessionType::Ebgp)),
{
    match t {
        Some(SessionType::Ebgp) => true,
        _ => false,
    }
}

} // verus!
