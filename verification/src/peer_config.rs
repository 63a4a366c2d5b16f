//! The configuration of a session.

use crate::bgp::multiprotocol::{Afi, AfiSafi, Safi};
use crate::seqs;
use crate::seqs::{clone_opt_text, clone_texts, copy_items};
use vstd::prelude::*;

verus! {

/// What is done with routes over a limit.
#[derive(Debug, Clone, Copy, PartialEq, Eq, Structural)]
pub enum MaxPrefixAction {
    /// The session is shut down.
    Terminate,
    /// The routes are dropped.
    Discard,
}

/// How many routes a peer may send.
#[derive(Debug, Clone, Copy, PartialEq, Eq, Structural)]
pub struct MaxPrefixSetting {
    pub limit: u32,
    pub action: MaxPrefixAction,
}

/// Which paths of a route are sent to a peer that takes several.
#[derive(Debug, Clone, Copy, PartialEq, Eq, Structural)]
pub enum AddPathSend {
    Disabled,
    All,
}

/// Whether routes outlive a restart of the peer, and for how many seconds it
/// may restart.
#[derive(Debug, Clone, Copy, PartialEq, Eq, Structural)]
pub struct GracefulRestartConfig {
    pub enabled: bool,
    pub restart_time: u16,
}

/// Whether routes outlive the peer for long, for how many seconds and in which
/// families.
#[derive(Debug, PartialEq, Eq)]
pub struct LlgrConfig {
    pub enabled: bool,
    pub stale_time: Option<u32>,
    pub afi_safis: Option<Vec<AfiSafi>>,
}

pub struct LlgrConfigView {
    pub enabled: bool,
    pub stale_time: Option<u32>,
    pub afi_safis: Option<Seq<AfiSafi>>,
}

impl View for LlgrConfig {
    type V = LlgrConfigView;

    open spec fn view(&self) -> LlgrConfigView {
        LlgrConfigView {
            enabled: self.enabled,
            stale_time: self.stale_time,
            afi_safis: match self.afi_safis {
                Some(v) => Some(v@),
                None => None,
            },
        }
    }
}

impl Clone for LlgrConfig {
    fn clone(&self) -> (r: Self)
        ensures
            r@ == self@,
    {
        LlgrConfig {
            enabled: self.enabled,
            stale_time: self.stale_time,
            afi_safis: match &self.afi_safis {
                Some(v) => Some(copy_items(v)),
                None => None,
            },
        }
    }
}

/// What an optional long-lived configuration holds.
pub open spec fn opt_llgr(v: Option<LlgrConfig>) -> Option<LlgrConfigView> {
    match v {
        Some(x) => Some(x@),
        None => None,
    }
}

/// The settings for a family.
#[derive(Debug, PartialEq, Eq)]
pub struct AfiSafiConfig {
    pub afi: Afi,
    pub safi: Safi,
    pub max_prefix: Option<MaxPrefixSetting>,
    pub add_path_send: Option<AddPathSend>,
    pub import_policy: Vec<String>,
    pub export_policy: Vec<String>,
}

pub struct AfiSafiConfigView {
    pub afi: Afi,
    pub safi: Safi,
    pub max_prefix: Option<MaxPrefixSetting>,
    pub add_path_send: Option<AddPathSend>,
    pub import_policy: Seq<Seq<char>>,
    pub export_policy: Seq<Seq<char>>,
}

impl View for AfiSafiConfig {
    type V = AfiSafiConfigView;

    open spec fn view(&self) -> AfiSafiConfigView {
        AfiSafiConfigView {
            afi: self.afi,
            safi: self.safi,
            max_prefix: self.max_prefix,
            add_path_send: self.add_path_send,
            import_policy: seqs::views(self.import_policy@),
            export_policy: seqs::views(self.export_policy@),
        }
    }
}

impl AfiSafiConfig {
    /// A family without further settings.
    pub fn new(afi: Afi, safi: Safi) -> (r: Self)
        ensures
            r@ == (AfiSafiConfigView {
                afi,
                safi,
                max_prefix: None,
                add_path_send: None,
                import_policy: Seq::empty(),
                export_policy: Seq::empty(),
            }),
    {
        let r = AfiSafiConfig {
            afi,
            safi,
            max_prefix: None,
            add_path_send: None,
            import_policy: Vec::new(),
            export_policy: Vec::new(),
        };
        assert(r@.import_policy =~= Seq::<Seq<char>>::empty());
        assert(r@.export_policy =~= Seq::<Seq<char>>::empty());
        r
    }
}

impl Clone for AfiSafiConfig {
    fn clone(&self) -> (r: Self)
        ensures
            r@ == self@,
    {
        AfiSafiConfig {
            afi: self.afi,
            safi: self.safi,
            max_prefix: self.max_prefix,
            add_path_send: self.add_path_send,
            import_policy: clone_texts(&self.import_policy),
            export_policy: clone_texts(&self.export_policy),
        }
    }
}

/// The configuration of a session.
#[derive(Debug, PartialEq, Eq)]
pub struct PeerConfig {
    pub address: String,
    pub port: u16,
    pub asn: Option<u32>,
    pub idle_hold_time_secs: Option<u64>,
    pub damp_peer_oscillations: bool,
    pub allow_automatic_stop: bool,
    pub passive_mode: bool,
    pub delay_open_time_secs: Option<u64>,
    pub max_prefix: Option<MaxPrefixSetting>,
    pub send_notification_without_open: bool,
    pub min_route_advertisement_interval_secs: Option<u64>,
    pub graceful_restart: GracefulRestartConfig,
    pub rr_client: bool,
    pub rs_client: bool,
    pub enforce_first_as: bool,
    pub add_path_send: AddPathSend,
    pub add_path_receive: bool,
    pub md5_key_file: Option<String>,
    pub next_hop_self: bool,
    pub graceful_shutdown: bool,
    pub ttl_min: Option<u8>,
    pub llgr: Option<LlgrConfig>,
    pub send_rpki_community: bool,
    pub afi_safis: Vec<AfiSafiConfig>,
    pub interface: Option<String>,
    pub admin_down: bool,
}

pub struct PeerConfigView {
    pub address: Seq<char>,
    pub port: u16,
    pub asn: Option<u32>,
    pub idle_hold_time_secs: Option<u64>,
    pub damp_peer_oscillations: bool,
    pub allow_automatic_stop: bool,
    pub passive_mode: bool,
    pub delay_open_time_secs: Option<u64>,
    pub max_prefix: Option<MaxPrefixSetting>,
    pub send_notification_without_open: bool,
    pub min_route_advertisement_interval_secs: Option<u64>,
    pub graceful_restart: GracefulRestartConfig,
    pub rr_client: bool,
    pub rs_client: bool,
    pub enforce_first_as: bool,
    pub add_path_send: AddPathSend,
    pub add_path_receive: bool,
    pub md5_key_file: Option<Seq<char>>,
    pub next_hop_self: bool,
    pub graceful_shutdown: bool,
    pub ttl_min: Option<u8>,
    pub llgr: Option<LlgrConfigView>,
    pub send_rpki_community: bool,
    pub afi_safis: Seq<AfiSafiConfigView>,
    pub interface: Option<Seq<char>>,
    pub admin_down: bool,
}

impl View for PeerConfig {
    type V = PeerConfigView;

    open spec fn view(&self) -> PeerConfigView {
        PeerConfigView {
            address: self.address@,
            port: self.port,
            asn: self.asn,
            idle_hold_time_secs: self.idle_hold_time_secs,
            damp_peer_oscillations: self.damp_peer_oscillations,
            allow_automatic_stop: self.allow_automatic_stop,
            passive_mode: self.passive_mode,
            delay_open_time_secs: self.delay_open_time_secs,
            max_prefix: self.max_prefix,
            send_notification_without_open: self.send_notification_without_open,
            min_route_advertisement_interval_secs: self.min_route_advertisement_interval_secs,
            graceful_restart: self.graceful_restart,
            rr_client: self.rr_client,
            rs_client: self.rs_client,
            enforce_first_as: self.enforce_first_as,
            add_path_send: self.add_path_send,
            add_path_receive: self.add_path_receive,
            md5_key_file: seqs::opt_text(self.md5_key_file),
            next_hop_self: self.next_hop_self,
            graceful_shutdown: self.graceful_shutdown,
            ttl_min: self.ttl_min,
            llgr: opt_llgr(self.llgr),
            send_rpki_community: self.send_rpki_community,
            afi_safis: seqs::views(self.afi_safis@),
            interface: seqs::opt_text(self.interface),
            admin_down: self.admin_down,
        }
    }
}

/// The configuration that nothing was said about.
pub open spec fn default_peer_config() -> PeerConfigView {
    PeerConfigView {
        address: Seq::empty(),
        port: 179,
        asn: None,
        idle_hold_time_secs: Some(30),
        damp_peer_oscillations: true,
        allow_automatic_stop: true,
        passive_mode: false,
        delay_open_time_secs: None,
        max_prefix: None,
        send_notification_without_open: false,
        min_route_advertisement_interval_secs: None,
        graceful_restart: GracefulRestartConfig { enabled: true, restart_time: 120 },
        rr_client: false,
        rs_client: false,
        enforce_first_as: true,
        add_path_send: AddPathSend::Disabled,
        add_path_receive: false,
        md5_key_file: None,
        next_hop_self: false,
        graceful_shutdown: false,
        ttl_min: None,
        llgr: None,
        send_rpki_community: false,
        afi_safis: Seq::empty(),
        interface: None,
        admin_down: false,
    }
}

impl Default for PeerConfig {
    fn default() -> (r: Self)
        ensures
            r@ == default_peer_config(),
    {
        let r = PeerConfig {
            address: String::new(),
            port: 179,
            asn: None,
            idle_hold_time_secs: Some(30),
            damp_peer_oscillations: true,
            allow_automatic_stop: true,
            passive_mode: false,
            delay_open_time_secs: None,
            max_prefix: None,
            send_notification_without_open: false,
            min_route_advertisement_interval_secs: None,
            graceful_restart: GracefulRestartConfig { enabled: true, restart_time: 120 },
            rr_client: false,
            rs_client: false,
            enforce_first_as: true,
            add_path_send: AddPathSend::Disabled,
            add_path_receive: false,
            md5_key_file: None,
            next_hop_self: false,
            graceful_shutdown: false,
            ttl_min: None,
            llgr: None,
            send_rpki_community: false,
            afi_safis: Vec::new(),
            interface: None,
            admin_down: false,
        };
        assert(r@.afi_safis =~= Seq::<AfiSafiConfigView>::empty());
        assert(r@.address =~= Seq::<char>::empty());
        r
    }
}

/// The families of settings, in their order.
pub open spec fn families_of(s: Seq<AfiSafiConfigView>) -> Seq<AfiSafi> {
    Seq::new(s.len(), |i: int| AfiSafi { afi: s[i].afi, safi: s[i].safi })
}

fn clone_families(v: &Vec<AfiSafiConfig>) -> (r: Vec<AfiSafiConfig>)
    ensures
        seqs::views(r@) == seqs::views(v@),
{
    let ghost all = seqs::views(v@);
    let mut r: Vec<AfiSafiConfig> = Vec::new();
    let mut i: usize = 0;
    while i < v.len()
        invariant
            i <= v@.len(),
            all == seqs::views(v@),
            seqs::views(r@) == all.take(i as int),
        decreases v.len() - i,
    {
        let x = v[i].clone();
        proof {
            seqs::lemma_views_push(r@, x);
            seqs::lemma_take_next(all, i as int);
        }
        r.push(x);
        i = i + 1;
    }
    proof {
        seqs::lemma_take_all(all);
    }
    r
}

impl Clone for PeerConfig {
    fn clone(&self) -> (r: Self)
        ensures
            r@ == self@,
    {
        PeerConfig {
            address: self.address.clone(),
            port: self.port,
            asn: self.asn,
            idle_hold_time_secs: self.idle_hold_time_secs,
            damp_peer_oscillations: self.damp_peer_oscillations,
            allow_automatic_stop: self.allow_automatic_stop,
            passive_mode: self.passive_mode,
            delay_open_time_secs: self.delay_open_time_secs,
            max_prefix: self.max_prefix,
            send_notification_without_open: self.send_notification_without_open,
            min_route_advertisement_interval_secs: self.min_route_advertisement_interval_secs,
            graceful_restart: self.graceful_restart,
            rr_client: self.rr_client,
            rs_client: self.rs_client,
            enforce_first_as: self.enforce_first_as,
            add_path_send: self.add_path_send,
            add_path_receive: self.add_path_receive,
            md5_key_file: clone_opt_text(&self.md5_key_file),
            next_hop_self: self.next_hop_self,
            graceful_shutdown: self.graceful_shutdown,
            ttl_min: self.ttl_min,
            llgr: match &self.llgr {
                Some(x) => Some(x.clone()),
                None => None,
            },
            send_rpki_community: self.send_rpki_community,
            afi_safis: clone_families(&self.afi_safis),
            interface: clone_opt_text(&self.interface),
            admin_down: self.admin_down,
        }
    }
}

impl PeerConfig {
    /// The families that are configured, in their order.
    pub fn afi_safi_list(&self) -> (r: Vec<AfiSafi>)
        ensures
            r@ == families_of(self@.afi_safis),
    {
        let mut r: Vec<AfiSafi> = Vec::new();
        let mut i: usize = 0;
        while i < self.afi_safis.len()
            invariant
                i <= self.afi_safis@.len(),
                r@ == families_of(seqs::views(self.afi_safis@)).take(i as int),
            decreases self.afi_safis.len() - i,
        {
            r.push(AfiSafi::new(self.afi_safis[i].afi, self.afi_safis[i].safi));
            proof {
                seqs::lemma_take_next(families_of(seqs::views(self.afi_safis@)), i as int);
            }
            i = i + 1;
        }
        proof {
            seqs::lemma_take_all(families_of(self@.afi_safis));
        }
        r
    }
}

} // verus!
