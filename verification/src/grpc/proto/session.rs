//! The configuration of a session in messages.

use crate::conf;
use crate::seqs;
use vstd::prelude::*;

verus! {

/// How many routes a peer may send. The action is a number: 1 to drop the routes
/// over the limit.
#[derive(Debug, Clone, Copy, PartialEq, Eq, Structural)]
pub struct MaxPrefixSetting {
    pub limit: u32,
    pub action: i32,
}

#[derive(Debug, Clone, Copy, PartialEq, Eq, Structural)]
pub struct GracefulRestartConfig {
    pub enabled: Option<bool>,
    pub restart_time_secs: Option<u32>,
}

/// A family by its numbers.
#[derive(Debug, Clone, Copy, PartialEq, Eq, Structural)]
pub struct AfiSafi {
    pub afi: u32,
    pub safi: u32,
}

/// Whether routes outlive the peer for long, for how many seconds and in which
/// families.
#[derive(Debug, PartialEq, Eq)]
pub struct LlgrConfig {
    pub enabled: Option<bool>,
    pub stale_time_secs: Option<u32>,
    pub afi_safis: Vec<AfiSafi>,
}

pub struct LlgrConfigView {
    pub enabled: Option<bool>,
    pub stale_time_secs: Option<u32>,
    pub afi_safis: Seq<AfiSafi>,
}

impl View for LlgrConfig {
    type V = LlgrConfigView;

    open spec fn view(&self) -> LlgrConfigView {
        LlgrConfigView {
            enabled: self.enabled,
            stale_time_secs: self.stale_time_secs,
            afi_safis: self.afi_safis@,
        }
    }
}

/// The settings for a family.
#[derive(Debug, PartialEq, Eq)]
pub struct AfiSafiConfig {
    pub afi: u32,
    pub safi: u32,
    pub max_prefix: Option<MaxPrefixSetting>,
    pub add_path_send: Option<i32>,
    pub import_policy: Vec<String>,
    pub export_policy: Vec<String>,
}

pub struct AfiSafiConfigView {
    pub afi: u32,
    pub safi: u32,
    pub max_prefix: Option<MaxPrefixSetting>,
    pub add_path_send: Option<i32>,
    pub import_policy: Seq<Seq<char>>,
    pub export_policy: Seq<Seq<char>>,
}

impl View for AfiSafiConfig {
    type V = AfiSafiConfigView;

    open spec fn view(&self) -> AfiSafiConfigView {
        AfiSafiConfigView {
            afi: self.afi,
            safi: self.safi,
            max_prefix: self.max_prefix,
            add_path_send: self.add_path_send,
            import_policy: seqs::views(self.import_policy@),
            export_policy: seqs::views(self.export_policy@),
        }
    }
}

/// The configuration of a session; what is missing is as by default.
#[derive(Debug, PartialEq, Eq)]
pub struct SessionConfig {
    pub idle_hold_time_secs: Option<u64>,
    pub damp_peer_oscillations: Option<bool>,
    pub allow_automatic_stop: Option<bool>,
    pub passive_mode: Option<bool>,
    pub delay_open_time_secs: Option<u64>,
    pub max_prefix: Option<MaxPrefixSetting>,
    pub send_notification_without_open: Option<bool>,
    pub min_route_advertisement_interval_secs: Option<u64>,
    pub graceful_restart: Option<GracefulRestartConfig>,
    pub port: Option<u32>,
    pub rr_client: Option<bool>,
    pub rs_client: Option<bool>,
    pub add_path_send: Option<i32>,
    pub add_path_receive: Option<bool>,
    pub asn: Option<u32>,
    pub enforce_first_as: Option<bool>,
    pub md5_key_file: Option<String>,
    pub next_hop_self: Option<bool>,
    pub graceful_shutdown: Option<bool>,
    pub ttl_min: Option<u32>,
    pub llgr: Option<LlgrConfig>,
    pub send_rpki_community: Option<bool>,
    pub interface: Option<String>,
    pub afi_safis: Vec<AfiSafiConfig>,
}

pub struct SessionConfigView {
    pub idle_hold_time_secs: Option<u64>,
    pub damp_peer_oscillations: Option<bool>,
    pub allow_automatic_stop: Option<bool>,
    pub passive_mode: Option<bool>,
    pub delay_open_time_secs: Option<u64>,
    pub max_prefix: Option<MaxPrefixSetting>,
    pub send_notification_without_open: Option<bool>,
    pub min_route_advertisement_interval_secs: Option<u64>,
    pub graceful_restart: Option<GracefulRestartConfig>,
    pub port: Option<u32>,
    pub rr_client: Option<bool>,
    pub rs_client: Option<bool>,
    pub add_path_send: Option<i32>,
    pub add_path_receive: Option<bool>,
    pub asn: Option<u32>,
    pub enforce_first_as: Option<bool>,
    pub md5_key_file: Option<Seq<char>>,
    pub next_hop_self: Option<bool>,
    pub graceful_shutdown: Option<bool>,
    pub ttl_min: Option<u32>,
    pub llgr: Option<LlgrConfigView>,
    pub send_rpki_community: Option<bool>,
    pub interface: Option<Seq<char>>,
    pub afi_safis: Seq<AfiSafiConfigView>,
}

impl View for SessionConfig {
    type V = SessionConfigView;

    open spec fn view(&self) -> SessionConfigView {
        SessionConfigView {
            idle_hold_time_secs: self.idle_hold_time_secs,
            damp_peer_oscillations: self.damp_peer_oscillations,
            allow_automatic_stop: self.allow_automatic_stop,
            passive_mode: self.passive_mode,
            delay_open_time_secs: self.delay_open_time_secs,
            max_prefix: self.max_prefix,
            send_notification_without_open: self.send_notification_without_open,
            min_route_advertisement_interval_secs: self.min_route_advertisement_interval_secs,
            graceful_restart: self.graceful_restart,
            port: self.port,
            rr_client: self.rr_client,
            rs_client: self.rs_client,
            add_path_send: self.add_path_send,
            add_path_receive: self.add_path_receive,
            asn: self.asn,
            enforce_first_as: self.enforce_first_as,
            md5_key_file: seqs::opt_text(self.md5_key_file),
            next_hop_self: self.next_hop_self,
            graceful_shutdown: self.graceful_shutdown,
            ttl_min: self.ttl_min,
            llgr: conf::opt_view(self.llgr),
            send_rpki_community: self.send_rpki_community,
            interface: seqs::opt_text(self.interface),
            afi_safis: seqs::views(self.afi_safis@),
        }
    }
}

/// A message that says nothing.
pub open spec fn nothing_said() -> SessionConfigView {
    SessionConfigView {
        idle_hold_time_secs: None,
        damp_peer_oscillations: None,
        allow_automatic_stop: None,
        passive_mode: None,
        delay_open_time_secs: None,
        max_prefix: None,
        send_notification_without_open: None,
        min_route_advertisement_interval_secs: None,
        graceful_restart: None,
        port: None,
        rr_client: None,
        rs_client: None,
        add_path_send: None,
        add_path_receive: None,
        asn: None,
        enforce_first_as: None,
        md5_key_file: None,
        next_hop_self: None,
        graceful_shutdown: None,
        ttl_min: None,
        llgr: None,
        send_rpki_community: None,
        interface: None,
        afi_safis: Seq::empty(),
    }
}

impl Default for SessionConfig {
    fn default() -> (r: Self)
        ensures
            r@ == nothing_said(),
    {
        let r = SessionConfig {
            idle_hold_time_secs: None,
            damp_peer_oscillations: None,
            allow_automatic_stop: None,
            passive_mode: None,
            delay_open_time_secs: None,
            max_prefix: None,
            send_notification_without_open: None,
            min_route_advertisement_interval_secs: None,
            graceful_restart: None,
            port: None,
            rr_client: None,
            rs_client: None,
            add_path_send: None,
            add_path_receive: None,
            asn: None,
            enforce_first_as: None,
            md5_key_file: None,
            next_hop_self: None,
            graceful_shutdown: None,
            ttl_min: None,
            llgr: None,
            send_rpki_community: None,
            interface: None,
            afi_safis: Vec::new(),
        };
        assert(r@.afi_safis =~= Seq::empty());
        r
    }
}

} // verus!
