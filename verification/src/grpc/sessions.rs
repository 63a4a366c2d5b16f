//! The configuration of sessions, of messages and in the library.

use crate::bgp::multiprotocol;
use crate::bgp::multiprotocol::{Afi, AfiSafi, Safi};
use crate::conf;
use crate::grpc::proto::session as messages;
use crate::peer_config;
use crate::peer_config::{
    AddPathSend, AfiSafiConfig, AfiSafiConfigView, GracefulRestartConfig, LlgrConfig,
    LlgrConfigView, MaxPrefixAction, MaxPrefixSetting, PeerConfig, PeerConfigView,
};
use crate::seqs;
use crate::seqs::{clone_opt_text, clone_texts};
use crate::text;
use crate::text::{cat2, render_decimal};
use vstd::prelude::*;

verus! {

// ---------------------------------------------------------------------------
// Families
// ---------------------------------------------------------------------------

/// The family with the numbers of a message, of which the low bits count. What
/// is unknown is told behind `prefix`.
pub open spec fn read_family(prefix: Seq<char>, afi: u32, safi: u32) -> Result<AfiSafi, Seq<char>> {
    match multiprotocol::afi_of_code(afi as u16) {
        None => Err(prefix + "unknown AFI "@ + text::decimal(afi as nat)),
        Some(a) => match multiprotocol::safi_of_code(safi as u8) {
            None => Err(prefix + "unknown SAFI "@ + text::decimal(safi as nat)),
            Some(s) => Ok(AfiSafi { afi: a, safi: s }),
        },
    }
}

pub(crate) fn family_from_proto(prefix: &str, afi: u32, safi: u32) -> (r: Result<AfiSafi, String>)
    ensures
        conf::plain_result(r) == read_family(prefix@, afi, safi),
{
    match Afi::from_code(afi as u16) {
        None => Err(
            cat2(cat2(prefix, "unknown AFI ").as_str(), render_decimal(afi as u64).as_str()),
        ),
        Some(a) => match Safi::from_code(safi as u8) {
            None => Err(
                cat2(cat2(prefix, "unknown SAFI ").as_str(), render_decimal(safi as u64).as_str()),
            ),
            Some(s) => Ok(AfiSafi::new(a, s)),
        },
    }
}

/// A family of the long-lived configuration.
pub open spec fn llgr_family() -> spec_fn(messages::AfiSafi) -> Result<AfiSafi, Seq<char>> {
    |e: messages::AfiSafi| read_family("LLGR: "@, e.afi, e.safi)
}

/// The long-lived configuration that a message describes. It is on where nothing
/// else is said, and an empty list stands for all families.
pub open spec fn read_llgr(
    m: Option<messages::LlgrConfigView>,
) -> Result<Option<LlgrConfigView>, Seq<char>> {
    match m {
        None => Ok(None),
        Some(x) => match conf::read_all(x.afi_safis, llgr_family()) {
            Err(e) => Err(e),
            Ok(l) => Ok(
                Some(
                    LlgrConfigView {
                        enabled: or(x.enabled, true),
                        stale_time: x.stale_time_secs,
                        afi_safis: if x.afi_safis.len() == 0 {
                            None
                        } else {
                            Some(l)
                        },
                    },
                ),
            ),
        },
    }
}

/// A value, or what stands for it where it is missing.
pub open spec fn or<T>(x: Option<T>, default: T) -> T {
    match x {
        Some(v) => v,
        None => default,
    }
}

/// What a long-lived configuration, or the reason why there is none, holds.
pub open spec fn llgr_result(r: Result<Option<LlgrConfig>, String>) -> Result<
    Option<LlgrConfigView>,
    Seq<char>,
> {
    match r {
        Ok(x) => Ok(peer_config::opt_llgr(x)),
        Err(e) => Err(e@),
    }
}

pub fn proto_to_llgr_config(proto: Option<messages::LlgrConfig>) -> (r: Result<
    Option<LlgrConfig>,
    String,
>)
    ensures
        llgr_result(r) == read_llgr(conf::opt_view(proto)),
{
    let llgr = match proto {
        Some(x) => x,
        None => {
            return Ok(None);
        },
    };
    let entries = &llgr.afi_safis;
    let ghost all = entries@;
    let ghost f = llgr_family();
    let mut parsed: Vec<AfiSafi> = Vec::new();
    let mut i: usize = 0;
    while i < entries.len()
        invariant
            i <= entries@.len(),
            all == entries@,
            f == llgr_family(),
            llgr@.afi_safis == all,
            proto == Some(llgr),
            conf::read_all(all.take(i as int), f) == Ok::<Seq<AfiSafi>, Seq<char>>(parsed@),
        decreases entries.len() - i,
    {
        proof {
            conf::lemma_read_all_next(all, f, i as int);
        }
        match family_from_proto("LLGR: ", entries[i].afi, entries[i].safi) {
            Ok(x) => {
                parsed.push(x);
            },
            Err(e) => {
                proof {
                    conf::lemma_read_all_error(all, f, i + 1);
                }
                return Err(e);
            },
        }
        i = i + 1;
    }
    proof {
        seqs::lemma_take_all(all);
    }
    let afi_safis = if entries.len() == 0 {
        None
    } else {
        Some(parsed)
    };
    Ok(
        Some(
            LlgrConfig {
                enabled: llgr.enabled.unwrap_or(true),
                stale_time: llgr.stale_time_secs,
                afi_safis,
            },
        ),
    )
}

/// What is done with routes over a limit: dropping them is number 1, and any
/// other number ends the session.
pub open spec fn read_max_prefix(m: Option<messages::MaxPrefixSetting>) -> Option<
    MaxPrefixSetting,
> {
    match m {
        Some(x) => Some(
            MaxPrefixSetting {
                limit: x.limit,
                action: if x.action == 1 {
                    MaxPrefixAction::Discard
                } else {
                    MaxPrefixAction::Terminate
                },
            },
        ),
        None => None,
    }
}

fn max_prefix_from_proto(m: Option<messages::MaxPrefixSetting>) -> (r: Option<MaxPrefixSetting>)
    ensures
        r == read_max_prefix(m),
{
    match m {
        Some(x) => Some(
            MaxPrefixSetting {
                limit: x.limit,
                action: if x.action == 1 {
                    MaxPrefixAction::Discard
                } else {
                    MaxPrefixAction::Terminate
                },
            },
        ),
        None => None,
    }
}

/// Which paths are sent in a family: a number that there is not says nothing.
pub open spec fn read_family_add_path(v: Option<i32>) -> Option<AddPathSend> {
    match v {
        Some(0) => Some(AddPathSend::Disabled),
        Some(1) => Some(AddPathSend::All),
        _ => None,
    }
}

/// The settings for a family that a message describes.
pub open spec fn read_family_config(m: messages::AfiSafiConfigView) -> Result<
    AfiSafiConfigView,
    Seq<char>,
> {
    match read_family(Seq::empty(), m.afi, m.safi) {
        Err(e) => Err(e),
        Ok(family) => Ok(
            AfiSafiConfigView {
                afi: family.afi,
                safi: family.safi,
                max_prefix: read_max_prefix(m.max_prefix),
                add_path_send: read_family_add_path(m.add_path_send),
                import_policy: m.import_policy,
                export_policy: m.export_policy,
            },
        ),
    }
}

pub open spec fn family_reader() -> spec_fn(messages::AfiSafiConfigView) -> Result<
    AfiSafiConfigView,
    Seq<char>,
> {
    |m: messages::AfiSafiConfigView| read_family_config(m)
}

fn family_config_from_proto(m: &messages::AfiSafiConfig) -> (r: Result<AfiSafiConfig, String>)
    ensures
        conf::result_view(r) == read_family_config(m@),
{
    proof {
        reveal_strlit("");
        assert(""@ =~= Seq::<char>::empty());
    }
    let family = match family_from_proto("", m.afi, m.safi) {
        Ok(x) => x,
        Err(e) => {
            return Err(e);
        },
    };
    let add_path_send = match m.add_path_send {
        Some(0) => Some(AddPathSend::Disabled),
        Some(1) => Some(AddPathSend::All),
        _ => None,
    };
    Ok(
        AfiSafiConfig {
            afi: family.afi,
            safi: family.safi,
            max_prefix: max_prefix_from_proto(m.max_prefix),
            add_path_send,
            import_policy: clone_texts(&m.import_policy),
            export_policy: clone_texts(&m.export_policy),
        },
    )
}

pub fn proto_to_afi_safis(entries: &Vec<messages::AfiSafiConfig>) -> (r: Result<
    Vec<AfiSafiConfig>,
    String,
>)
    ensures
        conf::list_result(r) == conf::read_all(seqs::views(entries@), family_reader()),
{
    let ghost all = seqs::views(entries@);
    let ghost f = family_reader();
    let mut out: Vec<AfiSafiConfig> = Vec::new();
    assert(seqs::views(out@) =~= Seq::<AfiSafiConfigView>::empty());
    let mut i: usize = 0;
    while i < entries.len()
        invariant
            i <= entries@.len(),
            all == seqs::views(entries@),
            f == family_reader(),
            conf::read_all(all.take(i as int), f) == Ok::<Seq<AfiSafiConfigView>, Seq<char>>(
                seqs::views(out@),
            ),
        decreases entries.len() - i,
    {
        proof {
            conf::lemma_read_all_next(all, f, i as int);
        }
        match family_config_from_proto(&entries[i]) {
            Ok(x) => {
                proof {
                    seqs::lemma_views_push(out@, x);
                }
                out.push(x);
            },
            Err(e) => {
                proof {
                    conf::lemma_read_all_error(all, f, i + 1);
                }
                return Err(e);
            },
        }
        i = i + 1;
    }
    proof {
        seqs::lemma_take_all(all);
    }
    Ok(out)
}

// ---------------------------------------------------------------------------
// From messages
// ---------------------------------------------------------------------------

/// The restart configuration that a message describes.
pub open spec fn read_graceful_restart(
    m: Option<messages::GracefulRestartConfig>,
) -> GracefulRestartConfig {
    let d = peer_config::default_peer_config().graceful_restart;
    match m {
        Some(x) => GracefulRestartConfig {
            enabled: or(x.enabled, d.enabled),
            restart_time: match x.restart_time_secs {
                Some(t) => t as u16,
                None => d.restart_time,
            },
        },
        None => d,
    }
}

fn graceful_restart_from_proto(m: Option<messages::GracefulRestartConfig>) -> (r:
    GracefulRestartConfig)
    ensures
        r == read_graceful_restart(m),
{
    let d = PeerConfig::default().graceful_restart;
    match m {
        Some(x) => GracefulRestartConfig {
            enabled: x.enabled.unwrap_or(d.enabled),
            restart_time: match x.restart_time_secs {
                Some(t) => t as u16,
                None => d.restart_time,
            },
        },
        None => d,
    }
}

/// Which paths are sent: all for number 1, and the best one for any other.
pub open spec fn read_add_path(v: Option<i32>) -> AddPathSend {
    match v {
        Some(1) => AddPathSend::All,
        Some(_) => AddPathSend::Disabled,
        None => peer_config::default_peer_config().add_path_send,
    }
}

fn add_path_from_proto(v: Option<i32>) -> (r: AddPathSend)
    ensures
        r == read_add_path(v),
{
    match v {
        Some(1) => AddPathSend::All,
        _ => AddPathSend::Disabled,
    }
}

/// The configuration with what a message says; what it does not say is as by
/// default.
pub open spec fn configured(
    m: messages::SessionConfigView,
    llgr: Option<LlgrConfigView>,
    afi_safis: Seq<AfiSafiConfigView>,
) -> PeerConfigView {
    let d = peer_config::default_peer_config();
    PeerConfigView {
        address: d.address,
        port: match m.port {
            Some(p) => p as u16,
            None => d.port,
        },
        asn: m.asn,
        idle_hold_time_secs: match m.idle_hold_time_secs {
            Some(t) => Some(t),
            None => d.idle_hold_time_secs,
        },
        damp_peer_oscillations: or(m.damp_peer_oscillations, d.damp_peer_oscillations),
        allow_automatic_stop: or(m.allow_automatic_stop, d.allow_automatic_stop),
        passive_mode: or(m.passive_mode, d.passive_mode),
        delay_open_time_secs: m.delay_open_time_secs,
        max_prefix: read_max_prefix(m.max_prefix),
        send_notification_without_open: or(
            m.send_notification_without_open,
            d.send_notification_without_open,
        ),
        min_route_advertisement_interval_secs: m.min_route_advertisement_interval_secs,
        graceful_restart: read_graceful_restart(m.graceful_restart),
        rr_client: or(m.rr_client, d.rr_client),
        rs_client: or(m.rs_client, d.rs_client),
        enforce_first_as: or(m.enforce_first_as, d.enforce_first_as),
        add_path_send: read_add_path(m.add_path_send),
        add_path_receive: or(m.add_path_receive, d.add_path_receive),
        md5_key_file: m.md5_key_file,
        next_hop_self: or(m.next_hop_self, d.next_hop_self),
        graceful_shutdown: or(m.graceful_shutdown, d.graceful_shutdown),
        ttl_min: match m.ttl_min {
            Some(t) => Some(t as u8),
            None => d.ttl_min,
        },
        llgr: llgr,
        send_rpki_community: or(m.send_rpki_community, d.send_rpki_community),
        afi_safis: afi_safis,
        interface: m.interface,
        admin_down: d.admin_down,
    }
}

/// The configuration that a message describes.
pub open spec fn read_session(m: Option<messages::SessionConfigView>) -> Result<
    PeerConfigView,
    Seq<char>,
> {
    match m {
        None => Ok(peer_config::default_peer_config()),
        Some(x) => match read_llgr(x.llgr) {
            Err(e) => Err(e),
            Ok(llgr) => match conf::read_all(x.afi_safis, family_reader()) {
                Err(e) => Err(e),
                Ok(afi_safis) => Ok(configured(x, llgr, afi_safis)),
            },
        },
    }
}

/// The configuration that a message describes.
pub fn proto_to_peer_config(proto: Option<messages::SessionConfig>) -> (r: Result<
    PeerConfig,
    String,
>)
    ensures
        conf::result_view(r) == read_session(conf::opt_view(proto)),
{
    let d = PeerConfig::default();
    let cfg = match proto {
        Some(x) => x,
        None => {
            return Ok(d);
        },
    };
    let ghost said = cfg@;
    let llgr = match proto_to_llgr_config(cfg.llgr) {
        Ok(x) => x,
        Err(e) => {
            return Err(e);
        },
    };
    let afi_safis = match proto_to_afi_safis(&cfg.afi_safis) {
        Ok(x) => x,
        Err(e) => {
            return Err(e);
        },
    };
    let ghost llgr_view = peer_config::opt_llgr(llgr);
    let ghost families_view = seqs::views(afi_safis@);
    let r = PeerConfig {
        address: String::new(),
        port: match cfg.port {
            Some(p) => p as u16,
            None => d.port,
        },
        asn: cfg.asn,
        idle_hold_time_secs: match cfg.idle_hold_time_secs {
            Some(t) => Some(t),
            None => d.idle_hold_time_secs,
        },
        damp_peer_oscillations: cfg.damp_peer_oscillations.unwrap_or(d.damp_peer_oscillations),
        allow_automatic_stop: cfg.allow_automatic_stop.unwrap_or(d.allow_automatic_stop),
        passive_mode: cfg.passive_mode.unwrap_or(d.passive_mode),
        delay_open_time_secs: cfg.delay_open_time_secs,
        max_prefix: max_prefix_from_proto(cfg.max_prefix),
        send_notification_without_open: cfg.send_notification_without_open.unwrap_or(
            d.send_notification_without_open,
        ),
        min_route_advertisement_interval_secs: cfg.min_route_advertisement_interval_secs,
        graceful_restart: graceful_restart_from_proto(cfg.graceful_restart),
        rr_client: cfg.rr_client.unwrap_or(d.rr_client),
        rs_client: cfg.rs_client.unwrap_or(d.rs_client),
        enforce_first_as: cfg.enforce_first_as.unwrap_or(d.enforce_first_as),
        add_path_send: add_path_from_proto(cfg.add_path_send),
        add_path_receive: cfg.add_path_receive.unwrap_or(d.add_path_receive),
        md5_key_file: cfg.md5_key_file,
        next_hop_self: cfg.next_hop_self.unwrap_or(d.next_hop_self),
        graceful_shutdown: cfg.graceful_shutdown.unwrap_or(d.graceful_shutdown),
        ttl_min: match cfg.ttl_min {
            Some(t) => Some(t as u8),
            None => d.ttl_min,
        },
        llgr: llgr,
        send_rpki_community: cfg.send_rpki_community.unwrap_or(d.send_rpki_community),
        afi_safis: afi_safis,
        interface: cfg.interface,
        admin_down: d.admin_down,
    };
    assert(r@.address =~= peer_config::default_peer_config().address);
    assert(r@ == configured(said, llgr_view, families_view));
    Ok(r)
}

// ---------------------------------------------------------------------------
// Into messages
// ---------------------------------------------------------------------------

/// The message of a limit.
pub open spec fn max_prefix_message(
    s: Option<MaxPrefixSetting>,
) -> Option<messages::MaxPrefixSetting> {
    match s {
        Some(x) => Some(
            messages::MaxPrefixSetting {
                limit: x.limit,
                action: match x.action {
                    MaxPrefixAction::Terminate => 0,
                    MaxPrefixAction::Discard => 1,
                },
            },
        ),
        None => None,
    }
}

fn max_prefix_to_proto(s: Option<MaxPrefixSetting>) -> (r: Option<messages::MaxPrefixSetting>)
    ensures
        r == max_prefix_message(s),
{
    match s {
        Some(x) => Some(
            messages::MaxPrefixSetting {
                limit: x.limit,
                action: match x.action {
                    MaxPrefixAction::Terminate => 0,
                    MaxPrefixAction::Discard => 1,
                },
            },
        ),
        None => None,
    }
}

/// The number that tells which paths are sent.
pub open spec fn add_path_number(s: AddPathSend) -> i32 {
    match s {
        AddPathSend::Disabled => 0,
        AddPathSend::All => 1,
    }
}

fn add_path_to_proto(s: AddPathSend) -> (r: i32)
    ensures
        r == add_path_number(s),
{
    match s {
        AddPathSend::Disabled => 0,
        AddPathSend::All => 1,
    }
}

/// The numbers of a family.
pub open spec fn family_numbers(x: AfiSafi) -> messages::AfiSafi {
    messages::AfiSafi { afi: x.afi.code_spec() as u32, safi: x.safi.code_spec() as u32 }
}

pub open spec fn all_family_numbers(s: Seq<AfiSafi>) -> Seq<messages::AfiSafi> {
    Seq::new(s.len(), |i: int| family_numbers(s[i]))
}

fn families_to_proto(v: &Vec<AfiSafi>) -> (r: Vec<messages::AfiSafi>)
    ensures
        r@ == all_family_numbers(v@),
{
    let ghost all = all_family_numbers(v@);
    let mut r: Vec<messages::AfiSafi> = Vec::new();
    let mut i: usize = 0;
    while i < v.len()
        invariant
            i <= v@.len(),
            all == all_family_numbers(v@),
            r@ == all.take(i as int),
        decreases v.len() - i,
    {
        r.push(
            messages::AfiSafi { afi: v[i].afi.code() as u32, safi: v[i].safi.code() as u32 },
        );
        proof {
            seqs::lemma_take_next(all, i as int);
        }
        i = i + 1;
    }
    proof {
        seqs::lemma_take_all(all);
    }
    r
}

/// The message of a long-lived configuration.
pub open spec fn llgr_message(c: Option<LlgrConfigView>) -> Option<messages::LlgrConfigView> {
    match c {
        Some(x) => Some(
            messages::LlgrConfigView {
                enabled: Some(x.enabled),
                stale_time_secs: x.stale_time,
                afi_safis: match x.afi_safis {
                    Some(l) => all_family_numbers(l),
                    None => Seq::empty(),
                },
            },
        ),
        None => None,
    }
}

fn llgr_to_proto(c: &Option<LlgrConfig>) -> (r: Option<messages::LlgrConfig>)
    ensures
        conf::opt_view(r) == llgr_message(peer_config::opt_llgr(*c)),
{
    match c {
        Some(x) => {
            let afi_safis = match &x.afi_safis {
                Some(l) => families_to_proto(l),
                None => Vec::new(),
            };
            Some(
                messages::LlgrConfig {
                    enabled: Some(x.enabled),
                    stale_time_secs: x.stale_time,
                    afi_safis,
                },
            )
        },
        None => None,
    }
}

/// The message of the settings for a family.
pub open spec fn family_message(c: AfiSafiConfigView) -> messages::AfiSafiConfigView {
    messages::AfiSafiConfigView {
        afi: c.afi.code_spec() as u32,
        safi: c.safi.code_spec() as u32,
        max_prefix: max_prefix_message(c.max_prefix),
        add_path_send: match c.add_path_send {
            Some(x) => Some(add_path_number(x)),
            None => None,
        },
        import_policy: c.import_policy,
        export_policy: c.export_policy,
    }
}

pub open spec fn family_messages(s: Seq<AfiSafiConfigView>) -> Seq<messages::AfiSafiConfigView> {
    Seq::new(s.len(), |i: int| family_message(s[i]))
}

fn family_configs_to_proto(v: &Vec<AfiSafiConfig>) -> (r: Vec<messages::AfiSafiConfig>)
    ensures
        seqs::views(r@) == family_messages(seqs::views(v@)),
{
    let ghost all = family_messages(seqs::views(v@));
    let mut r: Vec<messages::AfiSafiConfig> = Vec::new();
    let mut i: usize = 0;
    while i < v.len()
        invariant
            i <= v@.len(),
            all == family_messages(seqs::views(v@)),
            seqs::views(r@) == all.take(i as int),
        decreases v.len() - i,
    {
        let add_path_send: Option<i32> = match v[i].add_path_send {
            Some(x) => Some(add_path_to_proto(x)),
            None => None,
        };
        let x = messages::AfiSafiConfig {
            afi: v[i].afi.code() as u32,
            safi: v[i].safi.code() as u32,
            max_prefix: max_prefix_to_proto(v[i].max_prefix),
            add_path_send,
            import_policy: clone_texts(&v[i].import_policy),
            export_policy: clone_texts(&v[i].export_policy),
        };
        proof {
            seqs::lemma_views_push(r@, x);
            seqs::lemma_take_next(all, i as int);
        }
        r.push(x);
        i = i + 1;
    }
    proof {
        seqs::lemma_take_all(all);
    }
    r
}

/// The message of a configuration.
pub open spec fn session_message(c: PeerConfigView) -> messages::SessionConfigView {
    messages::SessionConfigView {
        idle_hold_time_secs: c.idle_hold_time_secs,
        damp_peer_oscillations: Some(c.damp_peer_oscillations),
        allow_automatic_stop: Some(c.allow_automatic_stop),
        passive_mode: Some(c.passive_mode),
        delay_open_time_secs: c.delay_open_time_secs,
        max_prefix: max_prefix_message(c.max_prefix),
        send_notification_without_open: Some(c.send_notification_without_open),
        min_route_advertisement_interval_secs: c.min_route_advertisement_interval_secs,
        graceful_restart: Some(
            messages::GracefulRestartConfig {
                enabled: Some(c.graceful_restart.enabled),
                restart_time_secs: Some(c.graceful_restart.restart_time as u32),
            },
        ),
        port: Some(c.port as u32),
        rr_client: Some(c.rr_client),
        rs_client: Some(c.rs_client),
        add_path_send: Some(add_path_number(c.add_path_send)),
        add_path_receive: Some(c.add_path_receive),
        asn: c.asn,
        enforce_first_as: Some(c.enforce_first_as),
        md5_key_file: c.md5_key_file,
        next_hop_self: Some(c.next_hop_self),
        graceful_shutdown: Some(c.graceful_shutdown),
        ttl_min: match c.ttl_min {
            Some(t) => Some(t as u32),
            None => None,
        },
        llgr: llgr_message(c.llgr),
        send_rpki_community: Some(c.send_rpki_community),
        interface: c.interface,
        afi_safis: family_messages(c.afi_safis),
    }
}

/// The message of a configuration.
pub fn peer_config_to_proto(config: &PeerConfig) -> (r: messages::SessionConfig)
    ensures
        r@ == session_message(config@),
{
    messages::SessionConfig {
        idle_hold_time_secs: config.idle_hold_time_secs,
        damp_peer_oscillations: Some(config.damp_peer_oscillations),
        allow_automatic_stop: Some(config.allow_automatic_stop),
        passive_mode: Some(config.passive_mode),
        delay_open_time_secs: config.delay_open_time_secs,
        max_prefix: max_prefix_to_proto(config.max_prefix),
        send_notification_without_open: Some(config.send_notification_without_open),
        min_route_advertisement_interval_secs: config.min_route_advertisement_interval_secs,
        graceful_restart: Some(
            messages::GracefulRestartConfig {
                enabled: Some(config.graceful_restart.enabled),
                restart_time_secs: Some(config.graceful_restart.restart_time as u32),
            },
        ),
        port: Some(config.port as u32),
        rr_client: Some(config.rr_client),
        rs_client: Some(config.rs_client),
        add_path_send: Some(add_path_to_proto(config.add_path_send)),
        add_path_receive: Some(config.add_path_receive),
        asn: config.asn,
        enforce_first_as: Some(config.enforce_first_as),
        md5_key_file: clone_opt_text(&config.md5_key_file),
        next_hop_self: Some(config.next_hop_self),
        graceful_shutdown: Some(config.graceful_shutdown),
        ttl_min: match config.ttl_min {
            Some(t) => Some(t as u32),
            None => None,
        },
        llgr: llgr_to_proto(&config.llgr),
        send_rpki_community: Some(config.send_rpki_community),
        interface: clone_opt_text(&config.interface),
        afi_safis: family_configs_to_proto(&config.afi_safis),
    }
}

// ---------------------------------------------------------------------------
// There and back
// ---------------------------------------------------------------------------

proof fn lemma_families_back(s: Seq<AfiSafi>)
    ensures
        conf::read_all(all_family_numbers(s), llgr_family()) == Ok::<Seq<AfiSafi>, Seq<char>>(s),
    decreases s.len(),
{
    let all = all_family_numbers(s);
    if s.len() == 0 {
        assert(s =~= Seq::empty());
    } else {
        lemma_families_back(s.drop_last());
        assert(all.drop_last() =~= all_family_numbers(s.drop_last()));
        assert(all.last() == family_numbers(s.last()));
        assert(s.drop_last().push(s.last()) =~= s);
    }
}

proof fn lemma_family_configs_back(s: Seq<AfiSafiConfigView>)
    ensures
        conf::read_all(family_messages(s), family_reader()) == Ok::<
            Seq<AfiSafiConfigView>,
            Seq<char>,
        >(s),
    decreases s.len(),
{
    let all = family_messages(s);
    if s.len() == 0 {
        assert(s =~= Seq::empty());
    } else {
        lemma_family_configs_back(s.drop_last());
        assert(all.drop_last() =~= family_messages(s.drop_last()));
        assert(all.last() == family_message(s.last()));
        assert(s.drop_last().push(s.last()) =~= s);
    }
}

/// A configuration is read from its message as it was, but for the address and
/// the administrative state, of which messages say nothing. A long-lived
/// configuration with an empty list of families is left out: messages cannot
/// tell it from one for all families. So is a configuration without an idle hold
/// time, which messages cannot tell from one with the usual time.
pub proof fn law_session_round_trip(c: PeerConfigView)
    requires
        c.idle_hold_time_secs is Some,
        match c.llgr {
            Some(l) => l.afi_safis != Some(Seq::<AfiSafi>::empty()),
            None => true,
        },
    ensures
        read_session(Some(session_message(c))) == Ok::<PeerConfigView, Seq<char>>(
            PeerConfigView { address: Seq::empty(), admin_down: false, ..c },
        ),
{
    let m = session_message(c);
    lemma_family_configs_back(c.afi_safis);
    if let Some(l) = c.llgr {
        match l.afi_safis {
            Some(s) => {
                lemma_families_back(s);
                assert(s.len() == 0 ==> s =~= Seq::empty());
            },
            None => {},
        }
    }
    assert(read_llgr(m.llgr) == Ok::<Option<LlgrConfigView>, Seq<char>>(c.llgr));
    assert(configured(m, c.llgr, c.afi_safis) == PeerConfigView {
        address: Seq::empty(),
        admin_down: false,
        ..c
    });
}

} // verus!
