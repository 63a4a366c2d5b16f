//! A session with a peer: what is known of it, and what is to be done for it.

use crate::bgp::msg_notification;
use crate::bgp::msg_notification::{NotificationMessage, NotificationView};
use crate::bgp::multiprotocol::{AfiSafi, AfiSafiSet};
use crate::bgp::open_message::{OpenMessage, OpenView};
use crate::conf;
use crate::metrics::{Metric, MetricView};
use crate::net::addr::{IpAddr, Ipv4Addr};
use crate::peer::capabilities;
use crate::peer::capabilities::{CapabilitiesView, PeerCapabilities, SessionType};
use crate::peer::fsm::{BgpState, EventView, Fsm, FsmEvent, FsmTimers};
use crate::peer::pending::{PendingRoute, PendingRouteView};
use crate::peer_config;
use crate::peer_config::{LlgrConfig, LlgrConfigView, PeerConfig, PeerConfigView};
use crate::seqs;
use vstd::prelude::*;

verus! {

// ---------------------------------------------------------------------------
// Plain parts
// ---------------------------------------------------------------------------

/// Which side opened the connection.
#[derive(Debug, Clone, Copy, PartialEq, Eq, Structural)]
pub enum ConnectionType {
    Outgoing,
    Incoming,
}

/// Whether a session is wanted.
#[derive(Debug, Clone, Copy, PartialEq, Eq, Structural)]
pub enum AdminState {
    Up,
    Down,
    PrefixLimitReached,
}

/// How a route refresh is marked.
#[derive(Debug, Clone, Copy, PartialEq, Eq, Structural)]
pub enum RouteRefreshSubtype {
    /// Routes are asked for.
    Normal,
    /// Routes are sent again from here on.
    BoRR,
    /// All routes were sent again.
    EoRR,
    Unknown(u8),
}

/// Why bytes were not exchanged, or why an OPEN message was refused.
#[derive(Debug, Clone, Copy, PartialEq, Eq, Structural)]
pub enum IoError {
    NotConnected,
    WriteFailed,
    NotificationReceived,
    AsnMismatch { expected: u32, received: u32 },
    NoCommonFamily,
    NoFourOctetAsn,
    NoRestartState,
}

/// Why an event was not processed to its end.
#[derive(Debug, Clone, Copy, PartialEq, Eq, Structural)]
pub enum PeerError {
    /// The event is not expected in the state.
    FsmError,
    /// The session was stopped.
    AutomaticStop(msg_notification::CeaseSubcode),
    /// An UPDATE message was malformed.
    UpdateError,
    /// Bytes were not exchanged.
    IoError(IoError),
}

/// How many messages of each kind were exchanged. Counts wrap around.
#[derive(Debug, Clone, Copy, PartialEq, Eq, Structural)]
pub struct PeerStatistics {
    pub open_sent: u64,
    pub keepalive_sent: u64,
    pub update_sent: u64,
    pub notification_sent: u64,
    pub open_received: u64,
    pub keepalive_received: u64,
    pub update_received: u64,
    pub notification_received: u64,
    pub route_refresh_received: u64,
    pub route_refresh_sent: u64,
    pub adj_rib_in_count: u64,
}

impl PeerStatistics {
    pub open spec fn zero() -> PeerStatistics {
        PeerStatistics {
            open_sent: 0,
            keepalive_sent: 0,
            update_sent: 0,
            notification_sent: 0,
            open_received: 0,
            keepalive_received: 0,
            update_received: 0,
            notification_received: 0,
            route_refresh_received: 0,
            route_refresh_sent: 0,
            adj_rib_in_count: 0,
        }
    }
}

impl Default for PeerStatistics {
    fn default() -> (r: Self)
        ensures
            r == PeerStatistics::zero(),
    {
        PeerStatistics {
            open_sent: 0,
            keepalive_sent: 0,
            update_sent: 0,
            notification_sent: 0,
            open_received: 0,
            keepalive_received: 0,
            update_received: 0,
            notification_received: 0,
            route_refresh_received: 0,
            route_refresh_sent: 0,
            adj_rib_in_count: 0,
        }
    }
}

/// What this speaker is.
#[derive(Debug)]
pub struct LocalConfig {
    pub asn: u32,
    pub bgp_id: Ipv4Addr,
    pub hold_time: u16,
    pub addr: IpAddr,
    pub port: u16,
    pub cluster_id: Ipv4Addr,
    /// How stale routes are kept, if they are.
    pub llgr: Option<LlgrConfig>,
}

pub struct LocalView {
    pub asn: u32,
    pub bgp_id: Ipv4Addr,
    pub hold_time: u16,
    pub addr: IpAddr,
    pub port: u16,
    pub cluster_id: Ipv4Addr,
    pub llgr: Option<LlgrConfigView>,
}

impl View for LocalConfig {
    type V = LocalView;

    open spec fn view(&self) -> LocalView {
        LocalView {
            asn: self.asn,
            bgp_id: self.bgp_id,
            hold_time: self.hold_time,
            addr: self.addr,
            port: self.port,
            cluster_id: self.cluster_id,
            llgr: peer_config::opt_llgr(self.llgr),
        }
    }
}

impl Clone for LocalConfig {
    fn clone(&self) -> (r: Self)
        ensures
            r@ == self@,
    {
        LocalConfig {
            asn: self.asn,
            bgp_id: self.bgp_id,
            hold_time: self.hold_time,
            addr: self.addr,
            port: self.port,
            cluster_id: self.cluster_id,
            llgr: match &self.llgr {
                Some(l) => Some(l.clone()),
                None => None,
            },
        }
    }
}

/// How far a graceful restart has come.
#[derive(Debug)]
pub struct GracefulRestartState {
    /// The families whose routes are still awaited.
    pub in_restart: AfiSafiSet,
    /// The peer is waited for.
    pub restart_timer: bool,
    /// The families of which all routes were received.
    pub eor_received: AfiSafiSet,
    /// The families whose routes the peer wants to be kept.
    pub afi_safis: AfiSafiSet,
    /// The families of which all routes were sent, and the peer was told so.
    pub eor_sent: AfiSafiSet,
    /// The families of which all routes were sent.
    pub loc_rib_received: AfiSafiSet,
}

pub struct RestartView {
    pub in_restart: Set<AfiSafi>,
    pub restart_timer: bool,
    pub eor_received: Set<AfiSafi>,
    pub afi_safis: Seq<AfiSafi>,
    pub eor_sent: Set<AfiSafi>,
    pub loc_rib_received: Set<AfiSafi>,
}

impl View for GracefulRestartState {
    type V = RestartView;

    open spec fn view(&self) -> RestartView {
        RestartView {
            in_restart: self.in_restart@,
            restart_timer: self.restart_timer,
            eor_received: self.eor_received@,
            afi_safis: self.afi_safis.listed(),
            eor_sent: self.eor_sent@,
            loc_rib_received: self.loc_rib_received@,
        }
    }
}

/// Why a session went down.
#[derive(Debug, PartialEq, Eq)]
pub enum PeerDownReason {
    RemoteNotification(NotificationMessage),
    LocalNotification(NotificationMessage),
    LocalNoNotification(FsmEvent),
    RemoteNoNotification,
}

pub enum DownView {
    RemoteNotification(NotificationView),
    LocalNotification(NotificationView),
    LocalNoNotification(EventView),
    RemoteNoNotification,
}

impl View for PeerDownReason {
    type V = DownView;

    open spec fn view(&self) -> DownView {
        match self {
            PeerDownReason::RemoteNotification(n) => DownView::RemoteNotification(n@),
            PeerDownReason::LocalNotification(n) => DownView::LocalNotification(n@),
            PeerDownReason::LocalNoNotification(e) => DownView::LocalNoNotification(e@),
            PeerDownReason::RemoteNoNotification => DownView::RemoteNoNotification,
        }
    }
}

// ---------------------------------------------------------------------------
// Effects
// ---------------------------------------------------------------------------

/// A message to the peer.
#[derive(Debug)]
pub enum OutMessage {
    Open(OpenMessage),
    Keepalive,
    Notification(NotificationMessage),
    /// An UPDATE message in its encoded form.
    Update(Vec<u8>),
    EndOfRib(AfiSafi),
    RouteRefresh { afi_safi: AfiSafi, subtype: RouteRefreshSubtype },
}

pub enum OutView {
    Open(OpenView),
    Keepalive,
    Notification(NotificationView),
    Update(Seq<u8>),
    EndOfRib(AfiSafi),
    RouteRefresh { afi_safi: AfiSafi, subtype: RouteRefreshSubtype },
}

impl View for OutMessage {
    type V = OutView;

    open spec fn view(&self) -> OutView {
        match self {
            OutMessage::Open(m) => OutView::Open(m@),
            OutMessage::Keepalive => OutView::Keepalive,
            OutMessage::Notification(m) => OutView::Notification(m@),
            OutMessage::Update(b) => OutView::Update(b@),
            OutMessage::EndOfRib(f) => OutView::EndOfRib(*f),
            OutMessage::RouteRefresh { afi_safi, subtype } => OutView::RouteRefresh {
                afi_safi: *afi_safi,
                subtype: *subtype,
            },
        }
    }
}

/// What is to be done outside of the session.
#[derive(Debug)]
pub enum Effect {
    /// A message goes to the peer.
    Send(OutMessage),
    /// The connection is gone; the routes of the families are kept for now.
    PeerDisconnected { reason: PeerDownReason, gr_afi_safis: Vec<AfiSafi> },
    /// The peer is waited for, and stale routes are kept after that.
    StartRestartTimer { seconds: u16, llgr_afi_safis: Vec<(AfiSafi, u32)> },
    /// The peer is no longer waited for.
    CancelRestartTimer,
    StateChanged(BgpState),
    SetAdminState(AdminState),
    HandshakeComplete { asn: u32 },
    /// The session is established with these messages.
    ConnectionInfo {
        sent_open: OpenMessage,
        received_open: OpenMessage,
        capabilities: PeerCapabilities,
    },
    /// Routes were received.
    PeerUpdate(Vec<PendingRoute>),
    /// All routes of a family were received again.
    GracefulRestartComplete(AfiSafi),
    /// The peer asks for routes or marks those that it sends again.
    RouteRefresh { afi_safi: AfiSafi, subtype: RouteRefreshSubtype },
    /// The statistics are told to who asked.
    ReplyStatistics(PeerStatistics),
    /// The capabilities are told to who asked.
    ReplyCapabilities(PeerCapabilities),
    /// A metric is emitted.
    Emit(Metric),
}

pub enum EffectView {
    Send(OutView),
    PeerDisconnected { reason: DownView, gr_afi_safis: Seq<AfiSafi> },
    StartRestartTimer { seconds: u16, llgr_afi_safis: Seq<(AfiSafi, u32)> },
    CancelRestartTimer,
    StateChanged(BgpState),
    SetAdminState(AdminState),
    HandshakeComplete { asn: u32 },
    ConnectionInfo {
        sent_open: OpenView,
        received_open: OpenView,
        capabilities: CapabilitiesView,
    },
    PeerUpdate(Seq<PendingRouteView>),
    GracefulRestartComplete(AfiSafi),
    RouteRefresh { afi_safi: AfiSafi, subtype: RouteRefreshSubtype },
    ReplyStatistics(PeerStatistics),
    ReplyCapabilities(CapabilitiesView),
    Emit(MetricView),
}

impl View for Effect {
    type V = EffectView;

    open spec fn view(&self) -> EffectView {
        match self {
            Effect::Send(m) => EffectView::Send(m@),
            Effect::PeerDisconnected { reason, gr_afi_safis } => EffectView::PeerDisconnected {
                reason: reason@,
                gr_afi_safis: gr_afi_safis@,
            },
            Effect::StartRestartTimer { seconds, llgr_afi_safis } => EffectView::StartRestartTimer {
                seconds: *seconds,
                llgr_afi_safis: llgr_afi_safis@,
            },
            Effect::CancelRestartTimer => EffectView::CancelRestartTimer,
            Effect::StateChanged(s) => EffectView::StateChanged(*s),
            Effect::SetAdminState(s) => EffectView::SetAdminState(*s),
            Effect::HandshakeComplete { asn } => EffectView::HandshakeComplete { asn: *asn },
            Effect::ConnectionInfo { sent_open, received_open, capabilities } =>
                EffectView::ConnectionInfo {
                sent_open: sent_open@,
                received_open: received_open@,
                capabilities: capabilities@,
            },
            Effect::PeerUpdate(r) => EffectView::PeerUpdate(seqs::views(r@)),
            Effect::GracefulRestartComplete(f) => EffectView::GracefulRestartComplete(*f),
            Effect::RouteRefresh { afi_safi, subtype } => EffectView::RouteRefresh {
                afi_safi: *afi_safi,
                subtype: *subtype,
            },
            Effect::ReplyStatistics(s) => EffectView::ReplyStatistics(*s),
            Effect::ReplyCapabilities(c) => EffectView::ReplyCapabilities(c@),
            Effect::Emit(m) => EffectView::Emit(m@),
        }
    }
}

/// What is to be done, in its order, and how many more messages the connection
/// takes before it fails.
#[derive(Debug)]
pub struct Turn {
    pub effects: Vec<Effect>,
    pub writes: usize,
}

impl Turn {
    /// Nothing is to be done yet.
    pub fn new(writes: usize) -> (r: Self)
        ensures
            seqs::views(r.effects@) == Seq::<EffectView>::empty(),
            r.writes == writes,
    {
        let r = Turn { effects: Vec::new(), writes };
        assert(seqs::views(r.effects@) =~= Seq::<EffectView>::empty());
        r
    }

    pub fn push(&mut self, e: Effect)
        ensures
            seqs::views(final(self).effects@) == seqs::views(old(self).effects@).push(e@),
            final(self).writes == old(self).writes,
    {
        proof {
            seqs::lemma_views_push(self.effects@, e);
        }
        self.effects.push(e);
    }
}

// ---------------------------------------------------------------------------
// The session
// ---------------------------------------------------------------------------

/// A session with a peer.
#[derive(Debug)]
pub struct Peer {
    pub addr: IpAddr,
    pub port: u16,
    pub fsm: Fsm,
    pub asn: Option<u32>,
    pub bgp_id: Option<Ipv4Addr>,
    pub session_type: Option<SessionType>,
    pub statistics: PeerStatistics,
    pub config: PeerConfig,
    /// There is a connection.
    pub connected: bool,
    pub local_config: LocalConfig,
    pub connect_retry_secs: u64,
    /// How often the session went down without having been stable.
    pub consecutive_down_count: u32,
    /// The peer does not know capabilities.
    pub capabilities_suppressed: bool,
    pub conn_type: ConnectionType,
    /// The session is not started again by itself.
    pub manually_stopped: bool,
    /// Since when the session is established.
    pub established_at: Option<u64>,
    /// When an UPDATE message was last sent.
    pub last_update_sent: Option<u64>,
    /// Encoded UPDATE messages that wait to be sent.
    pub pending_updates: Vec<Vec<u8>>,
    /// The time between UPDATE messages, in seconds.
    pub mrai_interval: u64,
    pub sent_open: Option<OpenMessage>,
    pub received_open: Option<OpenMessage>,
    pub capabilities: PeerCapabilities,
    pub gr_state: Option<GracefulRestartState>,
    /// Route changes that wait to be handed on.
    pub pending_routes: Vec<PendingRoute>,
}

pub struct PeerView {
    pub addr: IpAddr,
    pub port: u16,
    pub fsm: Fsm,
    pub asn: Option<u32>,
    pub bgp_id: Option<Ipv4Addr>,
    pub session_type: Option<SessionType>,
    pub statistics: PeerStatistics,
    pub config: PeerConfigView,
    pub connected: bool,
    pub local_config: LocalView,
    pub connect_retry_secs: u64,
    pub consecutive_down_count: u32,
    pub capabilities_suppressed: bool,
    pub conn_type: ConnectionType,
    pub manually_stopped: bool,
    pub established_at: Option<u64>,
    pub last_update_sent: Option<u64>,
    pub pending_updates: Seq<Seq<u8>>,
    pub mrai_interval: u64,
    pub sent_open: Option<OpenView>,
    pub received_open: Option<OpenView>,
    pub capabilities: CapabilitiesView,
    pub gr_state: Option<RestartView>,
    pub pending_routes: Seq<PendingRouteView>,
}

impl View for Peer {
    type V = PeerView;

    open spec fn view(&self) -> PeerView {
        PeerView {
            addr: self.addr,
            port: self.port,
            fsm: self.fsm,
            asn: self.asn,
            bgp_id: self.bgp_id,
            session_type: self.session_type,
            statistics: self.statistics,
            config: self.config@,
            connected: self.connected,
            local_config: self.local_config@,
            connect_retry_secs: self.connect_retry_secs,
            consecutive_down_count: self.consecutive_down_count,
            capabilities_suppressed: self.capabilities_suppressed,
            conn_type: self.conn_type,
            manually_stopped: self.manually_stopped,
            established_at: self.established_at,
            last_update_sent: self.last_update_sent,
            pending_updates: seqs::views(self.pending_updates@),
            mrai_interval: self.mrai_interval,
            sent_open: conf::opt_view(self.sent_open),
            received_open: conf::opt_view(self.received_open),
            capabilities: self.capabilities@,
            gr_state: conf::opt_view(self.gr_state),
            pending_routes: seqs::views(self.pending_routes@),
        }
    }
}

/// The longest time that a session is held off after it went down, in seconds.
pub const MAX_IDLE_HOLD_TIME: u64 = 120;

/// By how much the hold-off grows with the number of failures: it doubles with
/// each of the first six.
pub open spec fn backoff_factor(n: u32) -> int {
    if n == 0 {
        1
    } else if n == 1 {
        2
    } else if n == 2 {
        4
    } else if n == 3 {
        8
    } else if n == 4 {
        16
    } else if n == 5 {
        32
    } else {
        64
    }
}

impl PeerView {
    /// A notification may be sent: there is a connection, and an OPEN message
    /// was sent or need not be.
    pub open spec fn can_notify(self) -> bool {
        self.connected && (self.config.send_notification_without_open || self.statistics.open_sent
            > 0)
    }

    /// How long the session is held off after it went down, in seconds; none
    /// where it is not started again by itself.
    pub open spec fn idle_hold_time(self) -> Option<int> {
        match self.config.idle_hold_time_secs {
            None => None,
            Some(base) => if !self.config.damp_peer_oscillations || self.consecutive_down_count
                == 0 {
                Some(base as int)
            } else {
                let grown = base * backoff_factor(self.consecutive_down_count);
                Some(
                    if grown < MAX_IDLE_HOLD_TIME {
                        grown
                    } else {
                        MAX_IDLE_HOLD_TIME as int
                    },
                )
            },
        }
    }

    /// The grown hold-off can be counted.
    pub open spec fn hold_off_fits(self) -> bool {
        match self.config.idle_hold_time_secs {
            Some(base) => self.config.damp_peer_oscillations ==> base * backoff_factor(
                self.consecutive_down_count,
            ) <= u64::MAX,
            None => true,
        }
    }
}

/// A session that was not started.
pub open spec fn new_session(
    addr: IpAddr,
    port: u16,
    local_config: LocalView,
    config: PeerConfigView,
    connect_retry_secs: u64,
    conn_type: ConnectionType,
) -> PeerView {
    PeerView {
        addr,
        port,
        fsm: Fsm {
            current: BgpState::Idle,
            timers: FsmTimers::idle(config.delay_open_time_secs),
            connect_retry_counter: 0,
            passive_mode: config.passive_mode,
            graceful_restart_negotiated: false,
        },
        asn: None,
        bgp_id: None,
        session_type: None,
        statistics: PeerStatistics::zero(),
        config,
        connected: false,
        local_config,
        connect_retry_secs,
        consecutive_down_count: 0,
        capabilities_suppressed: false,
        conn_type,
        manually_stopped: false,
        established_at: None,
        last_update_sent: None,
        pending_updates: Seq::empty(),
        mrai_interval: match config.min_route_advertisement_interval_secs {
            Some(s) => s,
            None => 0,
        },
        sent_open: None,
        received_open: None,
        capabilities: capabilities::no_capabilities(),
        gr_state: None,
        pending_routes: Seq::empty(),
    }
}

impl Peer {
    /// A session that was not started.
    pub fn new(
        addr: IpAddr,
        port: u16,
        local_config: LocalConfig,
        config: PeerConfig,
        connect_retry_secs: u64,
        conn_type: ConnectionType,
    ) -> (r: Self)
        ensures
            r@ == new_session(
                addr,
                port,
                local_config@,
                config@,
                connect_retry_secs,
                conn_type,
            ),
    {
        let mrai_interval: u64 = match config.min_route_advertisement_interval_secs {
            Some(s) => s,
            None => 0,
        };
        let fsm = Fsm::new(config.delay_open_time_secs, config.passive_mode);
        let r = Peer {
            addr,
            port,
            fsm,
            asn: None,
            bgp_id: None,
            session_type: None,
            statistics: PeerStatistics::default(),
            config,
            connected: false,
            local_config,
            connect_retry_secs,
            consecutive_down_count: 0,
            capabilities_suppressed: false,
            conn_type,
            manually_stopped: false,
            established_at: None,
            last_update_sent: None,
            pending_updates: Vec::new(),
            mrai_interval,
            sent_open: None,
            received_open: None,
            capabilities: PeerCapabilities::default(),
            gr_state: None,
            pending_routes: Vec::new(),
        };
        assert(r@.pending_updates =~= Seq::<Seq<u8>>::empty());
        assert(r@.pending_routes =~= Seq::<PendingRouteView>::empty());
        r
    }

    pub fn state(&self) -> (r: BgpState)
        ensures
            r == self@.fsm.current,
    {
        self.fsm.current
    }

    /// Whether a notification may be sent.
    pub fn can_send_notification(&self) -> (r: bool)
        ensures
            r == self@.can_notify(),
    {
        self.connected && (self.config.send_notification_without_open || self.statistics.open_sent
            > 0)
    }

    /// How long the session is held off after it went down, in seconds; none
    /// where it is not started again by itself.
    pub fn get_idle_hold_time(&self) -> (r: Option<u64>)
        requires
            self@.hold_off_fits(),
        ensures
            match r {
                Some(t) => self@.idle_hold_time() == Some(t as int),
                None => self@.idle_hold_time() is None,
            },
    {
        let base: u64 = match self.config.idle_hold_time_secs {
            Some(b) => b,
            None => {
                return None;
            },
        };
        let n: u32 = self.consecutive_down_count;
        if !self.config.damp_peer_oscillations || n == 0 {
            return Some(base);
        }
        let factor: u64 = if n == 1 {
            2
        } else if n == 2 {
            4
        } else if n == 3 {
            8
        } else if n == 4 {
            16
        } else if n == 5 {
            32
        } else {
            64
        };
        let grown: u64 = base * factor;
        if grown < MAX_IDLE_HOLD_TIME {
            Some(grown)
        } else {
            Some(MAX_IDLE_HOLD_TIME)
        }
    }
}

/// A session that went down is held off for at most two minutes when its
/// hold-off grows, and never longer for fewer failures.
pub proof fn law_hold_off_is_bounded(p: PeerView, n: u32)
    requires
        p.config.damp_peer_oscillations,
        p.config.idle_hold_time_secs is Some,
        0 < n <= p.consecutive_down_count,
    ensures
        p.idle_hold_time()->0 <= MAX_IDLE_HOLD_TIME,
        (PeerView { consecutive_down_count: n, ..p }).idle_hold_time()->0
            <= p.idle_hold_time()->0,
{
    let base = p.config.idle_hold_time_secs->0;
    assert(base * backoff_factor(n) <= base * backoff_factor(p.consecutive_down_count))
        by (nonlinear_arith)
        requires
            0 <= base,
            0 <= backoff_factor(n) <= backoff_factor(p.consecutive_down_count),
    ;
}

} // verus!
