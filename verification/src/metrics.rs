//! The metrics that the daemon emits: their names, and what is emitted of
//! notifications. Names are in pascal case and end
//! in their unit as a full word (Count, Seconds, Milliseconds, Bytes), except
//! cumulative counters, which end in Total: such a one is a running total, of
//! which the maximum counts and not the sum. The Prometheus endpoint shows each
//! under the name that `prometheus_name` gives it.

use crate::bgp::msg_notification::{NotificationMessage, NotificationView};
use crate::net::addr::IpAddr;
use crate::text::{chars_of, push_char};
use vstd::prelude::*;

verus! {

// Event metrics: one emission per occurrence, at the event site.
pub const SESSION_ESTABLISHED_COUNT: &'static str = "SessionEstablishedCount";
pub const SESSION_DOWN_COUNT: &'static str = "SessionDownCount";
pub const CONNECT_RETRY_COUNT: &'static str = "ConnectRetryCount";
/// A TCP connection became the peer's active connection and the handshake
/// is starting. Dimension Direction: Dialed | Accepted.
pub const TCP_CONNECTION_COUNT: &'static str = "TcpConnectionCount";
// Connection collision handling, one metric per event:
/// Inbound connection held as the collision candidate.
pub const COLLISION_DETECTED_COUNT: &'static str = "CollisionDetectedCount";
/// Resolution: the connection we dialed won; candidate dropped.
pub const COLLISION_DIALED_WINS_COUNT: &'static str = "CollisionDialedWinsCount";
/// Resolution: the accepted connection won; dialed connection closed.
pub const COLLISION_ACCEPTED_WINS_COUNT: &'static str = "CollisionAcceptedWinsCount";
/// A held candidate was dropped without resolving (closed or sent junk before OPEN).
pub const COLLISION_CANDIDATE_DROPPED_COUNT: &'static str = "CollisionCandidateDroppedCount";
pub const HOLD_TIMER_EXPIRED_COUNT: &'static str = "HoldTimerExpiredCount";
pub const NOTIFICATION_RECEIVED_COUNT: &'static str = "NotificationReceivedCount";
pub const NOTIFICATION_SENT_COUNT: &'static str = "NotificationSentCount";
pub const BMP_CONNECTION_DOWN_COUNT: &'static str = "BmpConnectionDownCount";
pub const SESSION_CONVERGENCE_MILLISECONDS: &'static str = "SessionConvergenceMilliseconds";
pub const INITIAL_ADVERTISEMENT_MILLISECONDS: &'static str = "InitialAdvertisementMilliseconds";
pub const ROUTE_REFRESH_PROCESSING_MILLISECONDS: &'static str =
    "RouteRefreshProcessingMilliseconds";
pub const CONFIG_RELOAD_SUCCESS_COUNT: &'static str = "ConfigReloadSuccessCount";
pub const CONFIG_RELOAD_FAILURE_COUNT: &'static str = "ConfigReloadFailureCount";

// Periodic gauges: emitted by the server task on a timer.
pub const PEER_COUNT: &'static str = "PeerCount";
/// FSM state code per peer: 1=Idle, 2=Connect,
/// 3=Active, 4=OpenSent, 5=OpenConfirm, 6=Established. No unit suffix;
/// the value is a code, not a quantity.
pub const SESSION_STATE: &'static str = "SessionState";
pub const SESSION_UPTIME_SECONDS: &'static str = "SessionUptimeSeconds";
pub const LOC_RIB_ROUTE_COUNT: &'static str = "LocRibRouteCount";
pub const ADJ_RIB_IN_ROUTE_COUNT: &'static str = "AdjRibInRouteCount";
pub const ADJ_RIB_IN_AFI_SAFI_ROUTE_COUNT: &'static str = "AdjRibInAfiSafiRouteCount";
/// Routes received across all peers (sum of per-peer adj-rib-in; the same
/// prefix from N peers counts N times). Router-wide, no Peer dimension.
pub const ADJ_RIB_IN_ROUTE_TOTAL_COUNT: &'static str = "AdjRibInRouteTotalCount";
pub const ADJ_RIB_OUT_ROUTE_COUNT: &'static str = "AdjRibOutRouteCount";
pub const ADJ_RIB_OUT_AFI_SAFI_ROUTE_COUNT: &'static str = "AdjRibOutAfiSafiRouteCount";
/// Routes advertised across all peers (sum of per-peer adj-rib-out; a route
/// sent to N peers counts N times). Router-wide, no Peer dimension.
pub const ADJ_RIB_OUT_ROUTE_TOTAL_COUNT: &'static str = "AdjRibOutRouteTotalCount";
pub const PROCESS_MEMORY_BYTES: &'static str = "ProcessMemoryBytes";

// Cumulative per-peer message counters
pub const MESSAGES_RECEIVED_TOTAL: &'static str = "MessagesReceivedTotal";
pub const MESSAGES_SENT_TOTAL: &'static str = "MessagesSentTotal";

/// What a metric counts.
#[derive(Debug, Clone, Copy, PartialEq, Eq, Structural)]
pub enum Unit {
    Count,
}

/// The value of a label.
#[derive(Debug, Clone, Copy, PartialEq, Eq, Structural)]
pub enum LabelValue {
    Address(IpAddr),
    Code(u8),
}

/// A metric that is emitted. It is summed up under its dimensions, once for each
/// list in `dimension_sets`; its properties are only noted.
#[derive(Debug, PartialEq)]
pub struct Metric {
    pub name: &'static str,
    pub value: u64,
    pub unit: Unit,
    pub dimensions: Vec<(&'static str, LabelValue)>,
    pub dimension_sets: Vec<Vec<&'static str>>,
    pub properties: Vec<(&'static str, LabelValue)>,
}

pub struct MetricView {
    pub name: Seq<char>,
    pub value: u64,
    pub unit: Unit,
    pub dimensions: Seq<(Seq<char>, LabelValue)>,
    pub dimension_sets: Seq<Seq<Seq<char>>>,
    pub properties: Seq<(Seq<char>, LabelValue)>,
}

/// What labels hold.
pub open spec fn label_views(s: Seq<(&'static str, LabelValue)>) -> Seq<(Seq<char>, LabelValue)> {
    Seq::new(s.len(), |i: int| (s[i].0@, s[i].1))
}

/// What names of labels hold.
pub open spec fn name_views(s: Seq<&'static str>) -> Seq<Seq<char>> {
    Seq::new(s.len(), |i: int| s[i]@)
}

impl View for Metric {
    type V = MetricView;

    open spec fn view(&self) -> MetricView {
        MetricView {
            name: self.name@,
            value: self.value,
            unit: self.unit,
            dimensions: label_views(self.dimensions@),
            dimension_sets: Seq::new(
                self.dimension_sets@.len(),
                |i: int| name_views(self.dimension_sets@[i]@),
            ),
            properties: label_views(self.properties@),
        }
    }
}

/// The metric of one notification from or to a peer: summed up by the peer, by the
/// code of the error, and by both; the subcode is noted.
#[verifier::opaque]
pub open spec fn notification_event(
    name: Seq<char>,
    peer: IpAddr,
    n: NotificationView,
) -> MetricView {
    MetricView {
        name,
        value: 1,
        unit: Unit::Count,
        dimensions: seq![
            ("Peer"@, LabelValue::Address(peer)),
            ("Code"@, LabelValue::Code(n.error.code_spec())),
        ],
        dimension_sets: seq![seq!["Peer"@], seq!["Code"@], seq!["Peer"@, "Code"@]],
        properties: seq![("Subcode"@, LabelValue::Code(n.error.subcode_spec()))],
    }
}

fn notification_metric(name: &'static str, peer: IpAddr, n: &NotificationMessage) -> (r: Metric)
    ensures
        r@ == notification_event(name@, peer, n@),
{
    let error = n.error();
    let dimensions: Vec<(&'static str, LabelValue)> = vec![
        ("Peer", LabelValue::Address(peer)),
        ("Code", LabelValue::Code(error.error_code())),
    ];
    let by_peer: Vec<&'static str> = vec!["Peer"];
    let by_code: Vec<&'static str> = vec!["Code"];
    let by_both: Vec<&'static str> = vec!["Peer", "Code"];
    let properties: Vec<(&'static str, LabelValue)> = vec![
        ("Subcode", LabelValue::Code(error.error_subcode())),
    ];
    proof {
        reveal(notification_event);
    }
    let ghost e = notification_event(name@, peer, n@);
    assert(label_views(dimensions@) =~= e.dimensions);
    assert(label_views(properties@) =~= e.properties);
    assert(name_views(by_peer@) =~= seq!["Peer"@]);
    assert(name_views(by_code@) =~= seq!["Code"@]);
    assert(name_views(by_both@) =~= seq!["Peer"@, "Code"@]);
    let r = Metric {
        name,
        value: 1,
        unit: Unit::Count,
        dimensions,
        dimension_sets: vec![by_peer, by_code, by_both],
        properties,
    };
    assert(r@.dimension_sets =~= e.dimension_sets);
    r
}

/// The metric of a notification that a peer was sent.
pub fn notification_sent(peer: IpAddr, n: &NotificationMessage) -> (r: Metric)
    ensures
        r@ == notification_event(NOTIFICATION_SENT_COUNT@, peer, n@),
{
    notification_metric(NOTIFICATION_SENT_COUNT, peer, n)
}

/// The metric of a notification that a peer sent.
pub fn notification_received(peer: IpAddr, n: &NotificationMessage) -> (r: Metric)
    ensures
        r@ == notification_event(NOTIFICATION_RECEIVED_COUNT@, peer, n@),
{
    notification_metric(NOTIFICATION_RECEIVED_COUNT, peer, n)
}

/// `c` is one of `A`..`Z`.
pub open spec fn is_upper(c: char) -> bool {
    65 <= c as u32 <= 90
}

/// What stands for a character of a metric's name: an underscore and the small
/// letter for a capital one, and the character itself otherwise.
pub open spec fn snake(c: char) -> Seq<char> {
    if is_upper(c) {
        seq!['_', ((c as u32 + 32) as char)]
    } else {
        seq![c]
    }
}

/// The name under which Prometheus shows a metric: the name of the daemon, and
/// what stands for each character.
pub open spec fn exposed(metric: Seq<char>) -> Seq<char>
    decreases metric.len(),
{
    if metric.len() == 0 {
        "bgpgg"@
    } else {
        exposed(metric.drop_last()) + snake(metric.last())
    }
}

/// The name under which Prometheus shows a metric, such as `bgpgg_peer_count` for
/// `PeerCount`.
pub fn prometheus_name(metric: &str) -> (r: String)
    ensures
        r@ == exposed(metric@),
{
    let chars = chars_of(metric);
    let mut name: String = "bgpgg".to_owned();
    let ghost all = metric@;
    assert(all.take(0) =~= Seq::<char>::empty());
    let mut i: usize = 0;
    while i < chars.len()
        invariant
            i <= chars@.len(),
            chars@ == all,
            name@ == exposed(all.take(i as int)),
        decreases chars.len() - i,
    {
        let c = chars[i];
        let ghost before = name@;
        assert(all.take(i + 1).drop_last() =~= all.take(i as int));
        assert(all.take(i + 1).last() == c);
        let code: u32 = c as u32;
        if code >= 65 && code <= 90 {
            push_char(&mut name, '_');
            push_char(&mut name, (code as u8 + 32) as char);
            assert(name@ =~= before + snake(c));
        } else {
            push_char(&mut name, c);
            assert(name@ =~= before + snake(c));
        }
        i = i + 1;
    }
    assert(all.take(all.len() as int) =~= all);
    name
}

/// A notification counts once, for its peer and for the code of its error, and the
/// subcode is noted.
pub proof fn law_notifications_count_once(name: Seq<char>, peer: IpAddr, n: NotificationView)
    ensures
        ({
            let m = notification_event(name, peer, n);
            &&& m.name == name && m.value == 1
            &&& m.dimensions.contains(("Peer"@, LabelValue::Address(peer)))
            &&& m.dimensions.contains(("Code"@, LabelValue::Code(n.error.code_spec())))
            &&& m.properties == seq![("Subcode"@, LabelValue::Code(n.error.subcode_spec()))]
            &&& m.dimension_sets.contains(seq!["Peer"@])
            &&& m.dimension_sets.contains(seq!["Code"@])
            &&& m.dimension_sets.contains(seq!["Peer"@, "Code"@])
            &&& m.dimensions.len() == 2 && m.dimension_sets.len() == 3
        }),
{
    reveal(notification_event);
    let m = notification_event(name, peer, n);
    assert(m.dimensions[0] == ("Peer"@, LabelValue::Address(peer)));
    assert(m.dimensions[1] == ("Code"@, LabelValue::Code(n.error.code_spec())));
    assert(m.dimension_sets[0] == seq!["Peer"@]);
    assert(m.dimension_sets[1] == seq!["Code"@]);
    assert(m.dimension_sets[2] == seq!["Peer"@, "Code"@]);
}

/// A metric is shown under the name of the daemon and its own, with an underscore and the
/// small letter in place of each capital one.
pub proof fn law_exposed_names(metric: Seq<char>, c: char)
    ensures
        exposed(Seq::empty()) == "bgpgg"@,
        !('A' <= c <= 'Z') ==> exposed(metric.push(c)) == exposed(metric).push(c),
        'A' <= c <= 'Z' ==> exposed(metric.push(c)) == exposed(metric).push('_').push(
            ((c as u32 + ('a' as u32 - 'A' as u32)) as char),
        ),
{
    assert(metric.push(c).drop_last() =~= metric);
    assert(exposed(metric.push(c)) == exposed(metric) + snake(c));
    if 'A' <= c <= 'Z' {
        assert(exposed(metric) + snake(c) =~= exposed(metric).push('_').push(
            ((c as u32 + 32) as char),
        ));
    } else {
        assert(exposed(metric) + snake(c) =~= exposed(metric).push(c));
    }
}

/// No name under which Prometheus shows a metric has a capital letter.
pub proof fn law_exposed_names_have_no_capitals(metric: Seq<char>)
    ensures
        forall|i: int| 0 <= i < exposed(metric).len() ==> !is_upper(#[trigger] exposed(metric)[i]),
    decreases metric.len(),
{
    if metric.len() == 0 {
        reveal_strlit("bgpgg");
    } else {
        law_exposed_names_have_no_capitals(metric.drop_last());
        let head = exposed(metric.drop_last());
        let all = exposed(metric);
        assert forall|i: int| 0 <= i < all.len() implies !is_upper(#[trigger] all[i]) by {
            if i < head.len() {
                assert(all[i] == head[i]);
            } else {
                assert(all[i] == snake(metric.last())[i - head.len()]);
            }
        }
    }
}

} // verus!
