//! What capabilities say in octets, what is offered, and what becomes of both offers.

use crate::bgp::msg::MessageFormat;
use crate::bgp::msg_notification::{
    BgpError, CeaseSubcode, MessageHeaderError, NotificationView, OpenMessageError,
    UpdateMessageError,
};
use crate::bgp::msg_open;
use crate::bgp::msg_open::{AddPathMode, BgpCapabiltyCode, CapabilityView, LlgrEntry};
use crate::bgp::multiprotocol;
use crate::bgp::multiprotocol::{Afi, AfiSafi, Safi};
use crate::net::addr::Ipv4Addr;
use crate::peer::capabilities::{CapabilitiesView, SessionType};
use crate::peer::negotiation;
use crate::peer_config::{AddPathSend, LlgrConfigView, PeerConfigView};
use vstd::prelude::*;

verus! {

// ---------------------------------------------------------------------------
// Numbers
// ---------------------------------------------------------------------------

/// The numbers of families.
pub proof fn law_numbers_of_families(a: Afi, s: Safi, n: u16, m: u8)
    ensures
        match a {
            Afi::Ipv4 => a.code_spec() == 1,
            Afi::Ipv6 => a.code_spec() == 2,
            Afi::LinkState => a.code_spec() == 16388,
        },
        match s {
            Safi::Unicast => s.code_spec() == 1,
            Safi::Multicast => s.code_spec() == 2,
            Safi::LinkState => s.code_spec() == 71,
            Safi::LinkStateVpn => s.code_spec() == 72,
        },
        multiprotocol::afi_of_code(n) == Some(a) <==> n == a.code_spec(),
        multiprotocol::afi_of_code(n) is None <==> n != 1 && n != 2 && n != 16388,
        multiprotocol::safi_of_code(m) == Some(s) <==> m == s.code_spec(),
        multiprotocol::safi_of_code(m) is None <==> m != 1 && m != 2 && m != 71 && m != 72,
{
}

/// The numbers of capabilities, and of the ways in which several paths are exchanged.
pub proof fn law_numbers_of_capabilities(n: u8, mode: AddPathMode)
    ensures
        msg_open::code_of_number(n) == (if n == 1 {
            BgpCapabiltyCode::Multiprotocol
        } else if n == 2 {
            BgpCapabiltyCode::RouteRefresh
        } else if n == 64 {
            BgpCapabiltyCode::GracefulRestart
        } else if n == 65 {
            BgpCapabiltyCode::FourOctetAsn
        } else if n == 69 {
            BgpCapabiltyCode::AddPath
        } else if n == 70 {
            BgpCapabiltyCode::EnhancedRouteRefresh
        } else if n == 71 {
            BgpCapabiltyCode::Llgr
        } else {
            BgpCapabiltyCode::Unknown(n)
        }),
        msg_open::code_of_number(n).number_spec() == n,
        match mode {
            AddPathMode::Receive => mode.code_spec() == 1 && mode.receives() && !mode.sends(),
            AddPathMode::Send => mode.code_spec() == 2 && !mode.receives() && mode.sends(),
            AddPathMode::Both => mode.code_spec() == 3 && mode.receives() && mode.sends(),
        },
        msg_open::mode_of_code(n) == Some(mode) <==> n == mode.code_spec(),
        n == 0 || n > 3 ==> msg_open::mode_of_code(n) is None,
{
}

/// The numbers of errors, and of what is said of each.
pub proof fn law_numbers_of_errors(n: NotificationView)
    ensures
        n.octets().len() == 2 + n.data.len(),
        n.octets().skip(2) == n.data,
        match n.error {
            BgpError::MessageHeaderError(e) => n.octets()[0] == 1 && n.octets()[1] == (match e {
                MessageHeaderError::ConnectionNotSynchronized => 1u8,
                MessageHeaderError::BadMessageLength => 2u8,
                MessageHeaderError::BadMessageType => 3u8,
                MessageHeaderError::Unknown(x) => x,
            }),
            BgpError::OpenMessageError(e) => n.octets()[0] == 2 && n.octets()[1] == (match e {
                OpenMessageError::UnsupportedVersionNumber => 1u8,
                OpenMessageError::BadPeerAs => 2u8,
                OpenMessageError::BadBgpIdentifier => 3u8,
                OpenMessageError::UnsupportedOptionalParameter => 4u8,
                OpenMessageError::UnacceptableHoldTime => 6u8,
                OpenMessageError::UnsupportedCapability => 7u8,
                OpenMessageError::Unknown(x) => x,
            }),
            BgpError::UpdateMessageError(e) => n.octets()[0] == 3 && n.octets()[1] == (match e {
                UpdateMessageError::MalformedAttributeList => 1u8,
                UpdateMessageError::UnrecognizedWellKnownAttribute => 2u8,
                UpdateMessageError::MissingWellKnownAttribute => 3u8,
                UpdateMessageError::AttributeFlagsError => 4u8,
                UpdateMessageError::AttributeLengthError => 5u8,
                UpdateMessageError::InvalidOriginAttribute => 6u8,
                UpdateMessageError::InvalidNextHopAttribute => 8u8,
                UpdateMessageError::OptionalAttributeError => 9u8,
                UpdateMessageError::InvalidNetworkField => 10u8,
                UpdateMessageError::MalformedAsPath => 11u8,
                UpdateMessageError::Unknown(x) => x,
            }),
            BgpError::HoldTimerExpired => n.octets()[0] == 4 && n.octets()[1] == 0,
            BgpError::FiniteStateMachineError => n.octets()[0] == 5 && n.octets()[1] == 0,
            BgpError::Cease(e) => n.octets()[0] == 6 && n.octets()[1] == (match e {
                CeaseSubcode::MaxPrefixesReached => 1u8,
                CeaseSubcode::AdministrativeShutdown => 2u8,
                CeaseSubcode::PeerDeConfigured => 3u8,
                CeaseSubcode::AdministrativeReset => 4u8,
                CeaseSubcode::ConnectionRejected => 5u8,
                CeaseSubcode::OtherConfigurationChange => 6u8,
                CeaseSubcode::ConnectionCollisionResolution => 7u8,
                CeaseSubcode::OutOfResources => 8u8,
                CeaseSubcode::HardReset => 9u8,
                CeaseSubcode::Unknown(x) => x,
            }),
            BgpError::Unknown { code, subcode } => n.octets()[0] == code && n.octets()[1]
                == subcode,
        },
        n.version_error() <==> n.error == BgpError::OpenMessageError(
            OpenMessageError::UnsupportedVersionNumber,
        ),
        n.rejects_parameters() <==> n.error == BgpError::OpenMessageError(
            OpenMessageError::UnsupportedOptionalParameter,
        ),
{
    assert(n.octets().skip(2) =~= n.data);
}

// ---------------------------------------------------------------------------
// Octets
// ---------------------------------------------------------------------------

/// A family is three octets, its number in two of them, and in a capability of its own
/// a fourth between; an AS number is four.
pub proof fn law_octets_of_families(v: Seq<u8>, f: AfiSafi)
    ensures
        v.len() == 4 ==> (msg_open::read_multiprotocol(v) == Some(f) <==> v[0] * 256 + v[1]
            == f.afi.code_spec() && v[3] == f.safi.code_spec()),
        v.len() != 4 ==> msg_open::read_multiprotocol(v) is None && msg_open::read_four_octet_asn(
            v,
        ) is None,
        v.len() == 4 ==> msg_open::read_four_octet_asn(v) is Some
            && msg_open::read_four_octet_asn(v)->0 == v[0] * 0x100_0000 + v[1] * 0x1_0000 + v[2]
            * 0x100 + v[3],
{
}

/// A restart capability holds its time in twelve bits behind a flag in the highest, and
/// four octets for each family, the highest bit of the last of them a flag; families
/// that are not known are left out.
pub proof fn law_octets_of_restart(v: Seq<u8>, n: nat)
    ensures
        msg_open::read_restart(v) is Some <==> v.len() >= 2 && (v.len() - 2) % 4 == 0,
        msg_open::read_restart(v) is Some ==> msg_open::read_restart(v)->0.restart_time == (v[0]
            % 16) * 256 + v[1] && (msg_open::read_restart(v)->0.restart_state <==> v[0] >= 128)
            && msg_open::read_restart(v)->0.afi_safi_list == msg_open::restart_entries(
            v,
            ((v.len() - 2) / 4) as nat,
        ),
        msg_open::restart_entries(v, 0).len() == 0,
        ({
            let o = 2 + 4 * n as int;
            let before = msg_open::restart_entries(v, n);
            let after = msg_open::restart_entries(v, n + 1);
            match msg_open::family_of_octets(v[o], v[o + 1], v[o + 2]) {
                Some(f) => after == before.push((f, v[o + 3] >= 128)),
                None => after == before,
            }
        }),
{
}

/// The capability for several paths has four octets for each family, the last of them
/// the way; that for long-lived stale routes has seven, a flag in the fourth and the
/// time in the last three.
pub proof fn law_octets_of_entries(v: Seq<u8>, n: nat)
    ensures
        msg_open::read_add_path(v) is Some <==> v.len() % 4 == 0,
        msg_open::read_llgr(v) is Some <==> v.len() % 7 == 0,
        v.len() == 4 * n ==> msg_open::read_add_path(v) == Some(msg_open::add_path_entries(v, n)),
        v.len() == 7 * n ==> msg_open::read_llgr(v) == Some(msg_open::llgr_entries(v, n)),
        msg_open::add_path_entries(v, 0).len() == 0,
        msg_open::llgr_entries(v, 0).len() == 0,
        ({
            let o = 4 * n as int;
            let before = msg_open::add_path_entries(v, n);
            let after = msg_open::add_path_entries(v, n + 1);
            match (
                msg_open::family_of_octets(v[o], v[o + 1], v[o + 2]),
                msg_open::mode_of_code(v[o + 3]),
            ) {
                (Some(f), Some(m)) => after == before.push((f, m)),
                _ => after == before,
            }
        }),
        ({
            let o = 7 * n as int;
            let before = msg_open::llgr_entries(v, n);
            let after = msg_open::llgr_entries(v, n + 1);
            match msg_open::family_of_octets(v[o], v[o + 1], v[o + 2]) {
                Some(f) => {
                    let e = after.last();
                    &&& after.len() == before.len() + 1 && after.drop_last() == before
                    &&& e.afi_safi == f
                    &&& e.forwarding_preserved <==> v[o + 3] >= 128
                    &&& e.stale_time == v[o + 4] * 0x1_0000 + v[o + 5] * 0x100 + v[o + 6]
                },
                None => after == before,
            }
        }),
        forall|a: u8, b: u8, s: u8, f: AfiSafi|
            #![trigger msg_open::family_of_octets(a, b, s), f.afi.code_spec()]
            msg_open::family_of_octets(a, b, s) == Some(f) <==> a * 256 + b == f.afi.code_spec()
                && s == f.safi.code_spec(),
{
    let o = 7 * n as int;
    if let Some(f) = msg_open::family_of_octets(v[o], v[o + 1], v[o + 2]) {
        assert(msg_open::llgr_entries(v, n + 1).drop_last() =~= msg_open::llgr_entries(v, n));
    }
}

// ---------------------------------------------------------------------------
// Offers
// ---------------------------------------------------------------------------

/// What this side offers: the configured families, or IPv4 where none is; several
/// paths as it sends and takes them; and long-lived stale routes for the families that
/// are named.
pub proof fn law_offers(c: PeerConfigView, l: LlgrConfigView)
    ensures
        c.afi_safis.len() == 0 ==> negotiation::offered_families(c).len() == 1
            && negotiation::offered_families(c)[0].afi == Afi::Ipv4
            && negotiation::offered_families(c)[0].safi == Safi::Unicast,
        c.afi_safis.len() > 0 ==> negotiation::offered_families(c).len() == c.afi_safis.len(),
        forall|i: int|
            0 <= i < c.afi_safis.len() ==> (#[trigger] negotiation::offered_families(c)[i]).afi
                == c.afi_safis[i].afi && negotiation::offered_families(c)[i].safi
                == c.afi_safis[i].safi,
        match negotiation::offered_add_path(c) {
            Some(m) => m.sends() == c.add_path_send is All && m.receives() == c.add_path_receive,
            None => c.add_path_send is Disabled && !c.add_path_receive,
        },
        negotiation::offered_llgr(None).len() == 0,
        l.afi_safis is None ==> negotiation::offered_llgr(Some(l)).len() == 0,
        l.afi_safis is Some ==> {
            let entries = negotiation::offered_llgr(Some(l));
            &&& entries.len() == l.afi_safis->0.len()
            &&& forall|i: int|
                0 <= i < entries.len() ==> (#[trigger] entries[i]).afi_safi == l.afi_safis->0[i]
                    && !entries[i].forwarding_preserved && entries[i].stale_time == (
                match l.stale_time {
                    Some(t) => t,
                    None => 0u32,
                })
        },
{
}

/// The OPEN message of this side says who it is and how long it waits, and carries its
/// capabilities in one parameter.
pub proof fn law_own_open_message(
    asn: u32,
    hold_time: u16,
    id: Ipv4Addr,
    c: PeerConfigView,
    llgr: Option<LlgrConfigView>,
)
    ensures
        ({
            let m = negotiation::offered_open(asn, hold_time, id, c, llgr);
            &&& m.version == 4
            &&& m.asn == asn
            &&& m.hold_time == hold_time
            &&& m.bgp_identifier == id.bits()
            &&& m.optional_params.len() == 1
            &&& m.optional_params[0].capabilities == negotiation::offered_capabilities(asn, c, llgr)
        }),
{
}

// ---------------------------------------------------------------------------
// Understanding and agreement
// ---------------------------------------------------------------------------

/// Each capability of the peer is noted under its own heading, and touches no other;
/// one that is not known touches none.
pub proof fn law_capabilities_are_noted(s: Seq<CapabilityView>, x: CapabilityView)
    ensures
        ({
            let a = negotiation::gathered(s);
            let b = negotiation::gathered(s.push(x));
            &&& b.route_refresh <==> a.route_refresh || x.code == BgpCapabiltyCode::RouteRefresh
            &&& b.enhanced_route_refresh <==> a.enhanced_route_refresh || x.code
                == BgpCapabiltyCode::EnhancedRouteRefresh
            &&& b.four_octet_asn == (if x.code == BgpCapabiltyCode::FourOctetAsn
                && msg_open::read_four_octet_asn(x.val) is Some {
                msg_open::read_four_octet_asn(x.val)
            } else {
                a.four_octet_asn
            })
            &&& b.graceful_restart == (if x.code == BgpCapabiltyCode::GracefulRestart {
                msg_open::read_restart(x.val)
            } else {
                a.graceful_restart
            })
            &&& b.add_path == (if x.code == BgpCapabiltyCode::AddPath {
                msg_open::read_add_path(x.val)
            } else {
                a.add_path
            })
            &&& b.llgr == (if x.code == BgpCapabiltyCode::Llgr {
                msg_open::read_llgr(x.val)
            } else {
                a.llgr
            })
            &&& b.multiprotocol == (if x.code == BgpCapabiltyCode::Multiprotocol
                && msg_open::read_multiprotocol(x.val) is Some {
                a.multiprotocol.insert(msg_open::read_multiprotocol(x.val)->0)
            } else {
                a.multiprotocol
            })
        }),
        ({
            let none = negotiation::gathered(Seq::empty());
            &&& none.multiprotocol == Set::<AfiSafi>::empty()
            &&& !none.route_refresh && !none.enhanced_route_refresh
            &&& none.four_octet_asn is None && none.graceful_restart is None
            &&& none.add_path is None && none.llgr is None
        }),
{
    assert(s.push(x).drop_last() =~= s);
}

/// Long-lived stale routes count only beside a restart; nothing else of what the peer
/// said is left out.
pub proof fn law_understood_capabilities(s: Seq<CapabilityView>)
    ensures
        ({
            let a = negotiation::gathered(s);
            let b = negotiation::understood(s);
            &&& b.multiprotocol == a.multiprotocol && b.route_refresh == a.route_refresh
            &&& b.enhanced_route_refresh == a.enhanced_route_refresh
            &&& b.four_octet_asn == a.four_octet_asn && b.add_path == a.add_path
            &&& b.graceful_restart == a.graceful_restart
            &&& a.graceful_restart is Some ==> b.llgr == a.llgr
            &&& a.graceful_restart is None ==> b.llgr is None
        }),
{
}

/// Several paths of a family are sent exactly if this side wants to send and the peer
/// to take them, and taken exactly if this side wants to take and the peer to send
/// them.
pub proof fn law_agreed_ways(send: bool, receive: bool, peer: AddPathMode)
    ensures
        ({
            let sends = send && peer != AddPathMode::Send;
            let receives = receive && peer != AddPathMode::Receive;
            match negotiation::agreed_mode(send, receive, peer) {
                Some(AddPathMode::Both) => sends && receives,
                Some(AddPathMode::Send) => sends && !receives,
                Some(AddPathMode::Receive) => !sends && receives,
                None => !sends && !receives,
            }
        }),
{
}

/// The families for which several paths are agreed on are those of the peer's entries
/// for which a way is left, in their order.
pub proof fn law_agreed_entries(
    send: bool,
    receive: bool,
    peer: Seq<(AfiSafi, AddPathMode)>,
    x: (AfiSafi, AddPathMode),
    c: PeerConfigView,
)
    ensures
        negotiation::agreed_modes(send, receive, Seq::empty()).len() == 0,
        match negotiation::agreed_mode(send, receive, x.1) {
            Some(m) => negotiation::agreed_modes(send, receive, peer.push(x))
                == negotiation::agreed_modes(send, receive, peer).push((x.0, m)),
            None => negotiation::agreed_modes(send, receive, peer.push(x))
                == negotiation::agreed_modes(send, receive, peer),
        },
        negotiation::agreed_add_path(c, None) is None,
        ({
            let l = negotiation::agreed_modes(c.add_path_send is All, c.add_path_receive, peer);
            &&& l.len() == 0 ==> negotiation::agreed_add_path(c, Some(peer)) is None
            &&& l.len() > 0 ==> negotiation::agreed_add_path(c, Some(peer)) == Some(l)
        }),
{
    assert(peer.push(x).drop_last() =~= peer);
}

/// A session sends several paths of a family, or takes them, exactly if that was agreed
/// on for the family.
pub proof fn law_sessions_with_several_paths(c: CapabilitiesView, f: AfiSafi)
    ensures
        c.add_path is None ==> !c.sends(f) && !c.receives(f),
        c.add_path is Some ==> (c.sends(f) <==> c.add_path->0.contains((f, AddPathMode::Send))
            || c.add_path->0.contains((f, AddPathMode::Both))),
        c.add_path is Some ==> (c.receives(f) <==> c.add_path->0.contains((f, AddPathMode::Receive))
            || c.add_path->0.contains((f, AddPathMode::Both))),
{
    if let Some(l) = c.add_path {
        if c.sends(f) {
            let i = choose|i: int| 0 <= i < l.len() && (#[trigger] l[i]).0 == f && l[i].1.sends();
            assert(l.contains(l[i]));
        }
        if c.receives(f) {
            let i = choose|i: int|
                0 <= i < l.len() && (#[trigger] l[i]).0 == f && l[i].1.receives();
            assert(l.contains(l[i]));
        }
    }
}

/// Messages are encoded as it was agreed on: with long AS numbers if the peer knows
/// them, and with identifiers of paths for the families of which this side sends
/// several in messages to the peer, and takes several in messages from it.
pub proof fn law_formats(
    c: CapabilitiesView,
    t: Option<SessionType>,
    sending: bool,
    format: MessageFormat,
    f: AfiSafi,
)
    requires
        c.encodes(t, sending, format),
    ensures
        format.use_4byte_asn <==> c.four_octet_asn is Some,
        format.is_ebgp <==> t == Some(SessionType::Ebgp),
        format.enhanced_rr <==> c.enhanced_route_refresh,
        c.add_path is None ==> !format.add_path.has(f),
        c.add_path is Some && sending ==> (format.add_path.has(f) <==> c.add_path->0.contains(
            (f, AddPathMode::Send),
        ) || c.add_path->0.contains((f, AddPathMode::Both))),
        c.add_path is Some && !sending ==> (format.add_path.has(f) <==> c.add_path->0.contains(
            (f, AddPathMode::Receive),
        ) || c.add_path->0.contains((f, AddPathMode::Both))),
{
    law_sessions_with_several_paths(c, f);
}

/// The families whose routes are kept while a peer restarts are those that it named, in
/// their order.
pub proof fn law_restarting_families(c: CapabilitiesView)
    ensures
        c.graceful_restart is None ==> c.restart_families().len() == 0,
        c.graceful_restart is Some ==> c.restart_families().len()
            == c.graceful_restart->0.afi_safi_list.len(),
        forall|i: int|
            0 <= i < c.restart_families().len() ==> #[trigger] c.restart_families()[i]
                == c.graceful_restart->0.afi_safi_list[i].0,
{
}

} // verus!
