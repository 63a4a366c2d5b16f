//! What comes of OPEN messages that are sent as octets.

use crate::bgp::msg_open;
use crate::bgp::msg_open::{BgpCapabiltyCode, CapabilityView};
use crate::bgp::open_codec;
use crate::bgp::open_message;
use crate::bgp::open_message::OptionalParamView;
use crate::net::addr::Ipv4Addr;
use crate::peer::negotiation;
use crate::peer_config::{LlgrConfigView, PeerConfigView};
use vstd::prelude::*;

verus! {

proof fn lemma_told_next(s: Seq<CapabilityView>, x: CapabilityView)
    ensures
        open_codec::told_asn(s + seq![x]) == (if x.code is FourOctetAsn
            && msg_open::read_four_octet_asn(x.val) is Some {
            msg_open::read_four_octet_asn(x.val)
        } else {
            open_codec::told_asn(s)
        }),
{
    assert((s + seq![x]).drop_last() =~= s);
    assert((s + seq![x]).last() == x);
}

/// The capabilities that are offered tell the AS number.
proof fn lemma_offered_asn(asn: u32, c: PeerConfigView, llgr: Option<LlgrConfigView>)
    ensures
        open_codec::told_asn(negotiation::offered_capabilities(asn, c, llgr)) == Some(asn),
{
    let families = negotiation::offered_families(c);
    let entries = negotiation::offered_llgr(llgr);
    let none = Seq::<CapabilityView>::empty();
    let s2 = negotiation::family_capabilities(families) + seq![
        CapabilityView { code: BgpCapabiltyCode::RouteRefresh, val: Seq::empty() },
        CapabilityView { code: BgpCapabiltyCode::EnhancedRouteRefresh, val: Seq::empty() },
    ] + (if c.graceful_restart.enabled {
        seq![
            CapabilityView {
                code: BgpCapabiltyCode::GracefulRestart,
                val: msg_open::restart_octets(
                    c.graceful_restart.restart_time,
                    false,
                    negotiation::paired(families, false),
                ),
            },
        ]
    } else {
        none
    });
    let number = CapabilityView {
        code: BgpCapabiltyCode::FourOctetAsn,
        val: msg_open::asn_octets(asn),
    };
    msg_open::law_asn_round_trip(asn);
    lemma_told_next(s2, number);
    let s3 = s2 + seq![number];
    let stale = CapabilityView {
        code: BgpCapabiltyCode::Llgr,
        val: msg_open::llgr_octets(entries),
    };
    lemma_told_next(s3, stale);
    let s4 = s3 + (if entries.len() > 0 {
        seq![stale]
    } else {
        none
    });
    assert(s3 + none =~= s3);
    assert(s4 + none =~= s4);
    if let Some(m) = negotiation::offered_add_path(c) {
        lemma_told_next(
            s4,
            CapabilityView {
                code: BgpCapabiltyCode::AddPath,
                val: msg_open::add_path_octets(negotiation::paired(families, m)),
            },
        );
    }
}

/// A capability takes no more octets than all of them.
proof fn lemma_one_of_all(s: Seq<CapabilityView>, i: int)
    requires
        0 <= i < s.len(),
    ensures
        2 + s[i].val.len() <= open_message::capabilities_len(s),
    decreases s.len(),
{
    if i < s.len() - 1 {
        lemma_one_of_all(s.drop_last(), i);
    } else {
        lemma_len_is_positive(s.drop_last());
    }
}

proof fn lemma_len_is_positive(s: Seq<CapabilityView>)
    ensures
        0 <= open_message::capabilities_len(s),
    decreases s.len(),
{
    if s.len() > 0 {
        lemma_len_is_positive(s.drop_last());
    }
}

/// The OPEN message that a speaker sends is read by its peer as it was made, if
/// one octet can give the length of its parameters.
pub proof fn law_offered_open_comes_back(
    asn: u32,
    hold_time: u16,
    router_id: Ipv4Addr,
    c: PeerConfigView,
    llgr: Option<LlgrConfigView>,
)
    requires
        open_message::capabilities_len(negotiation::offered_capabilities(asn, c, llgr)) <= 253,
    ensures
        ({
            let m = negotiation::offered_open(asn, hold_time, router_id, c, llgr);
            open_codec::read_open(m.octets()) == Some(m)
        }),
{
    let m = negotiation::offered_open(asn, hold_time, router_id, c, llgr);
    let caps = negotiation::offered_capabilities(asn, c, llgr);
    let params = m.optional_params;
    lemma_len_is_positive(caps);
    assert(params.drop_last() =~= Seq::<OptionalParamView>::empty());
    assert(open_message::all_capabilities(params.drop_last()) =~= Seq::<CapabilityView>::empty());
    assert(open_message::all_capabilities(params) =~= caps);
    lemma_offered_asn(asn, c, llgr);
    open_codec::lemma_capability_list_len(caps);
    assert(open_codec::param_list_octets(params.drop_last()) =~= Seq::<u8>::empty());
    assert(open_codec::param_list_octets(params).len() == 2 + open_message::capabilities_len(caps));
    assert forall|i: int| 0 <= i < caps.len() implies open_codec::plain_capability(
        #[trigger] caps[i],
    ) by {
        lemma_one_of_all(caps, i);
        assert(!(caps[i].code is Unknown));
    }
    assert(open_codec::plain_param(params[0]));
    open_codec::law_open_round_trip(m);
}

} // verus!
