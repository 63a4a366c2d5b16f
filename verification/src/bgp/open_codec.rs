//! OPEN messages as octets.

use crate::bgp::msg_open;
use crate::bgp::msg_open::{BgpCapabiltyCode, Capability, CapabilityView};
use crate::bgp::open_message;
use crate::bgp::open_message::{
    OpenMessage, OpenView, OptionalParam, OptionalParamView, MAX_2BYTE_ASN,
};
use crate::seqs;
use vstd::prelude::*;

verus! {

/// The number of the parameter that holds capabilities.
pub const CAPABILITIES_PARAM: u8 = 2;

/// The number that stands for an AS whose number takes four octets.
pub const AS_TRANS: u16 = 23456;

/// The octets of a message before its parameters.
pub const OPEN_HEAD_LEN: usize = 10;

// ---------------------------------------------------------------------------
// Writing
// ---------------------------------------------------------------------------

/// A capability: its number, its length, and its value.
pub open spec fn capability_octets(c: CapabilityView) -> Seq<u8> {
    seq![c.code.number_spec(), (c.val.len() % 256) as u8] + c.val
}

/// Capabilities one after the other.
pub open spec fn capability_list_octets(s: Seq<CapabilityView>) -> Seq<u8>
    decreases s.len(),
{
    if s.len() == 0 {
        Seq::empty()
    } else {
        capability_list_octets(s.drop_last()) + capability_octets(s.last())
    }
}

/// A parameter: its number, its length, and its capabilities.
pub open spec fn param_octets(p: OptionalParamView) -> Seq<u8> {
    seq![CAPABILITIES_PARAM, p.param_len] + capability_list_octets(p.capabilities)
}

/// Parameters one after the other.
pub open spec fn param_list_octets(s: Seq<OptionalParamView>) -> Seq<u8>
    decreases s.len(),
{
    if s.len() == 0 {
        Seq::empty()
    } else {
        param_list_octets(s.drop_last()) + param_octets(s.last())
    }
}

/// What two octets say of an AS number.
pub open spec fn short_asn(asn: u32) -> u16 {
    if asn > MAX_2BYTE_ASN {
        AS_TRANS
    } else {
        asn as u16
    }
}

/// The two octets of a number, the most significant first.
pub open spec fn pair_octets(n: u16) -> Seq<u8> {
    seq![(n / 256) as u8, (n % 256) as u8]
}

impl OpenView {
    /// The body of the message.
    pub open spec fn octets(self) -> Seq<u8> {
        seq![self.version] + pair_octets(short_asn(self.asn)) + pair_octets(self.hold_time)
            + msg_open::asn_octets(self.bgp_identifier) + seq![self.optional_params_len]
            + param_list_octets(self.optional_params)
    }
}

fn push_all(out: &mut Vec<u8>, v: &Vec<u8>)
    ensures
        final(out)@ == old(out)@ + v@,
{
    let ghost before = out@;
    let mut i: usize = 0;
    assert(before + v@.take(0) =~= before);
    while i < v.len()
        invariant
            i <= v@.len(),
            out@ == before + v@.take(i as int),
        decreases v.len() - i,
    {
        proof {
            seqs::lemma_take_next(v@, i as int);
            assert(before + v@.take(i as int).push(v@[i as int]) =~= (before + v@.take(
                i as int,
            )).push(v@[i as int]));
        }
        out.push(v[i]);
        i = i + 1;
    }
    proof {
        seqs::lemma_take_all(v@);
    }
}

fn push_pair(out: &mut Vec<u8>, n: u16)
    ensures
        final(out)@ == old(out)@ + pair_octets(n),
{
    let ghost before = out@;
    out.push((n / 256) as u8);
    out.push((n % 256) as u8);
    assert(out@ =~= before + pair_octets(n));
}

fn push_capability(out: &mut Vec<u8>, c: &Capability)
    ensures
        final(out)@ == old(out)@ + capability_octets(c@),
{
    let ghost before = out@;
    out.push(c.code.number());
    out.push((c.val.len() % 256) as u8);
    push_all(out, &c.val);
    assert(out@ =~= before + capability_octets(c@));
}

fn push_param(out: &mut Vec<u8>, p: &OptionalParam)
    ensures
        final(out)@ == old(out)@ + param_octets(p@),
{
    let ghost before = out@;
    let caps = p.capabilities();
    let ghost all = p@.capabilities;
    out.push(CAPABILITIES_PARAM);
    out.push(p.len_octet());
    let ghost head = before + seq![CAPABILITIES_PARAM, p@.param_len];
    let mut i: usize = 0;
    assert(out@ =~= head + capability_list_octets(all.take(0)));
    while i < caps.len()
        invariant
            i <= caps@.len(),
            all == seqs::views(caps@),
            out@ == head + capability_list_octets(all.take(i as int)),
        decreases caps.len() - i,
    {
        push_capability(out, &caps[i]);
        proof {
            assert(all.take(i + 1).drop_last() =~= all.take(i as int));
            assert(all.take(i + 1).last() == caps@[i as int]@);
            assert(out@ =~= head + capability_list_octets(all.take(i + 1)));
        }
        i = i + 1;
    }
    proof {
        seqs::lemma_take_all(all);
        assert(out@ =~= before + param_octets(p@));
    }
}

impl OpenMessage {
    /// The body of the message.
    pub fn to_bytes(&self) -> (r: Vec<u8>)
        ensures
            r@ == self@.octets(),
    {
        let short: u16 = if self.asn > MAX_2BYTE_ASN {
            AS_TRANS
        } else {
            self.asn as u16
        };
        let id: u32 = self.bgp_identifier;
        let mut out: Vec<u8> = Vec::new();
        out.push(self.version);
        push_pair(&mut out, short);
        push_pair(&mut out, self.hold_time);
        out.push((id / 16777216) as u8);
        out.push((id / 65536 % 256) as u8);
        out.push((id / 256 % 256) as u8);
        out.push((id % 256) as u8);
        out.push(self.optional_params_len);
        let ghost head = seq![self.version] + pair_octets(short_asn(self.asn)) + pair_octets(
            self.hold_time,
        ) + msg_open::asn_octets(id) + seq![self.optional_params_len];
        let ghost all = self@.optional_params;
        assert(out@ =~= head);
        assert(out@ =~= head + param_list_octets(all.take(0)));
        let mut i: usize = 0;
        while i < self.optional_params.len()
            invariant
                i <= self.optional_params@.len(),
                all == seqs::views(self.optional_params@),
                out@ == head + param_list_octets(all.take(i as int)),
            decreases self.optional_params.len() - i,
        {
            push_param(&mut out, &self.optional_params[i]);
            proof {
                assert(all.take(i + 1).drop_last() =~= all.take(i as int));
                assert(all.take(i + 1).last() == self.optional_params@[i as int]@);
                assert(out@ =~= head + param_list_octets(all.take(i + 1)));
            }
            i = i + 1;
        }
        proof {
            seqs::lemma_take_all(all);
        }
        out
    }
}

// ---------------------------------------------------------------------------
// Reading
// ---------------------------------------------------------------------------

/// The capabilities that octets hold one after the other; none where one is cut
/// short.
pub open spec fn read_capabilities(b: Seq<u8>) -> Option<Seq<CapabilityView>>
    decreases b.len(),
{
    if b.len() == 0 {
        Some(Seq::empty())
    } else if b.len() < 2 || b.len() < 2 + b[1] {
        None
    } else {
        match read_capabilities(b.skip(2 + b[1])) {
            Some(rest) => Some(
                seq![
                    CapabilityView {
                        code: msg_open::code_of_number(b[0]),
                        val: b.subrange(2, 2 + b[1]),
                    },
                ] + rest,
            ),
            None => None,
        }
    }
}

/// The parameters that octets hold one after the other; none where one is cut
/// short or does not hold capabilities.
pub open spec fn read_params(b: Seq<u8>) -> Option<Seq<OptionalParamView>>
    decreases b.len(),
{
    if b.len() == 0 {
        Some(Seq::empty())
    } else if b.len() < 2 || b[0] != CAPABILITIES_PARAM || b.len() < 2 + b[1] {
        None
    } else {
        match (read_capabilities(b.subrange(2, 2 + b[1])), read_params(b.skip(2 + b[1]))) {
            (Some(capabilities), Some(rest)) => Some(
                seq![OptionalParamView { param_len: b[1], capabilities }] + rest,
            ),
            _ => None,
        }
    }
}

/// The AS number that the last of the capabilities for it gives.
pub open spec fn told_asn(s: Seq<CapabilityView>) -> Option<u32>
    decreases s.len(),
{
    if s.len() == 0 {
        None
    } else if s.last().code is FourOctetAsn && msg_open::read_four_octet_asn(
        s.last().val,
    ) is Some {
        msg_open::read_four_octet_asn(s.last().val)
    } else {
        told_asn(s.drop_last())
    }
}

/// The message whose body octets are. The AS number is that of the capability
/// for it, or else the one of two octets.
pub open spec fn read_open(b: Seq<u8>) -> Option<OpenView> {
    if b.len() < OPEN_HEAD_LEN || b.len() != OPEN_HEAD_LEN + b[9] {
        None
    } else {
        match read_params(b.skip(OPEN_HEAD_LEN as int)) {
            Some(params) => Some(
                OpenView {
                    version: b[0],
                    asn: match told_asn(open_message::all_capabilities(params)) {
                        Some(asn) => asn,
                        None => (b[1] * 256 + b[2]) as u32,
                    },
                    hold_time: (b[3] * 256 + b[4]) as u16,
                    bgp_identifier: (b[5] * 16777216 + b[6] * 65536 + b[7] * 256 + b[8]) as u32,
                    optional_params_len: b[9],
                    optional_params: params,
                },
            ),
            None => None,
        }
    }
}

/// Items, and those that follow if they can be read.
pub open spec fn joined<T>(a: Seq<T>, rest: Option<Seq<T>>) -> Option<Seq<T>> {
    match rest {
        Some(r) => Some(a + r),
        None => None,
    }
}

/// What an optional list holds.
pub open spec fn opt_views<T: View>(v: Option<Vec<T>>) -> Option<Seq<T::V>> {
    match v {
        Some(l) => Some(seqs::views(l@)),
        None => None,
    }
}

fn copy_range(b: &Vec<u8>, from: usize, to: usize) -> (r: Vec<u8>)
    requires
        from <= to <= b@.len(),
    ensures
        r@ == b@.subrange(from as int, to as int),
{
    let mut r: Vec<u8> = Vec::new();
    let mut i: usize = from;
    while i < to
        invariant
            from <= i <= to <= b@.len(),
            r@ == b@.subrange(from as int, i as int),
        decreases to - i,
    {
        r.push(b[i]);
        i = i + 1;
        assert(r@ =~= b@.subrange(from as int, i as int));
    }
    r
}

fn parse_capabilities(b: &Vec<u8>, from: usize, to: usize) -> (r: Option<Vec<Capability>>)
    requires
        from <= to <= b@.len(),
    ensures
        opt_views(r) == read_capabilities(b@.subrange(from as int, to as int)),
{
    let ghost whole = read_capabilities(b@.subrange(from as int, to as int));
    let mut out: Vec<Capability> = Vec::new();
    let mut i: usize = from;
    assert(joined(seqs::views(out@), whole) =~= whole) by {
        if let Some(r) = whole {
            assert(seqs::views(out@) + r =~= r);
        }
    }
    while i < to
        invariant
            from <= i <= to <= b@.len(),
            whole == joined(
                seqs::views(out@),
                read_capabilities(b@.subrange(i as int, to as int)),
            ),
            whole == read_capabilities(b@.subrange(from as int, to as int)),
        decreases to - i,
    {
        let ghost here = b@.subrange(i as int, to as int);
        if to - i < 2 {
            return None;
        }
        let n: usize = b[i + 1] as usize;
        assert(here[1] == b@[i + 1]);
        if to - i - 2 < n {
            return None;
        }
        let x = Capability {
            code: BgpCapabiltyCode::from_number(b[i]),
            val: copy_range(b, i + 2, i + 2 + n),
        };
        proof {
            assert(here.skip(2 + n) =~= b@.subrange(i + 2 + n, to as int));
            assert(here.subrange(2, 2 + n) =~= x.val@);
            let rest = read_capabilities(here.skip(2 + n));
            seqs::lemma_views_push(out@, x);
            if let Some(r) = rest {
                assert(seqs::views(out@) + (seq![x@] + r) =~= seqs::views(out@).push(x@) + r);
            }
        }
        out.push(x);
        i = i + 2 + n;
    }
    proof {
        assert(b@.subrange(i as int, to as int) =~= Seq::<u8>::empty());
        assert(seqs::views(out@) + Seq::<CapabilityView>::empty() =~= seqs::views(out@));
    }
    Some(out)
}

fn parse_params(b: &Vec<u8>, from: usize) -> (r: Option<Vec<OptionalParam>>)
    requires
        from <= b@.len(),
    ensures
        opt_views(r) == read_params(b@.skip(from as int)),
{
    let ghost whole = read_params(b@.skip(from as int));
    let to: usize = b.len();
    let mut out: Vec<OptionalParam> = Vec::new();
    let mut i: usize = from;
    assert(joined(seqs::views(out@), whole) =~= whole) by {
        if let Some(r) = whole {
            assert(seqs::views(out@) + r =~= r);
        }
    }
    while i < to
        invariant
            from <= i <= to == b@.len(),
            whole == joined(seqs::views(out@), read_params(b@.skip(i as int))),
            whole == read_params(b@.skip(from as int)),
        decreases to - i,
    {
        let ghost here = b@.skip(i as int);
        if to - i < 2 {
            return None;
        }
        let n: usize = b[i + 1] as usize;
        assert(here[0] == b@[i as int]);
        assert(here[1] == b@[i + 1]);
        if b[i] != CAPABILITIES_PARAM || to - i - 2 < n {
            return None;
        }
        assert(here.subrange(2, 2 + n) =~= b@.subrange(i + 2, i + 2 + n));
        assert(here.skip(2 + n) =~= b@.skip(i + 2 + n));
        let caps = match parse_capabilities(b, i + 2, i + 2 + n) {
            Some(c) => c,
            None => {
                return None;
            },
        };
        let ghost listed = seqs::views(caps@);
        let x = OptionalParam::with_len(b[i + 1], caps);
        proof {
            let rest = read_params(here.skip(2 + n));
            seqs::lemma_views_push(out@, x);
            if let Some(r) = rest {
                assert(seqs::views(out@) + (seq![x@] + r) =~= seqs::views(out@).push(x@) + r);
            }
        }
        out.push(x);
        i = i + 2 + n;
    }
    proof {
        assert(b@.skip(i as int) =~= Seq::<u8>::empty());
        assert(seqs::views(out@) + Seq::<OptionalParamView>::empty() =~= seqs::views(out@));
    }
    Some(out)
}

/// The capabilities of parameters one after the other are those of the first
/// parameters and those of the rest.
proof fn lemma_all_capabilities_next(s: Seq<OptionalParamView>, i: int)
    requires
        0 <= i < s.len(),
    ensures
        open_message::all_capabilities(s.take(i + 1)) == open_message::all_capabilities(s.take(i))
            + s[i].capabilities,
{
    assert(s.take(i + 1).drop_last() =~= s.take(i));
}

fn find_asn(params: &Vec<OptionalParam>) -> (r: Option<u32>)
    ensures
        r == told_asn(open_message::all_capabilities(seqs::views(params@))),
{
    let ghost all = seqs::views(params@);
    let mut found: Option<u32> = None;
    let mut i: usize = 0;
    while i < params.len()
        invariant
            i <= params@.len(),
            all == seqs::views(params@),
            found == told_asn(open_message::all_capabilities(all.take(i as int))),
        decreases params.len() - i,
    {
        let caps = params[i].capabilities();
        let ghost before = open_message::all_capabilities(all.take(i as int));
        let ghost here = all[i as int].capabilities;
        proof {
            lemma_all_capabilities_next(all, i as int);
            assert(before + here.take(0) =~= before);
        }
        let mut j: usize = 0;
        while j < caps.len()
            invariant
                j <= caps@.len(),
                here == seqs::views(caps@),
                found == told_asn(before + here.take(j as int)),
            decreases caps.len() - j,
        {
            proof {
                let next = before + here.take(j + 1);
                assert(next.drop_last() =~= before + here.take(j as int));
                assert(next.last() == caps@[j as int]@);
            }
            if let BgpCapabiltyCode::FourOctetAsn = caps[j].code {
                if let Some(asn) = caps[j].as_four_octet_asn() {
                    found = Some(asn);
                }
            }
            j = j + 1;
        }
        proof {
            seqs::lemma_take_all(here);
        }
        i = i + 1;
    }
    proof {
        seqs::lemma_take_all(all);
    }
    found
}

impl OpenMessage {
    /// The message whose body octets are, if they are one.
    pub fn from_bytes(bytes: Vec<u8>) -> (r: Option<Self>)
        ensures
            crate::conf::opt_view(r) == read_open(bytes@),
    {
        let b = &bytes;
        if b.len() < OPEN_HEAD_LEN || b.len() - OPEN_HEAD_LEN != b[9] as usize {
            return None;
        }
        let optional_params = match parse_params(b, OPEN_HEAD_LEN) {
            Some(p) => p,
            None => {
                return None;
            },
        };
        let asn: u32 = match find_asn(&optional_params) {
            Some(asn) => asn,
            None => b[1] as u32 * 256 + b[2] as u32,
        };
        Some(
            OpenMessage {
                version: b[0],
                asn,
                hold_time: b[3] as u16 * 256 + b[4] as u16,
                bgp_identifier: b[5] as u32 * 16777216 + b[6] as u32 * 65536 + b[7] as u32 * 256
                    + b[8] as u32,
                optional_params_len: b[9],
                optional_params,
            },
        )
    }
}

// ---------------------------------------------------------------------------
// Laws
// ---------------------------------------------------------------------------

/// A capability whose number is not spelled twice, and whose length fits in its
/// octet.
pub open spec fn plain_capability(c: CapabilityView) -> bool {
    &&& c.code == msg_open::code_of_number(c.code.number_spec())
    &&& c.val.len() < 256
}

/// A parameter of such capabilities that gives its length.
pub open spec fn plain_param(p: OptionalParamView) -> bool {
    &&& p.param_len == open_message::capabilities_len(p.capabilities)
    &&& forall|i: int|
        0 <= i < p.capabilities.len() ==> plain_capability(#[trigger] p.capabilities[i])
}

/// A message of such parameters that gives their length, and whose AS number is
/// that of its capability, or small.
pub open spec fn plain_open(m: OpenView) -> bool {
    &&& m.optional_params_len == param_list_octets(m.optional_params).len()
    &&& forall|i: int|
        0 <= i < m.optional_params.len() ==> plain_param(#[trigger] m.optional_params[i])
    &&& match told_asn(open_message::all_capabilities(m.optional_params)) {
        Some(asn) => m.asn == asn,
        None => m.asn <= MAX_2BYTE_ASN,
    }
}

/// Capabilities take as many octets as their lengths say.
pub proof fn lemma_capability_list_len(s: Seq<CapabilityView>)
    ensures
        capability_list_octets(s).len() == open_message::capabilities_len(s),
    decreases s.len(),
{
    if s.len() > 0 {
        lemma_capability_list_len(s.drop_last());
    }
}

proof fn lemma_capability_list_front(x: CapabilityView, s: Seq<CapabilityView>)
    ensures
        capability_list_octets(seq![x] + s) == capability_octets(x) + capability_list_octets(s),
    decreases s.len(),
{
    let all = seq![x] + s;
    if s.len() == 0 {
        assert(all.drop_last() =~= Seq::<CapabilityView>::empty());
        assert(capability_list_octets(all.drop_last()) =~= Seq::<u8>::empty());
        assert(capability_list_octets(all) =~= capability_octets(x) + capability_list_octets(s));
    } else {
        assert(all.drop_last() =~= seq![x] + s.drop_last());
        lemma_capability_list_front(x, s.drop_last());
        assert(capability_list_octets(all) =~= capability_octets(x) + capability_list_octets(s));
    }
}

proof fn lemma_param_list_front(x: OptionalParamView, s: Seq<OptionalParamView>)
    ensures
        param_list_octets(seq![x] + s) == param_octets(x) + param_list_octets(s),
    decreases s.len(),
{
    let all = seq![x] + s;
    if s.len() == 0 {
        assert(all.drop_last() =~= Seq::<OptionalParamView>::empty());
        assert(param_list_octets(all.drop_last()) =~= Seq::<u8>::empty());
        assert(param_list_octets(all) =~= param_octets(x) + param_list_octets(s));
    } else {
        assert(all.drop_last() =~= seq![x] + s.drop_last());
        lemma_param_list_front(x, s.drop_last());
        assert(param_list_octets(all) =~= param_octets(x) + param_list_octets(s));
    }
}

/// Capabilities are read back as they were written.
pub proof fn law_capabilities_round_trip(s: Seq<CapabilityView>)
    requires
        forall|i: int| 0 <= i < s.len() ==> plain_capability(#[trigger] s[i]),
    ensures
        read_capabilities(capability_list_octets(s)) == Some(s),
    decreases s.len(),
{
    if s.len() > 0 {
        let x = s[0];
        let rest = s.skip(1);
        let b = capability_list_octets(s);
        assert(s =~= seq![x] + rest);
        lemma_capability_list_front(x, rest);
        assert forall|i: int| 0 <= i < rest.len() implies plain_capability(#[trigger] rest[i]) by {
            assert(rest[i] == s[i + 1]);
        }
        law_capabilities_round_trip(rest);
        assert(plain_capability(s[0]));
        assert(b[0] == x.code.number_spec());
        assert(b[1] == x.val.len());
        assert(b.subrange(2, 2 + b[1]) =~= x.val);
        assert(b.skip(2 + b[1]) =~= capability_list_octets(rest));
    } else {
        assert(s =~= Seq::<CapabilityView>::empty());
    }
}

proof fn lemma_params_round_trip(s: Seq<OptionalParamView>)
    requires
        forall|i: int| 0 <= i < s.len() ==> plain_param(#[trigger] s[i]),
    ensures
        read_params(param_list_octets(s)) == Some(s),
    decreases s.len(),
{
    if s.len() > 0 {
        let x = s[0];
        let rest = s.skip(1);
        let b = param_list_octets(s);
        assert(s =~= seq![x] + rest);
        lemma_param_list_front(x, rest);
        assert forall|i: int| 0 <= i < rest.len() implies plain_param(#[trigger] rest[i]) by {
            assert(rest[i] == s[i + 1]);
        }
        lemma_params_round_trip(rest);
        assert(plain_param(s[0]));
        lemma_capability_list_len(x.capabilities);
        law_capabilities_round_trip(x.capabilities);
        assert(b[0] == CAPABILITIES_PARAM);
        assert(b[1] == x.param_len);
        assert(b.subrange(2, 2 + b[1]) =~= capability_list_octets(x.capabilities));
        assert(b.skip(2 + b[1]) =~= param_list_octets(rest));
    } else {
        assert(s =~= Seq::<OptionalParamView>::empty());
    }
}

/// The octets before the parameters of a message.
spec fn head_octets(m: OpenView) -> Seq<u8> {
    let asn = short_asn(m.asn);
    let id = m.bgp_identifier;
    seq![
        m.version,
        (asn / 256) as u8,
        (asn % 256) as u8,
        (m.hold_time / 256) as u8,
        (m.hold_time % 256) as u8,
        (id / 16777216) as u8,
        (id / 65536 % 256) as u8,
        (id / 256 % 256) as u8,
        (id % 256) as u8,
        m.optional_params_len,
    ]
}

proof fn lemma_octets_by_position(m: OpenView)
    ensures
        m.octets() == head_octets(m) + param_list_octets(m.optional_params),
{
    assert(m.octets() =~= head_octets(m) + param_list_octets(m.optional_params));
}

/// A message is read back as it was written.
pub proof fn law_open_round_trip(m: OpenView)
    requires
        plain_open(m),
    ensures
        read_open(m.octets()) == Some(m),
{
    let b = m.octets();
    let params = param_list_octets(m.optional_params);
    lemma_params_round_trip(m.optional_params);
    lemma_octets_by_position(m);
    assert(head_octets(m).len() == OPEN_HEAD_LEN);
    assert(b.skip(OPEN_HEAD_LEN as int) =~= params);
    assert(b.len() == OPEN_HEAD_LEN + params.len());
    assert forall|i: int| 0 <= i < 10 implies #[trigger] b[i] == head_octets(m)[i] by {}
    msg_open::law_asn_round_trip(m.bgp_identifier);
}

} // verus!
