//! OPEN messages: who opens a session, and what it can do.

use crate::bgp::msg_open::{Capability, CapabilityView};
use crate::seqs;
use vstd::prelude::*;

verus! {

/// The largest AS number that two octets hold.
pub const MAX_2BYTE_ASN: u32 = 65535;

/// A parameter of an OPEN message: capabilities.
#[derive(Debug, PartialEq, Eq)]
pub struct OptionalParam {
    param_len: u8,
    caps: Vec<Capability>,
}

pub struct OptionalParamView {
    pub param_len: u8,
    pub capabilities: Seq<CapabilityView>,
}

impl View for OptionalParam {
    type V = OptionalParamView;

    closed spec fn view(&self) -> OptionalParamView {
        OptionalParamView { param_len: self.param_len, capabilities: seqs::views(self.caps@) }
    }
}

/// The octets that capabilities take: two for each, and its value.
pub open spec fn capabilities_len(s: Seq<CapabilityView>) -> int
    decreases s.len(),
{
    if s.len() == 0 {
        0
    } else {
        capabilities_len(s.drop_last()) + 2 + s.last().val.len()
    }
}

fn clone_capabilities(v: &Vec<Capability>) -> (r: Vec<Capability>)
    ensures
        seqs::views(r@) == seqs::views(v@),
{
    let ghost all = seqs::views(v@);
    let mut r: Vec<Capability> = Vec::new();
    let mut i: usize = 0;
    while i < v.len()
        invariant
            i <= v@.len(),
            all == seqs::views(v@),
            seqs::views(r@) == all.take(i as int),
        decreases v.len() - i,
    {
        let x = v[i].clone();
        proof {
            seqs::lemma_views_push(r@, x);
            seqs::lemma_take_next(all, i as int);
        }
        r.push(x);
        i = i + 1;
    }
    proof {
        seqs::lemma_take_all(all);
    }
    r
}

impl Clone for OptionalParam {
    fn clone(&self) -> (r: Self)
        ensures
            r@ == self@,
    {
        OptionalParam { param_len: self.param_len, caps: clone_capabilities(&self.caps) }
    }
}

impl OptionalParam {
    /// One parameter with all capabilities. Its length is what one octet holds
    /// of the octets that they take.
    pub fn from_capabilities(caps: Vec<Capability>) -> (r: Self)
        ensures
            r@ == (OptionalParamView {
                param_len: (capabilities_len(seqs::views(caps@)) % 256) as u8,
                capabilities: seqs::views(caps@),
            }),
    {
        let ghost all = seqs::views(caps@);
        let mut len: u8 = 0;
        let mut i: usize = 0;
        while i < caps.len()
            invariant
                i <= caps@.len(),
                all == seqs::views(caps@),
                len == capabilities_len(all.take(i as int)) % 256,
            decreases caps.len() - i,
        {
            proof {
                assert(all.take(i + 1).drop_last() =~= all.take(i as int));
                assert(all.take(i + 1).last() == caps@[i as int]@);
            }
            let n: usize = caps[i].val.len();
            let low: usize = n % 256;
            let sum: usize = (len as usize + 2 + low) % 256;
            proof {
                let before = capabilities_len(all.take(i as int));
                assert((before + 2 + n) % 256 == (before % 256 + 2 + n % 256) % 256);
            }
            len = sum as u8;
            i = i + 1;
        }
        proof {
            seqs::lemma_take_all(all);
        }
        OptionalParam { param_len: len, caps }
    }

    /// A parameter that gives a length for itself.
    pub fn with_len(param_len: u8, caps: Vec<Capability>) -> (r: Self)
        ensures
            r@ == (OptionalParamView { param_len, capabilities: seqs::views(caps@) }),
    {
        OptionalParam { param_len, caps }
    }

    /// The length that the parameter gives for itself.
    pub fn len_octet(&self) -> (r: u8)
        ensures
            r == self@.param_len,
    {
        self.param_len
    }

    /// The capabilities of the parameter.
    pub fn capabilities(&self) -> (r: &Vec<Capability>)
        ensures
            seqs::views(r@) == self@.capabilities,
    {
        &self.caps
    }
}

/// A message that opens a session.
#[derive(Debug, PartialEq, Eq)]
pub struct OpenMessage {
    pub version: u8,
    pub asn: u32,
    pub hold_time: u16,
    pub bgp_identifier: u32,
    pub optional_params_len: u8,
    pub optional_params: Vec<OptionalParam>,
}

pub struct OpenView {
    pub version: u8,
    pub asn: u32,
    pub hold_time: u16,
    pub bgp_identifier: u32,
    pub optional_params_len: u8,
    pub optional_params: Seq<OptionalParamView>,
}

impl View for OpenMessage {
    type V = OpenView;

    open spec fn view(&self) -> OpenView {
        OpenView {
            version: self.version,
            asn: self.asn,
            hold_time: self.hold_time,
            bgp_identifier: self.bgp_identifier,
            optional_params_len: self.optional_params_len,
            optional_params: seqs::views(self.optional_params@),
        }
    }
}

/// The capabilities of parameters, in their order.
pub open spec fn all_capabilities(s: Seq<OptionalParamView>) -> Seq<CapabilityView>
    decreases s.len(),
{
    if s.len() == 0 {
        Seq::empty()
    } else {
        all_capabilities(s.drop_last()) + s.last().capabilities
    }
}

fn clone_params(v: &Vec<OptionalParam>) -> (r: Vec<OptionalParam>)
    ensures
        seqs::views(r@) == seqs::views(v@),
{
    let ghost all = seqs::views(v@);
    let mut r: Vec<OptionalParam> = Vec::new();
    let mut i: usize = 0;
    while i < v.len()
        invariant
            i <= v@.len(),
            all == seqs::views(v@),
            seqs::views(r@) == all.take(i as int),
        decreases v.len() - i,
    {
        let x = v[i].clone();
        proof {
            seqs::lemma_views_push(r@, x);
            seqs::lemma_take_next(all, i as int);
        }
        r.push(x);
        i = i + 1;
    }
    proof {
        seqs::lemma_take_all(all);
    }
    r
}

impl Clone for OpenMessage {
    fn clone(&self) -> (r: Self)
        ensures
            r@ == self@,
    {
        OpenMessage {
            version: self.version,
            asn: self.asn,
            hold_time: self.hold_time,
            bgp_identifier: self.bgp_identifier,
            optional_params_len: self.optional_params_len,
            optional_params: clone_params(&self.optional_params),
        }
    }
}

/// A message without parameters.
pub open spec fn bare_open(asn: u32, hold_time: u16, bgp_identifier: u32) -> OpenView {
    OpenView {
        version: 4,
        asn,
        hold_time,
        bgp_identifier,
        optional_params_len: 0,
        optional_params: Seq::empty(),
    }
}

impl OpenMessage {
    /// A message without parameters.
    pub fn new(asn: u32, hold_time: u16, bgp_identifier: u32) -> (r: Self)
        ensures
            r@ == bare_open(asn, hold_time, bgp_identifier),
    {
        let r = OpenMessage {
            version: 4,
            asn,
            hold_time,
            bgp_identifier,
            optional_params_len: 0,
            optional_params: Vec::new(),
        };
        assert(r@.optional_params =~= Seq::<OptionalParamView>::empty());
        r
    }
}

} // verus!
