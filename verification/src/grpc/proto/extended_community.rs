//! Communities in messages.

use vstd::prelude::*;

verus! {

#[derive(Debug, Clone, Copy, PartialEq, Eq, Structural)]
pub struct TwoOctetAsSpecific {
    pub is_transitive: bool,
    pub sub_type: u32,
    pub asn: u32,
    pub local_admin: u32,
}

#[derive(Debug, PartialEq, Eq)]
pub struct IPv4AddressSpecific {
    pub is_transitive: bool,
    pub sub_type: u32,
    pub address: String,
    pub local_admin: u32,
}

#[derive(Debug, Clone, Copy, PartialEq, Eq, Structural)]
pub struct FourOctetAsSpecific {
    pub is_transitive: bool,
    pub sub_type: u32,
    pub asn: u32,
    pub local_admin: u32,
}

/// The bandwidth is a number in single precision, held by its bits.
#[derive(Debug, Clone, Copy, PartialEq, Eq, Structural)]
pub struct LinkBandwidth {
    pub is_transitive: bool,
    pub asn: u32,
    pub bandwidth_bits: u32,
}

#[derive(Debug, Clone, Copy, PartialEq, Eq, Structural)]
pub struct Color {
    pub is_transitive: bool,
    pub color: u32,
}

#[derive(Debug, Clone, Copy, PartialEq, Eq, Structural)]
pub struct Encapsulation {
    pub is_transitive: bool,
    pub tunnel_type: u32,
}

#[derive(Debug, PartialEq, Eq)]
pub struct RouterMac {
    pub is_transitive: bool,
    pub mac_address: Vec<u8>,
}

#[derive(Debug, PartialEq, Eq)]
pub struct Opaque {
    pub is_transitive: bool,
    pub value: Vec<u8>,
}

#[derive(Debug, PartialEq, Eq)]
pub struct Unknown {
    pub type_code: u32,
    pub value: Vec<u8>,
}

/// What an extended community is.
#[derive(Debug, PartialEq, Eq)]
pub enum Community {
    TwoOctetAs(TwoOctetAsSpecific),
    Ipv4Address(IPv4AddressSpecific),
    FourOctetAs(FourOctetAsSpecific),
    LinkBandwidth(LinkBandwidth),
    Color(Color),
    Encapsulation(Encapsulation),
    RouterMac(RouterMac),
    Opaque(Opaque),
    Unknown(Unknown),
}

pub enum CommunityView {
    TwoOctetAs(TwoOctetAsSpecific),
    Ipv4Address { is_transitive: bool, sub_type: u32, address: Seq<char>, local_admin: u32 },
    FourOctetAs(FourOctetAsSpecific),
    LinkBandwidth(LinkBandwidth),
    Color(Color),
    Encapsulation(Encapsulation),
    RouterMac { is_transitive: bool, mac_address: Seq<u8> },
    Opaque { is_transitive: bool, value: Seq<u8> },
    Unknown { type_code: u32, octets: Seq<u8> },
}

impl View for Community {
    type V = CommunityView;

    open spec fn view(&self) -> CommunityView {
        match self {
            Community::TwoOctetAs(x) => CommunityView::TwoOctetAs(*x),
            Community::Ipv4Address(x) => CommunityView::Ipv4Address {
                is_transitive: x.is_transitive,
                sub_type: x.sub_type,
                address: x.address@,
                local_admin: x.local_admin,
            },
            Community::FourOctetAs(x) => CommunityView::FourOctetAs(*x),
            Community::LinkBandwidth(x) => CommunityView::LinkBandwidth(*x),
            Community::Color(x) => CommunityView::Color(*x),
            Community::Encapsulation(x) => CommunityView::Encapsulation(*x),
            Community::RouterMac(x) => CommunityView::RouterMac {
                is_transitive: x.is_transitive,
                mac_address: x.mac_address@,
            },
            Community::Opaque(x) => CommunityView::Opaque {
                is_transitive: x.is_transitive,
                value: x.value@,
            },
            Community::Unknown(x) => CommunityView::Unknown {
                type_code: x.type_code,
                octets: x.value@,
            },
        }
    }
}

/// An extended community; none where nothing is said.
#[derive(Debug, PartialEq, Eq)]
pub struct ExtendedCommunity {
    pub community: Option<Community>,
}

impl View for ExtendedCommunity {
    type V = Option<CommunityView>;

    open spec fn view(&self) -> Option<CommunityView> {
        match self.community {
            Some(c) => Some(c@),
            None => None,
        }
    }
}

/// A large community.
#[derive(Debug, Clone, Copy, PartialEq, Eq, Structural)]
pub struct LargeCommunity {
    pub global_admin: u32,
    pub local_data_1: u32,
    pub local_data_2: u32,
}

} // verus!
