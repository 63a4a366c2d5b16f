//! Addresses with ports, and their text notation.

use crate::net::addr::{Ipv4Addr, Ipv6Addr};
use crate::net::addr_text;
use crate::text;
use crate::text::{chars_of, parse_decimal, push_char, render_decimal, split_once};
use vstd::prelude::*;

verus! {

/// An address of either family with a port; one of IPv6 may name a zone.
#[derive(Debug, Clone, Copy, PartialEq, Eq, Hash, Structural)]
pub enum SocketAddr {
    V4 { ip: Ipv4Addr, port: u16 },
    V6 { ipv6: Ipv6Addr, zone: u32, port: u16 },
}

/// Digits that stand for a number of at most `max`, without a sign.
pub open spec fn read_digits(s: Seq<char>, max: nat) -> Option<nat> {
    if s.len() > 0 && s[0] == '+' {
        None
    } else {
        text::read_decimal(s, max)
    }
}

fn parse_digits(s: &str, max: u64) -> (r: Option<u64>)
    ensures
        match r {
            Some(v) => read_digits(s@, max as nat) == Some(v as nat),
            None => read_digits(s@, max as nat) is None,
        },
{
    let chars = chars_of(s);
    if chars.len() > 0 && chars[0] == '+' {
        None
    } else {
        parse_decimal(s, max)
    }
}

/// An IPv4 address, a colon and a port.
pub open spec fn read_socket_v4(s: Seq<char>) -> Option<SocketAddr> {
    match text::split_once_at(s, ':') {
        Some((a, p)) => match (addr_text::read_ipv4(a), read_digits(p, 65535)) {
            (Some(ip), Some(port)) => Some(SocketAddr::V4 { ip, port: port as u16 }),
            _ => None,
        },
        None => None,
    }
}

/// An IPv6 address, with the number of a zone behind a percent sign where one is
/// named.
pub open spec fn read_zoned(s: Seq<char>) -> Option<(Ipv6Addr, nat)> {
    match text::split_once_at(s, '%') {
        Some((a, z)) => match (addr_text::read_ipv6(a), read_digits(z, 0xffff_ffff)) {
            (Some(ip), Some(zone)) => Some((ip, zone)),
            _ => None,
        },
        None => match addr_text::read_ipv6(s) {
            Some(ip) => Some((ip, 0)),
            None => None,
        },
    }
}

/// An IPv6 address in square brackets, a colon and a port.
pub open spec fn read_socket_v6(s: Seq<char>) -> Option<SocketAddr> {
    match text::split_once_at(s, '[') {
        Some((nothing, rest)) => if nothing.len() > 0 {
            None
        } else {
            match text::split_once_at(rest, ']') {
                Some((a, tail)) => match text::split_once_at(tail, ':') {
                    Some((none, p)) => match (read_zoned(a), read_digits(p, 65535)) {
                        (Some((ipv6, zone)), Some(port)) => if none.len() == 0 {
                            Some(SocketAddr::V6 { ipv6, zone: zone as u32, port: port as u16 })
                        } else {
                            None
                        },
                        _ => None,
                    },
                    None => None,
                },
                None => None,
            }
        },
        None => None,
    }
}

/// The address and port that a text denotes.
pub open spec fn read_socket(s: Seq<char>) -> Option<SocketAddr> {
    match read_socket_v4(s) {
        Some(x) => Some(x),
        None => read_socket_v6(s),
    }
}

fn parse_socket_v4(s: &str) -> (r: Option<SocketAddr>)
    ensures
        r == read_socket_v4(s@),
{
    match split_once(s, ':') {
        Some((a, p)) => match (Ipv4Addr::parse(a), parse_digits(p, 65535)) {
            (Some(ip), Some(port)) => Some(SocketAddr::V4 { ip, port: port as u16 }),
            _ => None,
        },
        None => None,
    }
}

fn parse_zoned(s: &str) -> (r: Option<(Ipv6Addr, u64)>)
    ensures
        match r {
            Some((ip, zone)) => read_zoned(s@) == Some((ip, zone as nat)) && zone <= 0xffff_ffff,
            None => read_zoned(s@) is None,
        },
{
    match split_once(s, '%') {
        Some((a, z)) => match (Ipv6Addr::parse(a), parse_digits(z, 0xffff_ffff)) {
            (Some(ip), Some(zone)) => Some((ip, zone)),
            _ => None,
        },
        None => match Ipv6Addr::parse(s) {
            Some(ip) => Some((ip, 0)),
            None => None,
        },
    }
}

fn parse_socket_v6(s: &str) -> (r: Option<SocketAddr>)
    ensures
        r == read_socket_v6(s@),
{
    match split_once(s, '[') {
        Some((nothing, rest)) => {
            if !nothing.is_empty() {
                return None;
            }
            match split_once(rest, ']') {
                Some((a, tail)) => match split_once(tail, ':') {
                    Some((none, p)) => match (parse_zoned(a), parse_digits(p, 65535)) {
                        (Some((ipv6, zone)), Some(port)) => if none.is_empty() {
                            Some(SocketAddr::V6 { ipv6, zone: zone as u32, port: port as u16 })
                        } else {
                            None
                        },
                        _ => None,
                    },
                    None => None,
                },
                None => None,
            }
        },
        None => None,
    }
}

impl SocketAddr {
    /// The notation of an address with its port; zone 0 is not named.
    pub open spec fn text(self) -> Seq<char> {
        match self {
            SocketAddr::V4 { ip, port } => ip.text() + seq![':'] + text::decimal(port as nat),
            SocketAddr::V6 { ipv6, zone, port } => seq!['['] + ipv6.text() + (if zone == 0 {
                Seq::empty()
            } else {
                seq!['%'] + text::decimal(zone as nat)
            }) + seq![']', ':'] + text::decimal(port as nat),
        }
    }

    pub fn to_text(&self) -> (r: String)
        ensures
            r@ == self.text(),
    {
        match self {
            SocketAddr::V4 { ip, port } => {
                let mut s = ip.to_text();
                push_char(&mut s, ':');
                s.append(render_decimal(*port as u64).as_str());
                assert(s@ =~= self.text());
                s
            },
            SocketAddr::V6 { ipv6, zone, port } => {
                let mut s = String::new();
                push_char(&mut s, '[');
                s.append(ipv6.to_text().as_str());
                if *zone != 0 {
                    push_char(&mut s, '%');
                    s.append(render_decimal(*zone as u64).as_str());
                }
                push_char(&mut s, ']');
                push_char(&mut s, ':');
                s.append(render_decimal(*port as u64).as_str());
                assert(s@ =~= self.text());
                s
            },
        }
    }

    /// The address and port that `s` denotes, if it denotes one.
    pub fn parse(s: &str) -> (r: Option<Self>)
        ensures
            r == read_socket(s@),
    {
        match parse_socket_v4(s) {
            Some(x) => Some(x),
            None => parse_socket_v6(s),
        }
    }
}

} // verus!
