//! The options of sockets.

use crate::net::addr::{IpAddr, Ipv4Addr, Ipv6Addr};
use vstd::prelude::*;

verus! {

/// The largest number of hops that a packet can have left.
pub const TTL_MAX: i32 = 255;

/// The longest key of a TCP MD5 signature, in octets.
pub const MD5_KEY_MAX: usize = 80;

/// The options that are set.
#[derive(Debug, Clone, Copy, PartialEq, Eq, Structural)]
pub enum SocketOption {
    /// How many hops packets that are sent over IPv4 have left.
    IpTtl,
    /// How many hops packets that come over IPv4 must have left.
    IpMinTtl,
    /// How many hops packets that are sent over IPv6 have left.
    Ipv6UnicastHops,
    /// How many hops packets that come over IPv6 must have left.
    Ipv6MinHopCount,
    /// Whether a silent connection is probed.
    KeepAlive,
}

/// The value of an option.
#[derive(Debug, Clone, Copy, PartialEq, Eq, Structural)]
pub struct Setting {
    pub option: SocketOption,
    pub value: i32,
}

/// Packets to `addr` are sent with as many hops left as there can be.
pub open spec fn ttl_max_setting(addr: IpAddr) -> Setting {
    match addr {
        IpAddr::V4(_) => Setting { option: SocketOption::IpTtl, value: TTL_MAX },
        IpAddr::V6(_) => Setting { option: SocketOption::Ipv6UnicastHops, value: TTL_MAX },
    }
}

/// Packets from `addr` that have fewer hops left are dropped.
pub open spec fn min_ttl_setting(addr: IpAddr, min_ttl: u8) -> Setting {
    match addr {
        IpAddr::V4(_) => Setting { option: SocketOption::IpMinTtl, value: min_ttl as i32 },
        IpAddr::V6(_) => Setting { option: SocketOption::Ipv6MinHopCount, value: min_ttl as i32 },
    }
}

/// What is set so that packets are sent with as many hops left as there can be,
/// with no demand on those that come.
pub fn ttl_max_settings(addr: IpAddr) -> (r: Vec<Setting>)
    ensures
        r@ == seq![ttl_max_setting(addr)],
{
    let x = match addr {
        IpAddr::V4(_) => Setting { option: SocketOption::IpTtl, value: TTL_MAX },
        IpAddr::V6(_) => Setting { option: SocketOption::Ipv6UnicastHops, value: TTL_MAX },
    };
    let r: Vec<Setting> = vec![x];
    assert(r@ =~= seq![ttl_max_setting(addr)]);
    r
}

/// What is set so that a session is guarded by the hops that its packets have
/// left: those that are sent have as many as there can be, and those that come
/// with fewer than `min_ttl` are dropped.
pub fn gtsm_settings(addr: IpAddr, min_ttl: u8) -> (r: Vec<Setting>)
    ensures
        r@ == seq![ttl_max_setting(addr), min_ttl_setting(addr, min_ttl)],
{
    let mut r = ttl_max_settings(addr);
    let x = match addr {
        IpAddr::V4(_) => Setting { option: SocketOption::IpMinTtl, value: min_ttl as i32 },
        IpAddr::V6(_) => Setting { option: SocketOption::Ipv6MinHopCount, value: min_ttl as i32 },
    };
    r.push(x);
    assert(r@ =~= seq![ttl_max_setting(addr), min_ttl_setting(addr, min_ttl)]);
    r
}

/// What is set so that a silent connection is probed.
pub fn keepalive_settings() -> (r: Vec<Setting>)
    ensures
        r@ == seq![Setting { option: SocketOption::KeepAlive, value: 1 }],
{
    let r: Vec<Setting> = vec![Setting { option: SocketOption::KeepAlive, value: 1 }];
    assert(r@ =~= seq![Setting { option: SocketOption::KeepAlive, value: 1 }]);
    r
}

/// The signature of a session: the address of the peer, and the key with zeros
/// behind it.
#[derive(Debug)]
pub struct Md5Signature {
    pub peer_addr: IpAddr,
    pub key_len: u16,
    pub key: Vec<u8>,
}

/// The signature with a key, which may have no more than eighty octets.
pub fn tcp_md5sig(peer_addr: IpAddr, key: &[u8]) -> (r: Result<Md5Signature, String>)
    ensures
        match r {
            Ok(s) => {
                &&& key@.len() <= MD5_KEY_MAX
                &&& s.peer_addr == peer_addr
                &&& s.key_len == key@.len()
                &&& s.key@ == key@ + Seq::new((MD5_KEY_MAX - key@.len()) as nat, |i: int| 0u8)
            },
            Err(e) => {
                &&& key@.len() > MD5_KEY_MAX
                &&& e@ == "MD5 key too long (max 80 bytes)"@
            },
        },
{
    if key.len() > MD5_KEY_MAX {
        return Err("MD5 key too long (max 80 bytes)".to_owned());
    }
    let mut padded: Vec<u8> = Vec::new();
    let ghost whole = key@ + Seq::new((MD5_KEY_MAX - key@.len()) as nat, |i: int| 0u8);
    let mut i: usize = 0;
    while i < MD5_KEY_MAX
        invariant
            i <= MD5_KEY_MAX,
            key@.len() <= MD5_KEY_MAX,
            whole == key@ + Seq::new((MD5_KEY_MAX - key@.len()) as nat, |i: int| 0u8),
            padded@ == whole.take(i as int),
        decreases MD5_KEY_MAX - i,
    {
        let b: u8 = if i < key.len() {
            key[i]
        } else {
            0
        };
        assert(whole[i as int] == b);
        padded.push(b);
        assert(whole.take(i + 1) =~= whole.take(i as int).push(whole[i as int]));
        i = i + 1;
    }
    assert(whole.take(MD5_KEY_MAX as int) =~= whole);
    Ok(Md5Signature { peer_addr, key_len: key.len() as u16, key: padded })
}

/// The options are those of the family of the peer; packets are sent with 255 hops left,
/// and the least number for those that come is the one that is asked for.
pub proof fn law_options_of_families(v4: Ipv4Addr, v6: Ipv6Addr, min_ttl: u8)
    ensures
        ttl_max_setting(IpAddr::V4(v4)) == (Setting { option: SocketOption::IpTtl, value: 255 }),
        ttl_max_setting(IpAddr::V6(v6)) == (Setting {
            option: SocketOption::Ipv6UnicastHops,
            value: 255,
        }),
        min_ttl_setting(IpAddr::V4(v4), min_ttl).option == SocketOption::IpMinTtl,
        min_ttl_setting(IpAddr::V6(v6), min_ttl).option == SocketOption::Ipv6MinHopCount,
        min_ttl_setting(IpAddr::V4(v4), min_ttl).value == min_ttl,
        min_ttl_setting(IpAddr::V6(v6), min_ttl).value == min_ttl,
{
}

} // verus!
