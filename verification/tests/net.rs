//! Addresses, networks, sockets and the names of metrics.

use bgpgg::metrics::{prometheus_name, PEER_COUNT, SESSION_UPTIME_SECONDS};
use bgpgg::net::addr::{IpAddr, Ipv4Addr, Ipv6Addr};
use bgpgg::net::network::{IpNetwork, Ipv4Net};
use bgpgg::net::options::{
    gtsm_settings, keepalive_settings, tcp_md5sig, ttl_max_settings, Setting, SocketOption,
    MD5_KEY_MAX, TTL_MAX,
};
use bgpgg::net::socket::SocketAddr;

fn v4(a: u8, b: u8, c: u8, d: u8) -> IpAddr {
    IpAddr::V4(Ipv4Addr::new(a, b, c, d))
}

#[test]
fn test_tcp_md5sig() {
    let key = b"secret";
    let cases: &[(IpAddr, [u8; 4])] = &[
        (v4(10, 0, 0, 1), [10, 0, 0, 1]),
        (v4(192, 168, 1, 1), [192, 168, 1, 1]),
    ];
    for (addr, expected_octets) in cases {
        let sig = tcp_md5sig(*addr, key).unwrap();
        assert_eq!(sig.key_len, key.len() as u16);
        assert_eq!(&sig.key[..key.len()], key.as_slice());
        assert_eq!(sig.key.len(), MD5_KEY_MAX);
        assert!(sig.key[key.len()..].iter().all(|x| *x == 0));
        match sig.peer_addr {
            IpAddr::V4(a) => assert_eq!(a.octets(), *expected_octets),
            IpAddr::V6(_) => panic!("the family of the address changed"),
        }
    }
}

#[test]
fn test_apply_tcp_md5_key_too_long() {
    let peer_addr = IpAddr::parse("127.0.0.1").unwrap();
    let key = vec![0u8; 81];
    let result = tcp_md5sig(peer_addr, &key);
    assert_eq!(result.err(), Some("MD5 key too long (max 80 bytes)".to_string()));
    assert!(tcp_md5sig(peer_addr, &[1u8; 80]).is_ok());
}

#[test]
fn packets_leave_with_all_hops() {
    let v6 = IpAddr::parse("::1").unwrap();
    assert_eq!(
        ttl_max_settings(v4(127, 0, 0, 1)),
        vec![Setting { option: SocketOption::IpTtl, value: TTL_MAX }]
    );
    assert_eq!(
        ttl_max_settings(v6),
        vec![Setting { option: SocketOption::Ipv6UnicastHops, value: 255 }]
    );
    for min_ttl in [255u8, 254] {
        assert_eq!(
            gtsm_settings(v4(127, 0, 0, 1), min_ttl),
            vec![
                Setting { option: SocketOption::IpTtl, value: 255 },
                Setting { option: SocketOption::IpMinTtl, value: min_ttl as i32 },
            ]
        );
    }
    assert_eq!(
        gtsm_settings(v6, 254),
        vec![
            Setting { option: SocketOption::Ipv6UnicastHops, value: 255 },
            Setting { option: SocketOption::Ipv6MinHopCount, value: 254 },
        ]
    );
    assert_eq!(
        keepalive_settings(),
        vec![Setting { option: SocketOption::KeepAlive, value: 1 }]
    );
}

#[test]
fn addresses_come_back_from_their_text() {
    for text in [
        "0.0.0.0",
        "192.0.2.1",
        "255.255.255.255",
        "::",
        "::1",
        "2001:db8::1",
        "fe80::1:0:0:2",
        "1:2:3:4:5:6:7:8",
        "::ffff:192.0.2.1",
    ] {
        let addr = IpAddr::parse(text).unwrap();
        assert_eq!(addr.to_text(), text);
        assert_eq!(IpAddr::parse(addr.to_text().as_str()), Some(addr));
    }
}

#[test]
fn other_spellings_of_an_address_are_read() {
    assert_eq!(
        IpAddr::parse("2001:0DB8:0:0:0:0:0:1"),
        Some(IpAddr::V6(Ipv6Addr::new(0x2001, 0xdb8, 0, 0, 0, 0, 0, 1)))
    );
    assert_eq!(IpAddr::parse("2001:0DB8:0:0:0:0:0:1").unwrap().to_text(), "2001:db8::1");
}

#[test]
fn what_is_no_address_is_not_read() {
    for text in
        ["", "1.2.3", "1.2.3.4.5", "1.2.3.256", "01.2.3.4", ":::", "1:2:3", "1::2::3", "g::"]
    {
        assert_eq!(IpAddr::parse(text), None, "{}", text);
    }
}

#[test]
fn networks_come_back_from_their_text() {
    for text in ["0.0.0.0/0", "10.0.0.0/8", "192.0.2.1/32", "2001:db8::/32", "::/0"] {
        let network = IpNetwork::parse(text).unwrap();
        assert_eq!(network.to_text(), text);
    }
    assert_eq!(
        IpNetwork::parse("10.0.0.0/8"),
        Some(IpNetwork::V4(Ipv4Net { address: Ipv4Addr::new(10, 0, 0, 0), prefix_length: 8 }))
    );
    for text in ["10.0.0.0", "10.0.0.0/33", "2001:db8::/129", "10.0.0.0/", "/8"] {
        assert_eq!(IpNetwork::parse(text), None, "{}", text);
    }
}

#[test]
fn sockets_come_back_from_their_text() {
    for text in ["192.0.2.1:179", "[2001:db8::1]:179", "[fe80::1%3]:65535"] {
        let socket = SocketAddr::parse(text).unwrap();
        assert_eq!(socket.to_text(), text);
    }
    for text in ["192.0.2.1", "192.0.2.1:65536", "2001:db8::1:179", "[::1]", ":179"] {
        assert_eq!(SocketAddr::parse(text), None, "{}", text);
    }
}

#[test]
fn metrics_are_exposed_in_small_letters() {
    assert_eq!(prometheus_name(PEER_COUNT), "bgpgg_peer_count");
    assert_eq!(prometheus_name(SESSION_UPTIME_SECONDS), "bgpgg_session_uptime_seconds");
    assert_eq!(prometheus_name(""), "bgpgg");
}
