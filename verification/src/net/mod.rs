//! Addresses, networks and their text notations.

pub mod addr;
pub mod addr_laws;
pub mod addr_text;
pub mod network;
pub mod options;
pub mod socket;

pub use addr::{IpAddr, Ipv4Addr, Ipv6Addr};
pub use network::{IpNetwork, Ipv4Net, Ipv6Net};
pub use socket::SocketAddr;
