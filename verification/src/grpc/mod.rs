//! The management interface: what its messages hold, and how they relate to the
//! types of the rest of the library.

pub mod client;
pub mod listings;
pub mod ls_attr;
pub mod ls_laws;
pub mod peer_laws;
pub mod policy_laws;
pub mod proto;
pub mod proto_community;
pub mod proto_ls;
pub mod proto_policy;
pub mod route_laws;
pub mod routes;
pub mod service;
pub mod sessions;
