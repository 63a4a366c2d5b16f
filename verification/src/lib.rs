//! The decision logic of a BGP daemon: routing policy, route export, session
//! handling and the conversions behind its management interface.
#![allow(unused_imports)]

pub mod bgp;
pub mod conf;
pub mod grpc;
pub mod metrics;
pub mod net;
pub mod peer;
pub mod peer_config;
pub mod policy;
pub mod rib;
pub mod rpki;
pub mod seqs;
pub mod text;
