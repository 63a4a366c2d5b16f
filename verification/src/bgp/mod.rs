//! Protocol data: address families, path attributes, communities and the
//! link-state types.

pub mod bgpls;
pub mod community;
pub mod ext_community;
pub mod ext_community_laws;
pub mod msg;
pub mod msg_notification;
pub mod msg_open;
pub mod msg_update;
pub mod multiprotocol;
pub mod open_codec;
pub mod open_message;
pub mod update_message;
