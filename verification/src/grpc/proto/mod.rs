//! Messages of the management interface.

pub mod extended_community;
pub mod ls;
pub mod management;
pub mod policy;
pub mod route;
pub mod session;

pub use extended_community::{ExtendedCommunity, LargeCommunity};
pub use ls::{
    LsAttribute, LsLinkAttribute, LsLinkDescriptor, LsNlri, LsNlriType, LsNodeAttribute,
    LsNodeDescriptor, LsPrefixAttribute, LsPrefixDescriptor, LsProtocolId, LsTlv,
};
pub use route::{
    AddIpRouteRequest, AddLsRouteRequest, AddRouteRequest, Aggregator, AsPathSegment, Path,
    RemoveRouteRequest, Route, UnknownAttribute,
};
pub use session::{
    AfiSafi, AfiSafiConfig, GracefulRestartConfig, LlgrConfig, MaxPrefixSetting, SessionConfig,
};
