//! Sessions with other speakers.

pub mod capabilities;
pub mod capability_laws;
pub mod confirm;
pub mod connecting;
pub mod connecting_laws;
pub mod copies;
pub mod error_text;
pub mod export_laws;
pub mod fsm;
pub mod incoming;
pub mod incoming_laws;
pub mod messages;
pub mod negotiation;
pub mod open_laws;
pub mod outgoing;
pub mod pending;
pub mod propagate;
pub mod reactions;
pub mod selection_laws;
pub mod sending;
pub mod session;
pub mod session_laws;
pub mod state_laws;
pub mod step_laws;
pub mod steps;
pub mod transitions;

pub use capabilities::{PeerCapabilities, SessionType};
pub use fsm::{BgpOpenParams, BgpState, Fsm, FsmEvent, FsmTimers};
pub use pending::PendingRoute;
pub use reactions::PeerOp;
pub use session::{GracefulRestartState, LocalConfig, Peer, PeerError, PeerStatistics};
