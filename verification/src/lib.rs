//! Connection-lifecycle orchestration for a local API-testing backend: the
//! desired-state reconciliation, the per-connection worker state machine and
//! the control-channel protocol, with machine-checked contracts.

pub mod collection;
pub mod dispatch;
pub mod encode;
pub mod http;
pub mod ids;
pub mod json;
pub mod launch;
pub mod message;
pub mod reconcile;
pub mod session;
pub mod state;
pub mod tabs;
pub mod tcp;
pub mod text;
pub mod udp;
pub mod worker;
pub mod ws;
