//! Platform backend of a game-controller input library: turns periodic raw
//! controller readings into an ordered stream of connect/disconnect,
//! button and axis events with stable per-session device identities.
//!
//! The native enumeration/notification API, the event channel and the
//! polling thread live outside this crate; this crate holds the verified
//! logic they drive: snapshot diffing, event codes, device descriptors,
//! fingerprint derivation and identity resolution.

pub mod ev_code;
pub mod event;
pub mod gamepad;
pub mod poll;
pub mod session;
pub mod snapshot;
