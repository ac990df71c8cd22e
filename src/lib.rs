//! Device-state synchronisation for a publish/subscribe bus.
//!
//! Devices of different kinds (lamps, switches, dimmers, sensors) are kept
//! consistent inside groups. Every state change observed on one member is
//! converted to the message kind of each other member and published to it,
//! while a per-device counting lock absorbs the echoes of those publishes.

pub mod message;
pub mod canonical;
pub mod device_lock;
pub mod device;
pub mod devices;
pub mod loops;
pub mod registry;
pub mod device_repo;
pub mod laws;
pub mod transport;
