//! Decision logic of a multi-protocol network load generator.
//!
//! The crate plans a fleet of client connections against one target, paces
//! each connection's transmissions, and aggregates what was sent into
//! periodic throughput reports. Sockets, timers and tasks live with the
//! caller; everything here works on plain values.

pub mod bandwidth;
pub mod config;
pub mod manager;
pub mod manager_laws;
pub mod pacing;
pub mod payload;
pub mod sender;
pub mod sender_laws;
pub mod statistics;
pub mod statistics_laws;
pub mod text;
pub mod transport;
