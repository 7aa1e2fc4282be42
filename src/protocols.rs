//! The protocol handlers. Each sees every event, in a fixed order, and may
//! change the shared state, arm timers and queue messages.

pub mod announce;
pub mod browse;
pub mod goodbye_packet;
pub mod handler;
pub mod name_compression;
pub mod probe;
pub mod register;
pub mod update_ttl;
