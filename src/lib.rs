//! Host-side protocol engine for multicast DNS service registration and
//! discovery: the wire encoder for DNS messages and the chain of protocol
//! handlers that drives a service through probing and announcing.

pub mod client;
pub mod error;
pub mod header;
pub mod message;
pub mod name;
pub mod octets;
pub mod protocols;
pub mod question;
pub mod record;
pub mod records;
pub mod service;
pub mod utility;

pub use client::DnsSd2;
pub use error::MdnsError;
pub use service::{Query, Service, ServiceState};
