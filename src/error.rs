use vstd::prelude::*;

verus! {

/// What can go wrong while registering or browsing.
#[derive(Clone, Copy, Debug, PartialEq, Eq)]
pub enum MdnsError {
    /// The mDNS port could not be bound.
    AddressAlreadyTaken,
    /// Another host already uses the service's name.
    NameAlreadyTaken,
    /// The service was removed.
    ServiceRemoved,
    /// The client is shutting down.
    Closing,
    /// A message could not be understood.
    InvalidMessage,
}

} // verus!
