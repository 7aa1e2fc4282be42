use vstd::prelude::*;
use crate::name::{Name, name_wire_chars};
use crate::record::{instance_name, local_host_name, instance_string, local_host_string};

verus! {

/// Where a service stands on its way from registration to being announced.
///
/// Each `WaitFor*` state is entered together with a timer tagged with that
/// state; the state after it is entered only when that timer fires while the
/// service is still in the tagged state.
#[derive(Clone, Copy, Debug, PartialEq, Eq, Structural)]
pub enum ServiceState {
    /// Just registered.
    Prelude,
    /// The random delay before the first probe is running.
    WaitForFirstProbe,
    /// The first probe is due.
    FirstProbe,
    /// The first probe was sent; waiting to send the second.
    WaitForSecondProbe,
    /// The second probe is due.
    SecondProbe,
    /// Probing is done; waiting to announce.
    WaitForAnnouncing,
    /// The first announcement is due.
    FirstAnnouncement,
    /// The first announcement was sent; waiting to send the second.
    WaitForSecondAnnouncement,
    /// The second announcement is due.
    SecondAnnouncement,
    /// Probed and announced.
    Registered,
}

impl Default for ServiceState {
    /// A service starts in [`ServiceState::Prelude`].
    fn default() -> (r: ServiceState)
        ensures
            r == ServiceState::Prelude,
    {
        ServiceState::Prelude
    }
}

/// A service registered on the local link.
#[derive(Clone, Debug)]
pub struct Service {
    /// Host name, such as `MyMachine`.
    pub host: String,
    /// Service name, such as `_scanner`.
    pub service: String,
    /// Protocol name, `_tcp` or `_udp`.
    pub protocol: String,
    /// The port the service listens on.
    pub port: u16,
    /// TXT entries of the form `key=value`.
    pub txt_records: Vec<String>,
    /// Where the service stands in probing and announcing.
    pub state: ServiceState,
}

/// A service as plain values.
pub struct ServiceView {
    pub host: Seq<char>,
    pub service: Seq<char>,
    pub protocol: Seq<char>,
    pub port: u16,
    pub txt_records: Seq<Seq<char>>,
    pub state: ServiceState,
}

impl View for Service {
    type V = ServiceView;

    open spec fn view(&self) -> ServiceView {
        ServiceView {
            host: self.host@,
            service: self.service@,
            protocol: self.protocol@,
            port: self.port,
            txt_records: self.txt_records.deep_view(),
            state: self.state,
        }
    }
}

/// A search for services of one type.
#[derive(Debug)]
pub struct Query {
    /// The service type searched for, such as `_services._udp.local`.
    pub name: String,
    /// Time until the next query is due.
    pub timeout: u64,
    /// Services found so far.
    pub services: Vec<Service>,
}

/// A query as plain values.
pub struct QueryView {
    pub name: Seq<char>,
    pub timeout: u64,
    pub services: Seq<ServiceView>,
}

impl View for Query {
    type V = QueryView;

    open spec fn view(&self) -> QueryView {
        QueryView {
            name: self.name@,
            timeout: self.timeout,
            services: self.services@.map_values(|s: Service| s@),
        }
    }
}

/// Whether the records of a service with these names fit their RDLENGTH
/// field: the PTR data (the instance name) and the SRV data (six octets and
/// `<host>.local`) are at most 65535 octets.
pub open spec fn service_fits(host: Seq<char>, service: Seq<char>, protocol: Seq<char>) -> bool {
    &&& name_wire_chars(instance_name(host, service, protocol)).len() <= u16::MAX
    &&& 6 + name_wire_chars(local_host_name(host)).len() <= u16::MAX
}

impl ServiceView {
    pub open spec fn fits(self) -> bool {
        service_fits(self.host, self.service, self.protocol)
    }
}

/// Whether a service with these names can be encoded; see [`service_fits`].
pub fn names_fit(host: &String, service: &String, protocol: &String) -> (r: bool)
    ensures
        r == service_fits(host@, service@, protocol@),
{
    let instance = Name::new(instance_string(host, service, protocol)).unwrap().to_bytes();
    let target = Name::new(local_host_string(host)).unwrap().to_bytes();
    instance.len() <= 65535 && target.len() <= 65529
}

} // verus!
