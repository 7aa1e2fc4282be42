use vstd::prelude::*;
use crate::error::MdnsError;
use crate::message::{MdnsMessage, MessageView};
use crate::record::{RecordView, ResourceRecord};
use crate::service::{Query, QueryView, Service, ServiceState, ServiceView, service_fits};

verus! {

/// What the handlers react to.
#[derive(Debug)]
pub enum Event {
    /// A message arrived on the socket.
    Message(MdnsMessage),
    /// The timer armed for the state, lasting the given milliseconds, fired.
    TimeElapsed((ServiceState, u64)),
    /// A second passed.
    Ttl(),
    /// The client is shutting down.
    Closing(),
    /// Browse for the service type, such as `_services._udp.local`.
    Browse(String),
    /// Register a service: host, service, protocol, port and TXT entries.
    Register(String, String, String, u16, Vec<String>),
}

/// Whether a registration the event asks for can be encoded.
pub open spec fn event_fits(event: Event) -> bool {
    match event {
        Event::Register(host, service, protocol, _, _) => service_fits(host@, service@, protocol@),
        _ => true,
    }
}

impl Event {
    /// Whether a registration the event asks for can be encoded; the
    /// handlers take only such events.
    pub fn fits(&self) -> (r: bool)
        ensures
            r == event_fits(*self),
    {
        match self {
            Event::Register(host, service, protocol, _, _) => crate::service::names_fit(
                host,
                service,
                protocol,
            ),
            _ => true,
        }
    }
}

/// Everything the handlers read and write, as plain values: the records
/// known on the network, the registration, the query, the timers armed and
/// the messages queued so far.
pub struct ChainView {
    pub records: Seq<RecordView>,
    pub registration: Option<ServiceView>,
    pub query: Option<QueryView>,
    pub timeouts: Seq<(ServiceState, u64)>,
    pub queue: Seq<MessageView>,
}

pub open spec fn option_service_view(s: Option<Service>) -> Option<ServiceView> {
    match s {
        Some(s) => Some(s@),
        None => None,
    }
}

pub open spec fn option_query_view(q: Option<Query>) -> Option<QueryView> {
    match q {
        Some(q) => Some(q@),
        None => None,
    }
}

pub open spec fn queue_view(q: Seq<MdnsMessage>) -> Seq<MessageView> {
    q.map_values(|m: MdnsMessage| m@)
}

pub open spec fn chain_view(
    records: Seq<ResourceRecord>,
    registration: Option<Service>,
    query: Option<Query>,
    timeouts: Seq<(ServiceState, u64)>,
    queue: Seq<MdnsMessage>,
) -> ChainView {
    ChainView {
        records: records.map_values(|r: ResourceRecord| r@),
        registration: option_service_view(registration),
        query: option_query_view(query),
        timeouts,
        queue: queue_view(queue),
    }
}

/// Queuing a message appends its view.
pub(crate) proof fn lemma_queue_push(q: Seq<MdnsMessage>, m: MdnsMessage)
    ensures
        queue_view(q.push(m)) == queue_view(q).push(m@),
{
    assert(queue_view(q.push(m)) =~= queue_view(q).push(m@));
}

/// Whether a registration, if there is one, can be encoded.
pub open spec fn registration_fits(r: Option<ServiceView>) -> bool {
    r matches Some(s) ==> s.fits()
}

/// One step of the protocol, reacting to one event.
pub trait Handler {
    /// `post` is what the handler makes of `pre` on `event`.
    spec fn spec_handle(&self, event: Event, pre: ChainView, post: ChainView) -> bool;

    /// Reacts to `event`: may change the records, the registration and the
    /// query, and may append timers to `timeouts` and messages to `queue`.
    fn handle(
        &self,
        event: &Event,
        records: &mut Vec<ResourceRecord>,
        registration: &mut Option<Service>,
        query: &mut Option<Query>,
        timeouts: &mut Vec<(ServiceState, u64)>,
        queue: &mut Vec<MdnsMessage>,
    ) -> (r: Result<(), MdnsError>)
        requires
            event_fits(*event),
            registration_fits(option_service_view(*old(registration))),
        ensures
            r is Ok,
            registration_fits(option_service_view(*final(registration))),
            self.spec_handle(
                *event,
                chain_view(old(records)@, *old(registration), *old(query), old(timeouts)@, old(queue)@),
                chain_view(
                    final(records)@,
                    *final(registration),
                    *final(query),
                    final(timeouts)@,
                    final(queue)@,
                ),
            ),
    ;
}

} // verus!
