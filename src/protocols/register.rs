use vstd::prelude::*;
use crate::error::MdnsError;
use crate::message::MdnsMessage;
use crate::protocols::handler::{ChainView, Event, Handler};
use crate::record::ResourceRecord;
use crate::service::{Query, Service, ServiceState, ServiceView};

verus! {

/// The service a `Register` event asks for, fresh in [`ServiceState::Prelude`].
pub open spec fn requested_service(event: Event) -> Option<ServiceView> {
    match event {
        Event::Register(host, service, protocol, port, txt_records) => Some(
            ServiceView {
                host: host@,
                service: service@,
                protocol: protocol@,
                port,
                txt_records: txt_records.deep_view(),
                state: ServiceState::Prelude,
            },
        ),
        _ => None,
    }
}

/// On `Register`, the registration becomes the requested service, replacing
/// any earlier one; every other event changes nothing.
pub open spec fn register_next(event: Event, pre: ChainView) -> ChainView {
    match requested_service(event) {
        Some(s) => ChainView { registration: Some(s), ..pre },
        None => pre,
    }
}

/// Registering twice leaves exactly the second service, fresh.
pub proof fn lemma_second_registration_wins(first: Event, second: Event, pre: ChainView)
    requires
        first is Register,
        second is Register,
    ensures
        register_next(second, register_next(first, pre)).registration == requested_service(second),
        requested_service(second) matches Some(s) && s.state == ServiceState::Prelude,
{
}

/// A copy of each string of `v`.
pub(crate) fn copy_strings(v: &Vec<String>) -> (r: Vec<String>)
    ensures
        r.deep_view() == v.deep_view(),
{
    let mut r: Vec<String> = Vec::new();
    let mut i: usize = 0;
    while i < v.len()
        invariant
            i <= v@.len(),
            r@.len() == i,
            forall|j: int| 0 <= j < i ==> r@[j]@ == v@[j]@,
        decreases v@.len() - i,
    {
        r.push(v[i].clone());
        i += 1;
    }
    assert(r.deep_view() =~= v.deep_view());
    r
}

/// Takes a `Register` command and makes its service the registration.
#[derive(Clone, Copy, Debug, Default)]
pub struct RegisterHandler {}

impl Handler for RegisterHandler {
    open spec fn spec_handle(&self, event: Event, pre: ChainView, post: ChainView) -> bool {
        post == register_next(event, pre)
    }

    fn handle(
        &self,
        event: &Event,
        records: &mut Vec<ResourceRecord>,
        registration: &mut Option<Service>,
        query: &mut Option<Query>,
        timeouts: &mut Vec<(ServiceState, u64)>,
        queue: &mut Vec<MdnsMessage>,
    ) -> (r: Result<(), MdnsError>) {
        match event {
            Event::Register(host, service, protocol, port, txt_records) => {
                *registration = Some(
                    Service {
                        host: host.clone(),
                        service: service.clone(),
                        protocol: protocol.clone(),
                        port: *port,
                        txt_records: copy_strings(txt_records),
                        state: ServiceState::Prelude,
                    },
                );
            },
            _ => {},
        }
        Ok(())
    }
}

} // verus!
