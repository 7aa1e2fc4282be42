use vstd::prelude::*;
use crate::error::MdnsError;
use crate::message::MdnsMessage;
use crate::protocols::handler::{ChainView, Event, Handler};
use crate::record::ResourceRecord;
use crate::service::{Query, QueryView, Service, ServiceState};

verus! {

/// On `Browse`, the query becomes a fresh search for the given service type,
/// replacing any earlier one; every other event changes nothing.
pub open spec fn browse_next(event: Event, pre: ChainView) -> ChainView {
    match event {
        Event::Browse(name) => ChainView {
            query: Some(QueryView { name: name@, timeout: 0, services: Seq::empty() }),
            ..pre
        },
        _ => pre,
    }
}

/// Takes a `Browse` command and starts the search it asks for.
#[derive(Clone, Copy, Debug, Default)]
pub struct BrowseHandler {}

impl Handler for BrowseHandler {
    open spec fn spec_handle(&self, event: Event, pre: ChainView, post: ChainView) -> bool {
        post == browse_next(event, pre)
    }

    fn handle(
        &self,
        event: &Event,
        records: &mut Vec<ResourceRecord>,
        registration: &mut Option<Service>,
        query: &mut Option<Query>,
        timeouts: &mut Vec<(ServiceState, u64)>,
        queue: &mut Vec<MdnsMessage>,
    ) -> (r: Result<(), MdnsError>) {
        match event {
            Event::Browse(name) => {
                let q = Query { name: name.clone(), timeout: 0, services: Vec::new() };
                assert(q@.services =~= Seq::empty());
                *query = Some(q);
            },
            _ => {},
        }
        Ok(())
    }
}

} // verus!
