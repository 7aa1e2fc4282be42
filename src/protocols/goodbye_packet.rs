use vstd::prelude::*;
use crate::error::MdnsError;
use crate::message::{MdnsMessage, goodbye_message};
use crate::protocols::handler::{ChainView, Event, Handler};
use crate::protocols::handler::lemma_queue_push;
use crate::record::ResourceRecord;
use crate::service::{Query, Service, ServiceState};

verus! {

/// On `Closing` with a registration, whatever its state, a goodbye is
/// queued; nothing else changes.
pub open spec fn goodbye_next(event: Event, pre: ChainView) -> ChainView {
    match (event, pre.registration) {
        (Event::Closing(), Some(s)) => ChainView { queue: pre.queue.push(goodbye_message(s)), ..pre },
        _ => pre,
    }
}

/// Withdraws the registered service when the client shuts down.
#[derive(Clone, Copy, Debug, Default)]
pub struct GoodbyeHandler {}

impl Handler for GoodbyeHandler {
    open spec fn spec_handle(&self, event: Event, pre: ChainView, post: ChainView) -> bool {
        post == goodbye_next(event, pre)
    }

    fn handle(
        &self,
        event: &Event,
        records: &mut Vec<ResourceRecord>,
        registration: &mut Option<Service>,
        query: &mut Option<Query>,
        timeouts: &mut Vec<(ServiceState, u64)>,
        queue: &mut Vec<MdnsMessage>,
    ) -> (r: Result<(), MdnsError>) {
        match event {
            Event::Closing() => {
                match registration {
                    Some(r) => {
                        let m = MdnsMessage::goodbye(r);
                        proof {
                            lemma_queue_push(queue@, m);
                        }
                        queue.push(m);
                    },
                    None => {},
                }
            },
            _ => {},
        }
        Ok(())
    }
}

} // verus!
