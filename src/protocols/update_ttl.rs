use vstd::prelude::*;
use crate::error::MdnsError;
use crate::message::MdnsMessage;
use crate::protocols::handler::{ChainView, Event, Handler};
use crate::record::{RecordView, ResourceRecord};
use crate::service::{Query, Service, ServiceState};

verus! {

/// The record a second later: its TTL one less, but not below zero.
pub open spec fn aged(r: RecordView) -> RecordView {
    RecordView {
        ttl: if r.ttl > 0 {
            (r.ttl - 1) as u32
        } else {
            0
        },
        ..r
    }
}

/// On `Ttl`, every known record ages by a second; every other event changes
/// nothing.
pub open spec fn update_ttl_next(event: Event, pre: ChainView) -> ChainView {
    match event {
        Event::Ttl() => ChainView { records: pre.records.map_values(|r: RecordView| aged(r)), ..pre },
        _ => pre,
    }
}

/// Counts down the time to live of the records known on the network.
#[derive(Clone, Copy, Debug, Default)]
pub struct UpdateTTLHandler {}

impl Handler for UpdateTTLHandler {
    open spec fn spec_handle(&self, event: Event, pre: ChainView, post: ChainView) -> bool {
        post == update_ttl_next(event, pre)
    }

    fn handle(
        &self,
        event: &Event,
        records: &mut Vec<ResourceRecord>,
        registration: &mut Option<Service>,
        query: &mut Option<Query>,
        timeouts: &mut Vec<(ServiceState, u64)>,
        queue: &mut Vec<MdnsMessage>,
    ) -> (r: Result<(), MdnsError>) {
        match event {
            Event::Ttl() => {
                let ghost before = records@.map_values(|r: ResourceRecord| r@);
                let mut i: usize = 0;
                while i < records.len()
                    invariant
                        i <= records@.len(),
                        before.len() == records@.len(),
                        forall|j: int| 0 <= j < i ==> #[trigger] records@[j]@ == aged(before[j]),
                        forall|j: int| i <= j < records@.len() ==> #[trigger] records@[j]@ == before[j],
                    decreases records@.len() - i,
                {
                    let ghost old_records = records@;
                    assert(old_records[i as int]@ == before[i as int]);
                    let rec = &mut records[i];
                    if rec.ttl > 0 {
                        rec.ttl = rec.ttl - 1;
                    }
                    assert(records@.len() == old_records.len());
                    assert(records@[i as int]@ == aged(before[i as int]));
                    assert(forall|j: int| 0 <= j < records@.len() && j != i ==> records@[j] == old_records[j]);
                    i += 1;
                }
                assert(records@.map_values(|r: ResourceRecord| r@) =~= before.map_values(
                    |r: RecordView| aged(r),
                ));
            },
            _ => {},
        }
        Ok(())
    }
}

} // verus!
