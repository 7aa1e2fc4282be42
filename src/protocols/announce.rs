use vstd::prelude::*;
use crate::error::MdnsError;
use crate::message::{MdnsMessage, announce_message};
use crate::protocols::handler::{ChainView, Event, Handler};
use crate::protocols::handler::lemma_queue_push;
use crate::protocols::probe::{fired_tag, with_state};
use crate::record::ResourceRecord;
use crate::service::{Query, Service, ServiceState};

verus! {

/// The wait, in milliseconds, between the two announcements.
pub const ANNOUNCE_WAIT_MS: u64 = 1000;

/// The state after the timer of the second announcement fired while waiting
/// for it; anything else leaves the state as it is.
pub open spec fn announce_advance(state: ServiceState, event: Event) -> ServiceState {
    if fired_tag(event) == Some(state) && state == ServiceState::WaitForSecondAnnouncement {
        ServiceState::SecondAnnouncement
    } else {
        state
    }
}

/// Announcing. Without a registration nothing happens. Otherwise a matching
/// fired timer moves the state on, and then:
/// - in `FirstAnnouncement`, an announcement is queued and a timer of 1000 ms
///   armed for `WaitForSecondAnnouncement`;
/// - in `SecondAnnouncement`, an announcement is queued and the service is
///   `Registered`;
/// - any other state is left to the other handlers.
pub open spec fn announce_next(event: Event, pre: ChainView) -> ChainView {
    match pre.registration {
        None => pre,
        Some(s) => {
            let state = announce_advance(s.state, event);
            match state {
                ServiceState::FirstAnnouncement => ChainView {
                    registration: Some(with_state(s, ServiceState::WaitForSecondAnnouncement)),
                    timeouts: pre.timeouts.push(
                        (ServiceState::WaitForSecondAnnouncement, ANNOUNCE_WAIT_MS),
                    ),
                    queue: pre.queue.push(announce_message(s)),
                    ..pre
                },
                ServiceState::SecondAnnouncement => ChainView {
                    registration: Some(with_state(s, ServiceState::Registered)),
                    queue: pre.queue.push(announce_message(s)),
                    ..pre
                },
                _ => ChainView { registration: Some(with_state(s, state)), ..pre },
            }
        },
    }
}

/// Announces the probed service twice, a second apart.
#[derive(Clone, Copy, Debug, Default)]
pub struct AnnouncementHandler {}

impl Handler for AnnouncementHandler {
    open spec fn spec_handle(&self, event: Event, pre: ChainView, post: ChainView) -> bool {
        post == announce_next(event, pre)
    }

    fn handle(
        &self,
        event: &Event,
        records: &mut Vec<ResourceRecord>,
        registration: &mut Option<Service>,
        query: &mut Option<Query>,
        timeouts: &mut Vec<(ServiceState, u64)>,
        queue: &mut Vec<MdnsMessage>,
    ) -> (r: Result<(), MdnsError>) {
        let taken = registration.take();
        match taken {
            None => {},
            Some(mut r) => {
                let ghost s = r@;
                match event {
                    Event::TimeElapsed((tag, _)) => {
                        if *tag == r.state && r.state == ServiceState::WaitForSecondAnnouncement {
                            r.state = ServiceState::SecondAnnouncement;
                        }
                    },
                    _ => {},
                }
                assert(r.state == announce_advance(s.state, *event));
                match r.state {
                    ServiceState::FirstAnnouncement => {
                        let m = MdnsMessage::announce(&r);
                        proof {
                            lemma_queue_push(queue@, m);
                        }
                        queue.push(m);
                        r.state = ServiceState::WaitForSecondAnnouncement;
                        timeouts.push((ServiceState::WaitForSecondAnnouncement, ANNOUNCE_WAIT_MS));
                    },
                    ServiceState::SecondAnnouncement => {
                        let m = MdnsMessage::announce(&r);
                        proof {
                            lemma_queue_push(queue@, m);
                        }
                        queue.push(m);
                        r.state = ServiceState::Registered;
                    },
                    _ => {},
                }
                *registration = Some(r);
            },
        }
        Ok(())
    }
}

} // verus!
