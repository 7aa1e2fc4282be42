use rand::Rng;
use vstd::prelude::*;
use crate::error::MdnsError;
use crate::message::{MdnsMessage, probe_message};
use crate::protocols::handler::{
    ChainView, Event, Handler, chain_view, lemma_queue_push, option_service_view, registration_fits,
};
use crate::record::ResourceRecord;
use crate::service::{Query, Service, ServiceState, ServiceView};

verus! {

/// The bound, in milliseconds, of the random delay before the first probe.
pub const PROBE_JITTER_MS: u64 = 250;

/// The wait, in milliseconds, after each probe.
pub const PROBE_WAIT_MS: u64 = 250;

/// A number drawn below `bound`.
///
/// Relies on rand's `thread_rng().gen_range(0..bound)`, which draws uniformly
/// from `0..bound` and panics only on an empty range.
#[verifier::external_body]
pub(crate) fn random_below(bound: u64) -> (r: u64)
    requires
        bound > 0,
    ensures
        r < bound,
{
    rand::thread_rng().gen_range(0..bound)
}

/// The tag of a fired timer, if the event is one.
pub open spec fn fired_tag(event: Event) -> Option<ServiceState> {
    match event {
        Event::TimeElapsed((tag, _)) => Some(tag),
        _ => None,
    }
}

/// The state after a timer tagged `state` fired while in it; any other event
/// leaves the state as it is.
pub open spec fn probe_advance(state: ServiceState, event: Event) -> ServiceState {
    if fired_tag(event) == Some(state) {
        match state {
            ServiceState::WaitForFirstProbe => ServiceState::FirstProbe,
            ServiceState::WaitForSecondProbe => ServiceState::SecondProbe,
            ServiceState::WaitForAnnouncing => ServiceState::FirstAnnouncement,
            _ => state,
        }
    } else {
        state
    }
}

pub open spec fn with_state(s: ServiceView, state: ServiceState) -> ServiceView {
    ServiceView { state, ..s }
}

/// Probing. Without a registration nothing happens. Otherwise a fired timer
/// that matches the state moves it on, and then:
/// - in `Prelude`, a timer `WaitForFirstProbe` of `delay` ms is armed;
/// - in `FirstProbe` and `SecondProbe`, a probe is queued and a timer of
///   250 ms armed for the next waiting state;
/// - any other state is left to the other handlers.
pub open spec fn probe_next(event: Event, pre: ChainView, delay: u64) -> ChainView {
    match pre.registration {
        None => pre,
        Some(s) => {
            let state = probe_advance(s.state, event);
            match state {
                ServiceState::Prelude => ChainView {
                    registration: Some(with_state(s, ServiceState::WaitForFirstProbe)),
                    timeouts: pre.timeouts.push((ServiceState::WaitForFirstProbe, delay)),
                    ..pre
                },
                ServiceState::FirstProbe => ChainView {
                    registration: Some(with_state(s, ServiceState::WaitForSecondProbe)),
                    timeouts: pre.timeouts.push((ServiceState::WaitForSecondProbe, PROBE_WAIT_MS)),
                    queue: pre.queue.push(probe_message(s)),
                    ..pre
                },
                ServiceState::SecondProbe => ChainView {
                    registration: Some(with_state(s, ServiceState::WaitForAnnouncing)),
                    timeouts: pre.timeouts.push((ServiceState::WaitForAnnouncing, PROBE_WAIT_MS)),
                    queue: pre.queue.push(probe_message(s)),
                    ..pre
                },
                _ => ChainView { registration: Some(with_state(s, state)), ..pre },
            }
        },
    }
}

/// Probes for the registered service's names before it is announced: after
/// a random delay, two probes 250 ms apart.
#[derive(Clone, Copy, Debug, Default)]
pub struct ProbeHandler {}

impl ProbeHandler {
    /// [`probe_next`] with the given delay before the first probe.
    pub fn handle_with_delay(
        &self,
        event: &Event,
        records: &mut Vec<ResourceRecord>,
        registration: &mut Option<Service>,
        query: &mut Option<Query>,
        timeouts: &mut Vec<(ServiceState, u64)>,
        queue: &mut Vec<MdnsMessage>,
        delay: u64,
    ) -> (r: Result<(), MdnsError>)
        requires
            registration_fits(option_service_view(*old(registration))),
        ensures
            r is Ok,
            registration_fits(option_service_view(*final(registration))),
            chain_view(final(records)@, *final(registration), *final(query), final(timeouts)@, final(queue)@)
                == probe_next(
                *event,
                chain_view(old(records)@, *old(registration), *old(query), old(timeouts)@, old(queue)@),
                delay,
            ),
    {
        let ghost pre = chain_view(records@, *registration, *query, timeouts@, queue@);
        let taken = registration.take();
        match taken {
            None => {},
            Some(mut r) => {
                let ghost s = r@;
                match event {
                    Event::TimeElapsed((tag, _)) => {
                        if *tag == r.state {
                            match r.state {
                                ServiceState::WaitForFirstProbe => {
                                    r.state = ServiceState::FirstProbe;
                                },
                                ServiceState::WaitForSecondProbe => {
                                    r.state = ServiceState::SecondProbe;
                                },
                                ServiceState::WaitForAnnouncing => {
                                    r.state = ServiceState::FirstAnnouncement;
                                },
                                _ => {},
                            }
                        }
                    },
                    _ => {},
                }
                assert(r.state == probe_advance(s.state, *event));
                match r.state {
                    ServiceState::Prelude => {
                        r.state = ServiceState::WaitForFirstProbe;
                        timeouts.push((ServiceState::WaitForFirstProbe, delay));
                    },
                    ServiceState::FirstProbe => {
                        let m = MdnsMessage::probe(&r);
                        proof {
                            lemma_queue_push(queue@, m);
                        }
                        queue.push(m);
                        r.state = ServiceState::WaitForSecondProbe;
                        timeouts.push((ServiceState::WaitForSecondProbe, PROBE_WAIT_MS));
                    },
                    ServiceState::SecondProbe => {
                        let m = MdnsMessage::probe(&r);
                        proof {
                            lemma_queue_push(queue@, m);
                        }
                        queue.push(m);
                        r.state = ServiceState::WaitForAnnouncing;
                        timeouts.push((ServiceState::WaitForAnnouncing, PROBE_WAIT_MS));
                    },
                    _ => {},
                }
                *registration = Some(r);
            },
        }
        Ok(())
    }
}

impl Handler for ProbeHandler {
    open spec fn spec_handle(&self, event: Event, pre: ChainView, post: ChainView) -> bool {
        exists|delay: u64| delay < PROBE_JITTER_MS && post == probe_next(event, pre, delay)
    }

    fn handle(
        &self,
        event: &Event,
        records: &mut Vec<ResourceRecord>,
        registration: &mut Option<Service>,
        query: &mut Option<Query>,
        timeouts: &mut Vec<(ServiceState, u64)>,
        queue: &mut Vec<MdnsMessage>,
    ) -> (r: Result<(), MdnsError>) {
        let delay = random_below(PROBE_JITTER_MS);
        self.handle_with_delay(event, records, registration, query, timeouts, queue, delay)
    }
}

} // verus!
