use vstd::prelude::*;
use crate::error::MdnsError;
use crate::message::{MdnsMessage, announce_message, message_wire, probe_message};
use crate::protocols::announce::{AnnouncementHandler, ANNOUNCE_WAIT_MS, announce_next};
use crate::protocols::browse::{BrowseHandler, browse_next};
use crate::protocols::goodbye_packet::{GoodbyeHandler, goodbye_next};
use crate::protocols::handler::{
    ChainView, Event, Handler, chain_view, event_fits, option_query_view, option_service_view,
    queue_view, registration_fits,
};
use crate::protocols::probe::{
    ProbeHandler, PROBE_JITTER_MS, PROBE_WAIT_MS, probe_next, random_below, with_state,
};
use crate::protocols::register::{RegisterHandler, register_next};
use crate::protocols::update_ttl::{UpdateTTLHandler, update_ttl_next};
use crate::record::ResourceRecord;
use crate::service::{Query, Service, ServiceState, ServiceView};

verus! {

/// One dispatch of `event` through the handlers, in their fixed order:
/// register, probe, announce, goodbye, browse, then TTL upkeep. `delay` is
/// the random delay the probe handler drew.
pub open spec fn chain_next(event: Event, pre: ChainView, delay: u64) -> ChainView {
    let registered = register_next(event, pre);
    let probed = probe_next(event, registered, delay);
    let announced = announce_next(event, probed);
    let said_goodbye = goodbye_next(event, announced);
    let browsed = browse_next(event, said_goodbye);
    update_ttl_next(event, browsed)
}

/// The states a registration waits in between two events: for a timer, or
/// registered.
pub open spec fn is_settled(state: ServiceState) -> bool {
    state == ServiceState::WaitForFirstProbe || state == ServiceState::WaitForSecondProbe || state
        == ServiceState::WaitForAnnouncing || state == ServiceState::WaitForSecondAnnouncement
        || state == ServiceState::Registered
}

/// Whatever the state and the event, after a dispatch the registration, if
/// any, waits for a timer or is registered.
pub proof fn lemma_dispatch_leaves_settled_state(event: Event, pre: ChainView, delay: u64)
    ensures
        chain_next(event, pre, delay).registration matches Some(s) ==> is_settled(s.state),
{
}

/// A freshly registered service gets exactly one timer, tagged
/// `WaitForFirstProbe`, of less than 250 ms, whatever the event dispatched.
pub proof fn lemma_fresh_service_arms_one_probe_timer(
    event: Event,
    pre: ChainView,
    post: ChainView,
)
    requires
        pre.registration matches Some(s) && s.state == ServiceState::Prelude,
        exists|delay: u64| delay < PROBE_JITTER_MS && post == #[trigger] chain_next(event, pre, delay),
    ensures
        post.timeouts.len() == pre.timeouts.len() + 1,
        post.timeouts.subrange(0, pre.timeouts.len() as int) == pre.timeouts,
        post.timeouts.last().0 == ServiceState::WaitForFirstProbe,
        0 <= post.timeouts.last().1 < PROBE_JITTER_MS,
{
    let delay = choose|delay: u64|
        delay < PROBE_JITTER_MS && post == #[trigger] chain_next(event, pre, delay);
    assert(post.timeouts == pre.timeouts.push((ServiceState::WaitForFirstProbe, delay)));
    assert(post.timeouts.subrange(0, pre.timeouts.len() as int) =~= pre.timeouts);
}

/// A timer whose tag is not the state the registration waits in changes
/// nothing.
pub proof fn lemma_stale_timer_changes_nothing(
    tag: ServiceState,
    elapsed: u64,
    pre: ChainView,
    delay: u64,
)
    requires
        pre.registration matches Some(s) && is_settled(s.state) && tag != s.state,
    ensures
        chain_next(Event::TimeElapsed((tag, elapsed)), pre, delay) == pre,
{
    let s = pre.registration->Some_0;
    assert(with_state(s, s.state) == s);
}

/// Once registered, a service arms no more timers, unless registered anew.
pub proof fn lemma_registered_arms_no_timer(event: Event, pre: ChainView, delay: u64)
    requires
        pre.registration matches Some(s) && s.state == ServiceState::Registered,
        !(event is Register),
    ensures
        chain_next(event, pre, delay).timeouts == pre.timeouts,
{
}

/// From `FirstProbe`, a dispatch and then the three timers, each fired in the
/// state it was armed for, send two probes and two announcements, arm three
/// timers, and leave the service registered.
pub proof fn lemma_probing_then_announcing(
    pre: ChainView,
    s: ServiceView,
    delays: (u64, u64, u64, u64),
    elapsed: (u64, u64, u64),
    after_probe: ChainView,
    after_second_probe: ChainView,
    after_announcement: ChainView,
    after_registration: ChainView,
)
    requires
        pre.registration == Some(s),
        s.state == ServiceState::FirstProbe,
        after_probe == chain_next(Event::Ttl(), pre, delays.0),
        after_second_probe == chain_next(
            Event::TimeElapsed((ServiceState::WaitForSecondProbe, elapsed.0)),
            after_probe,
            delays.1,
        ),
        after_announcement == chain_next(
            Event::TimeElapsed((ServiceState::WaitForAnnouncing, elapsed.1)),
            after_second_probe,
            delays.2,
        ),
        after_registration == chain_next(
            Event::TimeElapsed((ServiceState::WaitForSecondAnnouncement, elapsed.2)),
            after_announcement,
            delays.3,
        ),
    ensures
        after_probe.registration == Some(with_state(s, ServiceState::WaitForSecondProbe)),
        after_probe.timeouts == pre.timeouts.push((ServiceState::WaitForSecondProbe, PROBE_WAIT_MS)),
        after_probe.queue == pre.queue.push(probe_message(s)),
        after_registration.registration == Some(with_state(s, ServiceState::Registered)),
        after_registration.timeouts == pre.timeouts + seq![
            (ServiceState::WaitForSecondProbe, PROBE_WAIT_MS),
            (ServiceState::WaitForAnnouncing, PROBE_WAIT_MS),
            (ServiceState::WaitForSecondAnnouncement, ANNOUNCE_WAIT_MS),
        ],
        after_registration.queue == pre.queue + seq![
            probe_message(s),
            probe_message(s),
            announce_message(s),
            announce_message(s),
        ],
{
    let s2 = with_state(s, ServiceState::WaitForSecondProbe);
    let s3 = with_state(s, ServiceState::WaitForAnnouncing);
    let s4 = with_state(s, ServiceState::WaitForSecondAnnouncement);
    assert(probe_message(s2) == probe_message(s));
    assert(probe_message(s3) == probe_message(s));
    assert(announce_message(s3) == announce_message(s));
    assert(announce_message(s4) == announce_message(s));
    assert(after_second_probe.registration == Some(s3));
    assert(after_announcement.registration == Some(s4));
    assert(after_registration.timeouts =~= pre.timeouts + seq![
        (ServiceState::WaitForSecondProbe, PROBE_WAIT_MS),
        (ServiceState::WaitForAnnouncing, PROBE_WAIT_MS),
        (ServiceState::WaitForSecondAnnouncement, ANNOUNCE_WAIT_MS),
    ]);
    assert(after_registration.queue =~= pre.queue + seq![
        probe_message(s),
        probe_message(s),
        announce_message(s),
        announce_message(s),
    ]);
}

/// What the client holds between events: the records known on the network,
/// the one registration and the one query.
#[derive(Debug)]
pub struct DnsSd2 {
    pub records: Vec<ResourceRecord>,
    pub registration: Option<Service>,
    pub query: Option<Query>,
}

/// What one turn of the event loop asks of its runner: the timers to arm, the
/// datagrams to send in order, and whether the loop ends.
#[derive(Debug)]
pub struct Step {
    pub timers: Vec<(ServiceState, u64)>,
    pub datagrams: Vec<Vec<u8>>,
    pub finished: bool,
}

/// `after` holds the records, registration and query of `v`.
pub open spec fn holds_state(after: DnsSd2, v: ChainView) -> bool {
    &&& after.records@.map_values(|r: ResourceRecord| r@) == v.records
    &&& option_service_view(after.registration) == v.registration
    &&& option_query_view(after.query) == v.query
}

/// `r` carries the timers and the encoded messages of `post`, and ends the
/// loop exactly on `Closing`.
pub open spec fn step_outcome(event: Event, post: ChainView, r: Step) -> bool {
    &&& r.timers@ == post.timeouts
    &&& r.datagrams@.len() == post.queue.len()
    &&& forall|i: int|
        0 <= i < post.queue.len() ==> (#[trigger] r.datagrams@[i])@ == message_wire(post.queue[i])
    &&& r.finished == (event is Closing)
}

/// After one turn on `event` from `pre` with probe delay `delay`, the client
/// is `after` and the turn's outcome `r`.
pub open spec fn stepped(event: Event, pre: ChainView, delay: u64, after: DnsSd2, r: Step) -> bool {
    let post = chain_next(event, pre, delay);
    holds_state(after, post) && step_outcome(event, post, r)
}

impl DnsSd2 {
    /// The client's state together with the given timers and queue.
    pub open spec fn view_with(
        &self,
        timeouts: Seq<(ServiceState, u64)>,
        queue: Seq<MdnsMessage>,
    ) -> ChainView {
        chain_view(self.records@, self.registration, self.query, timeouts, queue)
    }

    /// The registration, if any, can be encoded.
    pub open spec fn wf(&self) -> bool {
        registration_fits(option_service_view(self.registration))
    }

    /// A client that knows no records and has no registration or query.
    pub fn new() -> (r: DnsSd2)
        ensures
            r.wf(),
            r.records@.len() == 0,
            r.registration is None,
            r.query is None,
    {
        DnsSd2 { records: Vec::new(), registration: None, query: None }
    }

    /// Dispatches `event` through the chain, `delay` being the delay before
    /// a first probe; see [`chain_next`].
    pub fn handle_with_delay(
        &mut self,
        event: &Event,
        timeouts: &mut Vec<(ServiceState, u64)>,
        queue: &mut Vec<MdnsMessage>,
        delay: u64,
    ) -> (r: Result<(), MdnsError>)
        requires
            event_fits(*event),
            old(self).wf(),
        ensures
            r is Ok,
            final(self).wf(),
            final(self).view_with(final(timeouts)@, final(queue)@) == chain_next(
                *event,
                old(self).view_with(old(timeouts)@, old(queue)@),
                delay,
            ),
    {
        RegisterHandler {}.handle(
            event,
            &mut self.records,
            &mut self.registration,
            &mut self.query,
            timeouts,
            queue,
        )?;
        ProbeHandler {}.handle_with_delay(
            event,
            &mut self.records,
            &mut self.registration,
            &mut self.query,
            timeouts,
            queue,
            delay,
        )?;
        AnnouncementHandler {}.handle(
            event,
            &mut self.records,
            &mut self.registration,
            &mut self.query,
            timeouts,
            queue,
        )?;
        GoodbyeHandler {}.handle(
            event,
            &mut self.records,
            &mut self.registration,
            &mut self.query,
            timeouts,
            queue,
        )?;
        BrowseHandler {}.handle(
            event,
            &mut self.records,
            &mut self.registration,
            &mut self.query,
            timeouts,
            queue,
        )?;
        UpdateTTLHandler {}.handle(
            event,
            &mut self.records,
            &mut self.registration,
            &mut self.query,
            timeouts,
            queue,
        )?;
        Ok(())
    }

    /// Dispatches `event` through the chain, drawing the delay before a
    /// first probe at random below 250 ms.
    pub fn handle(
        &mut self,
        event: &Event,
        timeouts: &mut Vec<(ServiceState, u64)>,
        queue: &mut Vec<MdnsMessage>,
    ) -> (r: Result<(), MdnsError>)
        requires
            event_fits(*event),
            old(self).wf(),
        ensures
            r is Ok,
            final(self).wf(),
            exists|delay: u64|
                delay < PROBE_JITTER_MS && final(self).view_with(final(timeouts)@, final(queue)@)
                    == chain_next(*event, old(self).view_with(old(timeouts)@, old(queue)@), delay),
    {
        let delay = random_below(PROBE_JITTER_MS);
        self.handle_with_delay(event, timeouts, queue, delay)
    }

    /// One turn of the event loop: dispatches `event` and hands back the
    /// timers to arm, the datagrams to send, and whether to stop.
    pub fn step(&mut self, event: &Event) -> (r: Step)
        requires
            event_fits(*event),
            old(self).wf(),
        ensures
            final(self).wf(),
            exists|delay: u64|
                delay < PROBE_JITTER_MS && #[trigger] stepped(
                    *event,
                    old(self).view_with(Seq::empty(), Seq::empty()),
                    delay,
                    *final(self),
                    r,
                ),
    {
        let mut timers: Vec<(ServiceState, u64)> = Vec::new();
        let mut queue: Vec<MdnsMessage> = Vec::new();
        let ghost pre = self.view_with(timers@, queue@);
        assert(pre == self.view_with(Seq::empty(), Seq::empty())) by {
            assert(queue_view(queue@) =~= queue_view(Seq::<MdnsMessage>::empty()));
        }
        let _ = self.handle(event, &mut timers, &mut queue);
        let ghost qv = queue_view(queue@);
        let mut datagrams: Vec<Vec<u8>> = Vec::new();
        let mut i: usize = 0;
        while i < queue.len()
            invariant
                i <= queue@.len(),
                qv == queue_view(queue@),
                datagrams@.len() == i,
                forall|j: int| 0 <= j < i ==> (#[trigger] datagrams@[j])@ == message_wire(qv[j]),
            decreases queue@.len() - i,
        {
            datagrams.push(queue[i].to_bytes());
            i += 1;
        }
        let finished = match event {
            Event::Closing() => true,
            _ => false,
        };
        let ghost after_timers = timers@;
        let r = Step { timers, datagrams, finished };
        proof {
            let delay = choose|delay: u64|
                delay < PROBE_JITTER_MS && self.view_with(after_timers, queue@) == chain_next(
                    *event,
                    pre,
                    delay,
                );
            assert(stepped(*event, pre, delay, *self, r));
        }
        r
    }

    /// The datagrams that withdraw the registered service: one goodbye if
    /// there is a registration, none otherwise. Sent once at shutdown.
    pub fn close(&mut self) -> (r: Vec<Vec<u8>>)
        requires
            old(self).wf(),
        ensures
            final(self).wf(),
            holds_state(*final(self), old(self).view_with(Seq::empty(), Seq::empty())),
            match option_service_view(old(self).registration) {
                Some(s) => r@.len() == 1 && r@[0]@ == message_wire(
                    crate::message::goodbye_message(s),
                ),
                None => r@.len() == 0,
            },
    {
        let mut timers: Vec<(ServiceState, u64)> = Vec::new();
        let mut queue: Vec<MdnsMessage> = Vec::new();
        assert(queue_view(queue@) =~= Seq::empty());
        let ghost pre = self.view_with(timers@, queue@);
        let closing = Event::Closing();
        let _ = GoodbyeHandler {}.handle(
            &closing,
            &mut self.records,
            &mut self.registration,
            &mut self.query,
            &mut timers,
            &mut queue,
        );
        assert(queue_view(queue@) == goodbye_next(closing, pre).queue);
        assert(queue_view(queue@).len() == queue@.len());
        let mut datagrams: Vec<Vec<u8>> = Vec::new();
        if queue.len() > 0 {
            assert(queue_view(queue@)[0] == queue@[0]@);
            datagrams.push(queue[0].to_bytes());
        }
        datagrams
    }
}

impl Default for DnsSd2 {
    /// See [`DnsSd2::new`].
    fn default() -> (r: DnsSd2)
        ensures
            r.wf(),
            r.records@.len() == 0,
            r.registration is None,
            r.query is None,
    {
        DnsSd2::new()
    }
}

} // verus!
