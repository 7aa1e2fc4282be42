use dns_sd2::client::DnsSd2;
use dns_sd2::message::MdnsMessage;
use dns_sd2::protocols::announce::AnnouncementHandler;
use dns_sd2::protocols::browse::BrowseHandler;
use dns_sd2::protocols::goodbye_packet::GoodbyeHandler;
use dns_sd2::protocols::handler::{Event, Handler};
use dns_sd2::protocols::probe::ProbeHandler;
use dns_sd2::protocols::register::RegisterHandler;
use dns_sd2::protocols::update_ttl::UpdateTTLHandler;
use dns_sd2::name::Name;
use dns_sd2::record::ResourceRecord;
use dns_sd2::{Service, ServiceState};

fn service_in(state: ServiceState) -> Service {
    Service {
        host: "TestMachine".into(),
        service: "_test".into(),
        protocol: "_tcp".into(),
        port: 53000,
        txt_records: vec![],
        state,
    }
}

fn register_event() -> Event {
    Event::Register("TestMachine".into(), "_test".into(), "_tcp".into(), 53000, vec![])
}

#[test]
fn test_registration_handler() {
    //Mock Registration
    let host: String = "TestMachine".into();
    let service: String = "_test".into();
    let protocol: String = "_tcp".into();
    let port = 53000;
    let txt_records: Vec<String> = vec![];

    let event = Event::Register(
        host.clone(),
        service.clone(),
        protocol.clone(),
        port.clone(),
        txt_records.clone(),
    );

    let handler = RegisterHandler::default();

    let mut registration = None;

    //Pass Registration into Handler
    handler
        .handle(&event, &mut vec![], &mut registration, &mut None, &mut vec![], &mut vec![])
        .unwrap();

    assert!(registration.is_some());

    let result = registration.unwrap();
    assert_eq!(result.host, host);
    assert_eq!(result.service, service);
    assert_eq!(result.protocol, protocol);
    assert_eq!(result.txt_records, txt_records);
    assert_eq!(result.state, ServiceState::Prelude);
}

#[test]
fn test_probe_handler() {
    //Mock Service
    //Result if Registration Handler worked properly
    let mut registration = Some(service_in(ServiceState::Prelude));

    let handler = ProbeHandler::default();

    //Pass into Handler
    //Step 1: Should add first timeout with interval 0-250 ms
    let mut timeouts = vec![];

    handler
        .handle(&Event::Ttl(), &mut vec![], &mut registration, &mut None, &mut timeouts, &mut vec![])
        .unwrap();

    assert_eq!(timeouts.len(), 1);
    assert!(timeouts[0].1 > 0);
    assert!(timeouts[0].1 < 250);
    assert_eq!(timeouts[0].0, ServiceState::WaitForFirstProbe);

    timeouts.clear();

    //Step 2: First probe timer fired: the state moves to FirstProbe, whose
    //probe goes out in the same dispatch, leaving it in WaitForSecondProbe
    registration.as_mut().unwrap().state = ServiceState::WaitForFirstProbe;
    handler
        .handle(
            &Event::TimeElapsed((ServiceState::WaitForFirstProbe, 250)),
            &mut vec![],
            &mut registration,
            &mut None,
            &mut timeouts,
            &mut vec![],
        )
        .unwrap();

    assert_eq!(registration.as_ref().unwrap().state, ServiceState::WaitForSecondProbe);
    timeouts.clear();

    //Step 3: Should add second timeout with interval 250 ms
    registration.as_mut().unwrap().state = ServiceState::FirstProbe;

    handler
        .handle(&Event::Ttl(), &mut vec![], &mut registration, &mut None, &mut timeouts, &mut vec![])
        .unwrap();

    assert_eq!(timeouts.len(), 1);
    assert_eq!(timeouts[0].1, 250);
    assert_eq!(timeouts[0].0, ServiceState::WaitForSecondProbe);
}

#[test]
fn test_announce_handler() {
    //Mock Service
    //Result if Registration Handler worked properly
    let mut registration = Some(service_in(ServiceState::FirstAnnouncement));

    let handler = AnnouncementHandler::default();

    //Pass into Handler
    //Step 1: Send Announcement, Should add first timeout with interval 1000 ms
    let mut timeouts = vec![];
    let mut queue = vec![];
    handler
        .handle(&Event::Ttl(), &mut vec![], &mut registration, &mut None, &mut timeouts, &mut queue)
        .unwrap();

    assert_eq!(timeouts.len(), 1);
    assert_eq!(timeouts[0].1, 1000);
    assert_eq!(timeouts[0].0, ServiceState::WaitForSecondAnnouncement);
    assert_eq!(queue.len(), 1);

    timeouts.clear();
}

#[test]
fn second_announcement_registers_without_timer() {
    let mut registration = Some(service_in(ServiceState::WaitForSecondAnnouncement));
    let mut timeouts = vec![];
    let mut queue = vec![];
    AnnouncementHandler::default()
        .handle(
            &Event::TimeElapsed((ServiceState::WaitForSecondAnnouncement, 1000)),
            &mut vec![],
            &mut registration,
            &mut None,
            &mut timeouts,
            &mut queue,
        )
        .unwrap();
    assert_eq!(registration.unwrap().state, ServiceState::Registered);
    assert!(timeouts.is_empty());
    assert_eq!(queue.len(), 1);
    assert!(queue[0].header.qr);
}

#[test]
fn probe_delay_is_the_one_given() {
    let mut registration = Some(service_in(ServiceState::Prelude));
    let mut timeouts = vec![];
    ProbeHandler::default()
        .handle_with_delay(&Event::Closing(), &mut vec![], &mut registration, &mut None, &mut timeouts, &mut vec![], 17)
        .unwrap();
    assert_eq!(timeouts, vec![(ServiceState::WaitForFirstProbe, 17)]);
    assert_eq!(registration.unwrap().state, ServiceState::WaitForFirstProbe);
}

#[test]
fn probe_timers_always_fall_below_the_jitter_bound() {
    for _ in 0..200 {
        let mut registration = Some(service_in(ServiceState::Prelude));
        let mut timeouts = vec![];
        ProbeHandler::default()
            .handle(&Event::Ttl(), &mut vec![], &mut registration, &mut None, &mut timeouts, &mut vec![])
            .unwrap();
        assert_eq!(timeouts.len(), 1);
        assert!(timeouts[0].1 < 250);
    }
}

#[test]
fn stale_timer_changes_no_state() {
    for state in [
        ServiceState::WaitForFirstProbe,
        ServiceState::WaitForSecondProbe,
        ServiceState::WaitForAnnouncing,
        ServiceState::WaitForSecondAnnouncement,
        ServiceState::Registered,
    ] {
        let mut client = DnsSd2::new();
        client.registration = Some(service_in(state));
        let mut timeouts = vec![];
        let mut queue = vec![];
        client
            .handle(
                &Event::TimeElapsed((ServiceState::WaitForFirstProbe, 10)),
                &mut timeouts,
                &mut queue,
            )
            .unwrap();
        if state != ServiceState::WaitForFirstProbe {
            assert_eq!(client.registration.as_ref().unwrap().state, state);
            assert!(timeouts.is_empty());
            assert!(queue.is_empty());
        }
    }
}

#[test]
fn fresh_service_gets_one_probe_timer_on_any_event() {
    let events = vec![
        Event::Ttl(),
        Event::Closing(),
        Event::Browse("_services._udp.local".into()),
        Event::TimeElapsed((ServiceState::WaitForSecondProbe, 250)),
        Event::Message(MdnsMessage::default()),
        register_event(),
    ];
    for event in events {
        let mut client = DnsSd2::new();
        client.registration = Some(service_in(ServiceState::Prelude));
        let mut timeouts = vec![];
        client.handle(&event, &mut timeouts, &mut vec![]).unwrap();
        assert_eq!(timeouts.len(), 1);
        assert_eq!(timeouts[0].0, ServiceState::WaitForFirstProbe);
        assert!(timeouts[0].1 < 250);
    }
}

#[test]
fn first_probe_to_registered_run() {
    let mut client = DnsSd2::new();
    client.registration = Some(service_in(ServiceState::FirstProbe));
    let mut timeouts = vec![];
    let mut queue: Vec<MdnsMessage> = vec![];

    client.handle(&Event::Ttl(), &mut timeouts, &mut queue).unwrap();
    assert_eq!(queue.len(), 1);
    assert_eq!(timeouts, vec![(ServiceState::WaitForSecondProbe, 250)]);
    assert_eq!(client.registration.as_ref().unwrap().state, ServiceState::WaitForSecondProbe);

    for (tag, ms) in [
        (ServiceState::WaitForSecondProbe, 250),
        (ServiceState::WaitForAnnouncing, 250),
        (ServiceState::WaitForSecondAnnouncement, 1000),
    ] {
        client.handle(&Event::TimeElapsed((tag, ms)), &mut timeouts, &mut queue).unwrap();
    }
    assert_eq!(client.registration.as_ref().unwrap().state, ServiceState::Registered);
    assert_eq!(
        timeouts,
        vec![
            (ServiceState::WaitForSecondProbe, 250),
            (ServiceState::WaitForAnnouncing, 250),
            (ServiceState::WaitForSecondAnnouncement, 1000),
        ]
    );
    let probes = queue.iter().filter(|m| !m.header.qr && m.header.nscount == 2).count();
    let announcements = queue.iter().filter(|m| m.header.qr && m.answers[0].ttl == 60).count();
    assert_eq!(queue.len(), 4);
    assert_eq!(probes, 2);
    assert_eq!(announcements, 2);

    client.handle(&Event::Ttl(), &mut timeouts, &mut queue).unwrap();
    client.handle(&Event::TimeElapsed((ServiceState::Registered, 5)), &mut timeouts, &mut queue).unwrap();
    assert_eq!(timeouts.len(), 3);
    assert_eq!(queue.len(), 4);
}

#[test]
fn registering_twice_keeps_the_second() {
    let handler = RegisterHandler::default();
    let mut registration = None;
    handler
        .handle(&register_event(), &mut vec![], &mut registration, &mut None, &mut vec![], &mut vec![])
        .unwrap();
    registration.as_mut().unwrap().state = ServiceState::Registered;
    let second = Event::Register("Other".into(), "_web".into(), "_udp".into(), 80, vec!["a=b".into()]);
    handler
        .handle(&second, &mut vec![], &mut registration, &mut None, &mut vec![], &mut vec![])
        .unwrap();
    let result = registration.unwrap();
    assert_eq!(result.host, "Other");
    assert_eq!(result.service, "_web");
    assert_eq!(result.protocol, "_udp");
    assert_eq!(result.port, 80);
    assert_eq!(result.txt_records, vec!["a=b".to_string()]);
    assert_eq!(result.state, ServiceState::Prelude);
}

#[test]
fn goodbye_handler_queues_goodbye_on_closing_only() {
    let handler = GoodbyeHandler::default();
    let mut registration = Some(service_in(ServiceState::WaitForSecondProbe));
    let mut queue = vec![];
    handler
        .handle(&Event::Ttl(), &mut vec![], &mut registration, &mut None, &mut vec![], &mut queue)
        .unwrap();
    assert!(queue.is_empty());
    handler
        .handle(&Event::Closing(), &mut vec![], &mut registration, &mut None, &mut vec![], &mut queue)
        .unwrap();
    assert_eq!(queue.len(), 1);
    assert!(queue[0].answers.iter().all(|r| r.ttl == 0));
    let mut none = None;
    let mut empty = vec![];
    handler
        .handle(&Event::Closing(), &mut vec![], &mut none, &mut None, &mut vec![], &mut empty)
        .unwrap();
    assert!(empty.is_empty());
}

#[test]
fn browse_handler_starts_a_fresh_query() {
    let mut query = None;
    BrowseHandler::default()
        .handle(
            &Event::Browse("_services._udp.local".into()),
            &mut vec![],
            &mut None,
            &mut query,
            &mut vec![],
            &mut vec![],
        )
        .unwrap();
    let q = query.unwrap();
    assert_eq!(q.name, "_services._udp.local");
    assert_eq!(q.timeout, 0);
    assert!(q.services.is_empty());
}

#[test]
fn ttl_handler_counts_down_to_zero() {
    let mut records = vec![
        ResourceRecord::create_a_record(Name::new("a".into()).unwrap(), [1, 1, 1, 1]),
        ResourceRecord::create_a_record(Name::new("b".into()).unwrap(), [2, 2, 2, 2]),
    ];
    records[1].ttl = 0;
    let handler = UpdateTTLHandler::default();
    handler
        .handle(&Event::Ttl(), &mut records, &mut None, &mut None, &mut vec![], &mut vec![])
        .unwrap();
    assert_eq!(records[0].ttl, 59);
    assert_eq!(records[1].ttl, 0);
    handler
        .handle(&Event::Closing(), &mut records, &mut None, &mut None, &mut vec![], &mut vec![])
        .unwrap();
    assert_eq!(records[0].ttl, 59);
}

#[test]
fn step_on_register_arms_probe_timer_and_sends_nothing() {
    let mut client = DnsSd2::new();
    let event = register_event();
    assert!(event.fits());
    let step = client.step(&event);
    assert!(!step.finished);
    assert!(step.datagrams.is_empty());
    assert_eq!(step.timers.len(), 1);
    assert_eq!(step.timers[0].0, ServiceState::WaitForFirstProbe);
    assert_eq!(client.registration.as_ref().unwrap().state, ServiceState::WaitForFirstProbe);
}

#[test]
fn step_sends_encoded_probe() {
    let mut client = DnsSd2::new();
    client.registration = Some(service_in(ServiceState::WaitForFirstProbe));
    let step = client.step(&Event::TimeElapsed((ServiceState::WaitForFirstProbe, 100)));
    let expected = MdnsMessage::probe(&service_in(ServiceState::Prelude)).to_bytes();
    assert_eq!(step.datagrams, vec![expected]);
    assert_eq!(step.timers, vec![(ServiceState::WaitForSecondProbe, 250)]);
}

#[test]
fn step_on_closing_says_goodbye_and_finishes() {
    let mut client = DnsSd2::new();
    client.registration = Some(service_in(ServiceState::Registered));
    let step = client.step(&Event::Closing());
    assert!(step.finished);
    let expected = MdnsMessage::goodbye(&service_in(ServiceState::Registered)).to_bytes();
    assert_eq!(step.datagrams, vec![expected]);
}

#[test]
fn close_sends_one_goodbye_per_registration() {
    let mut client = DnsSd2::new();
    assert!(client.close().is_empty());
    client.registration = Some(service_in(ServiceState::WaitForAnnouncing));
    let datagrams = client.close();
    assert_eq!(datagrams, vec![MdnsMessage::goodbye(&service_in(ServiceState::Prelude)).to_bytes()]);
    assert_eq!(client.registration.unwrap().state, ServiceState::WaitForAnnouncing);
}

#[test]
fn oversized_names_do_not_fit() {
    let long = "x".repeat(70000);
    assert!(!Event::Register(long, "_s".into(), "_tcp".into(), 1, vec![]).fits());
    assert!(register_event().fits());
}
