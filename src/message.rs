use vstd::prelude::*;
use crate::header::{Header, default_header, header_wire};
use crate::name::Name;
use crate::octets::push_all;
use crate::question::{QClass, QType, Question, QuestionView, question_wire};
use crate::record::{
    RecordView, ResourceRecord, record_of, record_wire, instance_name, local_host_name,
    service_type_name, instance_string, local_host_string,
};
use crate::records::RDataView;
use crate::service::{Service, ServiceView, service_fits};

verus! {

/// A message as plain values.
pub struct MessageView {
    pub header: Header,
    pub questions: Seq<QuestionView>,
    pub answers: Seq<RecordView>,
    pub authorities: Seq<RecordView>,
    pub additionals: Seq<RecordView>,
}

/// The questions' octets, one after another.
pub open spec fn questions_wire(qs: Seq<QuestionView>) -> Seq<u8>
    decreases qs.len(),
{
    if qs.len() == 0 {
        Seq::empty()
    } else {
        questions_wire(qs.drop_last()) + question_wire(qs.last())
    }
}

/// The records' octets, one after another; a record without data adds none.
pub open spec fn records_wire(rs: Seq<RecordView>) -> Seq<u8>
    decreases rs.len(),
{
    if rs.len() == 0 {
        Seq::empty()
    } else {
        records_wire(rs.drop_last()) + match record_wire(rs.last()) {
            Some(b) => b,
            None => Seq::empty(),
        }
    }
}

/// A message's octets: the header, the questions, then the answer, authority
/// and additional records in that order.
pub open spec fn message_wire(m: MessageView) -> Seq<u8> {
    header_wire(m.header) + questions_wire(m.questions) + records_wire(m.answers) + records_wire(
        m.authorities,
    ) + records_wire(m.additionals)
}

/// A record without data leaves the octets of the records around it as they
/// are.
pub proof fn lemma_record_without_data_is_skipped(rs: Seq<RecordView>, i: int, r: RecordView)
    requires
        0 <= i <= rs.len(),
        r.rdata is None,
    ensures
        records_wire(rs.insert(i, r)) == records_wire(rs),
    decreases rs.len(),
{
    if i == rs.len() {
        assert(rs.insert(i, r).drop_last() =~= rs);
    } else {
        let p = rs.drop_last();
        lemma_record_without_data_is_skipped(p, i, r);
        assert(rs.insert(i, r).drop_last() =~= p.insert(i, r));
        assert(rs.insert(i, r).last() == rs.last());
    }
}

/// A message holding a record without data encodes as the message without it,
/// whichever section holds it.
pub proof fn lemma_message_skips_record_without_data(m: MessageView, i: int, r: RecordView)
    requires
        r.rdata is None,
    ensures
        0 <= i <= m.answers.len() ==> message_wire(MessageView { answers: m.answers.insert(i, r), ..m })
            == message_wire(m),
        0 <= i <= m.authorities.len() ==> message_wire(
            MessageView { authorities: m.authorities.insert(i, r), ..m },
        ) == message_wire(m),
        0 <= i <= m.additionals.len() ==> message_wire(
            MessageView { additionals: m.additionals.insert(i, r), ..m },
        ) == message_wire(m),
{
    if 0 <= i <= m.answers.len() {
        lemma_record_without_data_is_skipped(m.answers, i, r);
    }
    if 0 <= i <= m.authorities.len() {
        lemma_record_without_data_is_skipped(m.authorities, i, r);
    }
    if 0 <= i <= m.additionals.len() {
        lemma_record_without_data_is_skipped(m.additionals, i, r);
    }
}

/// An mDNS message: header, questions, and the three record sections.
#[derive(Debug)]
pub struct MdnsMessage {
    pub header: Header,
    pub questions: Vec<Question>,
    /// Answers to questions, or known answers sent along with a query.
    pub answers: Vec<ResourceRecord>,
    /// Records the sender proposes to own, sent while probing.
    pub authorities: Vec<ResourceRecord>,
    /// Records the receiver may find useful besides the answers.
    pub additionals: Vec<ResourceRecord>,
}

pub open spec fn records_view(rs: Seq<ResourceRecord>) -> Seq<RecordView> {
    rs.map_values(|r: ResourceRecord| r@)
}

impl View for MdnsMessage {
    type V = MessageView;

    open spec fn view(&self) -> MessageView {
        MessageView {
            header: self.header,
            questions: self.questions@.map_values(|q: Question| q@),
            answers: records_view(self.answers@),
            authorities: records_view(self.authorities@),
            additionals: records_view(self.additionals@),
        }
    }
}

/// A message with a default header and no entries.
pub open spec fn empty_message() -> MessageView {
    MessageView {
        header: default_header(),
        questions: Seq::empty(),
        answers: Seq::empty(),
        authorities: Seq::empty(),
        additionals: Seq::empty(),
    }
}

/// The address the A record of a probe proposes.
pub open spec fn probe_address() -> Seq<u8> {
    seq![192u8, 168, 1, 123]
}

/// The address the A record of an announcement claims.
pub open spec fn announced_address() -> Seq<u8> {
    seq![192u8, 168, 178, 19]
}

/// The PTR record from a service's type to its instance.
pub open spec fn ptr_record_for(s: ServiceView) -> RecordView {
    record_of(
        service_type_name(s.service, s.protocol),
        QType::Ptr,
        60,
        RDataView::Ptr(instance_name(s.host, s.service, s.protocol)),
    )
}

/// The SRV record from a service's instance to its port on `<host>.local`.
pub open spec fn srv_record_for(s: ServiceView) -> RecordView {
    record_of(
        instance_name(s.host, s.service, s.protocol),
        QType::Srv,
        60,
        RDataView::Srv { priority: 0, weight: 0, port: s.port, target: local_host_name(s.host) },
    )
}

/// The A record of `<host>.local`.
pub open spec fn a_record_for(s: ServiceView, ip: Seq<u8>) -> RecordView {
    record_of(local_host_name(s.host), QType::A, 60, RDataView::A(ip))
}

/// A probe: one question of type and class ANY for `<host>.local` asking for
/// a unicast response, and the SRV and A records proposed for the service in
/// the authority section.
pub open spec fn probe_message(s: ServiceView) -> MessageView {
    MessageView {
        header: Header { qdcount: 1, nscount: 2, ..default_header() },
        questions: seq![
            QuestionView {
                name: local_host_name(s.host),
                qtype: QType::Any,
                qclass: QClass::Any,
                unicast_question: true,
            },
        ],
        answers: Seq::empty(),
        authorities: seq![srv_record_for(s), a_record_for(s, probe_address())],
        additionals: Seq::empty(),
    }
}

/// An announcement: an authoritative response whose answers are the PTR
/// record, then the SRV and A records with the cache-flush bit set.
pub open spec fn announce_message(s: ServiceView) -> MessageView {
    MessageView {
        header: Header { qr: true, aa: true, ancount: 3, ..default_header() },
        questions: Seq::empty(),
        answers: seq![
            ptr_record_for(s),
            RecordView { cache_flush: true, ..srv_record_for(s) },
            RecordView { cache_flush: true, ..a_record_for(s, announced_address()) },
        ],
        authorities: Seq::empty(),
        additionals: Seq::empty(),
    }
}

/// A goodbye: the announcement with every answer's TTL set to zero.
pub open spec fn goodbye_message(s: ServiceView) -> MessageView {
    let a = announce_message(s);
    MessageView { answers: a.answers.map_values(|r: RecordView| with_ttl(r, 0)), ..a }
}

/// The record `r` with TTL `ttl`.
pub open spec fn with_ttl(r: RecordView, ttl: u32) -> RecordView {
    RecordView { ttl, ..r }
}

/// A goodbye carries the records of the announcement, each with TTL zero and
/// otherwise unchanged.
pub proof fn lemma_goodbye_is_announcement_with_zero_ttl(s: ServiceView)
    ensures
        goodbye_message(s).answers.len() == announce_message(s).answers.len(),
        forall|i: int|
            0 <= i < goodbye_message(s).answers.len() ==> #[trigger] goodbye_message(s).answers[i]
                == with_ttl(announce_message(s).answers[i], 0),
        forall|i: int|
            0 <= i < goodbye_message(s).answers.len() ==> #[trigger] goodbye_message(s).answers[i].ttl
                == 0,
        goodbye_message(s).header == announce_message(s).header,
        goodbye_message(s).questions == announce_message(s).questions,
        goodbye_message(s).authorities == announce_message(s).authorities,
        goodbye_message(s).additionals == announce_message(s).additionals,
{
}

/// Appends each encodable record of `rs` to `out`.
fn push_records(out: &mut Vec<u8>, rs: &Vec<ResourceRecord>)
    ensures
        final(out)@ == old(out)@ + records_wire(records_view(rs@)),
{
    let ghost vs = records_view(rs@);
    let mut i: usize = 0;
    while i < rs.len()
        invariant
            i <= rs@.len(),
            vs == records_view(rs@),
            out@ == old(out)@ + records_wire(vs.subrange(0, i as int)),
        decreases rs@.len() - i,
    {
        assert(vs.subrange(0, i + 1).drop_last() =~= vs.subrange(0, i as int));
        assert(vs.subrange(0, i + 1).last() == rs@[i as int]@);
        match rs[i].to_bytes() {
            Ok(b) => {
                push_all(out, &b);
            },
            Err(_) => {},
        }
        assert(out@ =~= old(out)@ + records_wire(vs.subrange(0, i + 1)));
        i += 1;
    }
    assert(vs.subrange(0, rs@.len() as int) =~= vs);
}

/// Appends each question of `qs` to `out`.
fn push_questions(out: &mut Vec<u8>, qs: &Vec<Question>)
    ensures
        final(out)@ == old(out)@ + questions_wire(qs@.map_values(|q: Question| q@)),
{
    let ghost vs = qs@.map_values(|q: Question| q@);
    let mut i: usize = 0;
    while i < qs.len()
        invariant
            i <= qs@.len(),
            vs == qs@.map_values(|q: Question| q@),
            out@ == old(out)@ + questions_wire(vs.subrange(0, i as int)),
        decreases qs@.len() - i,
    {
        assert(vs.subrange(0, i + 1).drop_last() =~= vs.subrange(0, i as int));
        assert(vs.subrange(0, i + 1).last() == qs@[i as int]@);
        qs[i].push_wire(out);
        assert(out@ =~= old(out)@ + questions_wire(vs.subrange(0, i + 1)));
        i += 1;
    }
    assert(vs.subrange(0, qs@.len() as int) =~= vs);
}

impl Default for MdnsMessage {
    /// A message with a default header and no entries.
    fn default() -> (r: MdnsMessage)
        ensures
            r@ == empty_message(),
    {
        let r = MdnsMessage {
            header: Header::new(),
            questions: Vec::new(),
            answers: Vec::new(),
            authorities: Vec::new(),
            additionals: Vec::new(),
        };
        assert(r@.questions =~= Seq::<QuestionView>::empty());
        assert(r@.answers =~= Seq::<RecordView>::empty());
        assert(r@.authorities =~= Seq::<RecordView>::empty());
        assert(r@.additionals =~= Seq::<RecordView>::empty());
        r
    }
}

impl MdnsMessage {
    /// The message's octets; records without data are left out.
    pub fn to_bytes(&self) -> (r: Vec<u8>)
        ensures
            r@ == message_wire(self@),
    {
        let mut bytes = self.header.to_bytes();
        push_questions(&mut bytes, &self.questions);
        push_records(&mut bytes, &self.answers);
        push_records(&mut bytes, &self.authorities);
        push_records(&mut bytes, &self.additionals);
        bytes
    }

    /// The probe for `service`; see [`probe_message`].
    pub fn probe(service: &Service) -> (r: MdnsMessage)
        requires
            service_fits(service.host@, service.service@, service.protocol@),
        ensures
            r@ == probe_message(service@),
    {
        let question = Question {
            name: local_host_string(&service.host),
            qtype: QType::Any,
            qclass: QClass::Any,
            unicast_question: true,
        };
        let srv = ResourceRecord::create_srv_record(
            instance_string(&service.host, &service.service, &service.protocol),
            service.port,
            local_host_string(&service.host),
        );
        let ip: [u8; 4] = [192, 168, 1, 123];
        let a = ResourceRecord::create_a_record(
            Name::new(local_host_string(&service.host)).unwrap(),
            ip,
        );
        assert(ip@ =~= probe_address());
        let mut header = Header::new();
        header.qdcount = 1;
        header.nscount = 2;
        let mut questions: Vec<Question> = Vec::new();
        questions.push(question);
        let mut authorities: Vec<ResourceRecord> = Vec::new();
        authorities.push(srv);
        authorities.push(a);
        let r = MdnsMessage {
            header,
            questions,
            answers: Vec::new(),
            authorities,
            additionals: Vec::new(),
        };
        assert(r@.questions =~= probe_message(service@).questions);
        assert(r@.answers =~= Seq::<RecordView>::empty());
        assert(r@.authorities =~= probe_message(service@).authorities);
        assert(r@.additionals =~= Seq::<RecordView>::empty());
        r
    }

    /// The announcement, or with `goodbye` the goodbye, for `service`.
    fn announcement(service: &Service, goodbye: bool) -> (r: MdnsMessage)
        requires
            service_fits(service.host@, service.service@, service.protocol@),
        ensures
            r@ == (if goodbye {
                goodbye_message(service@)
            } else {
                announce_message(service@)
            }),
    {
        let ttl: u32 = if goodbye { 0 } else { 60 };
        let mut ptr = ResourceRecord::create_ptr_record(
            service.host.clone(),
            service.service.clone(),
            service.protocol.clone(),
        );
        let mut srv = ResourceRecord::create_srv_record(
            instance_string(&service.host, &service.service, &service.protocol),
            service.port,
            local_host_string(&service.host),
        );
        let ip: [u8; 4] = [192, 168, 178, 19];
        let mut a = ResourceRecord::create_a_record(
            Name::new(local_host_string(&service.host)).unwrap(),
            ip,
        );
        assert(ip@ =~= announced_address());
        srv.cache_flush = true;
        a.cache_flush = true;
        ptr.ttl = ttl;
        srv.ttl = ttl;
        a.ttl = ttl;
        let mut header = Header::new();
        header.qr = true;
        header.aa = true;
        header.ancount = 3;
        let mut answers: Vec<ResourceRecord> = Vec::new();
        answers.push(ptr);
        answers.push(srv);
        answers.push(a);
        let r = MdnsMessage {
            header,
            questions: Vec::new(),
            answers,
            authorities: Vec::new(),
            additionals: Vec::new(),
        };
        assert(r@.questions =~= Seq::<QuestionView>::empty());
        assert(r@.answers =~= (if goodbye {
            goodbye_message(service@)
        } else {
            announce_message(service@)
        }).answers);
        assert(r@.authorities =~= Seq::<RecordView>::empty());
        assert(r@.additionals =~= Seq::<RecordView>::empty());
        r
    }

    /// The announcement for `service`; see [`announce_message`].
    pub fn announce(service: &Service) -> (r: MdnsMessage)
        requires
            service_fits(service.host@, service.service@, service.protocol@),
        ensures
            r@ == announce_message(service@),
    {
        MdnsMessage::announcement(service, false)
    }

    /// The goodbye for `service`; see [`goodbye_message`].
    pub fn goodbye(service: &Service) -> (r: MdnsMessage)
        requires
            service_fits(service.host@, service.service@, service.protocol@),
        ensures
            r@ == goodbye_message(service@),
    {
        MdnsMessage::announcement(service, true)
    }
}

} // verus!
