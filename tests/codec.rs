use dns_sd2::header::{Header, OpCode, RCode};
use dns_sd2::message::MdnsMessage;
use dns_sd2::name::Name;
use dns_sd2::protocols::name_compression::{compress_name, decompress_name};
use dns_sd2::question::{QClass, QType, Question};
use dns_sd2::record::ResourceRecord;
use dns_sd2::records::{RData, SRVRecord, TXTRecord};
use dns_sd2::utility::{is_reachable_ipv4, is_reachable_ipv6};
use dns_sd2::{Service, ServiceState};

fn name(s: &str) -> Name {
    Name::new(s.to_string()).unwrap()
}

fn test_service() -> Service {
    Service {
        host: "TestMachine".into(),
        service: "_test".into(),
        protocol: "_tcp".into(),
        port: 53000,
        txt_records: vec![],
        state: ServiceState::Prelude,
    }
}

fn wire(s: &str) -> Vec<u8> {
    let mut out = vec![];
    for label in s.split('.') {
        out.push(label.len() as u8);
        out.extend(label.as_bytes());
    }
    out.push(0);
    out
}

#[test]
fn test_header() {
    let header = Header::new();

    //Test that the Header packs into a byte array correctly
    assert!(!header.to_bytes().is_empty());

    //Test that the packed Header is 12 bytes in length
    assert!(header.to_bytes().len() == 12);
}

#[test]
fn default_header_is_twelve_zero_octets() {
    assert_eq!(Header::default().to_bytes(), vec![0u8; 12]);
}

#[test]
fn qr_flag_sets_top_bit_of_third_octet_only() {
    let mut header = Header::new();
    header.qr = true;
    let mut expected = vec![0u8; 12];
    expected[2] = 0x80;
    assert_eq!(header.to_bytes(), expected);
}

#[test]
fn header_fields_land_in_their_bits() {
    let header = Header {
        id: 0x1234,
        qr: true,
        opcode: OpCode::ServerStatusRequest,
        aa: true,
        tc: false,
        rd: true,
        ra: true,
        z: 5,
        rcode: RCode::Refused,
        qdcount: 1,
        ancount: 0x0203,
        nscount: 4,
        arcount: 0xff00,
    };
    assert_eq!(
        header.to_bytes(),
        vec![0x12, 0x34, 0x80 | 0x10 | 0x04 | 0x01, 0x80 | 0x50 | 0x05, 0, 1, 2, 3, 0, 4, 0xff, 0]
    );
}

#[test]
fn name_is_length_prefixed_labels_with_zero_end() {
    let bytes = name("a.b.local").to_bytes();
    assert_eq!(bytes, vec![1, b'a', 1, b'b', 5, b'l', b'o', b'c', b'a', b'l', 0]);
}

#[test]
fn empty_name_is_one_empty_label() {
    assert_eq!(name("").to_bytes(), vec![0, 0]);
}

#[test]
fn name_with_trailing_dot_ends_with_empty_label() {
    assert_eq!(name("ab.").to_bytes(), vec![2, b'a', b'b', 0, 0]);
}

#[test]
fn question_is_name_type_and_class() {
    let q = Question {
        name: "host.local".into(),
        qtype: QType::Ptr,
        qclass: QClass::In,
        unicast_question: false,
    };
    let mut expected = wire("host.local");
    expected.extend([0, 12, 0, 1]);
    assert_eq!(q.to_bytes(), expected);
}

#[test]
fn unicast_question_sets_top_bit_of_class() {
    let q = Question {
        name: "h".into(),
        qtype: QType::Any,
        qclass: QClass::Any,
        unicast_question: true,
    };
    assert_eq!(q.to_bytes(), vec![1, b'h', 0, 0, 255, 0x80, 255]);
}

#[test]
fn a_record_encodes_every_field() {
    let r = ResourceRecord::create_a_record(name("host.local"), [10, 0, 0, 1]);
    assert_eq!(r.ttl, 60);
    assert_eq!(r.rdlength, 4);
    let mut expected = wire("host.local");
    expected.extend([0, 1, 0, 1, 0, 0, 0, 60, 0, 4, 10, 0, 0, 1]);
    assert_eq!(r.to_bytes().unwrap(), expected);
}

#[test]
fn cache_flush_sets_top_bit_of_class() {
    let mut r = ResourceRecord::create_a_record(name("h"), [1, 2, 3, 4]);
    r.cache_flush = true;
    let bytes = r.to_bytes().unwrap();
    assert_eq!(&bytes[5..7], &[0x80, 0x01]);
}

#[test]
fn aaaa_record_is_four_big_endian_groups() {
    let r = ResourceRecord::create_aaaa_record(name("h"), [0xfd48, 0xa12f, 0, 1]);
    assert_eq!(r.ttl, 120);
    assert_eq!(r.rdlength, 8);
    let bytes = r.to_bytes().unwrap();
    assert_eq!(&bytes[3..], &[0, 28, 0, 1, 0, 0, 0, 120, 0, 8, 0xfd, 0x48, 0xa1, 0x2f, 0, 0, 0, 1]);
}

#[test]
fn ptr_record_points_from_type_to_instance() {
    let r = ResourceRecord::create_ptr_record("Host".into(), "_http".into(), "_tcp".into());
    let target = wire("Host._http._tcp.local");
    assert_eq!(r.rdlength as usize, target.len());
    let mut expected = wire("_http._tcp.local");
    expected.extend([0, 12, 0, 1, 0, 0, 0, 60, 0, target.len() as u8]);
    expected.extend(target);
    assert_eq!(r.to_bytes().unwrap(), expected);
}

#[test]
fn srv_record_holds_priority_weight_port_and_target() {
    let r = ResourceRecord::create_srv_record("Host._http._tcp.local".into(), 8080, "Host.local".into());
    let target = wire("Host.local");
    assert_eq!(r.rdlength as usize, 6 + target.len());
    let mut expected = wire("Host._http._tcp.local");
    expected.extend([0, 33, 0, 1, 0, 0, 0, 60, 0, (6 + target.len()) as u8]);
    expected.extend([0, 0, 0, 0, 0x1f, 0x90]);
    expected.extend(target);
    assert_eq!(r.to_bytes().unwrap(), expected);
}

#[test]
fn srv_data_alone() {
    let srv = SRVRecord { priority: 1, weight: 2, port: 3, target: name("t") };
    assert_eq!(srv.to_bytes(), vec![0, 1, 0, 2, 0, 3, 1, b't', 0]);
}

#[test]
fn txt_entries_are_length_prefixed_without_terminator() {
    let txt = TXTRecord::new(vec!["a=1".into(), "key=value".into()]).unwrap();
    let mut expected = vec![3];
    expected.extend(b"a=1");
    expected.push(9);
    expected.extend(b"key=value");
    assert_eq!(txt.to_bytes(), expected);
    assert_eq!(RData::Txt(txt).to_bytes(), expected);
}

#[test]
fn txt_entry_without_separator_is_refused() {
    assert!(TXTRecord::new(vec!["a=1".into(), "novalue".into()]).is_err());
}

#[test]
fn txt_entry_with_two_separators_is_refused() {
    assert!(TXTRecord::new(vec!["a=b=c".into()]).is_err());
}

#[test]
fn empty_txt_record_is_accepted() {
    assert!(TXTRecord::new(vec![]).unwrap().to_bytes().is_empty());
}

fn record_without_data() -> ResourceRecord {
    let mut r = ResourceRecord::create_a_record(name("gone.local"), [1, 1, 1, 1]);
    r.rdata = None;
    r
}

#[test]
fn record_without_data_fails_to_encode() {
    assert!(record_without_data().to_bytes().is_err());
}

#[test]
fn message_leaves_out_records_without_data() {
    let kept = ResourceRecord::create_a_record(name("h"), [1, 2, 3, 4]);
    let kept_bytes = kept.to_bytes().unwrap();
    let mut message = MdnsMessage::default();
    message.answers.push(record_without_data());
    message.answers.push(kept);
    message.additionals.push(record_without_data());
    let mut expected = vec![0u8; 12];
    expected.extend(kept_bytes);
    assert_eq!(message.to_bytes(), expected);
}

#[test]
fn message_sections_come_in_order() {
    let mut message = MdnsMessage::default();
    message.additionals.push(ResourceRecord::create_a_record(name("c"), [3, 3, 3, 3]));
    message.authorities.push(ResourceRecord::create_a_record(name("b"), [2, 2, 2, 2]));
    message.answers.push(ResourceRecord::create_a_record(name("a"), [1, 1, 1, 1]));
    message.questions.push(Question {
        name: "q".into(),
        qtype: QType::A,
        qclass: QClass::In,
        unicast_question: false,
    });
    let mut expected = vec![0u8; 12];
    expected.extend([1, b'q', 0, 0, 1, 0, 1]);
    for (n, ip) in [("a", 1u8), ("b", 2), ("c", 3)] {
        expected.extend(ResourceRecord::create_a_record(name(n), [ip; 4]).to_bytes().unwrap());
    }
    assert_eq!(message.to_bytes(), expected);
}

#[test]
fn probe_asks_any_and_proposes_srv_and_a() {
    let message = MdnsMessage::probe(&test_service());
    assert_eq!(message.header.qdcount, 1);
    assert_eq!(message.header.nscount, 2);
    assert!(!message.header.qr);
    assert_eq!(message.questions.len(), 1);
    assert_eq!(message.questions[0].name, "TestMachine.local");
    assert_eq!(message.questions[0].qtype, QType::Any);
    assert_eq!(message.questions[0].qclass, QClass::Any);
    assert!(message.questions[0].unicast_question);
    assert!(message.answers.is_empty());
    assert_eq!(message.authorities.len(), 2);
    assert_eq!(message.authorities[0].record_type, QType::Srv);
    assert_eq!(message.authorities[1].record_type, QType::A);
    let bytes = message.to_bytes();
    assert_eq!(&bytes[..12], &[0, 0, 0, 0, 0, 1, 0, 0, 0, 2, 0, 0]);
}

#[test]
fn announce_answers_ptr_srv_and_a() {
    let message = MdnsMessage::announce(&test_service());
    assert!(message.header.qr);
    assert!(message.header.aa);
    assert_eq!(message.header.ancount, 3);
    assert_eq!(message.answers.len(), 3);
    assert_eq!(message.answers[0].record_type, QType::Ptr);
    assert!(!message.answers[0].cache_flush);
    assert_eq!(message.answers[1].record_type, QType::Srv);
    assert!(message.answers[1].cache_flush);
    assert_eq!(message.answers[2].record_type, QType::A);
    assert!(message.answers[2].cache_flush);
    assert!(message.answers.iter().all(|r| r.ttl == 60));
    assert_eq!(&message.to_bytes()[..12], &[0, 0, 0x84, 0, 0, 0, 0, 3, 0, 0, 0, 0]);
}

#[test]
fn goodbye_is_announcement_with_zero_ttl() {
    let service = test_service();
    let announce = MdnsMessage::announce(&service);
    let goodbye = MdnsMessage::goodbye(&service);
    assert_eq!(goodbye.answers.len(), announce.answers.len());
    for (g, a) in goodbye.answers.iter().zip(announce.answers.iter()) {
        assert_eq!(g.ttl, 0);
        assert_eq!(g.record_type, a.record_type);
        assert_eq!(g.cache_flush, a.cache_flush);
        assert_eq!(g.rdlength, a.rdlength);
        let mut a_bytes = a.to_bytes().unwrap();
        let g_bytes = g.to_bytes().unwrap();
        let ttl_at = g.name.to_bytes().len() + 4;
        a_bytes[ttl_at..ttl_at + 4].copy_from_slice(&[0, 0, 0, 0]);
        assert_eq!(g_bytes, a_bytes);
    }
}

#[test]
fn ipv4_same_subnet_is_reachable() {
    assert!(is_reachable_ipv4(&[192, 168, 1, 1], &[255, 255, 255, 0], &[192, 168, 1, 30]));
    assert!(!is_reachable_ipv4(&[192, 168, 1, 1], &[255, 255, 255, 0], &[192, 168, 2, 30]));
}

#[test]
fn ipv6_same_prefix_is_reachable() {
    let host = [0xfd, 0x48, 0xa1, 0x2f, 0x7b, 0x0c, 0x3d, 0xa8, 0, 0, 0, 0, 0, 0, 0, 0];
    let mask = [0xff, 0xff, 0xff, 0xff, 0xff, 0xff, 0xff, 0xff, 0, 0, 0, 0, 0, 0, 0, 0];
    let near = [0xfd, 0x48, 0xa1, 0x2f, 0x7b, 0x0c, 0x3d, 0xa8, 0, 0, 0, 0, 0, 0, 0xab, 0xcd];
    let far = [0xfd, 0x48, 0xa1, 0x2f, 0x7b, 0x0c, 0x3d, 0xa9, 0, 0, 0, 0, 0, 0, 0xab, 0xcd];
    assert!(is_reachable_ipv6(&host, &mask, &near));
    assert!(!is_reachable_ipv6(&host, &mask, &far));
}

#[test]
fn name_compression_is_not_supported() {
    assert!(compress_name(&wire("a.local")).is_none());
    assert!(decompress_name(&wire("a.local"), 0).is_none());
}
