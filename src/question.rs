use vstd::prelude::*;
use crate::name::{name_wire_chars, push_name_wire};
use crate::octets::{u16_be, push_u16_be};

verus! {

/// The network class a question or record belongs to.
#[derive(Clone, Copy, Debug, PartialEq, Eq)]
pub enum QClass {
    /// The Internet, code 1.
    In,
    /// CSNET (obsolete), code 2.
    Cs,
    /// Chaos, code 3.
    Ch,
    /// Hesiod, code 4.
    Hs,
    /// Any class, code 255.
    Any,
}

impl QClass {
    pub open spec fn spec_code(self) -> u16 {
        match self {
            QClass::In => 1,
            QClass::Cs => 2,
            QClass::Ch => 3,
            QClass::Hs => 4,
            QClass::Any => 255,
        }
    }

    /// The class's numeric code.
    #[verifier::when_used_as_spec(spec_code)]
    pub fn code(self) -> (r: u16)
        ensures
            r == self.spec_code(),
    {
        match self {
            QClass::In => 1,
            QClass::Cs => 2,
            QClass::Ch => 3,
            QClass::Hs => 4,
            QClass::Any => 255,
        }
    }
}

/// What a question asks for, or what a record holds.
#[derive(Clone, Copy, Debug, PartialEq, Eq)]
pub enum QType {
    /// An IPv4 host address, code 1.
    A,
    /// An authoritative name server, code 2.
    Ns,
    /// A mail destination (obsolete), code 3.
    Md,
    /// A mail forwarder (obsolete), code 4.
    Mf,
    /// The canonical name of an alias, code 5.
    Cname,
    /// The start of a zone of authority, code 6.
    Soa,
    /// A mailbox domain name, code 7.
    Mb,
    /// A mail group member, code 8.
    Mg,
    /// A mail rename domain name, code 9.
    Mr,
    /// A null record, code 10.
    Null,
    /// A well known service description, code 11.
    Wks,
    /// A domain name pointer, code 12.
    Ptr,
    /// Host information, code 13.
    Hinfo,
    /// Mailbox or mail list information, code 14.
    Minfo,
    /// Mail exchange, code 15.
    Mx,
    /// Text strings, code 16.
    Txt,
    /// An IPv6 host address, code 28.
    Aaaa,
    /// A service location, code 33.
    Srv,
    /// Next secure record, code 47.
    Nsec,
    /// A transfer of an entire zone, code 252.
    Axfr,
    /// All records, code 255.
    Any,
}

impl QType {
    pub open spec fn spec_code(self) -> u16 {
        match self {
            QType::A => 1,
            QType::Ns => 2,
            QType::Md => 3,
            QType::Mf => 4,
            QType::Cname => 5,
            QType::Soa => 6,
            QType::Mb => 7,
            QType::Mg => 8,
            QType::Mr => 9,
            QType::Null => 10,
            QType::Wks => 11,
            QType::Ptr => 12,
            QType::Hinfo => 13,
            QType::Minfo => 14,
            QType::Mx => 15,
            QType::Txt => 16,
            QType::Aaaa => 28,
            QType::Srv => 33,
            QType::Nsec => 47,
            QType::Axfr => 252,
            QType::Any => 255,
        }
    }

    /// The type's numeric code.
    #[verifier::when_used_as_spec(spec_code)]
    pub fn code(self) -> (r: u16)
        ensures
            r == self.spec_code(),
    {
        match self {
            QType::A => 1,
            QType::Ns => 2,
            QType::Md => 3,
            QType::Mf => 4,
            QType::Cname => 5,
            QType::Soa => 6,
            QType::Mb => 7,
            QType::Mg => 8,
            QType::Mr => 9,
            QType::Null => 10,
            QType::Wks => 11,
            QType::Ptr => 12,
            QType::Hinfo => 13,
            QType::Minfo => 14,
            QType::Mx => 15,
            QType::Txt => 16,
            QType::Aaaa => 28,
            QType::Srv => 33,
            QType::Nsec => 47,
            QType::Axfr => 252,
            QType::Any => 255,
        }
    }
}

/// A class code with its top bit set when `top` holds: the unicast-response
/// bit of a question, the cache-flush bit of a record.
pub open spec fn class_field(code: u16, top: bool) -> u16 {
    if top {
        (code + 0x8000) as u16
    } else {
        code
    }
}

pub(crate) fn class_field_exec(class: QClass, top: bool) -> (r: u16)
    ensures
        r == class_field(class.spec_code(), top),
{
    if top {
        class.code() + 0x8000
    } else {
        class.code()
    }
}

/// An entry of the question section.
#[derive(Debug)]
pub struct Question {
    /// The dotted name asked about.
    pub name: String,
    /// What is asked for.
    pub qtype: QType,
    /// The class asked about.
    pub qclass: QClass,
    /// Whether a unicast response is requested (the top bit of QCLASS).
    pub unicast_question: bool,
}

/// A question as plain values.
pub struct QuestionView {
    pub name: Seq<char>,
    pub qtype: QType,
    pub qclass: QClass,
    pub unicast_question: bool,
}

impl View for Question {
    type V = QuestionView;

    open spec fn view(&self) -> QuestionView {
        QuestionView {
            name: self.name@,
            qtype: self.qtype,
            qclass: self.qclass,
            unicast_question: self.unicast_question,
        }
    }
}

/// A question's octets: its name, then QTYPE and QCLASS, big-endian.
pub open spec fn question_wire(q: QuestionView) -> Seq<u8> {
    name_wire_chars(q.name) + u16_be(q.qtype.spec_code()) + u16_be(
        class_field(q.qclass.spec_code(), q.unicast_question),
    )
}

impl Question {
    /// Appends the question's octets to `out`.
    pub(crate) fn push_wire(&self, out: &mut Vec<u8>)
        ensures
            final(out)@ == old(out)@ + question_wire(self@),
    {
        push_name_wire(out, self.name.as_str().as_bytes());
        push_u16_be(out, self.qtype.code());
        push_u16_be(out, class_field_exec(self.qclass, self.unicast_question));
        assert(out@ =~= old(out)@ + question_wire(self@));
    }

    /// The question's octets: name, QTYPE, QCLASS.
    pub fn to_bytes(&self) -> (r: Vec<u8>)
        ensures
            r@ == question_wire(self@),
    {
        let mut bytes: Vec<u8> = Vec::new();
        self.push_wire(&mut bytes);
        assert(bytes@ =~= question_wire(self@));
        bytes
    }
}

} // verus!
