use vstd::prelude::*;
use crate::octets::{u16_be, push_u16_be};

verus! {

/// The kind of query a message carries (a four-bit field of the header).
#[derive(Clone, Copy, Debug, PartialEq, Eq)]
pub enum OpCode {
    /// A standard query (QUERY), code 0.
    StandardQuery,
    /// An inverse query (IQUERY), code 1.
    InverseQuery,
    /// A server status request (STATUS), code 2.
    ServerStatusRequest,
}

impl OpCode {
    pub open spec fn spec_code(self) -> u8 {
        match self {
            OpCode::StandardQuery => 0,
            OpCode::InverseQuery => 1,
            OpCode::ServerStatusRequest => 2,
        }
    }

    /// The value carried in the header's OPCODE field.
    #[verifier::when_used_as_spec(spec_code)]
    pub fn code(self) -> (r: u8)
        ensures
            r == self.spec_code(),
    {
        match self {
            OpCode::StandardQuery => 0,
            OpCode::InverseQuery => 1,
            OpCode::ServerStatusRequest => 2,
        }
    }
}

impl Default for OpCode {
    /// A standard query.
    fn default() -> (r: OpCode)
        ensures
            r == OpCode::StandardQuery,
    {
        OpCode::StandardQuery
    }
}

/// The response code of a message (a four-bit field of the header).
#[derive(Clone, Copy, Debug, PartialEq, Eq)]
pub enum RCode {
    /// No error condition, code 0.
    NoError,
    /// The server could not interpret the query, code 1.
    FormatError,
    /// The server could not process the query, code 2.
    ServerFailure,
    /// The name in the query does not exist, code 3.
    NameError,
    /// The server does not support this kind of query, code 4.
    NotImplemented,
    /// The server refuses the operation, code 5.
    Refused,
}

impl RCode {
    pub open spec fn spec_code(self) -> u8 {
        match self {
            RCode::NoError => 0,
            RCode::FormatError => 1,
            RCode::ServerFailure => 2,
            RCode::NameError => 3,
            RCode::NotImplemented => 4,
            RCode::Refused => 5,
        }
    }

    /// The value carried in the header's RCODE field.
    #[verifier::when_used_as_spec(spec_code)]
    pub fn code(self) -> (r: u8)
        ensures
            r == self.spec_code(),
    {
        match self {
            RCode::NoError => 0,
            RCode::FormatError => 1,
            RCode::ServerFailure => 2,
            RCode::NameError => 3,
            RCode::NotImplemented => 4,
            RCode::Refused => 5,
        }
    }
}

impl Default for RCode {
    /// No error.
    fn default() -> (r: RCode)
        ensures
            r == RCode::NoError,
    {
        RCode::NoError
    }
}

/// The fixed twelve-octet header of a DNS message.
///
/// Layout, most significant bit first:
/// ID(16) | QR(1) OPCODE(4) AA(1) TC(1) RD(1) | RA(1) Z(3) RCODE(4) |
/// QDCOUNT(16) | ANCOUNT(16) | NSCOUNT(16) | ARCOUNT(16).
#[derive(Clone, Copy, Debug)]
pub struct Header {
    /// Identifier copied from a query into its reply.
    pub id: u16,
    /// Whether the message is a response.
    pub qr: bool,
    /// The kind of query.
    pub opcode: OpCode,
    /// Authoritative answer.
    pub aa: bool,
    /// The message was truncated.
    pub tc: bool,
    /// Recursion desired.
    pub rd: bool,
    /// Recursion available.
    pub ra: bool,
    /// Reserved; only its low three bits are carried.
    pub z: u8,
    /// The response code.
    pub rcode: RCode,
    /// Number of entries in the question section.
    pub qdcount: u16,
    /// Number of records in the answer section.
    pub ancount: u16,
    /// Number of records in the authority section.
    pub nscount: u16,
    /// Number of records in the additional section.
    pub arcount: u16,
}

/// The header of an empty standard query: identifier zero, every flag clear,
/// every count zero.
pub open spec fn default_header() -> Header {
    Header {
        id: 0,
        qr: false,
        opcode: OpCode::StandardQuery,
        aa: false,
        tc: false,
        rd: false,
        ra: false,
        z: 0,
        rcode: RCode::NoError,
        qdcount: 0,
        ancount: 0,
        nscount: 0,
        arcount: 0,
    }
}

pub open spec fn bit(b: bool, weight: int) -> int {
    if b {
        weight
    } else {
        0
    }
}

/// The third octet: QR, OPCODE, AA, TC and RD.
pub open spec fn flags_high(h: Header) -> u8 {
    (bit(h.qr, 128) + h.opcode.spec_code() * 8 + bit(h.aa, 4) + bit(h.tc, 2) + bit(h.rd, 1)) as u8
}

/// The fourth octet: RA, Z and RCODE.
pub open spec fn flags_low(h: Header) -> u8 {
    (bit(h.ra, 128) + (h.z % 8) * 16 + h.rcode.spec_code()) as u8
}

/// The twelve octets of a header.
pub open spec fn header_wire(h: Header) -> Seq<u8> {
    u16_be(h.id) + seq![flags_high(h), flags_low(h)] + u16_be(h.qdcount) + u16_be(h.ancount)
        + u16_be(h.nscount) + u16_be(h.arcount)
}

impl Default for Header {
    /// See [`default_header`].
    fn default() -> (r: Header)
        ensures
            r == default_header(),
    {
        Header::new()
    }
}

impl Header {
    /// The header of an empty standard query with identifier zero, zero
    /// counts and every flag clear.
    pub fn new() -> (r: Header)
        ensures
            r == default_header(),
    {
        Header {
            id: 0,
            qr: false,
            opcode: OpCode::StandardQuery,
            aa: false,
            tc: false,
            rd: false,
            ra: false,
            z: 0,
            rcode: RCode::NoError,
            qdcount: 0,
            ancount: 0,
            nscount: 0,
            arcount: 0,
        }
    }

    /// The header's twelve octets.
    pub fn to_bytes(&self) -> (r: Vec<u8>)
        ensures
            r@ == header_wire(*self),
            r@.len() == 12,
    {
        let mut bytes: Vec<u8> = Vec::new();
        push_u16_be(&mut bytes, self.id);
        let high: u8 = (if self.qr { 128u8 } else { 0u8 }) + self.opcode.code() * 8
            + (if self.aa { 4u8 } else { 0u8 }) + (if self.tc { 2u8 } else { 0u8 })
            + (if self.rd { 1u8 } else { 0u8 });
        let low: u8 = (if self.ra { 128u8 } else { 0u8 }) + (self.z % 8) * 16 + self.rcode.code();
        bytes.push(high);
        bytes.push(low);
        push_u16_be(&mut bytes, self.qdcount);
        push_u16_be(&mut bytes, self.ancount);
        push_u16_be(&mut bytes, self.nscount);
        push_u16_be(&mut bytes, self.arcount);
        assert(bytes@ =~= header_wire(*self));
        bytes
    }
}

/// A default header is twelve zero octets.
pub proof fn lemma_default_header_is_zero()
    ensures
        header_wire(default_header()) == Seq::new(12, |i: int| 0u8),
{
    assert(header_wire(default_header()) =~= Seq::new(12, |i: int| 0u8));
}

/// Setting QR on a header with QR clear sets the top bit of the third octet
/// and changes no other bit of the encoding.
pub proof fn lemma_qr_sets_only_its_bit(h: Header)
    requires
        !h.qr,
    ensures
        header_wire(Header { qr: true, ..h }).len() == 12,
        header_wire(Header { qr: true, ..h })[2] == header_wire(h)[2] + 128,
        header_wire(h)[2] < 128,
        forall|i: int|
            0 <= i < 12 && i != 2 ==> header_wire(Header { qr: true, ..h })[i] == header_wire(h)[i],
{
}

} // verus!
