use vstd::prelude::*;
use vstd::utf8::encode_utf8;
use crate::name::{Name, name_wire_chars, push_range};
use crate::octets::{u16_be, push_u16_be};

verus! {

/// The octet `=` that separates a TXT entry's key from its value.
pub const KEY_VALUE_SEPARATOR: u8 = 61;

/// The data of a record as plain values.
pub enum RDataView {
    A(Seq<u8>),
    Aaaa(Seq<u16>),
    Ptr(Seq<char>),
    Srv { priority: u16, weight: u16, port: u16, target: Seq<char> },
    Txt(Seq<Seq<char>>),
}

/// Each group as two octets, most significant first.
pub open spec fn u16s_be(s: Seq<u16>) -> Seq<u8>
    decreases s.len(),
{
    if s.len() == 0 {
        Seq::empty()
    } else {
        u16s_be(s.drop_last()) + u16_be(s.last())
    }
}

/// Each TXT entry as one length octet followed by its UTF-8 octets.
pub open spec fn txt_wire(entries: Seq<Seq<char>>) -> Seq<u8>
    decreases entries.len(),
{
    if entries.len() == 0 {
        Seq::empty()
    } else {
        txt_wire(entries.drop_last()) + seq![encode_utf8(entries.last()).len() as u8]
            + encode_utf8(entries.last())
    }
}

/// The RDATA octets of each kind of record.
pub open spec fn rdata_wire(d: RDataView) -> Seq<u8> {
    match d {
        RDataView::A(ip) => ip,
        RDataView::Aaaa(groups) => u16s_be(groups),
        RDataView::Ptr(name) => name_wire_chars(name),
        RDataView::Srv { priority, weight, port, target } => u16_be(priority) + u16_be(weight)
            + u16_be(port) + name_wire_chars(target),
        RDataView::Txt(entries) => txt_wire(entries),
    }
}

/// How often the octet `x` occurs in `b`.
pub open spec fn count_octet(b: Seq<u8>, x: u8) -> nat
    decreases b.len(),
{
    if b.len() == 0 {
        0
    } else {
        count_octet(b.drop_last(), x) + if b.last() == x {
            1nat
        } else {
            0nat
        }
    }
}

/// A TXT entry of the form `key=value`: exactly one `=` in it.
pub open spec fn is_key_value(s: Seq<char>) -> bool {
    count_octet(encode_utf8(s), KEY_VALUE_SEPARATOR) == 1
}

/// The IPv4 address of an A record.
#[derive(Clone, Copy, Debug)]
pub struct ARecord {
    pub ip: [u8; 4],
}

/// The IPv6 address of an AAAA record, as four 16-bit groups.
#[derive(Clone, Copy, Debug)]
pub struct AAAARecord {
    pub ip: [u16; 4],
}

/// The domain name a PTR record points to.
#[derive(Debug)]
pub struct PTRRecord {
    pub name: Name,
}

/// The location of a service: priority, weight, port and target host.
#[derive(Debug)]
pub struct SRVRecord {
    /// Lower values are contacted first.
    pub priority: u16,
    /// Selects among targets of equal priority.
    pub weight: u16,
    /// The port the service listens on.
    pub port: u16,
    /// The host that provides the service, such as `MyMac.local`.
    pub target: Name,
}

/// The `key=value` strings of a TXT record.
#[derive(Debug)]
pub struct TXTRecord {
    pub txt_record: Vec<String>,
}

/// The data of a resource record, one variant per supported type.
#[derive(Debug)]
pub enum RData {
    A(ARecord),
    Aaaa(AAAARecord),
    Ptr(PTRRecord),
    Srv(SRVRecord),
    Txt(TXTRecord),
}

impl View for RData {
    type V = RDataView;

    open spec fn view(&self) -> RDataView {
        match self {
            RData::A(a) => RDataView::A(a.ip@),
            RData::Aaaa(a) => RDataView::Aaaa(a.ip@),
            RData::Ptr(p) => RDataView::Ptr(p.name@),
            RData::Srv(s) => RDataView::Srv {
                priority: s.priority,
                weight: s.weight,
                port: s.port,
                target: s.target@,
            },
            RData::Txt(t) => RDataView::Txt(t.txt_record.deep_view()),
        }
    }
}

impl ARecord {
    /// The four address octets.
    pub fn to_bytes(&self) -> (r: Vec<u8>)
        ensures
            r@ == rdata_wire(RDataView::A(self.ip@)),
    {
        let mut bytes: Vec<u8> = Vec::new();
        bytes.push(self.ip[0]);
        bytes.push(self.ip[1]);
        bytes.push(self.ip[2]);
        bytes.push(self.ip[3]);
        assert(bytes@ =~= self.ip@);
        bytes
    }
}

impl AAAARecord {
    /// The four groups, two octets each, most significant first.
    pub fn to_bytes(&self) -> (r: Vec<u8>)
        ensures
            r@ == rdata_wire(RDataView::Aaaa(self.ip@)),
    {
        let mut bytes: Vec<u8> = Vec::new();
        let mut i: usize = 0;
        while i < 4
            invariant
                i <= 4,
                bytes@ == u16s_be(self.ip@.subrange(0, i as int)),
            decreases 4 - i,
        {
            push_u16_be(&mut bytes, self.ip[i]);
            assert(self.ip@.subrange(0, i + 1).drop_last() =~= self.ip@.subrange(0, i as int));
            i += 1;
        }
        assert(self.ip@.subrange(0, 4) =~= self.ip@);
        bytes
    }
}

impl PTRRecord {
    /// The wire form of the name pointed to.
    pub fn to_bytes(&self) -> (r: Vec<u8>)
        ensures
            r@ == rdata_wire(RDataView::Ptr(self.name@)),
    {
        self.name.to_bytes()
    }
}

impl SRVRecord {
    /// Priority, weight and port, big-endian, then the target's wire form.
    pub fn to_bytes(&self) -> (r: Vec<u8>)
        ensures
            r@ == rdata_wire(
                RDataView::Srv {
                    priority: self.priority,
                    weight: self.weight,
                    port: self.port,
                    target: self.target@,
                },
            ),
    {
        let mut bytes: Vec<u8> = Vec::new();
        push_u16_be(&mut bytes, self.priority);
        push_u16_be(&mut bytes, self.weight);
        push_u16_be(&mut bytes, self.port);
        self.target.push_wire(&mut bytes);
        assert(bytes@ =~= u16_be(self.priority) + u16_be(self.weight) + u16_be(self.port)
            + name_wire_chars(self.target@));
        bytes
    }
}

/// Whether `s` holds exactly one `=`.
fn has_one_separator(s: &String) -> (r: bool)
    ensures
        r == is_key_value(s@),
{
    let b = s.as_str().as_bytes();
    let mut count: usize = 0;
    let mut i: usize = 0;
    while i < b.len()
        invariant
            i <= b@.len(),
            b@ == encode_utf8(s@),
            count == count_octet(b@.subrange(0, i as int), KEY_VALUE_SEPARATOR),
            count <= i,
        decreases b@.len() - i,
    {
        assert(b@.subrange(0, i + 1).drop_last() =~= b@.subrange(0, i as int));
        if b[i] == KEY_VALUE_SEPARATOR {
            count += 1;
        }
        i += 1;
    }
    assert(b@.subrange(0, b@.len() as int) =~= b@);
    count == 1
}

impl TXTRecord {
    /// A TXT record of `txt_record`, each entry of which must read
    /// `key=value`: exactly one `=`. Fails when an entry does not.
    pub fn new(txt_record: Vec<String>) -> (r: Result<Self, String>)
        ensures
            (forall|i: int| 0 <= i < txt_record@.len() ==> is_key_value(#[trigger] txt_record@[i]@))
                <==> r is Ok,
            r matches Ok(t) ==> t.txt_record@ == txt_record@,
    {
        let mut i: usize = 0;
        while i < txt_record.len()
            invariant
                i <= txt_record@.len(),
                forall|j: int| 0 <= j < i ==> is_key_value(#[trigger] txt_record@[j]@),
            decreases txt_record@.len() - i,
        {
            if !has_one_separator(&txt_record[i]) {
                return Err(String::from_str("TXT entry is not of the form key=value"));
            }
            i += 1;
        }
        Ok(TXTRecord { txt_record })
    }

    /// Each entry as one length octet followed by its octets.
    pub fn to_bytes(&self) -> (r: Vec<u8>)
        ensures
            r@ == rdata_wire(RDataView::Txt(self.txt_record.deep_view())),
    {
        let mut bytes: Vec<u8> = Vec::new();
        let ghost entries = self.txt_record.deep_view();
        let mut i: usize = 0;
        while i < self.txt_record.len()
            invariant
                i <= self.txt_record@.len(),
                entries == self.txt_record.deep_view(),
                bytes@ == txt_wire(entries.subrange(0, i as int)),
            decreases self.txt_record@.len() - i,
        {
            let b = self.txt_record[i].as_str().as_bytes();
            bytes.push(b.len() as u8);
            push_range(&mut bytes, b, 0, b.len());
            proof {
                let sub = entries.subrange(0, i + 1);
                assert(sub.drop_last() =~= entries.subrange(0, i as int));
                assert(sub.last() == self.txt_record@[i as int]@);
                assert(b@.subrange(0, b@.len() as int) =~= b@);
                assert(bytes@ =~= txt_wire(sub));
            }
            i += 1;
        }
        assert(entries.subrange(0, entries.len() as int) =~= entries);
        bytes
    }
}

impl RData {
    /// The RDATA octets of the record's type.
    pub fn to_bytes(&self) -> (r: Vec<u8>)
        ensures
            r@ == rdata_wire(self@),
    {
        match self {
            RData::A(a) => a.to_bytes(),
            RData::Aaaa(a) => a.to_bytes(),
            RData::Ptr(p) => p.to_bytes(),
            RData::Srv(s) => s.to_bytes(),
            RData::Txt(t) => t.to_bytes(),
        }
    }
}

} // verus!
