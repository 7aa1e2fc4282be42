use vstd::prelude::*;
use crate::name::{Name, name_wire_chars};
use crate::octets::{u16_be, u32_be, push_u16_be, push_u32_be, push_all};
use crate::question::{QClass, QType, class_field, class_field_exec};
use crate::records::{ARecord, AAAARecord, PTRRecord, SRVRecord, RData, RDataView, rdata_wire};

verus! {

/// `<host>.local`: the name of a host on the local link.
pub open spec fn local_host_name(host: Seq<char>) -> Seq<char> {
    host + ".local"@
}

/// `<service>.<protocol>.local`: the name of a service type.
pub open spec fn service_type_name(service: Seq<char>, protocol: Seq<char>) -> Seq<char> {
    service + "."@ + protocol + ".local"@
}

/// `<host>.<service>.<protocol>.local`: the name of a service instance.
pub open spec fn instance_name(host: Seq<char>, service: Seq<char>, protocol: Seq<char>) -> Seq<
    char,
> {
    host + "."@ + service + "."@ + protocol + ".local"@
}

/// A resource record as plain values.
pub struct RecordView {
    pub name: Seq<char>,
    pub record_type: QType,
    pub record_class: QClass,
    pub cache_flush: bool,
    pub ttl: u32,
    pub rdlength: u16,
    pub rdata: Option<RDataView>,
}

/// A record of class IN without the cache-flush bit, whose RDLENGTH is the
/// length of its data.
pub open spec fn record_of(name: Seq<char>, t: QType, ttl: u32, d: RDataView) -> RecordView {
    RecordView {
        name,
        record_type: t,
        record_class: QClass::In,
        cache_flush: false,
        ttl,
        rdlength: rdata_wire(d).len() as u16,
        rdata: Some(d),
    }
}

/// A record's octets: name, TYPE, CLASS (top bit set for cache flush), TTL,
/// RDLENGTH and RDATA. A record without data has none.
pub open spec fn record_wire(r: RecordView) -> Option<Seq<u8>> {
    match r.rdata {
        None => None,
        Some(d) => Some(
            name_wire_chars(r.name) + u16_be(r.record_type.spec_code()) + u16_be(
                class_field(r.record_class.spec_code(), r.cache_flush),
            ) + u32_be(r.ttl) + u16_be(rdata_wire(d).len() as u16) + rdata_wire(d),
        ),
    }
}

/// A resource record: a name, its type and class, a time to live, and the
/// type's data.
#[derive(Debug)]
pub struct ResourceRecord {
    /// The name the record pertains to.
    pub name: Name,
    /// The type of the data.
    pub record_type: QType,
    /// The class of the data.
    pub record_class: QClass,
    /// Whether receivers should flush cached copies (the top bit of CLASS).
    pub cache_flush: bool,
    /// Seconds the record may be cached.
    pub ttl: u32,
    /// The length in octets of the data.
    pub rdlength: u16,
    /// The data; a record without it cannot be encoded.
    pub rdata: Option<RData>,
}

impl View for ResourceRecord {
    type V = RecordView;

    open spec fn view(&self) -> RecordView {
        RecordView {
            name: self.name@,
            record_type: self.record_type,
            record_class: self.record_class,
            cache_flush: self.cache_flush,
            ttl: self.ttl,
            rdlength: self.rdlength,
            rdata: match self.rdata {
                Some(d) => Some(d@),
                None => None,
            },
        }
    }
}

/// Builds `<first><second>` as a new string.
pub(crate) fn joined(first: &String, second: &str) -> (r: String)
    ensures
        r@ == first@ + second@,
{
    let mut s = first.clone();
    s.append(second);
    s
}

/// `<host>.local`.
pub(crate) fn local_host_string(host: &String) -> (r: String)
    ensures
        r@ == local_host_name(host@),
{
    joined(host, ".local")
}

/// `<service>.<protocol>.local`.
pub(crate) fn service_type_string(service: &String, protocol: &String) -> (r: String)
    ensures
        r@ == service_type_name(service@, protocol@),
{
    let mut s = joined(service, ".");
    s.append(protocol.as_str());
    s.append(".local");
    s
}

/// `<host>.<service>.<protocol>.local`.
pub(crate) fn instance_string(host: &String, service: &String, protocol: &String) -> (r: String)
    ensures
        r@ == instance_name(host@, service@, protocol@),
{
    let mut s = joined(host, ".");
    s.append(service.as_str());
    s.append(".");
    s.append(protocol.as_str());
    s.append(".local");
    s
}

impl ResourceRecord {
    /// The record's octets; an error when it has no data.
    pub fn to_bytes(&self) -> (r: Result<Vec<u8>, String>)
        ensures
            match record_wire(self@) {
                Some(b) => r matches Ok(v) && v@ == b,
                None => r is Err,
            },
    {
        match &self.rdata {
            Some(rdata) => {
                let mut bytes = self.name.to_bytes();
                push_u16_be(&mut bytes, self.record_type.code());
                push_u16_be(&mut bytes, class_field_exec(self.record_class, self.cache_flush));
                push_u32_be(&mut bytes, self.ttl);
                let data = rdata.to_bytes();
                push_u16_be(&mut bytes, data.len() as u16);
                push_all(&mut bytes, &data);
                Ok(bytes)
            },
            None => Err(String::from_str("No RDATA set for this record")),
        }
    }

    /// An A record of `name` for the IPv4 address `ip`, TTL 60.
    pub fn create_a_record(name: Name, ip: [u8; 4]) -> (r: Self)
        ensures
            r@ == record_of(name@, QType::A, 60, RDataView::A(ip@)),
    {
        ResourceRecord {
            name,
            record_type: QType::A,
            record_class: QClass::In,
            cache_flush: false,
            ttl: 60,
            rdlength: 4,
            rdata: Some(RData::A(ARecord { ip })),
        }
    }

    /// An AAAA record of `name` for the IPv6 groups `ip`, TTL 120.
    pub fn create_aaaa_record(name: Name, ip: [u16; 4]) -> (r: Self)
        ensures
            r@ == record_of(name@, QType::Aaaa, 120, RDataView::Aaaa(ip@)),
    {
        let rdata = AAAARecord { ip };
        let length = rdata.to_bytes().len();
        assert(length == 8) by {
            reveal_with_fuel(crate::records::u16s_be, 5);
        }
        ResourceRecord {
            name,
            record_type: QType::Aaaa,
            record_class: QClass::In,
            cache_flush: false,
            ttl: 120,
            rdlength: length as u16,
            rdata: Some(RData::Aaaa(rdata)),
        }
    }

    /// A PTR record from the service type `<service>.<protocol>.local` to
    /// the instance `<host>.<service>.<protocol>.local`, TTL 60.
    pub fn create_ptr_record(host: String, service: String, protocol: String) -> (r: Self)
        requires
            name_wire_chars(instance_name(host@, service@, protocol@)).len() <= u16::MAX,
        ensures
            r@ == record_of(
                service_type_name(service@, protocol@),
                QType::Ptr,
                60,
                RDataView::Ptr(instance_name(host@, service@, protocol@)),
            ),
    {
        let rdata = PTRRecord {
            name: Name::new(instance_string(&host, &service, &protocol)).unwrap(),
        };
        let length = rdata.to_bytes().len();
        ResourceRecord {
            name: Name::new(service_type_string(&service, &protocol)).unwrap(),
            record_type: QType::Ptr,
            record_class: QClass::In,
            cache_flush: false,
            ttl: 60,
            rdlength: length as u16,
            rdata: Some(RData::Ptr(rdata)),
        }
    }

    /// An SRV record of the instance name `service` pointing at port `port`
    /// of `target`, priority and weight 0, TTL 60.
    pub fn create_srv_record(service: String, port: u16, target: String) -> (r: Self)
        requires
            6 + name_wire_chars(target@).len() <= u16::MAX,
        ensures
            r@ == record_of(
                service@,
                QType::Srv,
                60,
                RDataView::Srv { priority: 0, weight: 0, port, target: target@ },
            ),
    {
        let rdata = SRVRecord { priority: 0, port, weight: 0, target: Name::new(target).unwrap() };
        let length = rdata.to_bytes().len();
        ResourceRecord {
            name: Name::new(service).unwrap(),
            record_type: QType::Srv,
            record_class: QClass::In,
            cache_flush: false,
            ttl: 60,
            rdlength: length as u16,
            rdata: Some(RData::Srv(rdata)),
        }
    }
}

} // verus!
