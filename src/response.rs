//! Decoding of a response message into plain values.

use vstd::prelude::*;

verus! {

/// Header fields of a response.
#[derive(Clone, Copy, Debug, PartialEq, Eq, Structural)]
pub struct Header {
    pub is_response: bool,
    pub authoritative: bool,
    pub truncated: bool,
    pub recursion_desired: bool,
    pub recursion_available: bool,
    pub authenticated_data: bool,
    pub checking_disabled: bool,
    pub response_code: u8,
}

/// The header that the first twelve bytes encode, if they form one: the flag
/// bits of bytes two and three, with the reserved bit clear.
pub open spec fn header_of(b: Seq<u8>) -> Option<Header> {
    if b.len() < 12 || b[3] & 0x40u8 != 0 {
        None
    } else {
        Some(
            Header {
                is_response: b[2] & 0x80u8 != 0,
                authoritative: b[2] & 0x04u8 != 0,
                truncated: b[2] & 0x02u8 != 0,
                recursion_desired: b[2] & 0x01u8 != 0,
                recursion_available: b[3] & 0x80u8 != 0,
                authenticated_data: b[3] & 0x20u8 != 0,
                checking_disabled: b[3] & 0x10u8 != 0,
                response_code: b[3] & 0x0Fu8,
            },
        )
    }
}

/// Relies on dns_parser's `Header::parse`: it fails on fewer than twelve bytes
/// or a set reserved bit, and otherwise reads the flags and the four-bit
/// response code from bytes two and three.
#[verifier::external_body]
fn parse_header(buf: &[u8]) -> (r: Option<Header>)
    ensures
        r == header_of(buf@),
{
    match dns_parser::Header::parse(buf) {
        Ok(h) => Some(Header {
            is_response: !h.query,
            authoritative: h.authoritative,
            truncated: h.truncated,
            recursion_desired: h.recursion_desired,
            recursion_available: h.recursion_available,
            authenticated_data: h.authenticated_data,
            checking_disabled: h.checking_disabled,
            response_code: h.response_code.into(),
        }),
        Err(_) => None,
    }
}

#[verifier::external_type_specification]
#[verifier::external_body]
pub struct ExResourceRecord<'a>(dns_parser::ResourceRecord<'a>);

/// How the message parser ends on a buffer: 0 when it parses the whole
/// message, 1 when it meets a record type code it does not know, and any
/// other value for every other fault.
pub uninterp spec fn parse_outcome(b: Seq<u8>) -> u8;

/// The parser's own account of its fault on a buffer it does not parse.
pub uninterp spec fn parse_fault_text(b: Seq<u8>) -> Seq<u8>;

/// The answer count that the header of a message gives (bytes six and seven).
pub open spec fn answer_total(b: Seq<u8>) -> nat {
    b[6] as nat * 256 + b[7] as nat
}

/// A parser fault: whether it is an unknown record type code, and its text.
struct ParseFault {
    unknown_type: bool,
    cause: Vec<u8>,
}

/// Relies on dns_parser's `Packet::parse`: it reads the header first and fails
/// where `Header::parse` fails (with an error other than `InvalidType`), then
/// reads exactly as many answers as the header counts. The answers are taken
/// from the packet; an error is told apart by its `InvalidType` variant and
/// described by its `Debug` text.
#[verifier::external_body]
fn parse_packet(buf: &[u8]) -> (r: Result<Vec<dns_parser::ResourceRecord>, ParseFault>)
    ensures
        (r is Ok) == (parse_outcome(buf@) == 0),
        r matches Ok(a) ==> header_of(buf@) is Some && a@.len() == answer_total(buf@),
        r matches Err(f) ==> f.unknown_type == (parse_outcome(buf@) == 1),
        r matches Err(f) ==> f.cause@ == parse_fault_text(buf@),
        r matches Err(f) ==> (header_of(buf@) is None ==> !f.unknown_type),
{
    match dns_parser::Packet::parse(buf) {
        Ok(p) => Ok(p.answers),
        Err(e) => Err(ParseFault {
            unknown_type: matches!(e, dns_parser::Error::InvalidType(_)),
            cause: format!("{:?}", e).into_bytes(),
        }),
    }
}

/// The class of a resource record.
#[derive(Clone, Copy, Debug, PartialEq, Eq, Structural)]
pub enum RecordClass {
    In,
    Cs,
    Ch,
    Hs,
}

/// Start-of-authority data, its seven fields in wire order.
#[derive(Debug)]
pub struct Soa {
    pub primary_ns: Vec<u8>,
    pub mailbox: Vec<u8>,
    pub serial: u32,
    pub refresh: u32,
    pub retry: u32,
    pub expire: u32,
    pub minimum_ttl: u32,
}

/// The data of a resource record; names are held as their dotted text.
#[derive(Debug)]
pub enum RecordData {
    A([u8; 4]),
    /// The address and its text.
    Aaaa([u8; 16], Vec<u8>),
    Cname(Vec<u8>),
    /// Preference and exchange.
    Mx(u16, Vec<u8>),
    Ns(Vec<u8>),
    Ptr(Vec<u8>),
    Soa(Soa),
    /// Priority, weight, port and target.
    Srv(u16, u16, u16, Vec<u8>),
    /// The character-strings, in order.
    Txt(Vec<Vec<u8>>),
    /// The raw data of a type without a decoder.
    Unknown(Vec<u8>),
}

/// One answer record.
#[derive(Debug)]
pub struct Answer {
    pub name: Vec<u8>,
    pub ttl: u32,
    pub class: RecordClass,
    pub data: RecordData,
}

/// A decoded response: its header and its answers, in order.
#[derive(Debug)]
pub struct Response {
    pub header: Header,
    pub answers: Vec<Answer>,
}

/// Why a response could not be used.
#[derive(Debug, PartialEq, Eq)]
pub enum DecodeError {
    /// A record type code that the decoder does not know.
    UnsupportedType,
    /// Any other structural fault, with the decoder's account of it.
    Malformed(Vec<u8>),
}

/// The text of an IPv6 address given by its sixteen octets.
pub uninterp spec fn ipv6_text(octets: Seq<u8>) -> Seq<u8>;

/// Relies on dns_parser's `ResourceRecord`: its owner name (through the
/// name's `Display`), time to live and class.
#[verifier::external_body]
fn record_meta(r: &dns_parser::ResourceRecord) -> (Vec<u8>, u32, RecordClass) {
    let class = match r.cls {
        dns_parser::Class::IN => RecordClass::In,
        dns_parser::Class::CS => RecordClass::Cs,
        dns_parser::Class::CH => RecordClass::Ch,
        dns_parser::Class::HS => RecordClass::Hs,
    };
    (r.name.to_string().into_bytes(), r.ttl, class)
}

/// Relies on dns_parser's `RData`: the address, text and undecoded variants,
/// an IPv6 address with its text from std's `Display` for `Ipv6Addr`.
#[verifier::external_body]
fn value_data(r: &dns_parser::ResourceRecord) -> (d: Option<RecordData>)
    ensures
        d matches Some(RecordData::Aaaa(o, t)) ==> t@ == ipv6_text(o@),
{
    match &r.data {
        dns_parser::RData::A(a) => Some(RecordData::A(a.0.octets())),
        dns_parser::RData::AAAA(a) => Some(RecordData::Aaaa(a.0.octets(), a.0.to_string().into_bytes())),
        dns_parser::RData::TXT(t) => Some(RecordData::Txt(t.iter().map(|x| x.to_vec()).collect())),
        dns_parser::RData::Unknown(b) => Some(RecordData::Unknown(b.to_vec())),
        _ => None,
    }
}

/// Relies on dns_parser's `RData`: the variants that carry one name, their
/// names through `Display`.
#[verifier::external_body]
fn name_data(r: &dns_parser::ResourceRecord) -> (d: Option<RecordData>)
    ensures
        d matches Some(x) ==> (x is Cname || x is Ns || x is Ptr || x is Mx),
{
    match &r.data {
        dns_parser::RData::CNAME(c) => Some(RecordData::Cname(c.0.to_string().into_bytes())),
        dns_parser::RData::NS(n) => Some(RecordData::Ns(n.0.to_string().into_bytes())),
        dns_parser::RData::PTR(p) => Some(RecordData::Ptr(p.0.to_string().into_bytes())),
        dns_parser::RData::MX(m) => Some(RecordData::Mx(m.preference, m.exchange.to_string().into_bytes())),
        _ => None,
    }
}

/// Relies on dns_parser's `RData`: the start-of-authority and service variants.
#[verifier::external_body]
fn zone_data(r: &dns_parser::ResourceRecord) -> (d: Option<RecordData>)
    ensures
        d matches Some(x) ==> (x is Soa || x is Srv),
{
    match &r.data {
        dns_parser::RData::SOA(s) => Some(RecordData::Soa(Soa {
            primary_ns: s.primary_ns.to_string().into_bytes(),
            mailbox: s.mailbox.to_string().into_bytes(),
            serial: s.serial,
            refresh: s.refresh,
            retry: s.retry,
            expire: s.expire,
            minimum_ttl: s.minimum_ttl,
        })),
        dns_parser::RData::SRV(s) => Some(RecordData::Srv(s.priority, s.weight, s.port, s.target.to_string().into_bytes())),
        _ => None,
    }
}

/// Every IPv6 record carries the text of its own address.
pub open spec fn data_consistent(d: RecordData) -> bool {
    d matches RecordData::Aaaa(o, t) ==> t@ == ipv6_text(o@)
}

/// Converts one answer record.
fn convert_record(r: &dns_parser::ResourceRecord) -> (a: Answer)
    ensures
        data_consistent(a.data),
{
    let (name, ttl, class) = record_meta(r);
    let data = match value_data(r) {
        Some(d) => d,
        None => match name_data(r) {
            Some(d) => d,
            None => match zone_data(r) {
                Some(d) => d,
                // The three groups cover every variant of `RData`.
                None => RecordData::Unknown(Vec::new()),
            },
        },
    };
    Answer { name, ttl, class, data }
}

/// Decodes a response buffer. It decodes exactly when the parser parses the
/// whole message; an unknown record type code is told apart from every other
/// fault, which comes with the parser's account of it. A decoded response
/// carries exactly the header that the buffer encodes and as many answers as
/// that header counts.
pub fn decode_response(buf: &[u8]) -> (r: Result<Response, DecodeError>)
    ensures
        (r is Ok) == (parse_outcome(buf@) == 0),
        parse_outcome(buf@) == 1 ==> r == Err::<Response, DecodeError>(DecodeError::UnsupportedType),
        parse_outcome(buf@) != 0 && parse_outcome(buf@) != 1 ==> (r matches Err(
            DecodeError::Malformed(c),
        ) && c@ == parse_fault_text(buf@)),
        header_of(buf@) is None ==> r is Err && r != Err::<Response, DecodeError>(
            DecodeError::UnsupportedType,
        ),
        r matches Ok(m) ==> header_of(buf@) == Some(m.header) && m.answers@.len() == answer_total(
            buf@,
        ),
        r matches Ok(m) ==> forall|i: int| 0 <= i < m.answers@.len() ==> data_consistent(#[trigger] m.answers@[i].data),
{
    match parse_packet(buf) {
        Err(f) => {
            if f.unknown_type {
                Err(DecodeError::UnsupportedType)
            } else {
                Err(DecodeError::Malformed(f.cause))
            }
        },
        Ok(records) => {
            let header = parse_header(buf).unwrap();
            let mut answers: Vec<Answer> = Vec::new();
            let mut i: usize = 0;
            while i < records.len()
                invariant
                    i <= records@.len(),
                    answers@.len() == i,
                    forall|k: int| 0 <= k < i ==> data_consistent(#[trigger] answers@[k].data),
                decreases records@.len() - i,
            {
                answers.push(convert_record(&records[i]));
                i = i + 1;
            }
            Ok(Response { header, answers })
        },
    }
}

} // verus!
