//! Record types and the encoding of a single-question query.

use vstd::prelude::*;
use vstd::string::StringSliceAdditionalSpecFns;

verus! {

/// The record types a probe can ask for.
#[derive(Clone, Copy, Debug, PartialEq, Eq, Structural)]
pub enum RecordType {
    A,
    Aaaa,
    Cname,
    Mx,
    Ns,
    Ptr,
    Soa,
    Srv,
    Txt,
    Any,
}

/// The numeric code of a record type on the wire.
pub open spec fn type_code(t: RecordType) -> u16 {
    match t {
        RecordType::A => 1,
        RecordType::Ns => 2,
        RecordType::Cname => 5,
        RecordType::Soa => 6,
        RecordType::Ptr => 12,
        RecordType::Mx => 15,
        RecordType::Txt => 16,
        RecordType::Aaaa => 28,
        RecordType::Srv => 33,
        RecordType::Any => 255,
    }
}

/// The numeric code of a record type on the wire.
pub fn record_type_code(t: RecordType) -> (r: u16)
    ensures
        r == type_code(t),
{
    match t {
        RecordType::A => 1,
        RecordType::Ns => 2,
        RecordType::Cname => 5,
        RecordType::Soa => 6,
        RecordType::Ptr => 12,
        RecordType::Mx => 15,
        RecordType::Txt => 16,
        RecordType::Aaaa => 28,
        RecordType::Srv => 33,
        RecordType::Any => 255,
    }
}

/// The record type a textual name stands for; `All` and `ANY` both name the wildcard type.
pub open spec fn type_named(b: Seq<u8>) -> Option<RecordType> {
    if b == "A".spec_bytes() {
        Some(RecordType::A)
    } else if b == "AAAA".spec_bytes() {
        Some(RecordType::Aaaa)
    } else if b == "CNAME".spec_bytes() {
        Some(RecordType::Cname)
    } else if b == "MX".spec_bytes() {
        Some(RecordType::Mx)
    } else if b == "NS".spec_bytes() {
        Some(RecordType::Ns)
    } else if b == "PTR".spec_bytes() {
        Some(RecordType::Ptr)
    } else if b == "SOA".spec_bytes() {
        Some(RecordType::Soa)
    } else if b == "SRV".spec_bytes() {
        Some(RecordType::Srv)
    } else if b == "TXT".spec_bytes() {
        Some(RecordType::Txt)
    } else if b == "All".spec_bytes() || b == "ANY".spec_bytes() {
        Some(RecordType::Any)
    } else {
        None
    }
}

/// Whether two strings hold the same bytes.
pub fn same_text(s: &str, t: &str) -> (r: bool)
    ensures
        r == (s.spec_bytes() == t.spec_bytes()),
{
    let a = s.as_bytes();
    let b = t.as_bytes();
    if a.len() != b.len() {
        return false;
    }
    let mut i: usize = 0;
    while i < a.len()
        invariant
            a@ == s.spec_bytes(),
            b@ == t.spec_bytes(),
            a@.len() == b@.len(),
            i <= a@.len(),
            a@.subrange(0, i as int) == b@.subrange(0, i as int),
        decreases a@.len() - i,
    {
        if a[i] != b[i] {
            assert(a@[i as int] != b@[i as int]);
            return false;
        }
        assert(a@.subrange(0, i + 1) =~= a@.subrange(0, i as int).push(a@[i as int]));
        assert(b@.subrange(0, i + 1) =~= b@.subrange(0, i as int).push(b@[i as int]));
        i = i + 1;
    }
    assert(a@ =~= a@.subrange(0, i as int));
    assert(b@ =~= b@.subrange(0, i as int));
    true
}

/// Reads a record type from its textual name.
pub fn parse_qtype(v: &str) -> (r: Option<RecordType>)
    ensures
        r == type_named(v.spec_bytes()),
{
    if same_text(v, "A") {
        Some(RecordType::A)
    } else if same_text(v, "AAAA") {
        Some(RecordType::Aaaa)
    } else if same_text(v, "CNAME") {
        Some(RecordType::Cname)
    } else if same_text(v, "MX") {
        Some(RecordType::Mx)
    } else if same_text(v, "NS") {
        Some(RecordType::Ns)
    } else if same_text(v, "PTR") {
        Some(RecordType::Ptr)
    } else if same_text(v, "SOA") {
        Some(RecordType::Soa)
    } else if same_text(v, "SRV") {
        Some(RecordType::Srv)
    } else if same_text(v, "TXT") {
        Some(RecordType::Txt)
    } else if same_text(v, "All") || same_text(v, "ANY") {
        Some(RecordType::Any)
    } else {
        None
    }
}

/// The byte of a full stop, which separates labels in a name.
pub const DOT: u8 = 46;

/// The longest label the encoder takes, in bytes.
pub const MAX_LABEL: usize = 62;

/// Length of the run of non-dot bytes that ends just before position `i`.
pub open spec fn run_before(b: Seq<u8>, i: int) -> nat
    decreases i,
{
    if i <= 0 || i > b.len() || b[i - 1] == DOT {
        0
    } else {
        1 + run_before(b, i - 1)
    }
}

/// Every label of the name (the runs between dots) is at most `MAX_LABEL` bytes long.
pub open spec fn labels_fit(b: Seq<u8>) -> bool {
    forall|i: int| 0 <= i <= b.len() ==> #[trigger] run_before(b, i) <= MAX_LABEL
}

/// Length of the label that starts at position `j`.
pub open spec fn label_at(b: Seq<u8>, j: int) -> nat
    decreases b.len() - j,
{
    if j < 0 || j >= b.len() || b[j] == DOT {
        0
    } else {
        1 + label_at(b, j + 1)
    }
}

/// A name in label form: each label preceded by its length, the whole ended by a zero byte.
pub open spec fn wire_name(b: Seq<u8>) -> Seq<u8> {
    seq![label_at(b, 0) as u8] + Seq::new(
        b.len(),
        |i: int|
            if b[i] == DOT {
                label_at(b, i + 1) as u8
            } else {
                b[i]
            },
    ) + seq![0u8]
}

/// The query message: a header with the id, the recursion-desired flag and one
/// question, then the question (name, type, class IN). Past 512 bytes the
/// encoder clears both flag bytes (the recursion-desired flag included; the
/// truncation flag stays clear) and still returns the whole message.
pub open spec fn query_message(name: Seq<u8>, code: u16, id: u16) -> Seq<u8> {
    let m = seq![(id / 256) as u8, (id % 256) as u8, 1u8, 0u8, 0u8, 1u8, 0u8, 0u8, 0u8, 0u8, 0u8, 0u8]
        + wire_name(name) + seq![(code / 256) as u8, (code % 256) as u8, 0u8, 1u8];
    if m.len() > 512 {
        m.update(2, 0u8)
    } else {
        m
    }
}

/// Relies on dns_parser's `Builder` (`new_query`, `add_question`, `build`): the
/// bytes it writes for one question of class IN with recursion desired. The
/// encoder panics on a label of more than 62 bytes, and the code must be one
/// that `QueryType::parse` accepts.
#[verifier::external_body]
fn encode_query(name: &str, code: u16, id: u16) -> (r: Vec<u8>)
    requires
        labels_fit(name.spec_bytes()),
        exists|t: RecordType| type_code(t) == code,
    ensures
        r@ == query_message(name.spec_bytes(), code, id),
{
    let mut b = dns_parser::Builder::new_query(id, true);
    let qtype = dns_parser::QueryType::parse(code).unwrap();
    b.add_question(name, false, qtype, dns_parser::QueryClass::IN);
    b.build().unwrap_or_else(|m| m)
}

/// Whether every label of the name fits the encoder.
pub fn name_fits(name: &str) -> (r: bool)
    ensures
        r == labels_fit(name.spec_bytes()),
{
    let b = name.as_bytes();
    let mut run: usize = 0;
    let mut i: usize = 0;
    assert(run_before(b@, 0) == 0);
    while i < b.len()
        invariant
            b@ == name.spec_bytes(),
            i <= b@.len(),
            run == run_before(b@, i as int),
            forall|k: int| 0 <= k <= i ==> #[trigger] run_before(b@, k) <= MAX_LABEL,
        decreases b@.len() - i,
    {
        if b[i] == DOT {
            run = 0;
        } else {
            run = run + 1;
        }
        i = i + 1;
        assert(run == run_before(b@, i as int));
        if run > MAX_LABEL {
            return false;
        }
    }
    true
}

/// Why a query could not be built.
#[derive(Clone, Copy, Debug, PartialEq, Eq, Structural)]
pub enum QueryError {
    /// A label of the name is longer than the encoder takes.
    LabelTooLong,
}

/// Builds the query for `name` and `t`, tagged with `id`. Fails exactly when a
/// label of the name is too long; an over-long message is still returned
/// whole, with both flag bytes cleared.
pub fn build_query(name: &str, t: RecordType, id: u16) -> (r: Result<Vec<u8>, QueryError>)
    ensures
        labels_fit(name.spec_bytes()) ==> (r matches Ok(m) && m@ == query_message(
            name.spec_bytes(),
            type_code(t),
            id,
        )),
        !labels_fit(name.spec_bytes()) ==> r == Err::<Vec<u8>, QueryError>(QueryError::LabelTooLong),
{
    if !name_fits(name) {
        return Err(QueryError::LabelTooLong);
    }
    let code = record_type_code(t);
    Ok(encode_query(name, code, id))
}

} // verus!
