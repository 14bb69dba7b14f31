//! Human-readable lines for a decoded response.

use vstd::prelude::*;
use vstd::string::StringSliceAdditionalSpecFns;
use crate::response::{Answer, Header, RecordClass, RecordData, Response, Soa};
use crate::text::{concat_all, concat_parts, decimal, push_bytes, push_decimal, push_str};

verus! {

/// The bytes of a string literal.
pub open spec fn lit(s: &str) -> Seq<u8> {
    s.spec_bytes()
}

/// An IPv4 address in dotted-decimal form.
pub open spec fn dotted(o: Seq<u8>) -> Seq<u8> {
    decimal(o[0] as nat) + lit(".") + decimal(o[1] as nat) + lit(".") + decimal(o[2] as nat)
        + lit(".") + decimal(o[3] as nat)
}

/// Decimal values separated by a comma and a space.
pub open spec fn byte_items(b: Seq<u8>) -> Seq<u8>
    decreases b.len(),
{
    if b.len() == 0 {
        Seq::empty()
    } else if b.len() == 1 {
        decimal(b[0] as nat)
    } else {
        byte_items(b.drop_last()) + lit(", ") + decimal(b.last() as nat)
    }
}

/// Raw bytes as a bracketed list of decimal values.
pub open spec fn byte_list(b: Seq<u8>) -> Seq<u8> {
    lit("[") + byte_items(b) + lit("]")
}

/// The seven start-of-authority fields in order, separated by spaces.
pub open spec fn soa_text(s: Soa) -> Seq<u8> {
    s.primary_ns@ + lit(" ") + s.mailbox@ + lit(" ") + decimal(s.serial as nat) + lit(" ")
        + decimal(s.refresh as nat) + lit(" ") + decimal(s.retry as nat) + lit(" ")
        + decimal(s.expire as nat) + lit(" ") + decimal(s.minimum_ttl as nat)
}

/// The text of a record's data, led by its type.
pub open spec fn data_text(d: RecordData) -> Seq<u8> {
    match d {
        RecordData::A(o) => lit("A ") + dotted(o@),
        RecordData::Aaaa(_, t) => lit("AAAA ") + t@,
        RecordData::Cname(n) => lit("CNAME ") + n@,
        RecordData::Mx(p, n) => lit("MX ") + decimal(p as nat) + lit(" ") + n@,
        RecordData::Ns(n) => lit("NS ") + n@,
        RecordData::Ptr(n) => lit("PTR ") + n@,
        RecordData::Soa(s) => lit("SOA ") + soa_text(s),
        RecordData::Srv(p, w, port, t) => lit("SRV ") + decimal(p as nat) + lit(" ") + decimal(
            w as nat,
        ) + lit(" ") + decimal(port as nat) + lit(" ") + t@,
        RecordData::Txt(parts) => lit("TXT ") + concat_all(parts@.map_values(|p: Vec<u8>| p@)),
        RecordData::Unknown(b) => lit("Unknown ") + byte_list(b@),
    }
}

/// The mnemonic of a record class.
pub open spec fn class_text(c: RecordClass) -> Seq<u8> {
    match c {
        RecordClass::In => lit("IN"),
        RecordClass::Cs => lit("CS"),
        RecordClass::Ch => lit("CH"),
        RecordClass::Hs => lit("HS"),
    }
}

/// One indented line per answer: owner name, TTL, class and data.
pub open spec fn answer_text(a: Answer) -> Seq<u8> {
    lit("    ") + a.name@ + lit(" ") + decimal(a.ttl as nat) + lit(" ") + class_text(a.class)
        + lit(" ") + data_text(a.data)
}

/// A flag's mnemonic, led by a space, where the flag is set.
pub open spec fn flag_word(set: bool, word: &str) -> Seq<u8> {
    if set {
        lit(" ") + lit(word)
    } else {
        Seq::empty()
    }
}

/// The header flags that are set, in header order.
pub open spec fn flags_text(h: Header) -> Seq<u8> {
    lit("flags:") + flag_word(h.is_response, "QR") + flag_word(h.authoritative, "AA") + flag_word(
        h.truncated,
        "TC",
    ) + flag_word(h.recursion_desired, "RD") + flag_word(h.recursion_available, "RA")
        + flag_word(h.authenticated_data, "AD") + flag_word(h.checking_disabled, "CD")
}

/// The line that counts the answers.
pub open spec fn count_text(n: nat) -> Seq<u8> {
    lit("got ") + decimal(n) + lit(" answers:")
}

/// Renders an IPv4 address.
fn push_dotted(out: &mut Vec<u8>, o: &[u8; 4])
    ensures
        final(out)@ == old(out)@ + dotted(o@),
{
    push_decimal(out, o[0] as u64);
    push_str(out, ".");
    push_decimal(out, o[1] as u64);
    push_str(out, ".");
    push_decimal(out, o[2] as u64);
    push_str(out, ".");
    push_decimal(out, o[3] as u64);
    assert(final(out)@ =~= old(out)@ + dotted(o@));
}

/// Renders raw bytes as a bracketed list.
fn push_byte_list(out: &mut Vec<u8>, b: &Vec<u8>)
    ensures
        final(out)@ == old(out)@ + byte_list(b@),
{
    let ghost start = out@;
    push_str(out, "[");
    let mut i: usize = 0;
    while i < b.len()
        invariant
            i <= b@.len(),
            out@ == start + lit("[") + byte_items(b@.subrange(0, i as int)),
        decreases b@.len() - i,
    {
        if i > 0 {
            push_str(out, ", ");
        }
        push_decimal(out, b[i] as u64);
        proof {
            let next = b@.subrange(0, i + 1);
            assert(next.drop_last() =~= b@.subrange(0, i as int));
            if i == 0 {
                assert(byte_items(b@.subrange(0, 0)) =~= Seq::<u8>::empty());
            }
            assert(out@ =~= start + lit("[") + byte_items(next));
        }
        i = i + 1;
    }
    assert(b@.subrange(0, b@.len() as int) =~= b@);
    push_str(out, "]");
    assert(final(out)@ =~= old(out)@ + byte_list(b@));
}

/// Renders the seven start-of-authority fields.
fn push_soa(out: &mut Vec<u8>, s: &Soa)
    ensures
        final(out)@ == old(out)@ + soa_text(*s),
{
    push_bytes(out, s.primary_ns.as_slice());
    push_str(out, " ");
    push_bytes(out, s.mailbox.as_slice());
    push_str(out, " ");
    push_decimal(out, s.serial as u64);
    push_str(out, " ");
    push_decimal(out, s.refresh as u64);
    push_str(out, " ");
    push_decimal(out, s.retry as u64);
    push_str(out, " ");
    push_decimal(out, s.expire as u64);
    push_str(out, " ");
    push_decimal(out, s.minimum_ttl as u64);
    assert(final(out)@ =~= old(out)@ + soa_text(*s));
}

/// The text of a record's data.
pub fn render_data(d: &RecordData) -> (r: Vec<u8>)
    ensures
        r@ == data_text(*d),
{
    let mut out: Vec<u8> = Vec::new();
    match d {
        RecordData::A(o) => {
            push_str(&mut out, "A ");
            push_dotted(&mut out, o);
        },
        RecordData::Aaaa(_, t) => {
            push_str(&mut out, "AAAA ");
            push_bytes(&mut out, t.as_slice());
        },
        RecordData::Cname(n) => {
            push_str(&mut out, "CNAME ");
            push_bytes(&mut out, n.as_slice());
        },
        RecordData::Mx(p, n) => {
            push_str(&mut out, "MX ");
            push_decimal(&mut out, *p as u64);
            push_str(&mut out, " ");
            push_bytes(&mut out, n.as_slice());
        },
        RecordData::Ns(n) => {
            push_str(&mut out, "NS ");
            push_bytes(&mut out, n.as_slice());
        },
        RecordData::Ptr(n) => {
            push_str(&mut out, "PTR ");
            push_bytes(&mut out, n.as_slice());
        },
        RecordData::Soa(s) => {
            push_str(&mut out, "SOA ");
            push_soa(&mut out, s);
        },
        RecordData::Srv(p, w, port, t) => {
            push_str(&mut out, "SRV ");
            push_decimal(&mut out, *p as u64);
            push_str(&mut out, " ");
            push_decimal(&mut out, *w as u64);
            push_str(&mut out, " ");
            push_decimal(&mut out, *port as u64);
            push_str(&mut out, " ");
            push_bytes(&mut out, t.as_slice());
        },
        RecordData::Txt(parts) => {
            push_str(&mut out, "TXT ");
            let joined = concat_parts(parts);
            push_bytes(&mut out, joined.as_slice());
        },
        RecordData::Unknown(b) => {
            push_str(&mut out, "Unknown ");
            push_byte_list(&mut out, b);
        },
    }
    assert(out@ =~= data_text(*d));
    out
}

/// The line for one answer record.
pub fn render_answer(a: &Answer) -> (r: Vec<u8>)
    ensures
        r@ == answer_text(*a),
{
    let mut out: Vec<u8> = Vec::new();
    push_str(&mut out, "    ");
    push_bytes(&mut out, a.name.as_slice());
    push_str(&mut out, " ");
    push_decimal(&mut out, a.ttl as u64);
    push_str(&mut out, " ");
    match a.class {
        RecordClass::In => push_str(&mut out, "IN"),
        RecordClass::Cs => push_str(&mut out, "CS"),
        RecordClass::Ch => push_str(&mut out, "CH"),
        RecordClass::Hs => push_str(&mut out, "HS"),
    }
    push_str(&mut out, " ");
    let data = render_data(&a.data);
    push_bytes(&mut out, data.as_slice());
    assert(out@ =~= answer_text(*a));
    out
}

/// Appends a flag's mnemonic where the flag is set.
fn push_flag(out: &mut Vec<u8>, set: bool, word: &str)
    ensures
        final(out)@ == old(out)@ + flag_word(set, word),
{
    if set {
        push_str(out, " ");
        push_str(out, word);
        assert(final(out)@ =~= old(out)@ + flag_word(set, word));
    } else {
        assert(final(out)@ =~= old(out)@ + flag_word(set, word));
    }
}

/// The line that lists the header flags that are set.
pub fn render_flags(h: Header) -> (r: Vec<u8>)
    ensures
        r@ == flags_text(h),
{
    let mut out: Vec<u8> = Vec::new();
    push_str(&mut out, "flags:");
    push_flag(&mut out, h.is_response, "QR");
    push_flag(&mut out, h.authoritative, "AA");
    push_flag(&mut out, h.truncated, "TC");
    push_flag(&mut out, h.recursion_desired, "RD");
    push_flag(&mut out, h.recursion_available, "RA");
    push_flag(&mut out, h.authenticated_data, "AD");
    push_flag(&mut out, h.checking_disabled, "CD");
    assert(out@ =~= flags_text(h));
    out
}

/// Text records: the strings are joined in order with nothing between them,
/// so joining a split list gives the join of its parts.
pub proof fn lemma_txt_concatenation(parts: Seq<Seq<u8>>, more: Seq<Seq<u8>>)
    ensures
        concat_all(parts + more) == concat_all(parts) + concat_all(more),
    decreases more.len(),
{
    if more.len() == 0 {
        assert(parts + more =~= parts);
        assert(concat_all(parts) + concat_all(more) =~= concat_all(parts));
    } else {
        lemma_txt_concatenation(parts, more.drop_last());
        assert((parts + more).drop_last() =~= parts + more.drop_last());
        assert(concat_all(parts) + concat_all(more) =~= concat_all(parts) + concat_all(
            more.drop_last(),
        ) + more.last());
    }
}

/// The text of a record of text strings is the exact concatenation of its
/// strings, in order.
pub proof fn lemma_txt_text(v: Vec<Vec<u8>>)
    ensures
        data_text(RecordData::Txt(v)) == lit("TXT ") + concat_all(v@.map_values(|p: Vec<u8>| p@)),
{
}

/// A start-of-authority record shows exactly its seven fields, in the order
/// primary name server, mailbox, serial, refresh, retry, expire, minimum TTL.
pub proof fn lemma_soa_fields(s: Soa)
    ensures
        data_text(RecordData::Soa(s)) == lit("SOA ") + s.primary_ns@ + lit(" ") + s.mailbox@ + lit(
            " ",
        ) + decimal(s.serial as nat) + lit(" ") + decimal(s.refresh as nat) + lit(" ") + decimal(
            s.retry as nat,
        ) + lit(" ") + decimal(s.expire as nat) + lit(" ") + decimal(s.minimum_ttl as nat),
{
}

/// The verbose listing of a response: the answer count, a line per answer in
/// order, then the flags.
pub open spec fn listing(m: Response) -> Seq<Seq<u8>> {
    seq![count_text(m.answers@.len())] + m.answers@.map_values(|a: Answer| answer_text(a)) + seq![
        flags_text(m.header),
    ]
}

/// Renders the verbose listing of a response.
pub fn render_response(m: &Response) -> (r: Vec<Vec<u8>>)
    ensures
        r@.map_values(|l: Vec<u8>| l@) == listing(*m),
{
    let mut lines: Vec<Vec<u8>> = Vec::new();
    let mut head: Vec<u8> = Vec::new();
    push_str(&mut head, "got ");
    push_decimal(&mut head, m.answers.len() as u64);
    push_str(&mut head, " answers:");
    assert(head@ =~= count_text(m.answers@.len()));
    lines.push(head);
    let mut i: usize = 0;
    while i < m.answers.len()
        invariant
            i <= m.answers@.len(),
            lines@.map_values(|l: Vec<u8>| l@) =~= seq![count_text(m.answers@.len())]
                + m.answers@.subrange(0, i as int).map_values(|a: Answer| answer_text(a)),
        decreases m.answers@.len() - i,
    {
        let line = render_answer(&m.answers[i]);
        let ghost prev = lines@;
        lines.push(line);
        proof {
            assert(lines@.map_values(|l: Vec<u8>| l@) =~= prev.map_values(|l: Vec<u8>| l@).push(
                line@,
            ));
            assert(m.answers@.subrange(0, i + 1).map_values(|a: Answer| answer_text(a))
                =~= m.answers@.subrange(0, i as int).map_values(|a: Answer| answer_text(a)).push(
                answer_text(m.answers@[i as int]),
            ));
        }
        i = i + 1;
    }
    lines.push(render_flags(m.header));
    assert(m.answers@.subrange(0, m.answers@.len() as int) =~= m.answers@);
    assert(lines@.map_values(|l: Vec<u8>| l@) =~= listing(*m));
    lines
}

} // verus!
