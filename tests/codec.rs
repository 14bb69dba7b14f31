use dnsping::query::{build_query, name_fits, parse_qtype, record_type_code, QueryError, RecordType};
use dnsping::render::{render_answer, render_data, render_flags, render_response};
use dnsping::response::{decode_response, DecodeError, Header, RecordData, Soa};

fn question(name: &[&str], code: u16) -> Vec<u8> {
    let mut out = Vec::new();
    for label in name {
        out.push(label.len() as u8);
        out.extend_from_slice(label.as_bytes());
    }
    out.push(0);
    out.extend_from_slice(&code.to_be_bytes());
    out.extend_from_slice(&[0, 1]);
    out
}

fn answer(code: u16, ttl: u32, rdata: &[u8]) -> Vec<u8> {
    let mut out = vec![0xC0, 0x0C];
    out.extend_from_slice(&code.to_be_bytes());
    out.extend_from_slice(&[0, 1]);
    out.extend_from_slice(&ttl.to_be_bytes());
    out.extend_from_slice(&(rdata.len() as u16).to_be_bytes());
    out.extend_from_slice(rdata);
    out
}

fn response(code: u16, rcode: u8, answers: &[Vec<u8>]) -> Vec<u8> {
    let mut out = vec![0x00, 0x01, 0x81, 0x80 | rcode, 0x00, 0x01, 0x00, answers.len() as u8, 0, 0, 0, 0];
    out.extend(question(&["example", "com"], code));
    for a in answers {
        out.extend_from_slice(a);
    }
    out
}

fn text(b: &[u8]) -> String {
    String::from_utf8(b.to_vec()).unwrap()
}

#[test]
fn query_bytes_for_a_record() {
    let q = build_query("example.com", RecordType::A, 1573).unwrap();
    let expected = b"\x06%\x01\x00\x00\x01\x00\x00\x00\x00\x00\x00\x07example\x03com\x00\x00\x01\x00\x01";
    assert_eq!(&q[..], &expected[..]);
}

#[test]
fn query_bytes_for_srv_record() {
    let q = build_query("_xmpp-server._tcp.gmail.com", RecordType::Srv, 23513).unwrap();
    let expected = b"[\xd9\x01\x00\x00\x01\x00\x00\x00\x00\x00\x00\x0c_xmpp-server\x04_tcp\x05gmail\x03com\x00\x00!\x00\x01";
    assert_eq!(&q[..], &expected[..]);
}

#[test]
fn query_with_overlong_label_is_refused() {
    let long = "a".repeat(63);
    let name = format!("{}.com", long);
    assert!(!name_fits(&name));
    assert_eq!(build_query(&name, RecordType::A, 1).unwrap_err(), QueryError::LabelTooLong);
    let fits = format!("{}.com", "a".repeat(62));
    assert!(name_fits(&fits));
    assert!(build_query(&fits, RecordType::A, 1).is_ok());
}

#[test]
fn overlong_query_is_still_sent_truncated() {
    let label = "b".repeat(60);
    let name = vec![label.as_str(); 9].join(".");
    let q = build_query(&name, RecordType::A, 7).unwrap();
    assert!(q.len() > 512);
    assert_eq!(q[2], 0);
    assert_eq!(&q[q.len() - 4..], &[0, 1, 0, 1]);
}

#[test]
fn record_type_names_and_codes() {
    assert_eq!(parse_qtype("AAAA"), Some(RecordType::Aaaa));
    assert_eq!(parse_qtype("SOA"), Some(RecordType::Soa));
    assert_eq!(parse_qtype("All"), Some(RecordType::Any));
    assert_eq!(parse_qtype("ANY"), Some(RecordType::Any));
    assert_eq!(parse_qtype("aaaa"), None);
    assert_eq!(parse_qtype(""), None);
    assert_eq!(record_type_code(RecordType::Mx), 15);
    assert_eq!(record_type_code(RecordType::Aaaa), 28);
    assert_eq!(record_type_code(RecordType::Any), 255);
}

#[test]
fn echoed_a_answer_decodes_as_address() {
    let q = build_query("example.com", RecordType::A, 1).unwrap();
    let mut reply = q.clone();
    reply[2] = 0x81;
    reply[3] = 0x80;
    reply[7] = 1;
    reply.extend(answer(1, 300, &[93, 184, 216, 34]));
    let m = decode_response(&reply).unwrap();
    assert!(m.header.is_response);
    assert!(m.header.recursion_desired);
    assert!(m.header.recursion_available);
    assert_eq!(m.header.response_code, 0);
    assert_eq!(m.answers.len(), 1);
    assert!(matches!(m.answers[0].data, RecordData::A([93, 184, 216, 34])));
    assert_eq!(text(&render_answer(&m.answers[0])), "    example.com 300 IN A 93.184.216.34");
}

#[test]
fn echoed_aaaa_answer_decodes_with_its_text() {
    let mut addr = [0u8; 16];
    addr[0] = 0x20;
    addr[1] = 0x01;
    addr[2] = 0x0d;
    addr[3] = 0xb8;
    addr[15] = 1;
    let m = decode_response(&response(28, 0, &[answer(28, 60, &addr)])).unwrap();
    match &m.answers[0].data {
        RecordData::Aaaa(o, t) => {
            assert_eq!(o, &addr);
            assert_eq!(text(t), "2001:db8::1");
        }
        other => panic!("unexpected {:?}", other),
    }
    assert_eq!(text(&render_data(&m.answers[0].data)), "AAAA 2001:db8::1");
}

#[test]
fn txt_strings_are_joined_without_separator() {
    let rdata = [3, b'a', b'b', b'c', 2, b'd', b'e', 1, b'f'];
    let m = decode_response(&response(16, 0, &[answer(16, 5, &rdata)])).unwrap();
    match &m.answers[0].data {
        RecordData::Txt(parts) => assert_eq!(parts.len(), 3),
        other => panic!("unexpected {:?}", other),
    }
    assert_eq!(text(&render_data(&m.answers[0].data)), "TXT abcdef");
}

#[test]
fn soa_shows_seven_fields_in_order() {
    let mut rdata = vec![0xC0, 0x0C, 0xC0, 0x0C];
    for v in [2024u32, 7200, 900, 1209600, 300] {
        rdata.extend_from_slice(&v.to_be_bytes());
    }
    let m = decode_response(&response(6, 0, &[answer(6, 10, &rdata)])).unwrap();
    match &m.answers[0].data {
        RecordData::Soa(s) => {
            assert_eq!(text(&s.primary_ns), "example.com");
            assert_eq!(s.serial, 2024);
            assert_eq!(s.minimum_ttl, 300);
        }
        other => panic!("unexpected {:?}", other),
    }
    assert_eq!(
        text(&render_data(&m.answers[0].data)),
        "SOA example.com example.com 2024 7200 900 1209600 300"
    );
}

#[test]
fn mx_and_cname_decode_with_names() {
    let mx = answer(15, 10, &[0, 10, 0xC0, 0x0C]);
    let cname = answer(5, 10, &[0xC0, 0x0C]);
    let m = decode_response(&response(15, 0, &[mx, cname])).unwrap();
    assert_eq!(text(&render_data(&m.answers[0].data)), "MX 10 example.com");
    assert_eq!(text(&render_data(&m.answers[1].data)), "CNAME example.com");
}

#[test]
fn srv_ns_ptr_render() {
    let srv = RecordData::Srv(5, 0, 5269, b"xmpp.example.com".to_vec());
    assert_eq!(text(&render_data(&srv)), "SRV 5 0 5269 xmpp.example.com");
    assert_eq!(text(&render_data(&RecordData::Ns(b"ns1.example.com".to_vec()))), "NS ns1.example.com");
    assert_eq!(text(&render_data(&RecordData::Ptr(b"host.example".to_vec()))), "PTR host.example");
    let soa = RecordData::Soa(Soa {
        primary_ns: b"a.".to_vec(),
        mailbox: b"b.".to_vec(),
        serial: 1,
        refresh: 2,
        retry: 3,
        expire: 4,
        minimum_ttl: 5,
    });
    assert_eq!(text(&render_data(&soa)), "SOA a. b. 1 2 3 4 5");
}

#[test]
fn undecoded_type_shows_raw_bytes() {
    let m = decode_response(&response(13, 0, &[answer(13, 1, &[1, 2, 255])])).unwrap();
    assert_eq!(text(&render_data(&m.answers[0].data)), "Unknown [1, 2, 255]");
    assert_eq!(text(&render_data(&RecordData::Unknown(vec![]))), "Unknown []");
}

#[test]
fn unknown_type_code_is_unsupported() {
    let r = decode_response(&response(1, 0, &[answer(99, 1, &[1])]));
    assert!(matches!(r, Err(DecodeError::UnsupportedType)));
}

#[test]
fn short_or_broken_buffers_are_malformed() {
    assert!(matches!(decode_response(&[0, 1, 0x81]), Err(DecodeError::Malformed(_))));
    let mut bad = response(1, 0, &[answer(1, 1, &[1, 2, 3, 4])]);
    bad.truncate(bad.len() - 2);
    assert!(matches!(decode_response(&bad), Err(DecodeError::Malformed(_))));
    let mut reserved = response(1, 0, &[]);
    reserved[3] |= 0x40;
    assert!(matches!(decode_response(&reserved), Err(DecodeError::Malformed(_))));
}

#[test]
fn flags_line_lists_set_flags_in_order() {
    let h = Header {
        is_response: true,
        authoritative: true,
        truncated: false,
        recursion_desired: true,
        recursion_available: true,
        authenticated_data: false,
        checking_disabled: true,
        response_code: 0,
    };
    assert_eq!(text(&render_flags(h)), "flags: QR AA RD RA CD");
    let none = Header { is_response: false, authoritative: false, recursion_desired: false, recursion_available: false, checking_disabled: false, ..h };
    assert_eq!(text(&render_flags(none)), "flags:");
}

#[test]
fn listing_counts_answers_then_flags() {
    let m = decode_response(&response(1, 3, &[answer(1, 7, &[10, 0, 0, 1])])).unwrap();
    let lines: Vec<String> = render_response(&m).iter().map(|l| text(l)).collect();
    assert_eq!(
        lines,
        vec![
            "got 1 answers:".to_string(),
            "    example.com 7 IN A 10.0.0.1".to_string(),
            "flags: QR RD RA".to_string(),
        ]
    );
}

#[test]
fn query_for_any_and_txt_types() {
    let any = build_query("example.com", RecordType::Any, 2).unwrap();
    assert_eq!(&any[..2], &[0, 2]);
    assert_eq!(&any[any.len() - 4..], &[0, 255, 0, 1]);
    let txt = build_query("a.", RecordType::Txt, 513).unwrap();
    assert_eq!(txt, vec![2, 1, 1, 0, 0, 1, 0, 0, 0, 0, 0, 0, 1, b'a', 0, 0, 0, 16, 0, 1]);
}

#[test]
fn malformed_reply_carries_parser_cause() {
    match decode_response(&[0, 1, 0x81]) {
        Err(DecodeError::Malformed(c)) => assert_eq!(text(&c), "HeaderTooShort"),
        other => panic!("unexpected {:?}", other),
    }
    let mut bad = response(1, 0, &[answer(1, 1, &[1, 2, 3, 4])]);
    bad.truncate(bad.len() - 2);
    match decode_response(&bad) {
        Err(DecodeError::Malformed(c)) => assert_eq!(text(&c), "UnexpectedEOF"),
        other => panic!("unexpected {:?}", other),
    }
}

#[test]
fn decoded_answers_match_header_count() {
    let two = response(1, 0, &[answer(1, 1, &[1, 2, 3, 4]), answer(1, 2, &[5, 6, 7, 8])]);
    assert_eq!(two[7], 2);
    assert_eq!(decode_response(&two).unwrap().answers.len(), 2);
    assert_eq!(decode_response(&response(1, 0, &[])).unwrap().answers.len(), 0);
}
