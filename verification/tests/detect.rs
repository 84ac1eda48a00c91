//! Protocol detection: classification, SNI extraction, losslessness and
//! idempotence on concrete byte streams.

use proxy_core::client_hello::{parse_sni, SniParse};
use proxy_core::detect::{
    classify_http, Classify, HttpDetector, HttpStep, HttpVersion, SniDetector, SniStep,
    DETECT_BUFFER_CAPACITY,
};
use proxy_core::errors::ErrorKind;
use proxy_core::tls::detect_verdict;

fn h2_preface_bytes() -> Vec<u8> {
    b"PRI * HTTP/2.0\r\n\r\nSM\r\n\r\n".to_vec()
}

/// A minimal ClientHello carrying the given server name, in the layout
/// the parser reads: record header, handshake header, fixed fields, empty
/// session id, one cipher suite, null compression, and a server-name
/// extension.
fn client_hello_with_sni(name: &[u8]) -> Vec<u8> {
    let mut ext: Vec<u8> = Vec::new();
    // extension type 0 (server name)
    ext.extend_from_slice(&[0, 0]);
    let sni_body_len = 2 + 1 + 2 + name.len();
    ext.extend_from_slice(&(sni_body_len as u16).to_be_bytes());
    // server-name list: length, entry type 0, name length, name
    ext.extend_from_slice(&((3 + name.len()) as u16).to_be_bytes());
    ext.push(0);
    ext.extend_from_slice(&(name.len() as u16).to_be_bytes());
    ext.extend_from_slice(name);

    let mut body: Vec<u8> = Vec::new();
    body.extend_from_slice(&[3, 3]); // legacy version
    body.extend_from_slice(&[0u8; 32]); // random
    body.push(0); // session id length
    body.extend_from_slice(&[0, 2, 0x13, 0x01]); // one cipher suite
    body.extend_from_slice(&[1, 0]); // null compression
    body.extend_from_slice(&(ext.len() as u16).to_be_bytes());
    body.extend_from_slice(&ext);

    let mut hs: Vec<u8> = Vec::new();
    hs.push(1); // ClientHello
    let blen = body.len() as u32;
    hs.extend_from_slice(&blen.to_be_bytes()[1..4]);
    hs.extend_from_slice(&body);

    let mut rec: Vec<u8> = Vec::new();
    rec.push(22); // handshake record
    rec.extend_from_slice(&[3, 1]);
    rec.extend_from_slice(&(hs.len() as u16).to_be_bytes());
    rec.extend_from_slice(&hs);
    rec
}

#[test]
fn classify_http1_request_line() {
    let c = classify_http(&b"GET / HTTP/1.1\r\nHost: app\r\n\r\n".to_vec());
    assert_eq!(c, Classify::Matched(HttpVersion::Http1));
}

#[test]
fn classify_http10_request_line() {
    let c = classify_http(&b"POST /x HTTP/1.0\r\n".to_vec());
    assert_eq!(c, Classify::Matched(HttpVersion::Http1));
}

#[test]
fn classify_h2_preface() {
    let c = classify_http(&h2_preface_bytes());
    assert_eq!(c, Classify::Matched(HttpVersion::H2));
}

#[test]
fn classify_partial_preface_needs_more() {
    let c = classify_http(&b"PRI * HT".to_vec());
    assert_eq!(c, Classify::NeedMore);
}

#[test]
fn classify_empty_needs_more() {
    let c = classify_http(&Vec::new());
    assert_eq!(c, Classify::NeedMore);
}

#[test]
fn classify_garbage_is_not_http() {
    let c = classify_http(&b"\x16\x03\x01 nonsense\r\n".to_vec());
    assert_eq!(c, Classify::NotHttp);
}

#[test]
fn classify_rejects_lowercase_method() {
    let c = classify_http(&b"get / HTTP/1.1\r\n".to_vec());
    assert_eq!(c, Classify::NotHttp);
}

#[test]
fn sni_found_in_client_hello() {
    let hello = client_hello_with_sni(b"foo.ns1.svc.example.com");
    match parse_sni(&hello) {
        SniParse::Found(v) => assert_eq!(v, b"foo.ns1.svc.example.com".to_vec()),
        other => panic!("expected a server name, got {:?}", other),
    }
}

#[test]
fn sni_incomplete_hello_needs_more() {
    let hello = client_hello_with_sni(b"app.example.com");
    let cut = hello[..hello.len() - 4].to_vec();
    assert_eq!(parse_sni(&cut), SniParse::NeedMore);
}

#[test]
fn sni_rejects_non_tls_bytes() {
    assert_eq!(parse_sni(&b"GET / HTTP/1.1\r\n".to_vec()), SniParse::NoSni);
}

#[test]
fn sni_detector_is_lossless() {
    // The detector's buffer after any reads equals the reads in order:
    // the stream replayed downstream is the original one.
    let hello = client_hello_with_sni(b"app.example.com");
    let (a, b) = hello.split_at(10);
    let mut det = SniDetector::new(DETECT_BUFFER_CAPACITY);
    let step = det.advance(&a.to_vec());
    assert_eq!(step, SniStep::NeedRead);
    let step = det.advance(&b.to_vec());
    assert_eq!(step, SniStep::Deliver(Some(b"app.example.com".to_vec())));
    assert_eq!(det.buf, hello);
}

#[test]
fn sni_detector_gives_up_at_end_of_stream() {
    let mut det = SniDetector::new(DETECT_BUFFER_CAPACITY);
    let step = det.advance(&b"\x16\x03".to_vec());
    assert_eq!(step, SniStep::NeedRead);
    let step = det.advance(&Vec::new());
    assert_eq!(step, SniStep::Deliver(None));
}

#[test]
fn sni_detector_gives_up_at_capacity() {
    // A partial TLS fragment exceeding the buffer is rejected rather than
    // speculatively treated as TLS.
    let mut det = SniDetector::new(4);
    let step = det.advance(&b"\x16\x03\x01\xff\xff".to_vec());
    assert_eq!(step, SniStep::Deliver(None));
}

#[test]
fn http_detector_classifies_across_reads() {
    let mut det = HttpDetector::new(DETECT_BUFFER_CAPACITY);
    assert_eq!(det.advance(&b"GET / HT".to_vec()), HttpStep::NeedRead);
    assert_eq!(
        det.advance(&b"TP/1.1\r\n".to_vec()),
        HttpStep::Deliver(Some(HttpVersion::Http1))
    );
    assert_eq!(det.buf, b"GET / HTTP/1.1\r\n".to_vec());
}

#[test]
fn detection_is_idempotent_on_same_prefix() {
    let prefix = b"GET / HTTP/1.1\r\n".to_vec();
    assert_eq!(classify_http(&prefix), classify_http(&prefix.clone()));
    let hello = client_hello_with_sni(b"app.example.com");
    assert_eq!(parse_sni(&hello), parse_sni(&hello.clone()));
}

#[test]
fn detect_timeout_fails_the_connection() {
    // A peer that sends nothing within the detection window ends with the
    // detection error, whatever the detector still wanted.
    let r = detect_verdict(SniStep::NeedRead, true);
    assert_eq!(r, Err(ErrorKind::DetectFailed));
    let r = detect_verdict(SniStep::NeedRead, false);
    assert_eq!(r, Ok(SniStep::NeedRead));
}
