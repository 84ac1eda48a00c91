//! The headers the core consumes.

use proxy_core::headers::{
    dst_override_header_name, find_header, require_id_header_name, strip_header,
};

fn header(name: &[u8], value: &[u8]) -> (Vec<u8>, Vec<u8>) {
    (name.to_vec(), value.to_vec())
}

#[test]
fn dst_override_is_stripped_after_keying() {
    let mut headers = vec![
        header(b"host", b"app"),
        header(b"l5d-dst-override", b"svc.ns:8080"),
        header(b"accept", b"*/*"),
        header(b"l5d-dst-override", b"other:1"),
    ];
    let name = dst_override_header_name();
    // The override keys the outbound target first ...
    let i = find_header(&headers, &name).expect("present");
    assert_eq!(headers[i].1, b"svc.ns:8080".to_vec());
    // ... and is then removed so it never leaks upstream.
    strip_header(&mut headers, &name);
    assert_eq!(
        headers,
        vec![header(b"host", b"app"), header(b"accept", b"*/*")]
    );
    assert!(find_header(&headers, &name).is_none());
}

#[test]
fn require_id_is_read_in_order() {
    let headers = vec![
        header(b"l5d-require-id", b"a.id"),
        header(b"l5d-require-id", b"b.id"),
    ];
    let i = find_header(&headers, &require_id_header_name()).expect("present");
    assert_eq!(i, 0);
    assert_eq!(headers[i].1, b"a.id".to_vec());
}

#[test]
fn stripping_a_missing_header_changes_nothing() {
    let mut headers = vec![header(b"host", b"app")];
    strip_header(&mut headers, &dst_override_header_name());
    assert_eq!(headers, vec![header(b"host", b"app")]);
}
