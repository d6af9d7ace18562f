//! Sanitization of derived guest-visible headers: invalid pairs are
//! dropped, never fatal; valid pairs parse in order.

use trigger_http::headers::sanitize_headers;

fn pair(name: &str, value: &[u8]) -> (Vec<u8>, Vec<u8>) {
    (name.as_bytes().to_vec(), value.to_vec())
}

#[test]
fn valid_headers_survive_in_order() {
    let derived = vec![
        pair("spin-full-url", b"http://example.com/a"),
        pair("spin-path-info", b"/a"),
    ];
    let out = sanitize_headers(&derived);
    assert_eq!(out.len(), 2);
    assert_eq!(out[0].0.as_str(), "spin-full-url");
    assert_eq!(out[0].1.as_bytes(), b"http://example.com/a");
    assert_eq!(out[1].0.as_str(), "spin-path-info");
}

#[test]
fn names_are_normalized_to_lowercase() {
    let derived = vec![pair("X-Forwarded-For", b"203.0.113.7")];
    let out = sanitize_headers(&derived);
    assert_eq!(out.len(), 1);
    assert_eq!(out[0].0.as_str(), "x-forwarded-for");
    assert_eq!(out[0].1.as_bytes(), b"203.0.113.7");
}

#[test]
fn control_character_value_is_dropped_without_failing() {
    let derived = vec![
        pair("x-ok", b"fine"),
        pair("x-bad", b"bell\x07"),
        pair("x-also-ok", b"still fine"),
    ];
    let out = sanitize_headers(&derived);
    assert_eq!(out.len(), 2);
    assert_eq!(out[0].0.as_str(), "x-ok");
    assert_eq!(out[1].0.as_str(), "x-also-ok");
}

#[test]
fn non_ascii_name_is_dropped_without_failing() {
    let mut bad_name = b"x-caf".to_vec();
    bad_name.extend_from_slice("é".as_bytes());
    let derived = vec![(bad_name, b"v".to_vec()), pair("x-kept", b"v")];
    let out = sanitize_headers(&derived);
    assert_eq!(out.len(), 1);
    assert_eq!(out[0].0.as_str(), "x-kept");
}

#[test]
fn name_with_space_or_empty_name_is_dropped() {
    let derived = vec![pair("bad name", b"v"), pair("", b"v"), pair("good-name", b"v")];
    let out = sanitize_headers(&derived);
    assert_eq!(out.len(), 1);
    assert_eq!(out[0].0.as_str(), "good-name");
}

#[test]
fn tab_is_a_legal_value_byte() {
    let derived = vec![pair("x-tabbed", b"a\tb")];
    let out = sanitize_headers(&derived);
    assert_eq!(out.len(), 1);
    assert_eq!(out[0].1.as_bytes(), b"a\tb");
}
