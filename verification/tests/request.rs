use axum::http::{HeaderMap, HeaderValue};
use federog::request::{
    accepts_json, header_text, named_host, named_scheme, request_host, request_origin,
    wants_activity_json, ADMIN_BIND, PUBLIC_BIND,
};

fn headers(pairs: &[(&'static str, &'static str)]) -> HeaderMap {
    let mut headers = HeaderMap::new();
    for (name, value) in pairs {
        headers.append(*name, HeaderValue::from_static(value));
    }
    headers
}

#[test]
fn the_admin_listener_is_on_the_loopback() {
    assert_eq!(PUBLIC_BIND, "0.0.0.0:3000");
    assert_eq!(ADMIN_BIND, "127.0.0.1:3001");
}

#[test]
fn hosts_come_from_the_request() {
    assert_eq!(request_host(&headers(&[("host", "blog.example")])), "blog.example");
    assert_eq!(request_host(&headers(&[])), "0.0.0.0:3000");
    assert_eq!(request_host(&headers(&[("host", "")])), "0.0.0.0:3000");
}

#[test]
fn a_proxy_names_the_host() {
    assert_eq!(
        request_host(&headers(&[("host", "inner"), ("x-forwarded-host", " outer.example , two")])),
        "outer.example"
    );
    assert_eq!(
        request_host(&headers(&[("host", "inner"), ("x-forwarded-host", ",two")])),
        "0.0.0.0:3000"
    );
    assert_eq!(
        request_host(&headers(&[("x-forwarded-host", "first"), ("x-forwarded-host", "second")])),
        "first"
    );
}

#[test]
fn a_host_that_is_no_text_does_not_count() {
    let mut unreadable = headers(&[("host", "inner")]);
    unreadable.insert("x-forwarded-host", HeaderValue::from_bytes(b"\xffouter").unwrap());
    assert_eq!(request_host(&unreadable), "0.0.0.0:3000");
}

#[test]
fn origins_have_a_web_scheme() {
    let host = ("host", "blog.example");
    assert_eq!(request_origin(&headers(&[host])), "http://blog.example");
    assert_eq!(
        request_origin(&headers(&[host, ("x-forwarded-proto", "https")])),
        "https://blog.example"
    );
    assert_eq!(
        request_origin(&headers(&[host, ("x-forwarded-proto", " https ,http")])),
        "https://blog.example"
    );
    assert_eq!(
        request_origin(&headers(&[host, ("x-forwarded-proto", "gopher")])),
        "http://blog.example"
    );
    assert_eq!(
        request_origin(&headers(&[host, ("x-forwarded-proto", "HTTPS")])),
        "http://blog.example"
    );
}

#[test]
fn json_is_asked_for_by_name() {
    for accept in [
        "application/activity+json",
        "application/ld+json; profile=\"x\"",
        "text/html, application/json;q=0.5",
    ] {
        assert!(accepts_json(accept), "{accept}");
        assert!(wants_activity_json(&headers(&[("accept", accept)])), "{accept}");
    }
    for accept in ["text/html", "", "application/jso", "Application/JSON", "*/*"] {
        assert!(!accepts_json(accept), "{accept}");
        assert!(!wants_activity_json(&headers(&[("accept", accept)])), "{accept}");
    }
    assert!(!wants_activity_json(&headers(&[])));
    assert!(!wants_activity_json(&headers(&[
        ("accept", "text/html"),
        ("accept", "application/json"),
    ])));
}

#[test]
fn header_bytes_are_visible_characters() {
    assert_eq!(header_text(&b"a b\t~".to_vec()).as_deref(), Some("a b\t~"));
    assert_eq!(header_text(&Vec::new()).as_deref(), Some(""));
    for byte in [0u8, 8, 10, 31, 127, 128, 255] {
        assert_eq!(header_text(&vec![b'a', byte]), None, "{byte}");
    }
}

#[test]
fn named_parts_fall_back() {
    assert_eq!(named_host(None), "0.0.0.0:3000");
    assert_eq!(named_host(Some(" a , b ".to_string())), "a");
    assert_eq!(named_scheme(None), "http");
    assert_eq!(named_scheme(Some("https".to_string())), "https");
    assert_eq!(named_scheme(Some("ws".to_string())), "http");
}
