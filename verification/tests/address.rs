use federog::account::Account;
use federog::address::{
    actor_uri_text, checked_origin, handle_host, parse_iri, public_actor_id, public_handle_host,
    public_origin, validated_http_iri, web_address, web_address_text, AddressError, OriginError,
    WebUrl, DEFAULT_PUBLIC_ORIGIN,
};

fn alice() -> Account {
    Account {
        username: "alice".to_string(),
        name: None,
        handle: "@alice@blog.example".to_string(),
    }
}

fn url(scheme: &str, host: Option<&str>) -> WebUrl {
    WebUrl {
        text: "the text".to_string(),
        scheme: scheme.to_string(),
        username: String::new(),
        has_password: false,
        host: host.map(str::to_string),
        port: None,
        path: "/".to_string(),
        has_query: false,
        has_fragment: false,
    }
}

#[test]
fn the_default_origin_is_used_where_none_is_configured() {
    assert_eq!(DEFAULT_PUBLIC_ORIGIN, "https://fedora.tuatara-lenok.ts.net");
    let origin = public_origin(None).unwrap();
    assert_eq!(origin.text, "https://fedora.tuatara-lenok.ts.net/");
    assert_eq!(origin.scheme, "https");
    assert_eq!(origin.host.as_deref(), Some("fedora.tuatara-lenok.ts.net"));
    assert_eq!(origin.port, None);
    assert_eq!(origin.path, "/");
}

#[test]
fn origins_have_nothing_but_a_host_and_a_port() {
    assert_eq!(
        public_origin(Some("HTTP://Blog.Example:8080")).unwrap().text,
        "http://blog.example:8080/"
    );
    for value in [
        "ftp://blog.example/",
        "https://alice@blog.example/",
        "https://alice:pw@blog.example/",
        "https://:pw@blog.example/",
        "https://blog.example/path",
        "https://blog.example/?q",
        "https://blog.example/#f",
        "data:text/plain,hello",
    ] {
        assert_eq!(public_origin(Some(value)).err(), Some(OriginError::NotAnOrigin), "{value}");
    }
    for value in ["", "blog.example", "https://", "http://[::1"] {
        assert_eq!(public_origin(Some(value)).err(), Some(OriginError::Unparsable), "{value}");
    }
}

#[test]
fn parsed_urls_are_checked_part_by_part() {
    assert!(web_address(&url("http", Some("h"))));
    assert!(web_address(&url("https", Some("h"))));
    assert!(!web_address(&url("httpx", Some("h"))));
    assert!(!web_address(&url("https", None)));
    let mut named = url("https", Some("h"));
    named.username = "u".to_string();
    assert!(!web_address(&named));
    let mut keyed = url("https", Some("h"));
    keyed.has_password = true;
    assert!(!web_address(&keyed));
    assert_eq!(web_address_text(&keyed), None);
    assert_eq!(web_address_text(&url("https", Some("h"))).as_deref(), Some("the text"));

    assert!(checked_origin(url("https", Some("h"))).is_ok());
    let mut bare = url("https", Some("h"));
    bare.path = String::new();
    assert!(checked_origin(bare).is_ok());
    let mut deep = url("https", Some("h"));
    deep.path = "/a".to_string();
    assert_eq!(checked_origin(deep).err(), Some(OriginError::NotAnOrigin));
    let mut asking = url("https", Some("h"));
    asking.has_query = true;
    assert_eq!(checked_origin(asking).err(), Some(OriginError::NotAnOrigin));
    let mut pointing = url("https", Some("h"));
    pointing.has_fragment = true;
    assert_eq!(checked_origin(pointing).err(), Some(OriginError::NotAnOrigin));
}

#[test]
fn handle_hosts_keep_unusual_ports() {
    assert_eq!(public_handle_host(None).unwrap(), "fedora.tuatara-lenok.ts.net");
    assert_eq!(public_handle_host(Some("https://blog.example:443")).unwrap(), "blog.example");
    assert_eq!(public_handle_host(Some("http://blog.example:8080")).unwrap(), "blog.example:8080");
    assert_eq!(public_handle_host(Some("http://[::1]:3000")).unwrap(), "[::1]:3000");
    assert_eq!(public_handle_host(Some("x")).err(), Some(OriginError::Unparsable));
    assert_eq!(handle_host(&url("https", None)), None);
    let mut with_port = url("https", Some("h"));
    with_port.port = Some(0);
    assert_eq!(handle_host(&with_port).as_deref(), Some("h:0"));
    with_port.port = Some(65535);
    assert_eq!(handle_host(&with_port).as_deref(), Some("h:65535"));
}

#[test]
fn actor_ids_stand_under_the_public_origin() {
    assert_eq!(
        public_actor_id(&alice(), None).unwrap().as_str(),
        "https://fedora.tuatara-lenok.ts.net/users/alice"
    );
    assert_eq!(
        public_actor_id(&alice(), Some("http://blog.example:8080/")).unwrap().as_str(),
        "http://blog.example:8080/users/alice"
    );
    assert_eq!(actor_uri_text("https://a.example//", "bob"), "https://a.example/users/bob");
    assert_ne!(actor_uri_text("https://a.example", "bob"), actor_uri_text("https://a.example", "al"));
}

#[test]
fn actor_ids_need_an_origin_and_an_iri() {
    assert!(matches!(
        public_actor_id(&alice(), Some("nowhere")),
        Err(AddressError::Origin(OriginError::Unparsable))
    ));
    let mut spaced = alice();
    spaced.username = "al ice".to_string();
    match public_actor_id(&spaced, None) {
        Err(AddressError::InvalidIri(text)) => {
            assert_eq!(text, "https://fedora.tuatara-lenok.ts.net/users/al ice")
        }
        other => panic!("{other:?}"),
    }
}

#[test]
fn iris_keep_their_text() {
    let iri = parse_iri("https://a.example/users/bob#main-key").unwrap();
    assert_eq!(iri.as_str(), "https://a.example/users/bob#main-key");
    assert_eq!(iri.to_text(), "https://a.example/users/bob#main-key");
    assert!(iri.same(&iri.duplicate()));
    assert!(!iri.same(&parse_iri("https://a.example/users/bob").unwrap()));
    for value in ["", "users/bob", "https://a.example/a b", "//a.example/"] {
        assert!(matches!(parse_iri(value), Err(AddressError::InvalidIri(text)) if text == value));
    }
}

#[test]
fn web_iris_are_put_in_normal_form() {
    let valid = |text: &str| validated_http_iri(&parse_iri(text).unwrap());
    assert_eq!(valid("https://A.example").as_deref(), Some("https://a.example/"));
    assert_eq!(valid("http://a.example:80/x").as_deref(), Some("http://a.example/x"));
    assert_eq!(valid("urn:example:note"), None);
    assert_eq!(valid("ftp://a.example/x"), None);
    assert_eq!(valid("https://u@a.example/x"), None);
    assert_eq!(valid("https://u:p@a.example/x"), None);
}

#[test]
fn the_normal_form_of_an_address_is_kept() {
    for text in ["https://A.example", "http://a.example:80/x/../y?q='#f", "https://\u{e9}.example/"] {
        let normal = validated_http_iri(&parse_iri(text).unwrap()).unwrap();
        let again = validated_http_iri(&parse_iri(&normal).unwrap());
        assert_eq!(again.as_deref(), Some(normal.as_str()), "{text}");
    }
}
