use ping_echo::config::{listen_port, PortError, DEFAULT_PORT};
use ping_echo::headers::{flatten_headers, header_text, Header};
use ping_echo::page::{index_handler, INDEX_PAGE};
use ping_echo::reply::{handler_404, ping_handler, respond, Reply};
use ping_echo::routing::{check_method, classify, Method, Route};

const ALL_METHODS: [Method; 10] = [
    Method::Get,
    Method::Post,
    Method::Put,
    Method::Delete,
    Method::Patch,
    Method::Head,
    Method::Options,
    Method::Connect,
    Method::Trace,
    Method::Extension,
];

fn header(name: &str, value: &[u8]) -> Header {
    Header { name: name.to_string(), value: value.to_vec() }
}

fn browser_headers() -> Vec<Header> {
    vec![
        header("host", b"localhost:3000"),
        header("user-agent", b"curl/8.5.0"),
        header("accept", b"*/*"),
        header("x-test", b"abc"),
    ]
}

fn echoed(r: &Reply) -> Vec<(String, String)> {
    match r {
        Reply::Echo(v) => {
            let mut v = v.clone();
            v.sort();
            v
        }
        _ => panic!("expected a header echo, got {:?}", r),
    }
}

fn pair(k: &str, v: &str) -> (String, String) {
    (k.to_string(), v.to_string())
}

#[test]
fn get_ping_echoes_custom_header() {
    let r = respond(&"/ping".to_string(), Method::Get, &browser_headers());
    assert_eq!(r.status(), 200);
    assert_eq!(r.content_type(), Some("application/json"));
    let v = echoed(&r);
    assert!(v.contains(&pair("x-test", "abc")));
    assert_eq!(
        v,
        vec![
            pair("accept", "*/*"),
            pair("host", "localhost:3000"),
            pair("user-agent", "curl/8.5.0"),
            pair("x-test", "abc"),
        ]
    );
}

#[test]
fn post_ping_is_not_found() {
    let r = respond(&"/ping".to_string(), Method::Post, &browser_headers());
    assert_eq!(r.status(), 404);
    assert!(matches!(r, Reply::NotFound));
    assert_eq!(r.content_type(), None);
}

#[test]
fn get_unknown_path_is_not_found() {
    let r = respond(&"/nope".to_string(), Method::Get, &browser_headers());
    assert_eq!(r.status(), 404);
    assert!(matches!(r, Reply::NotFound));
}

#[test]
fn get_root_serves_diagnostic_page() {
    let r = respond(&"/".to_string(), Method::Get, &browser_headers());
    assert_eq!(r.status(), 200);
    assert_eq!(r.content_type(), Some("text/html"));
    match r {
        Reply::Page(p) => {
            assert_eq!(p, INDEX_PAGE);
            assert!(p.contains("Testeur pour TP API Headers"));
        }
        other => panic!("expected the page, got {:?}", other),
    }
    assert_eq!(index_handler(), INDEX_PAGE);
}

#[test]
fn non_numeric_port_is_a_configuration_error() {
    assert_eq!(listen_port(Some("abc")), Err(PortError::NotAPort));
}

#[test]
fn port_parsing() {
    assert_eq!(listen_port(None), Ok(DEFAULT_PORT));
    assert_eq!(DEFAULT_PORT, 3000);
    assert_eq!(listen_port(Some("8080")), Ok(8080));
    assert_eq!(listen_port(Some("+80")), Ok(80));
    assert_eq!(listen_port(Some("0")), Ok(0));
    assert_eq!(listen_port(Some("65535")), Ok(65535));
    assert_eq!(listen_port(Some("65536")), Err(PortError::NotAPort));
    assert_eq!(listen_port(Some("")), Err(PortError::NotAPort));
    assert_eq!(listen_port(Some("+")), Err(PortError::NotAPort));
    assert_eq!(listen_port(Some("-1")), Err(PortError::NotAPort));
    assert_eq!(listen_port(Some(" 80")), Err(PortError::NotAPort));
}

#[test]
fn ping_with_every_other_method_is_not_found() {
    for m in ALL_METHODS {
        let r = respond(&"/ping".to_string(), m, &browser_headers());
        if m == Method::Get {
            assert_eq!(r.status(), 200);
        } else {
            assert_eq!(r.status(), 404);
            assert!(matches!(r, Reply::NotFound));
        }
    }
}

#[test]
fn other_paths_are_not_found_for_every_method() {
    let paths = ["/nope", "", "/ping/", "/PING", "//", "/index.html", "/ping?x=1", "ping"];
    for p in paths {
        for m in ALL_METHODS {
            let r = respond(&p.to_string(), m, &browser_headers());
            assert_eq!(r.status(), 404);
            assert!(matches!(r, Reply::NotFound));
        }
    }
}

#[test]
fn root_with_other_methods_is_not_found() {
    for m in ALL_METHODS {
        let r = respond(&"/".to_string(), m, &Vec::new());
        if m == Method::Get {
            assert!(matches!(r, Reply::Page(_)));
        } else {
            assert!(matches!(r, Reply::NotFound));
        }
    }
}

#[test]
fn repeated_requests_get_the_same_reply() {
    let hs = browser_headers();
    for p in ["/", "/ping", "/nope"] {
        for m in ALL_METHODS {
            let first = respond(&p.to_string(), m, &hs);
            for _ in 0..5 {
                let again = respond(&p.to_string(), m, &hs);
                assert_eq!(first.status(), again.status());
                assert_eq!(first.content_type(), again.content_type());
                match (&first, &again) {
                    (Reply::Echo(_), Reply::Echo(_)) => assert_eq!(echoed(&first), echoed(&again)),
                    (Reply::Page(a), Reply::Page(b)) => assert_eq!(a, b),
                    (Reply::NotFound, Reply::NotFound) => {}
                    _ => panic!("replies differ"),
                }
            }
        }
    }
}

#[test]
fn duplicate_header_last_value_wins() {
    let hs = vec![
        header("x-dup", b"first"),
        header("accept", b"*/*"),
        header("x-dup", b"second"),
        header("x-dup", b"third"),
    ];
    let v = flatten_headers(&hs);
    assert_eq!(v.len(), 2);
    let mut v = v;
    v.sort();
    assert_eq!(v, vec![pair("accept", "*/*"), pair("x-dup", "third")]);
}

#[test]
fn no_headers_echo_empty_object() {
    let r = respond(&"/ping".to_string(), Method::Get, &Vec::new());
    assert_eq!(r.status(), 200);
    assert!(echoed(&r).is_empty());
}

#[test]
fn header_value_that_is_not_text_becomes_empty() {
    assert_eq!(header_text(&b"abc".to_vec()), "abc");
    assert_eq!(header_text(&b"a\tb c~".to_vec()), "a\tb c~");
    assert_eq!(header_text(&Vec::new()), "");
    assert_eq!(header_text(&vec![0xc3, 0xa9]), "");
    assert_eq!(header_text(&vec![b'a', 0x7f]), "");
    assert_eq!(header_text(&vec![b'a', 0x01]), "");
    let hs = vec![header("x-bin", &[0xff, 0xfe]), header("x-ok", b"fine")];
    let r = respond(&"/ping".to_string(), Method::Get, &hs);
    assert_eq!(echoed(&r), vec![pair("x-bin", ""), pair("x-ok", "fine")]);
}

#[test]
fn classify_follows_route_table() {
    assert_eq!(classify(&"/".to_string(), Method::Get), Route::Index);
    assert_eq!(classify(&"/ping".to_string(), Method::Get), Route::Ping);
    assert_eq!(classify(&"/ping".to_string(), Method::Delete), Route::PingWrongMethod);
    assert_eq!(classify(&"/".to_string(), Method::Post), Route::NotFound);
    assert_eq!(classify(&"/nope".to_string(), Method::Get), Route::NotFound);
}

#[test]
fn method_guard_blocks_only_non_get_ping() {
    assert!(check_method(&"/ping".to_string(), Method::Put));
    assert!(check_method(&"/ping".to_string(), Method::Extension));
    assert!(!check_method(&"/ping".to_string(), Method::Get));
    assert!(!check_method(&"/".to_string(), Method::Post));
    assert!(!check_method(&"/other".to_string(), Method::Patch));
}

#[test]
fn handlers_on_their_own() {
    assert!(matches!(handler_404(), Reply::NotFound));
    assert_eq!(handler_404().status(), 404);
    assert!(matches!(ping_handler(Method::Head, &browser_headers()), Reply::NotFound));
    let r = ping_handler(Method::Get, &vec![header("x-test", b"abc")]);
    assert_eq!(echoed(&r), vec![pair("x-test", "abc")]);
}
