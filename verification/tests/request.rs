use proxy_forwarder::error::ProxyError;
use proxy_forwarder::header::{
    drops_header, find_unsendable, forward_headers, name_matches, value_is_text, Direction, Header,
};
use proxy_forwarder::request::{assemble_request, build_proxy_request, InboundRequest};

fn header(name: &str, value: &[u8]) -> Header {
    Header::new(name.to_string(), value.to_vec())
}

fn pairs(headers: &[Header]) -> Vec<(String, Vec<u8>)> {
    headers.iter().map(|h| (h.name.clone(), h.value.clone())).collect()
}

fn request(method: &str, path: Option<&str>, headers: Vec<Header>) -> InboundRequest {
    InboundRequest {
        method: method.to_string(),
        path_and_query: path.map(|p| p.to_string()),
        headers,
    }
}

#[test]
fn names_compare_without_case() {
    assert!(name_matches("Host", "host"));
    assert!(name_matches("CONTENT-LENGTH", "content-length"));
    assert!(name_matches("x", "X"));
    assert!(name_matches("", ""));
    assert!(!name_matches("host", "hosts"));
    assert!(!name_matches("hos", "host"));
    assert!(!name_matches("content_length", "content-length"));
    // '@' and '`' differ by 32 but are no letters
    assert!(!name_matches("@", "`"));
    assert!(!name_matches("[", "{"));
}

#[test]
fn dropped_names_by_direction() {
    assert!(drops_header(Direction::ToUpstream, "host"));
    assert!(drops_header(Direction::ToUpstream, "Host"));
    assert!(drops_header(Direction::ToUpstream, "Content-Length"));
    assert!(drops_header(Direction::ToUpstream, "TRANSFER-ENCODING"));
    assert!(!drops_header(Direction::ToUpstream, "accept"));
    assert!(!drops_header(Direction::ToUpstream, "content-type"));
    assert!(!drops_header(Direction::ToClient, "host"));
    assert!(drops_header(Direction::ToClient, "content-length"));
    assert!(drops_header(Direction::ToClient, "Transfer-Encoding"));
    assert!(!drops_header(Direction::ToClient, "set-cookie"));
}

#[test]
fn text_values() {
    assert!(value_is_text(&b"".to_vec()));
    assert!(value_is_text(&b"plain text ~".to_vec()));
    assert!(value_is_text(&b"tab\tinside".to_vec()));
    assert!(value_is_text(&vec![32u8]));
    assert!(value_is_text(&vec![126u8]));
    assert!(!value_is_text(&vec![127u8]));
    assert!(!value_is_text(&vec![31u8]));
    assert!(!value_is_text(&vec![b'a', 0x80]));
    assert!(!value_is_text(&vec![0xffu8]));
    assert!(!value_is_text(&b"line\nbreak".to_vec()));
}

#[test]
fn get_users_under_prefix() {
    let req = request("GET", Some("/users?id=5"), vec![]);
    let out = build_proxy_request(&req, &vec![], "http://backend:9000/users?id=5").unwrap();
    assert_eq!(out.method, "GET");
    assert_eq!(out.url, "http://backend:9000/users?id=5");
    assert!(out.headers.is_empty());
    assert_eq!(out.body, None);
}

#[test]
fn host_header_not_copied() {
    let req = request("GET", Some("/"), vec![header("Host", b"client.example.com")]);
    let out = build_proxy_request(&req, &vec![], "http://backend:9000/").unwrap();
    assert!(out.headers.iter().all(|h| !h.name.eq_ignore_ascii_case("host")));
    assert!(out.headers.is_empty());
}

#[test]
fn request_headers_minus_three_names() {
    let headers = vec![
        header("accept", b"*/*"),
        header("host", b"client.example.com"),
        header("x-tag", b"one"),
        header("Content-Length", b"12"),
        header("x-tag", b"two"),
        header("Transfer-Encoding", b"chunked"),
        header("X-Tag", b"one"),
        header("cookie", b"a=b"),
    ];
    let req = request("POST", Some("/p"), headers);
    let out = build_proxy_request(&req, &b"hello".to_vec(), "http://backend:9000/p").unwrap();
    assert_eq!(
        pairs(&out.headers),
        vec![
            ("accept".to_string(), b"*/*".to_vec()),
            ("x-tag".to_string(), b"one".to_vec()),
            ("x-tag".to_string(), b"two".to_vec()),
            ("X-Tag".to_string(), b"one".to_vec()),
            ("cookie".to_string(), b"a=b".to_vec()),
        ]
    );
    assert_eq!(out.method, "POST");
}

#[test]
fn forward_headers_keeps_all_when_none_dropped() {
    let headers = vec![header("a", b"1"), header("b", b"2"), header("a", b"1")];
    let out = forward_headers(Direction::ToUpstream, &headers);
    assert_eq!(pairs(&out), pairs(&headers));
    let none = forward_headers(Direction::ToUpstream, &vec![]);
    assert!(none.is_empty());
}

#[test]
fn forward_headers_keeps_raw_values_to_client() {
    let headers = vec![header("x-bin", &[0xff, 0x00]), header("host", b"h")];
    let out = forward_headers(Direction::ToClient, &headers);
    assert_eq!(pairs(&out), pairs(&headers));
}

#[test]
fn body_attached_only_when_not_empty() {
    let req = request("PUT", Some("/x"), vec![]);
    let with = build_proxy_request(&req, &vec![1u8, 2, 3], "http://backend:9000/x").unwrap();
    assert_eq!(with.body, Some(vec![1u8, 2, 3]));
    let without = build_proxy_request(&req, &vec![], "http://backend:9000/x").unwrap();
    assert_eq!(without.body, None);
    let one = build_proxy_request(&req, &vec![0u8], "http://backend:9000/x").unwrap();
    assert_eq!(one.body, Some(vec![0u8]));
}

#[test]
fn method_copied_verbatim() {
    let req = request("PROPFIND", None, vec![]);
    let out = build_proxy_request(&req, &vec![], "http://backend:9000").unwrap();
    assert_eq!(out.method, "PROPFIND");
    assert_eq!(out.url, "http://backend:9000");
}

#[test]
fn invalid_header_value_is_reported_by_name() {
    let req = request(
        "GET",
        Some("/"),
        vec![header("accept", b"ok"), header("x-raw", &[b'a', 0xfe]), header("x-later", &[0x80])],
    );
    match build_proxy_request(&req, &vec![], "http://backend:9000/") {
        Err(ProxyError::InvalidHeader(name)) => assert_eq!(name, "x-raw"),
        other => panic!("unexpected: {:?}", other),
    }
    assert_eq!(find_unsendable(&req.headers), Some("x-raw".to_string()));
}

#[test]
fn dropped_header_value_is_not_examined() {
    let req = request(
        "GET",
        Some("/"),
        vec![header("Host", &[0xff]), header("content-length", &[0x80]), header("a", b"b")],
    );
    assert_eq!(find_unsendable(&req.headers), None);
    let out = build_proxy_request(&req, &vec![], "http://backend:9000/").unwrap();
    assert_eq!(pairs(&out.headers), vec![("a".to_string(), b"b".to_vec())]);
}

#[test]
fn empty_host_fails() {
    let req = request("GET", Some("/users"), vec![]);
    match build_proxy_request(&req, &vec![], "http://:9000/users") {
        Err(ProxyError::RequestBuilderError(message)) => assert_eq!(message, "empty host"),
        other => panic!("unexpected: {:?}", other),
    }
}

#[test]
fn malformed_url_fails() {
    let req = request("GET", None, vec![]);
    match build_proxy_request(&req, &vec![], "://backend:9000") {
        Err(ProxyError::RequestBuilderError(message)) => {
            assert_eq!(message, "relative URL without a base")
        }
        other => panic!("unexpected: {:?}", other),
    }
    match build_proxy_request(&req, &vec![], "http://backend:99999/") {
        Err(ProxyError::RequestBuilderError(message)) => assert_eq!(message, "invalid port number"),
        other => panic!("unexpected: {:?}", other),
    }
}

#[test]
fn url_failure_comes_before_header_failure() {
    let req = request("GET", None, vec![header("x-raw", &[0xff])]);
    match build_proxy_request(&req, &vec![], "http://:1/") {
        Err(ProxyError::RequestBuilderError(_)) => {}
        other => panic!("unexpected: {:?}", other),
    }
}

#[test]
fn assemble_follows_the_given_verdict() {
    let req = request("GET", Some("/a"), vec![header("k", b"v")]);
    let ok = assemble_request(&req, &vec![7u8], "anything at all", None).unwrap();
    assert_eq!(ok.url, "anything at all");
    assert_eq!(ok.body, Some(vec![7u8]));
    assert_eq!(pairs(&ok.headers), vec![("k".to_string(), b"v".to_vec())]);
    match assemble_request(&req, &vec![], "http://backend/", Some("no good".to_string())) {
        Err(ProxyError::RequestBuilderError(message)) => assert_eq!(message, "no good"),
        other => panic!("unexpected: {:?}", other),
    }
}

#[test]
fn same_request_twice_gives_equal_requests() {
    let req = request(
        "GET",
        Some("/items?page=2"),
        vec![header("accept", b"text/plain"), header("host", b"c"), header("accept", b"text/plain")],
    );
    let body = b"payload".to_vec();
    let first = build_proxy_request(&req, &body, "http://backend:9000/items?page=2").unwrap();
    let second = build_proxy_request(&req, &body, "http://backend:9000/items?page=2").unwrap();
    assert_eq!(first.method, second.method);
    assert_eq!(first.url, second.url);
    assert_eq!(pairs(&first.headers), pairs(&second.headers));
    assert_eq!(first.body, second.body);
    assert_eq!(first.headers.len(), 2);
}
