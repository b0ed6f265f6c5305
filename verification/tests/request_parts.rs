use import_http::address::TargetAddress;
use import_http::body::{Body, BodyTooLarge, BUFFER_SIZE};
use import_http::header::Header;
use import_http::method::Method;
use import_http::request::Request;
use import_http::response::Response;
use import_http::status;

const ALL: [Method; 7] = [
    Method::Get,
    Method::Post,
    Method::Put,
    Method::Delete,
    Method::Options,
    Method::Patch,
    Method::Trace,
];

#[test]
fn method_names_are_the_standard_tokens() {
    let names: Vec<&str> = ALL.iter().map(|m| m.name()).collect();
    assert_eq!(
        names,
        vec!["GET", "POST", "PUT", "DELETE", "OPTIONS", "PATCH", "TRACE"]
    );
}

#[test]
fn method_name_reads_back_as_the_same_method() {
    for m in ALL {
        assert_eq!(Method::try_from(m.name()), Ok(m));
    }
}

#[test]
fn other_method_tokens_are_unsupported() {
    for name in ["CONNECT", "HEAD", "get", "Post", "", "GETX", "PROPFIND"] {
        assert!(Method::try_from(name).is_err(), "{name}");
    }
}

#[test]
fn default_method_is_get() {
    assert_eq!(Method::default(), Method::Get);
}

#[test]
fn empty_body_is_empty() {
    assert!(matches!(Body::try_from(Ok(Vec::new())), Ok(Body::Empty)));
}

#[test]
fn json_body_keeps_its_text() {
    let text = " {\"a\": [1, 2.5, null], \"b\": \"\u{e9}\"} \n";
    match Body::try_from(Ok(text.as_bytes().to_vec())) {
        Ok(Body::Json(t)) => assert_eq!(t, text),
        other => panic!("unexpected {other:?}"),
    }
}

#[test]
fn non_json_body_is_unsupported_media_type() {
    for text in ["not json", "{\"a\": 1} trailing", "{", "[1,]"] {
        assert!(matches!(
            Body::try_from(Ok(text.as_bytes().to_vec())),
            Err(status::UNSUPPORTED_MEDIA_TYPE)
        ));
    }
    assert!(matches!(
        Body::try_from(Ok(vec![0xff, 0xfe])),
        Err(415)
    ));
}

#[test]
fn body_over_the_limit_is_payload_too_large() {
    assert!(matches!(Body::try_from(Err(BodyTooLarge)), Err(413)));
    assert!(BUFFER_SIZE > 0);
}

#[test]
fn body_text_goes_out_as_is() {
    assert_eq!(Body::Empty.into_text(), None);
    assert_eq!(
        Body::Json("[1]".to_string()).into_text(),
        Some("[1]".to_string())
    );
    assert!(matches!(Body::default(), Body::Empty));
}

fn header(name: &str, value: &str) -> Header {
    Header {
        name: name.to_string(),
        value: value.as_bytes().to_vec(),
    }
}

#[test]
fn unsupported_method_returns_405() {
    let r = Request::from_request(
        "CONNECT",
        "/".to_string(),
        Vec::new(),
        None,
        Ok(Vec::new()),
    );
    assert!(matches!(r, Err(405)));
}

#[test]
fn method_is_checked_before_the_body() {
    let r = Request::from_request("HEAD", "/".to_string(), Vec::new(), None, Err(BodyTooLarge));
    assert!(matches!(r, Err(status::METHOD_NOT_ALLOWED)));
}

#[test]
fn refused_body_refuses_the_request() {
    let r = Request::from_request(
        "POST",
        "/".to_string(),
        Vec::new(),
        None,
        Ok(b"<xml/>".to_vec()),
    );
    assert!(matches!(r, Err(415)));
    let r = Request::from_request("PUT", "/".to_string(), Vec::new(), None, Err(BodyTooLarge));
    assert!(matches!(r, Err(413)));
}

#[test]
fn accepted_request_keeps_its_parts() {
    let r = Request::from_request(
        "PATCH",
        "/a/b".to_string(),
        vec![header("x-foo", "bar"), header("accept", "*/*")],
        Some("q=1&r=2".to_string()),
        Ok(b"{\"k\":true}".to_vec()),
    )
    .unwrap();
    assert_eq!(r.method, Method::Patch);
    assert_eq!(r.path, "/a/b");
    assert_eq!(r.headers.len(), 2);
    assert_eq!(r.headers[0].name, "x-foo");
    assert_eq!(r.headers[0].value, b"bar");
    assert_eq!(r.headers[1].name, "accept");
    assert_eq!(r.query.as_deref(), Some("q=1&r=2"));
    assert!(matches!(r.body, Body::Json(ref t) if t == "{\"k\":true}"));
}

#[test]
fn url_is_scheme_address_and_path() {
    let r = Request::from_request("GET", "/another/path".to_string(), Vec::new(), None, Ok(Vec::new()))
        .unwrap();
    let target = TargetAddress { octets: [127, 0, 0, 1], port: 9002 };
    assert_eq!(r.url_text(&target), "http://127.0.0.1:9002/another/path");
}

#[test]
fn url_address_edges() {
    let r = Request::from_request("GET", "/".to_string(), Vec::new(), None, Ok(Vec::new())).unwrap();
    let low = TargetAddress { octets: [0, 0, 0, 0], port: 0 };
    assert_eq!(r.url_text(&low), "http://0.0.0.0:0/");
    let high = TargetAddress { octets: [255, 10, 9, 100], port: 65535 };
    assert_eq!(r.url_text(&high), "http://255.10.9.100:65535/");
}

#[test]
fn status_response_has_no_headers() {
    let r = Response::from_status(status::BAD_GATEWAY);
    assert_eq!(r.status_code, 502);
    assert!(r.headers.is_empty());
    let d = Response::default();
    assert_eq!(d.status_code, 200);
    assert!(d.headers.is_empty());
}

#[test]
fn proxy_path() {
    let r = Request::from_request("GET", "/another/path".to_string(), Vec::new(), None, Ok(Vec::new()))
        .unwrap();
    let target = TargetAddress { octets: [127, 0, 0, 1], port: 9002 };
    assert_eq!(r.path, "/another/path");
    assert!(r.url_text(&target).ends_with("/another/path"));
}

#[test]
fn proxy_headers() {
    let r = Request::from_request(
        "GET",
        "/path".to_string(),
        vec![header("x-foo", "bar")],
        None,
        Ok(Vec::new()),
    )
    .unwrap();
    assert_eq!(r.headers.len(), 1);
    assert_eq!(r.headers[0].name, "x-foo");
    assert_eq!(r.headers[0].value, b"bar");
}

#[test]
fn checked_body_follows_the_json_answer() {
    match Body::from_checked(Ok(b"anything".to_vec()), true) {
        Ok(Body::Json(t)) => assert_eq!(t, "anything"),
        other => panic!("unexpected {other:?}"),
    }
    match Body::from_checked(Ok(vec![b'a', 0xff]), true) {
        Ok(Body::Json(t)) => assert_eq!(t, "a\u{fffd}"),
        other => panic!("unexpected {other:?}"),
    }
    assert!(matches!(Body::from_checked(Ok(b"{}".to_vec()), false), Err(415)));
    assert!(matches!(Body::from_checked(Ok(Vec::new()), false), Ok(Body::Empty)));
    assert!(matches!(Body::from_checked(Err(BodyTooLarge), true), Err(413)));
}

#[test]
fn proxy_method() {
    for m in ALL {
        let r = Request::from_request(m.name(), "/path".to_string(), Vec::new(), None, Ok(Vec::new()))
            .unwrap();
        assert_eq!(r.method, m);
    }
}

#[test]
fn url_carries_the_query() {
    let r = Request::from_request(
        "GET",
        "/search".to_string(),
        Vec::new(),
        Some("q=1&r=a%20b".to_string()),
        Ok(Vec::new()),
    )
    .unwrap();
    let target = TargetAddress { octets: [10, 0, 0, 2], port: 80 };
    assert_eq!(r.url_text(&target), "http://10.0.0.2:80/search?q=1&r=a%20b");
    let r = Request::from_request("GET", "/s".to_string(), Vec::new(), Some(String::new()), Ok(Vec::new()))
        .unwrap();
    assert_eq!(r.url_text(&target), "http://10.0.0.2:80/s?");
}

#[test]
fn json_body_text_is_the_received_bytes() {
    let bytes = "{\"name\": \"caf\u{e9} \u{1f600}\"}".as_bytes().to_vec();
    match Body::try_from(Ok(bytes.clone())) {
        Ok(Body::Json(t)) => assert_eq!(t.as_bytes(), bytes.as_slice()),
        other => panic!("unexpected {other:?}"),
    }
    assert!(matches!(Body::try_from(Ok(b"  \n".to_vec())), Err(415)));
}
