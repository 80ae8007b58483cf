use http::header::{HeaderMap, HeaderName, HeaderValue, FORWARDED, HOST, SERVER, UPGRADE};
use xnav::service::headers::HeaderError;
use xnav::service::proxy::{forward, requests_upgrade, Forwarding, SWITCHING_PROTOCOLS};
use xnav::service::request::ProxyRequest;
use xnav::service::response::{rxh_server_header, LocalResponse, ProxyResponse};
use xnav::VERSION;

fn forwarded_header(headers: &HeaderMap) -> String {
    let forwarded = headers.get(FORWARDED).unwrap().to_str().unwrap();

    String::from(forwarded)
}

#[test]
fn forwarded_request() {
    let client = "127.0.0.1:8000";
    let proxy = "127.0.0.1:9000";

    let request =
        ProxyRequest::new(HeaderMap::new(), client.to_string(), proxy.to_string(), None);

    let forwarded = request.into_forwarded().unwrap();
    let expected = format!("for={client};by={proxy};host={proxy}");

    assert!(forwarded.contains_key(FORWARDED));
    assert_eq!(forwarded_header(&forwarded), expected.as_str());
}

#[test]
fn forwarded_request_with_proxy_id() {
    let client = "127.0.0.1:8000";
    let proxy = "127.0.0.1:9000";
    let proxy_id = String::from("rxh/main");

    let request = ProxyRequest::new(
        HeaderMap::new(),
        client.to_string(),
        proxy.to_string(),
        Some(proxy_id.clone()),
    );

    let forwarded = request.into_forwarded().unwrap();
    let expected = format!("for={client};by={proxy_id};host={proxy}");

    assert!(forwarded.contains_key(FORWARDED));
    assert_eq!(forwarded_header(&forwarded), expected.as_str());
}

fn request(headers: HeaderMap) -> ProxyRequest {
    ProxyRequest::new(headers, String::from("10.0.0.7:5000"), String::from("127.0.0.1:9000"), None)
}

#[test]
fn forwarded_takes_the_host_of_the_request() {
    let mut headers = HeaderMap::new();
    headers.insert(HOST, HeaderValue::from_static("x"));
    let forwarded = request(headers).into_forwarded().unwrap();
    assert_eq!(forwarded_header(&forwarded), "for=10.0.0.7:5000;by=127.0.0.1:9000;host=x");
    assert_eq!(forwarded.get(HOST).unwrap(), "x");
    assert_eq!(forwarded.len(), 2);
}

#[test]
fn forwarded_falls_back_when_the_host_is_not_utf8() {
    let mut headers = HeaderMap::new();
    headers.insert(HOST, HeaderValue::from_bytes(b"caf\xe9").unwrap());
    let forwarded = request(headers).into_forwarded().unwrap();
    assert_eq!(
        forwarded_header(&forwarded),
        "for=10.0.0.7:5000;by=127.0.0.1:9000;host=127.0.0.1:9000"
    );
}

#[test]
fn forwarded_takes_a_host_beyond_ascii() {
    let mut headers = HeaderMap::new();
    headers.insert(HOST, HeaderValue::from_bytes("caf\u{e9}".as_bytes()).unwrap());
    let forwarded = request(headers).into_forwarded().unwrap();
    assert_eq!(
        forwarded.get(FORWARDED).unwrap().as_bytes(),
        "for=10.0.0.7:5000;by=127.0.0.1:9000;host=caf\u{e9}".as_bytes()
    );
}

#[test]
fn forwarded_takes_the_first_host_of_several() {
    let mut headers = HeaderMap::new();
    headers.append(HOST, HeaderValue::from_static("first"));
    headers.append(HOST, HeaderValue::from_static("second"));
    let forwarded = request(headers).into_forwarded().unwrap();
    assert_eq!(forwarded_header(&forwarded), "for=10.0.0.7:5000;by=127.0.0.1:9000;host=first");
}

#[test]
fn forwarded_is_appended_to_what_was_there() {
    let mut headers = HeaderMap::new();
    headers.insert(FORWARDED, HeaderValue::from_static("for=1.2.3.4;by=earlier;host=y"));
    headers.insert(HOST, HeaderValue::from_static("x"));
    let forwarded = request(headers).into_forwarded().unwrap();
    assert_eq!(
        forwarded_header(&forwarded),
        "for=1.2.3.4;by=earlier;host=y, for=10.0.0.7:5000;by=127.0.0.1:9000;host=x"
    );
}

#[test]
fn forwarded_is_one_field_line_after_several() {
    let mut headers = HeaderMap::new();
    headers.append(FORWARDED, HeaderValue::from_static("for=a"));
    headers.append(FORWARDED, HeaderValue::from_static("for=b"));
    let forwarded = request(headers).into_forwarded().unwrap();
    let values: Vec<&HeaderValue> = forwarded.get_all(FORWARDED).iter().collect();
    assert_eq!(values.len(), 1);
    assert_eq!(
        values[0],
        "for=a, for=10.0.0.7:5000;by=127.0.0.1:9000;host=127.0.0.1:9000"
    );
}

#[test]
fn forwarded_is_appended_to_bytes_that_are_no_text() {
    let mut headers = HeaderMap::new();
    headers.insert(FORWARDED, HeaderValue::from_bytes(b"for=\xff").unwrap());
    let forwarded = request(headers).into_forwarded().unwrap();
    let mut expected = b"for=\xff, ".to_vec();
    expected.extend_from_slice(b"for=10.0.0.7:5000;by=127.0.0.1:9000;host=127.0.0.1:9000");
    assert_eq!(forwarded.get(FORWARDED).unwrap().as_bytes(), expected.as_slice());
    assert_eq!(forwarded.get_all(FORWARDED).iter().count(), 1);
}

#[test]
fn forwarded_leaves_the_other_headers_alone() {
    let mut headers = HeaderMap::new();
    headers.insert(HeaderName::from_static("x-trace"), HeaderValue::from_static("1"));
    headers.insert(HOST, HeaderValue::from_static("x"));
    let before = headers.clone();
    let request = request(headers);
    assert_eq!(request.headers(), &before);
    let forwarded = request.into_forwarded().unwrap();
    assert_eq!(forwarded.get("x-trace").unwrap(), "1");
    assert_eq!(forwarded.get(HOST).unwrap(), "x");
    assert_eq!(forwarded.len(), 3);
}

#[test]
fn forwarded_refuses_an_id_with_a_line_break() {
    let request = ProxyRequest::new(
        HeaderMap::new(),
        String::from("10.0.0.7:5000"),
        String::from("127.0.0.1:9000"),
        Some(String::from("bad\nid")),
    );
    assert_eq!(request.into_forwarded().err(), Some(HeaderError::Value));
}

#[test]
fn forwarded_takes_an_id_beyond_ascii() {
    let request = ProxyRequest::new(
        HeaderMap::new(),
        String::from("c"),
        String::from("s"),
        Some(String::from("café")),
    );
    let forwarded = request.into_forwarded().unwrap();
    assert_eq!(
        forwarded.get(FORWARDED).unwrap().as_bytes(),
        "for=c;by=café;host=s".as_bytes()
    );
}

#[test]
fn server_header_names_product_and_version() {
    assert_eq!(VERSION, "0.1.0");
    assert_eq!(rxh_server_header(), "rxh/0.1.0");
    assert_eq!(rxh_server_header(), format!("rxh/{}", VERSION));
}

#[test]
fn response_of_a_backend_is_marked_with_the_server_header() {
    let mut headers = HeaderMap::new();
    headers.append(SERVER, HeaderValue::from_static("nginx"));
    headers.append(SERVER, HeaderValue::from_static("again"));
    headers.insert(HeaderName::from_static("content-length"), HeaderValue::from_static("5"));
    let forwarded = ProxyResponse::new(headers).into_forwarded().unwrap();
    let values: Vec<&HeaderValue> = forwarded.get_all(SERVER).iter().collect();
    assert_eq!(values, vec!["rxh/0.1.0"]);
    assert_eq!(forwarded.get("content-length").unwrap(), "5");
    assert_eq!(forwarded.len(), 2);
}

#[test]
fn response_without_a_server_header_gets_one() {
    let forwarded = ProxyResponse::new(HeaderMap::new()).into_forwarded().unwrap();
    assert_eq!(forwarded.get(SERVER).unwrap(), "rxh/0.1.0");
    assert_eq!(forwarded.len(), 1);
}

#[test]
fn local_responses() {
    let start = LocalResponse::builder();
    assert_eq!(start.status, 200);
    assert_eq!(start.server, "rxh/0.1.0");
    assert_eq!(start.content_type, None);
    assert!(start.body.is_empty());

    let missing = LocalResponse::not_found();
    assert_eq!(missing.status, 404);
    assert_eq!(missing.server, "rxh/0.1.0");
    assert_eq!(missing.content_type, Some("text/plain"));
    assert_eq!(missing.body, b"HTTP 404 NOT FOUND");

    let gateway = LocalResponse::bad_gateway();
    assert_eq!(gateway.status, 502);
    assert_eq!(gateway.server, "rxh/0.1.0");
    assert_eq!(gateway.content_type, Some("text/plain"));
    assert_eq!(gateway.body, b"HTTP 502 BAD GATEWAY");

    let page = LocalResponse::builder().with_body("text/html", b"<p>".to_vec());
    assert_eq!(page.status, 200);
    assert_eq!(page.content_type, Some("text/html"));
    assert_eq!(page.body, b"<p>");
}

#[test]
fn upgrade_is_asked_for_by_the_header() {
    let mut headers = HeaderMap::new();
    assert!(!requests_upgrade(&headers));
    headers.insert(HOST, HeaderValue::from_static("x"));
    assert!(!requests_upgrade(&headers));
    headers.insert(UPGRADE, HeaderValue::from_static("websocket"));
    assert!(requests_upgrade(&headers));
}

#[test]
fn an_unreachable_backend_is_a_bad_gateway() {
    assert_eq!(forward(false, None), Forwarding::BadGateway);
    assert_eq!(forward(true, None), Forwarding::BadGateway);
}

#[test]
fn a_switch_of_protocols_needs_both_sides() {
    assert_eq!(SWITCHING_PROTOCOLS, 101);
    assert_eq!(forward(true, Some(101)), Forwarding::Tunnel);
    assert_eq!(forward(false, Some(101)), Forwarding::BadGateway);
}

#[test]
fn every_other_answer_is_relayed() {
    assert_eq!(forward(false, Some(200)), Forwarding::Relay);
    assert_eq!(forward(true, Some(200)), Forwarding::Relay);
    assert_eq!(forward(true, Some(100)), Forwarding::Relay);
    assert_eq!(forward(false, Some(102)), Forwarding::Relay);
    assert_eq!(forward(false, Some(502)), Forwarding::Relay);
}
