use http::header::{HeaderMap, HeaderValue, FORWARDED, HOST};
use xnav::config::{Action, Algorithm, Backend, Forward, Pattern, Server};
use xnav::net::SocketAddr;
use xnav::service::files::{content_type, respond, select, transfer, Transfer};
use xnav::service::{find_pattern, Route, Xnav};

fn backend() -> SocketAddr {
    SocketAddr::v4(127, 0, 0, 1, 9100)
}

fn forward_to(prefix: &str) -> Pattern {
    Pattern {
        uri: String::from(prefix),
        action: Action::Forward(Forward::new(
            vec![Backend { address: backend(), weight: 1 }],
            Algorithm::Wrr,
        )),
        request: None,
        response: None,
    }
}

fn serve(prefix: &str, directory: &str) -> Pattern {
    Pattern {
        uri: String::from(prefix),
        action: Action::Serve(String::from(directory)),
        request: None,
        response: None,
    }
}

fn server(patterns: Vec<Pattern>, name: Option<&str>) -> Server {
    Server {
        listen: vec![SocketAddr::v4(127, 0, 0, 1, 9000)],
        patterns,
        max_connections: 1024,
        name: name.map(String::from),
        log_name: String::from("unnamed"),
    }
}

fn service(config: &Server) -> Xnav<'_> {
    Xnav::new(config, String::from("10.0.0.7:5000"), String::from("127.0.0.1:9000"))
}

#[test]
fn pattern_precedence() {
    let config = server(vec![forward_to("/api/"), serve("/", "/www")], None);
    let service = service(&config);
    match service.call("/api/x", "/api/x") {
        Route::Forward { pattern, to } => {
            assert_eq!(pattern, 0);
            assert_eq!(to, backend());
        }
        _ => panic!("not forwarded"),
    }
    match service.call("/index.html", "/index.html") {
        Route::Serve { pattern, directory, path } => {
            assert_eq!(pattern, 1);
            assert_eq!(directory, "/www");
            assert_eq!(path, "index.html");
        }
        _ => panic!("not served"),
    }
}

#[test]
fn the_first_matching_pattern_wins_even_if_a_later_one_is_longer() {
    let config = server(vec![serve("/", "/www"), forward_to("/api/")], None);
    assert!(matches!(service(&config).call("/api/x", "/api/x"), Route::Serve { pattern: 0, .. }));
    assert_eq!(find_pattern(&config.patterns, "/api/x"), Some(0));
}

#[test]
fn a_request_that_nothing_matches_is_not_found() {
    let config = server(vec![forward_to("/api/"), serve("/static/", "/www")], None);
    assert!(matches!(service(&config).call("/other", "/other"), Route::NotFound));
    assert!(matches!(service(&config).call("/api", "/api"), Route::NotFound));
    assert!(matches!(service(&config).call("", ""), Route::NotFound));
    assert_eq!(find_pattern(&config.patterns, "/other"), None);
    assert_eq!(find_pattern(&Vec::new(), "/"), None);
}

#[test]
fn a_prefix_matches_by_characters_not_by_segments() {
    let config = server(vec![forward_to("/api")], None);
    assert!(matches!(service(&config).call("/api-v2", "/api-v2"), Route::Forward { .. }));
    assert_eq!(find_pattern(&config.patterns, "/api-v2"), Some(0));
    assert_eq!(find_pattern(&config.patterns, "/ap"), None);
    assert_eq!(find_pattern(&config.patterns, "/API"), None);
}

#[test]
fn the_uri_is_matched_with_its_query() {
    let config = server(vec![serve("/files?x", "/a"), serve("/files", "/b")], None);
    match service(&config).call("/files?x=1", "/files") {
        Route::Serve { pattern, directory, path } => {
            assert_eq!(pattern, 0);
            assert_eq!(directory, "/a");
            assert_eq!(path, "files");
        }
        _ => panic!("not served"),
    }
}

#[test]
fn only_one_slash_is_taken_from_the_path() {
    let config = server(vec![serve("/", "/srv")], None);
    let path_of = |path: &str| match service(&config).call("/", path) {
        Route::Serve { path, .. } => path,
        _ => panic!("not served"),
    };
    assert_eq!(path_of("/index.html"), "index.html");
    assert_eq!(path_of("//etc/passwd"), "/etc/passwd");
    assert_eq!(path_of("/../etc/passwd"), "../etc/passwd");
    assert_eq!(path_of("/"), "");
    assert_eq!(path_of(""), "");
    assert_eq!(path_of("plain"), "plain");
}

#[test]
fn the_scheduler_is_asked_once_for_every_request() {
    let pattern = Pattern {
        uri: String::from("/"),
        action: Action::Forward(Forward::new(
            vec![
                Backend { address: SocketAddr::v4(10, 0, 0, 1, 80), weight: 1 },
                Backend { address: SocketAddr::v4(10, 0, 0, 2, 80), weight: 1 },
            ],
            Algorithm::Wrr,
        )),
        request: None,
        response: None,
    };
    let config = server(vec![pattern], None);
    let service = service(&config);
    let to = |route: Route| match route {
        Route::Forward { to, .. } => to,
        _ => panic!("not forwarded"),
    };
    assert_eq!(to(service.call("/a", "/a")), SocketAddr::v4(10, 0, 0, 1, 80));
    assert_eq!(to(service.call("/b", "/b")), SocketAddr::v4(10, 0, 0, 2, 80));
    assert_eq!(to(service.call("/c", "/c")), SocketAddr::v4(10, 0, 0, 1, 80));
}

#[test]
fn echo_through_proxy_carries_the_forwarded_header() {
    let config = server(vec![forward_to("/")], None);
    let service = service(&config);
    let mut headers = HeaderMap::new();
    headers.insert(HOST, HeaderValue::from_static("x"));
    assert!(matches!(service.call("/", "/"), Route::Forward { pattern: 0, .. }));
    let forwarded = service.proxy_request(headers).into_forwarded().unwrap();
    assert_eq!(
        forwarded.get(FORWARDED).unwrap(),
        "for=10.0.0.7:5000;by=127.0.0.1:9000;host=x"
    );
}

#[test]
fn the_proxy_goes_by_the_name_of_its_server() {
    let config = server(vec![forward_to("/")], Some("edge"));
    let forwarded = service(&config).proxy_request(HeaderMap::new()).into_forwarded().unwrap();
    assert_eq!(
        forwarded.get(FORWARDED).unwrap(),
        "for=10.0.0.7:5000;by=edge;host=127.0.0.1:9000"
    );
}

fn read_type(transfer: Transfer) -> Option<&'static str> {
    match transfer {
        Transfer::NotFound => None,
        Transfer::Read { content_type } => Some(content_type),
    }
}

#[test]
fn content_types_by_extension() {
    assert_eq!(content_type(Some("html")), "text/html");
    assert_eq!(content_type(Some("css")), "text/css");
    assert_eq!(content_type(Some("js")), "application/javascript");
    assert_eq!(content_type(Some("png")), "image/png");
    assert_eq!(content_type(Some("jpeg")), "image/jpeg");
    assert_eq!(content_type(Some("jpg")), "text/plain");
    assert_eq!(content_type(Some("HTML")), "text/plain");
    assert_eq!(content_type(Some("txt")), "text/plain");
    assert_eq!(content_type(Some("")), "text/plain");
    assert_eq!(content_type(None), "text/plain");
}

#[test]
fn select_serves_regular_files_within_the_directory() {
    assert_eq!(read_type(select(true, true, Some("css"))), Some("text/css"));
    assert_eq!(read_type(select(true, true, None)), Some("text/plain"));
    assert_eq!(read_type(select(false, true, Some("css"))), None);
    assert_eq!(read_type(select(true, false, Some("css"))), None);
    assert_eq!(read_type(select(false, false, None)), None);
}

#[test]
fn static_file_404_on_traversal() {
    assert_eq!(read_type(transfer(Some("/srv"), Some("/etc/passwd"), true)), None);
    assert_eq!(read_type(transfer(Some("/srv"), None, false)), None);
}

#[test]
fn a_file_below_the_directory_is_read() {
    assert_eq!(
        read_type(transfer(Some("/www"), Some("/www/index.html"), true)),
        Some("text/html")
    );
    assert_eq!(
        read_type(transfer(Some("/www"), Some("/www/a/b/c.tar.png"), true)),
        Some("image/png")
    );
    assert_eq!(read_type(transfer(Some("/www"), Some("/www/Makefile"), true)), Some("text/plain"));
    assert_eq!(read_type(transfer(Some("/www"), Some("/www/.css"), true)), Some("text/plain"));
    assert_eq!(read_type(transfer(Some("/"), Some("/x.js"), true)), Some("application/javascript"));
}

#[test]
fn a_sibling_with_the_same_start_is_outside() {
    assert_eq!(read_type(transfer(Some("/srv"), Some("/srv2/index.html"), true)), None);
    assert_eq!(read_type(transfer(Some("/srv/a"), Some("/srv/ab.html"), true)), None);
    assert_eq!(read_type(transfer(Some("/srv/a"), Some("/srv"), true)), None);
}

#[test]
fn what_is_not_a_regular_file_is_not_found() {
    assert_eq!(read_type(transfer(Some("/www"), Some("/www/dir"), false)), None);
    assert_eq!(read_type(transfer(Some("/www"), Some("/www"), false)), None);
}

#[test]
fn an_unresolved_directory_or_file_is_not_found() {
    assert_eq!(read_type(transfer(None, Some("/www/index.html"), true)), None);
    assert_eq!(read_type(transfer(Some("/www"), None, true)), None);
    assert_eq!(read_type(transfer(None, None, true)), None);
}

#[test]
fn a_file_that_was_read_is_sent_with_its_type() {
    let response = respond("image/png", Some(vec![1, 2, 3]));
    assert_eq!(response.status, 200);
    assert_eq!(response.server, "rxh/0.1.0");
    assert_eq!(response.content_type, Some("image/png"));
    assert_eq!(response.body, vec![1, 2, 3]);
}

#[test]
fn a_file_that_could_not_be_read_is_not_found() {
    let response = respond("image/png", None);
    assert_eq!(response.status, 404);
    assert_eq!(response.content_type, Some("text/plain"));
    assert_eq!(response.body, b"HTTP 404 NOT FOUND");
}
