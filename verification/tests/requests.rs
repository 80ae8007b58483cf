use xnav::server::handlers::{
    file_path, handle_200, handle_404, handle_echo, handle_get_file, handle_post_file,
    handle_user_agent, names_directory, setup_cfg, setup_directory, setup_router, Cfg, Handler,
    DIR_FLAG,
};
use xnav::server::request::{clean_header_value, Headers, ParseError, Path, Request};
use xnav::server::routing::{Route, Router};
use xnav::server::wire::{HTTPStatus, HttpMethod};

fn parse(text: &[u8]) -> Request {
    match Request::parse(text) {
        Ok(request) => request,
        Err(error) => panic!("no request: {:?}", error),
    }
}

fn refused(text: &[u8]) -> ParseError {
    match Request::parse(text) {
        Ok(_) => panic!("a request"),
        Err(error) => error,
    }
}

#[test]
fn methods() {
    assert_eq!(HttpMethod::parse("GET"), HttpMethod::GET);
    assert_eq!(HttpMethod::parse("POST"), HttpMethod::POST);
    assert_eq!(HttpMethod::parse("PUT"), HttpMethod::PUT);
    assert_eq!(HttpMethod::parse("DELETE"), HttpMethod::UNKNOWN);
    assert_eq!(HttpMethod::parse("get"), HttpMethod::UNKNOWN);
    assert_eq!(HttpMethod::parse(""), HttpMethod::UNKNOWN);
    assert_eq!(HttpMethod::parse("GET "), HttpMethod::UNKNOWN);
}

#[test]
fn status_lines() {
    assert_eq!(HTTPStatus::OK.as_str(), "HTTP/1.1 200 OK");
    assert_eq!(HTTPStatus::Created.as_str(), "HTTP/1.1 201 Created");
    assert_eq!(HTTPStatus::NotFound.as_str(), "HTTP/1.1 404 Not Found");
    assert_eq!(HTTPStatus::InternalServerError.as_str(), "HTTP/1.1 500 Internal Server Error");
    assert_eq!(HTTPStatus::OK.code(), 200);
    assert_eq!(HTTPStatus::Created.code(), 201);
    assert_eq!(HTTPStatus::NotFound.code(), 404);
    assert_eq!(HTTPStatus::InternalServerError.code(), 500);
}

#[test]
fn path_and_query() {
    let path = Path::build(String::from("/files/a.txt?x=1&y=2"));
    assert_eq!(path.path, "/files/a.txt");
    assert_eq!(path.query, "x=1&y=2");

    let path = Path::build(String::from("/plain"));
    assert_eq!(path.path, "/plain");
    assert_eq!(path.query, "");

    let path = Path::build(String::from("/a?b?c"));
    assert_eq!(path.path, "/a");
    assert_eq!(path.query, "b");

    let path = Path::build(String::from("?"));
    assert_eq!(path.path, "");
    assert_eq!(path.query, "");

    let path = Path::build(String::new());
    assert_eq!(path.path, "");
    assert_eq!(path.query, "");
}

#[test]
fn a_request_with_a_body() {
    let request =
        parse(b"POST /files/a.txt?x=1 HTTP/1.1\r\nHost: x\r\nContent-Length: 5\r\n\r\nhello");
    assert_eq!(request.method, HttpMethod::POST);
    assert_eq!(request.path.path, "/files/a.txt");
    assert_eq!(request.path.query, "x=1");
    assert_eq!(request.headers.len(), 2);
    assert_eq!(request.headers.get("Host"), Some(&String::from("x")));
    assert_eq!(request.headers.get("Content-Length"), Some(&String::from("5")));
    assert_eq!(request.headers.get("host"), None);
    assert_eq!(request.body, "hello");
}

#[test]
fn a_request_without_a_body() {
    let request = parse(b"GET / HTTP/1.1\r\nUser-Agent:  curl/8 \r\n\r\nignored");
    assert_eq!(request.method, HttpMethod::GET);
    assert_eq!(request.path.path, "/");
    assert_eq!(request.headers.get("User-Agent"), Some(&String::from("curl/8")));
    assert_eq!(request.body, "");
}

#[test]
fn the_body_is_cut_at_the_length_and_at_the_end() {
    assert_eq!(parse(b"PUT /x HTTP/1.1\r\nContent-Length: 3\r\n\r\nhello").body, "hel");
    assert_eq!(parse(b"PUT /x HTTP/1.1\r\nContent-Length: 50\r\n\r\nhello").body, "hello");
    assert_eq!(parse(b"PUT /x HTTP/1.1\r\nContent-Length: 4\r\n\r\n").body, "");
    assert_eq!(parse(b"PUT /x HTTP/1.1\r\nContent-Length: 0\r\n\r\nhello").body, "");
    assert_eq!(parse(b"PUT /x HTTP/1.1\r\nContent-Length: +2\r\n\r\nhello").body, "he");
}

#[test]
fn a_body_that_is_not_utf8_is_read_with_replacements() {
    let request = parse(b"PUT /x HTTP/1.1\r\nContent-Length: 4\r\n\r\na\xffb\xc3");
    assert_eq!(request.body, "a\u{fffd}b\u{fffd}");
}

#[test]
fn the_last_of_several_headers_counts() {
    let request = parse(b"GET / HTTP/1.1\r\nX: 1\r\nY: 2\r\nX: 3\r\n\r\n");
    assert_eq!(request.headers.len(), 3);
    assert_eq!(request.headers.get("X"), Some(&String::from("3")));
    assert_eq!(request.headers.get("Y"), Some(&String::from("2")));
    let request = parse(b"PUT / HTTP/1.1\r\nContent-Length: 1\r\nContent-Length: 2\r\n\r\nabc");
    assert_eq!(request.body, "ab");
}

#[test]
fn a_header_is_split_at_its_first_colon() {
    let request = parse(b"GET / HTTP/1.1\r\nHost : example.com:8080 \r\n\r\n");
    assert_eq!(request.headers.get("Host"), Some(&String::from("example.com:8080")));
    let request = parse(b"GET / HTTP/1.1\r\n:\r\n\r\n");
    assert_eq!(request.headers.get(""), Some(&String::new()));
}

#[test]
fn the_status_line_is_split_at_its_spaces() {
    let request = parse(b"GET\r\n\r\n");
    assert_eq!(request.method, HttpMethod::UNKNOWN);
    assert_eq!(request.path.path, "");

    let request = parse(b"GET /x\r\n\r\n");
    assert_eq!(request.method, HttpMethod::GET);
    assert_eq!(request.path.path, "/x\r\n");

    let request = parse(b"GET  /x HTTP/1.1\r\n\r\n");
    assert_eq!(request.method, HttpMethod::GET);
    assert_eq!(request.path.path, "");

    let request = parse(b"PATCH /x?q HTTP/1.1 extra words\r\n\r\n");
    assert_eq!(request.method, HttpMethod::UNKNOWN);
    assert_eq!(request.path.path, "/x");
    assert_eq!(request.path.query, "q");
}

#[test]
fn an_empty_status_line_is_refused() {
    assert!(matches!(refused(b""), ParseError::EmptyStatusLine));
    assert!(matches!(refused(b"\r\n\r\n"), ParseError::EmptyStatusLine));
    assert!(matches!(refused(b"  \t\r\nHost: x\r\n\r\n"), ParseError::EmptyStatusLine));
}

#[test]
fn a_header_line_without_a_colon_is_refused() {
    match refused(b"GET / HTTP/1.1\r\n  no colon \r\n\r\n") {
        ParseError::InvalidHeaderLine(line) => assert_eq!(line, "no colon"),
        other => panic!("{:?}", other),
    }
    match refused(b"GET / HTTP/1.1\r\nHost: x\r\n") {
        ParseError::InvalidHeaderLine(line) => assert_eq!(line, ""),
        other => panic!("{:?}", other),
    }
    match refused(b"GET / HTTP/1.1\r\nHost: x\n\n") {
        ParseError::InvalidHeaderLine(line) => assert_eq!(line, ""),
        other => panic!("{:?}", other),
    }
    assert!(matches!(refused(b"GET / HTTP/1.1"), ParseError::InvalidHeaderLine(_)));
}

#[test]
fn a_length_that_is_no_number_is_refused() {
    assert!(matches!(
        refused(b"GET / HTTP/1.1\r\nContent-Length: five\r\n\r\n"),
        ParseError::InvalidContentLength
    ));
    assert!(matches!(
        refused(b"GET / HTTP/1.1\r\nContent-Length: -1\r\n\r\n"),
        ParseError::InvalidContentLength
    ));
    assert!(matches!(
        refused(b"GET / HTTP/1.1\r\nContent-Length:\r\n\r\n"),
        ParseError::InvalidContentLength
    ));
    assert!(matches!(
        refused(b"GET / HTTP/1.1\r\nContent-Length: 99999999999999999999\r\n\r\n"),
        ParseError::InvalidContentLength
    ));
}

#[test]
fn a_line_that_is_not_utf8_is_refused() {
    assert!(matches!(refused(b"GET /\xff HTTP/1.1\r\n\r\n"), ParseError::InvalidUtf8));
    assert!(matches!(refused(b"GET / HTTP/1.1\r\nX: \xc3\r\n\r\n"), ParseError::InvalidUtf8));
}

#[test]
fn parse_errors_in_words() {
    assert_eq!(ParseError::EmptyStatusLine.message(), "Received empty status line");
    assert_eq!(
        ParseError::InvalidHeaderLine(String::from("oops")).message(),
        "Invalid header line: 'oops'"
    );
    assert_eq!(ParseError::InvalidContentLength.message(), "Invalid Content-Length value");
    assert_eq!(ParseError::InvalidUtf8.message(), "stream did not contain valid UTF-8");
}

#[test]
fn the_parts_of_the_reader_on_their_own() {
    let (method, path) = match Request::parse_status_line("GET /a?b HTTP/1.1\r\n") {
        Ok(parts) => parts,
        Err(_) => panic!("no status line"),
    };
    assert_eq!(method, HttpMethod::GET);
    assert_eq!(path.path, "/a");
    assert_eq!(path.query, "b");
    assert!(matches!(Request::parse_status_line(" "), Err(ParseError::EmptyStatusLine)));

    let bytes = b"skipA: 1\r\nB:2\r\n\r\nbody";
    let (headers, behind) = match Request::parse_headers(bytes, 4) {
        Ok(parts) => parts,
        Err(_) => panic!("no headers"),
    };
    assert_eq!(headers.get("A"), Some(&String::from("1")));
    assert_eq!(headers.get("B"), Some(&String::from("2")));
    assert_eq!(behind, 17);

    assert_eq!(Request::parse_body(bytes, behind, "3").ok(), Some(String::from("bod")));
    assert_eq!(Request::parse_body(bytes, behind, "0").ok(), Some(String::new()));
    assert_eq!(Request::parse_body(bytes, bytes.len(), "3").ok(), Some(String::new()));
    assert!(matches!(
        Request::parse_body(bytes, behind, "x"),
        Err(ParseError::InvalidContentLength)
    ));

    assert_eq!(clean_header_value("  text/html \r\n"), "text/html");
}

#[test]
fn headers_keep_their_order() {
    let mut headers = Headers::new();
    assert_eq!(headers.len(), 0);
    assert_eq!(headers.get("a"), None);
    headers.insert(String::from("a"), String::from("1"));
    headers.insert(String::from("b"), String::from("2"));
    headers.insert(String::from("a"), String::from("3"));
    assert_eq!(headers.len(), 3);
    assert_eq!(headers.get("a"), Some(&String::from("3")));
    assert_eq!(headers.get("b"), Some(&String::from("2")));
    assert_eq!(headers.get("A"), None);
}

#[test]
fn a_route_of_one_byte_matches_exactly() {
    let root = Route::new("/", HttpMethod::GET, Handler::Empty);
    assert!(root.matches(&String::from("/")));
    assert!(!root.matches(&String::from("/index.html")));
    assert!(!root.matches(&String::new()));

    let echo = Route::new("/echo/", HttpMethod::GET, Handler::Echo);
    assert!(echo.matches(&String::from("/echo/")));
    assert!(echo.matches(&String::from("/echo/abc")));
    assert!(!echo.matches(&String::from("/echo")));

    let wide = Route::new("\u{e9}", HttpMethod::GET, Handler::Empty);
    assert!(wide.matches(&String::from("\u{e9}t\u{e9}")));

    let empty = Route::new("", HttpMethod::GET, Handler::Empty);
    assert!(empty.matches(&String::from("/anything")));
}

fn handler_for(router: &Router, text: &[u8]) -> Handler {
    router.get_handler(&parse(text))
}

#[test]
fn the_router_picks_the_first_route_for_method_and_path() {
    let router = setup_router();
    assert_eq!(handler_for(&router, b"GET / HTTP/1.1\r\n\r\n"), Handler::Empty);
    assert_eq!(handler_for(&router, b"GET /echo/abc HTTP/1.1\r\n\r\n"), Handler::Echo);
    assert_eq!(handler_for(&router, b"GET /user-agent HTTP/1.1\r\n\r\n"), Handler::UserAgent);
    assert_eq!(handler_for(&router, b"GET /files/a.txt HTTP/1.1\r\n\r\n"), Handler::GetFile);
    assert_eq!(handler_for(&router, b"POST /files/a.txt HTTP/1.1\r\n\r\n"), Handler::PostFile);
    assert_eq!(handler_for(&router, b"PUT /files/a.txt HTTP/1.1\r\n\r\n"), Handler::NotFound);
    assert_eq!(handler_for(&router, b"POST / HTTP/1.1\r\n\r\n"), Handler::NotFound);
    assert_eq!(handler_for(&router, b"GET /other HTTP/1.1\r\n\r\n"), Handler::NotFound);
    assert_eq!(handler_for(&router, b"GET /echo/x?y=1 HTTP/1.1\r\n\r\n"), Handler::Echo);

    let empty = Router::new(Vec::new());
    assert_eq!(handler_for(&empty, b"GET / HTTP/1.1\r\n\r\n"), Handler::NotFound);

    let shadowed = Router::new(vec![
        Route::new("/a", HttpMethod::GET, Handler::Echo),
        Route::new("/ab", HttpMethod::GET, Handler::UserAgent),
    ]);
    assert_eq!(handler_for(&shadowed, b"GET /abc HTTP/1.1\r\n\r\n"), Handler::Echo);
}

#[test]
fn answers_without_a_body() {
    assert_eq!(handle_404(), "HTTP/1.1 404 Not Found\r\n\r\n");
    assert_eq!(handle_200(), "HTTP/1.1 200 OK\r\n\r\n");
}

#[test]
fn echo_answers_with_the_rest_of_the_path() {
    let request = parse(b"GET /echo/hello HTTP/1.1\r\n\r\n");
    assert_eq!(
        handle_echo(&request),
        "HTTP/1.1 200 OK\r\nContent-Type: text/plain\r\nContent-Length: 5\r\n\r\nhello"
    );
    let request = parse(b"GET /echo//echo/caf\xc3\xa9 HTTP/1.1\r\n\r\n");
    assert_eq!(
        handle_echo(&request),
        "HTTP/1.1 200 OK\r\nContent-Type: text/plain\r\nContent-Length: 5\r\n\r\ncaf\u{e9}"
    );
    let request = parse(b"GET /echo/ HTTP/1.1\r\n\r\n");
    assert_eq!(
        handle_echo(&request),
        "HTTP/1.1 200 OK\r\nContent-Type: text/plain\r\nContent-Length: 0\r\n\r\n"
    );
}

#[test]
fn user_agent_answers_with_the_header() {
    let request = parse(b"GET /user-agent HTTP/1.1\r\nUser-Agent: curl/8.0\r\n\r\n");
    assert_eq!(
        handle_user_agent(&request),
        "HTTP/1.1 200 OK\r\nContent-Type: text/plain\r\nContent-Length: 8\r\n\r\ncurl/8.0"
    );
    let request = parse(b"GET /user-agent HTTP/1.1\r\n\r\n");
    assert_eq!(
        handle_user_agent(&request),
        "HTTP/1.1 200 OK\r\nContent-Type: text/plain\r\nContent-Length: 7\r\n\r\nUnknown"
    );
}

#[test]
fn files_lie_below_the_directory() {
    let with = Cfg { files_dir: Some(String::from("test_dir")) };
    let without = Cfg { files_dir: None };
    let request = parse(b"GET /files/a/b.txt HTTP/1.1\r\n\r\n");
    assert_eq!(file_path(&with, &request), Some(String::from("test_dir/a/b.txt")));
    assert_eq!(file_path(&without, &request), None);
    let request = parse(b"GET /files//files/x HTTP/1.1\r\n\r\n");
    assert_eq!(file_path(&with, &request), Some(String::from("test_dir/x")));
}

#[test]
fn a_file_is_answered_with_its_content() {
    let with = Cfg { files_dir: Some(String::from("test_dir")) };
    let without = Cfg { files_dir: None };
    assert_eq!(
        handle_get_file(&with, Some("0123456789ab")),
        "HTTP/1.1 200 OK\r\nContent-Type: application/octet-stream\r\nContent-Length: 12\r\n\r\n0123456789ab"
    );
    assert_eq!(handle_get_file(&with, None), "HTTP/1.1 404 Not Found\r\n\r\n");
    assert_eq!(handle_get_file(&without, Some("x")), "HTTP/1.1 404 Not Found\r\n\r\n");
    assert_eq!(handle_get_file(&without, None), "HTTP/1.1 404 Not Found\r\n\r\n");
}

#[test]
fn a_stored_file_is_answered_with_created() {
    let with = Cfg { files_dir: Some(String::from("test_dir")) };
    let without = Cfg { files_dir: None };
    assert_eq!(
        handle_post_file(&with, true),
        "HTTP/1.1 201 Created\r\nContent-Type: text/plain\r\nContent-Length: 0\r\n\r\n"
    );
    assert_eq!(handle_post_file(&with, false), "HTTP/1.1 500 Internal Server Error\r\n\r\n");
    assert_eq!(handle_post_file(&without, true), "HTTP/1.1 404 Not Found\r\n\r\n");
}

fn args(list: &[&str]) -> Vec<String> {
    list.iter().map(|arg| String::from(*arg)).collect()
}

#[test]
fn the_directory_stands_behind_its_flag() {
    assert_eq!(DIR_FLAG, "--directory");
    let given = args(&["server", "--directory", "test_dir"]);
    assert!(names_directory(&given));
    assert_eq!(setup_directory(&given), Some(String::from("test_dir")));
    assert_eq!(setup_cfg(&given).files_dir, Some(String::from("test_dir")));

    let none = args(&["server", "--verbose"]);
    assert!(names_directory(&none));
    assert_eq!(setup_directory(&none), None);
    assert_eq!(setup_cfg(&none).files_dir, None);
    assert!(names_directory(&Vec::new()));
    assert_eq!(setup_directory(&Vec::new()), None);

    let twice = args(&["--directory", "a", "--directory", "b"]);
    assert_eq!(setup_directory(&twice), Some(String::from("a")));

    let doubled = args(&["--directory", "--directory"]);
    assert!(names_directory(&doubled));
    assert_eq!(setup_directory(&doubled), Some(String::from("--directory")));

    assert!(!names_directory(&args(&["server", "--directory"])));
    assert!(!names_directory(&args(&["--directory"])));
}
