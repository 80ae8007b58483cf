//! Responses on their way to the client: those of a backend, which are
//! marked with the name of the proxy, and those that the proxy makes itself.

use crate::service::headers::{header_entries, is_field_name, is_field_value, set_field, HeaderError};
use http::header::HeaderMap;
use vstd::prelude::*;
use vstd::string::StringSliceAdditionalSpecFns;
use vstd::utf8::encode_utf8;

verus! {

/// The name of the header in which a server names itself.
pub fn server() -> (name: &'static str)
    ensures
        name@ == "server"@,
        is_field_name(name@),
{
    proof {
        reveal_strlit("server");
    }
    "server"
}

/// The name by which the proxy goes in the `Server` header: its product
/// name, a slash and its version.
pub open spec fn server_header() -> Seq<char> {
    "rxh/"@ + crate::VERSION@
}

/// The value of the `Server` header.
pub fn rxh_server_header() -> (value: String)
    ensures
        value@ == server_header(),
{
    let mut value = "rxh/".to_owned();
    value.append(crate::VERSION);
    value
}

/// The headers of a response received from a backend.
pub struct ProxyResponse {
    headers: HeaderMap,
}

impl ProxyResponse {
    /// What the headers hold.
    pub closed spec fn entries(&self) -> Map<Seq<char>, Seq<Seq<u8>>> {
        header_entries(self.headers)
    }

    /// The response with these headers.
    pub fn new(headers: HeaderMap) -> (response: Self)
        ensures
            response.entries() == header_entries(headers),
    {
        ProxyResponse { headers }
    }

    /// The headers as they go to the client: the `Server` header is set to
    /// the one value that names the proxy, and nothing else is changed. The
    /// map may refuse to grow.
    pub fn into_forwarded(self) -> (result: Result<HeaderMap, HeaderError>)
        ensures
            match result {
                Ok(headers) => header_entries(headers) == self.entries().insert(
                    "server"@,
                    seq![encode_utf8(server_header())],
                ),
                Err(error) => error == HeaderError::Full,
            },
    {
        let ProxyResponse { headers } = self;
        let mut headers = headers;
        let value = rxh_server_header();
        proof {
            lemma_server_header_is_value();
        }
        match set_field(&mut headers, server(), value.as_str().as_bytes()) {
            Ok(_) => Ok(headers),
            Err(error) => Err(error),
        }
    }
}

/// The name of the proxy may stand in a header.
pub proof fn lemma_server_header_is_value()
    ensures
        is_field_value(encode_utf8(server_header())),
{
    reveal_strlit("rxh/");
    reveal_strlit("0.1.0");
    let text = server_header();
    assert(text =~= seq!['r', 'x', 'h', '/', '0', '.', '1', '.', '0']);
    assert(vstd::utf8::is_ascii_chars(text));
    vstd::utf8::is_ascii_chars_encode_utf8(text);
}

/// A response that the proxy makes itself.
pub struct LocalResponse {
    pub status: u16,
    /// The value of the `Server` header.
    pub server: String,
    /// The value of the `Content-Type` header, if there is one.
    pub content_type: Option<&'static str>,
    pub body: Vec<u8>,
}

/// The view of a content type that may be absent.
pub open spec fn content_type_view(content_type: Option<&'static str>) -> Option<Seq<char>> {
    match content_type {
        Some(content_type) => Some(content_type@),
        None => None,
    }
}

impl LocalResponse {
    /// Whether the response has this status, content type and body, and
    /// names the proxy in its `Server` header.
    pub open spec fn holds(&self, status: u16, content_type: Option<Seq<char>>, body: Seq<u8>) -> bool {
        &&& self.status == status
        &&& self.server@ == server_header()
        &&& content_type_view(self.content_type) == content_type
        &&& self.body@ == body
    }

    /// The start of every response of the proxy's own: status 200, the
    /// `Server` header, and nothing else.
    pub fn builder() -> (response: Self)
        ensures
            response.holds(200, None, Seq::empty()),
    {
        LocalResponse {
            status: 200,
            server: rxh_server_header(),
            content_type: None,
            body: Vec::new(),
        }
    }

    /// This response with the given body and its content type.
    pub fn with_body(self, content_type: &'static str, body: Vec<u8>) -> (response: Self)
        ensures
            response.status == self.status,
            response.server == self.server,
            response.content_type == Some(content_type),
            response.body == body,
    {
        LocalResponse { status: self.status, server: self.server, content_type: Some(content_type), body }
    }

    /// The answer to a request that nothing matches, or that asks for a
    /// file that cannot be served.
    pub fn not_found() -> (response: Self)
        ensures
            response.holds(404, Some("text/plain"@), encode_utf8("HTTP 404 NOT FOUND"@)),
    {
        let mut response = LocalResponse::builder().with_body(
            "text/plain",
            "HTTP 404 NOT FOUND".as_bytes_vec(),
        );
        response.status = 404;
        response
    }

    /// The answer to a request whose backend cannot be reached, or answers
    /// out of turn.
    pub fn bad_gateway() -> (response: Self)
        ensures
            response.holds(502, Some("text/plain"@), encode_utf8("HTTP 502 BAD GATEWAY"@)),
    {
        let mut response = LocalResponse::builder().with_body(
            "text/plain",
            "HTTP 502 BAD GATEWAY".as_bytes_vec(),
        );
        response.status = 502;
        response
    }
}

} // verus!
