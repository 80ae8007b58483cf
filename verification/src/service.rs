//! What is done with one request: it is matched against the patterns of
//! its server, then forwarded to a backend or answered with a file.

use crate::config::{pattern_views, text_view, Action, ActionView, Pattern, PatternView, Server};
use crate::net::SocketAddr;
use crate::service::headers::header_entries;
use crate::text::{starts_with, strip_first};
use crate::threading::wrr::weight_of;
use http::header::HeaderMap;
use vstd::prelude::*;

pub mod files;
pub mod headers;
pub mod proxy;
pub mod request;
pub mod response;

pub use files::transfer;
pub use proxy::forward;
pub use request::ProxyRequest;
pub use response::{LocalResponse, ProxyResponse};

verus! {

/// Whether a pattern is for a URI: the URI begins with the prefix of the
/// pattern, character by character.
pub open spec fn matches(pattern: PatternView, uri: Seq<char>) -> bool {
    pattern.uri.is_prefix_of(uri)
}

/// Whether `index` is the place of the first pattern that is for `uri`.
pub open spec fn is_first_match(patterns: Seq<PatternView>, uri: Seq<char>, index: int) -> bool {
    &&& 0 <= index < patterns.len()
    &&& matches(patterns[index], uri)
    &&& forall|earlier: int| 0 <= earlier < index ==> !matches(#[trigger] patterns[earlier], uri)
}

/// Whether no pattern is for `uri`.
pub open spec fn no_match(patterns: Seq<PatternView>, uri: Seq<char>) -> bool {
    forall|index: int| 0 <= index < patterns.len() ==> !matches(#[trigger] patterns[index], uri)
}

/// A path without the slash it begins with, if it begins with one.
pub open spec fn relative(path: Seq<char>) -> Seq<char> {
    if path.len() > 0 && path[0] == '/' {
        path.skip(1)
    } else {
        path
    }
}

/// The place of the first pattern that is for `uri`. Patterns are tried in
/// their order, and the first that matches wins.
pub fn find_pattern(patterns: &Vec<Pattern>, uri: &str) -> (found: Option<usize>)
    ensures
        match found {
            Some(index) => is_first_match(pattern_views(patterns@), uri@, index as int),
            None => no_match(pattern_views(patterns@), uri@),
        },
{
    let mut index: usize = 0;
    while index < patterns.len()
        invariant
            index <= patterns.len(),
            forall|earlier: int|
                0 <= earlier < index ==> !matches(#[trigger] pattern_views(patterns@)[earlier], uri@),
        decreases patterns.len() - index,
    {
        if starts_with(uri, patterns[index].uri.as_str()) {
            return Some(index);
        }
        index += 1;
    }
    None
}

/// What is to be done with a request.
pub enum Route {
    /// No pattern is for the request.
    NotFound,
    /// The request goes to the backend at `to`, as the pattern at `pattern`
    /// says.
    Forward { pattern: usize, to: SocketAddr },
    /// The file at `path` below `directory` is served, as the pattern at
    /// `pattern` says.
    Serve { pattern: usize, directory: String, path: String },
}

/// The service that one connection gets: the configuration of the server
/// that took it, and the two ends of the connection, as text.
pub struct Xnav<'a> {
    config: &'a Server,
    client_addr: String,
    server_addr: String,
}

impl<'a> Xnav<'a> {
    /// The configuration of the server.
    pub closed spec fn config(&self) -> Server {
        *self.config
    }

    /// The address of the client, as text.
    pub closed spec fn client(&self) -> Seq<char> {
        self.client_addr@
    }

    /// The address on which the connection was taken, as text.
    pub closed spec fn server(&self) -> Seq<char> {
        self.server_addr@
    }

    /// The service for a connection from `client_addr`, taken on
    /// `server_addr` by a server that runs on `config`.
    pub fn new(config: &'a Server, client_addr: String, server_addr: String) -> (service: Self)
        ensures
            service.config() == *config,
            service.client() == client_addr@,
            service.server() == server_addr@,
    {
        Xnav { config, client_addr, server_addr }
    }

    /// Decides what is done with a request, from its URI and the path in
    /// it. The first pattern whose prefix the URI begins with decides; a
    /// request that no pattern is for is not found. A request to forward
    /// goes to a backend that the scheduler of the pattern picks, one with
    /// a weight above zero. A request for a file is for the path without
    /// the slash at its start.
    pub fn call(&self, uri: &str, path: &str) -> (route: Route)
        ensures
            match route {
                Route::NotFound => no_match(self.config()@.patterns, uri@),
                Route::Forward { pattern, to } => {
                    &&& is_first_match(self.config()@.patterns, uri@, pattern as int)
                    &&& self.config()@.patterns[pattern as int].action matches ActionView::Forward(
                        forward,
                    )
                    &&& weight_of(forward.backends, to) > 0
                },
                Route::Serve { pattern, directory, path: file } => {
                    &&& is_first_match(self.config()@.patterns, uri@, pattern as int)
                    &&& self.config()@.patterns[pattern as int].action == ActionView::Serve(
                        directory@,
                    )
                    &&& file@ == relative(path@)
                },
            },
    {
        let Some(pattern) = find_pattern(&self.config.patterns, uri) else {
            return Route::NotFound;
        };
        match &self.config.patterns[pattern].action {
            Action::Forward(forward) => Route::Forward { pattern, to: forward.next_server() },
            Action::Serve(directory) => {
                let file = strip_first(path, '/');
                Route::Serve { pattern, directory: directory.clone(), path: file.to_owned() }
            },
        }
    }

    /// The request with these headers as the proxy passes it on: come from
    /// the client of this connection, taken at this end of it, by a proxy
    /// that goes by the name of the server, if it has one.
    pub fn proxy_request(&self, headers: HeaderMap) -> (request: ProxyRequest)
        ensures
            request.entries() == header_entries(headers),
            request.client() == self.client(),
            request.server() == self.server(),
            request.id() == self.config()@.name,
    {
        let by = match &self.config.name {
            Some(name) => Some(name.clone()),
            None => None,
        };
        ProxyRequest::new(headers, self.client_addr.clone(), self.server_addr.clone(), by)
    }
}

} // verus!
