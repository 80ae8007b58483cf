//! Routes: which of the built-in handlers answers a request.

use crate::server::handlers::Handler;
use crate::server::request::Request;
use crate::server::wire::HttpMethod;
use crate::text::{same, starts_with};
use vstd::prelude::*;
use vstd::string::StringSliceAdditionalSpecFns;
use vstd::utf8::encode_utf8;

verus! {

/// A path, a method, and the handler for the requests that match both.
pub struct Route {
    path: String,
    method: HttpMethod,
    handler: Handler,
}

/// What a `Route` is made of.
pub struct RouteView {
    pub path: Seq<char>,
    pub method: HttpMethod,
    pub handler: Handler,
}

impl RouteView {
    /// Whether the route is for a path. A route whose path is one byte
    /// long, as the root is, is for that path alone; any other route is for
    /// every path that begins with its own.
    pub open spec fn matches(self, path: Seq<char>) -> bool {
        if encode_utf8(self.path).len() == 1 {
            self.path == path
        } else {
            self.path.is_prefix_of(path)
        }
    }

    /// Whether the route is for a request: for its method and its path.
    pub open spec fn serves(self, method: HttpMethod, path: Seq<char>) -> bool {
        self.method == method && self.matches(path)
    }
}

impl View for Route {
    type V = RouteView;

    closed spec fn view(&self) -> RouteView {
        RouteView { path: self.path@, method: self.method, handler: self.handler }
    }
}

impl Route {
    /// The route for `path` and `method`, answered by `handler`.
    pub fn new(path: &str, method: HttpMethod, handler: Handler) -> (route: Route)
        ensures
            route@ == (RouteView { path: path@, method, handler }),
    {
        Route { path: path.to_owned(), method, handler }
    }

    /// Whether the route is for a path.
    pub fn matches(&self, path: &String) -> (yes: bool)
        ensures
            yes == self@.matches(path@),
    {
        if self.path.as_str().as_bytes().len() == 1 {
            return same(self.path.as_str(), path.as_str());
        }
        starts_with(path.as_str(), self.path.as_str())
    }
}

/// The views of the routes of a list, in order.
pub open spec fn route_views(routes: Seq<Route>) -> Seq<RouteView> {
    routes.map_values(|route: Route| route@)
}

/// The handler for a request: that of the first route that is for its
/// method and its path, or the one that answers "not found".
pub open spec fn handler_of(routes: Seq<RouteView>, method: HttpMethod, path: Seq<char>) -> Handler
    decreases routes.len(),
{
    if routes.len() == 0 {
        Handler::NotFound
    } else if routes.first().serves(method, path) {
        routes.first().handler
    } else {
        handler_of(routes.drop_first(), method, path)
    }
}

/// The routes of a server, in the order in which they are tried.
pub struct Router {
    routes: Vec<Route>,
}

impl View for Router {
    type V = Seq<RouteView>;

    closed spec fn view(&self) -> Seq<RouteView> {
        route_views(self.routes@)
    }
}

impl Router {
    /// The router over `routes`.
    pub fn new(routes: Vec<Route>) -> (router: Router)
        ensures
            router@ == route_views(routes@),
    {
        Router { routes }
    }

    /// The handler for a request.
    pub fn get_handler(&self, request: &Request) -> (handler: Handler)
        ensures
            handler == handler_of(self@, request@.method, request@.path),
    {
        let mut place: usize = 0;
        assert(self@.skip(0) =~= self@);
        while place < self.routes.len()
            invariant
                place <= self.routes.len(),
                handler_of(self@, request@.method, request@.path) == handler_of(
                    self@.skip(place as int),
                    request@.method,
                    request@.path,
                ),
            decreases self.routes.len() - place,
        {
            let route = &self.routes[place];
            proof {
                let rest = self@.skip(place as int);
                assert(rest.first() == route@);
                assert(rest.drop_first() =~= self@.skip(place + 1));
            }
            if route.method == request.method && route.matches(&request.path.path) {
                return route.handler;
            }
            place += 1;
        }
        Handler::NotFound
    }
}

} // verus!
