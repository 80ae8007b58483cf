//! The configuration that the proxy runs on: servers, the patterns they
//! match requests against, and what is done with a request that matches.

use crate::net::SocketAddr;
use crate::threading::wrr::{total_weight, weight_of};
use crate::threading::{make, BoxedScheduler, Scheduler};
use vstd::prelude::*;

pub mod default;
pub mod reader;

verus! {

/// One upstream server and the share of requests it is to get.
#[derive(Clone, Copy, Debug, PartialEq, Eq, Structural)]
pub struct Backend {
    pub address: SocketAddr,
    pub weight: usize,
}

/// The policy by which requests are spread over the backends.
#[derive(Clone, Copy, Debug, PartialEq, Eq, Structural)]
pub enum Algorithm {
    Wrr,
}

/// How the `Forwarded` request header is written.
#[derive(Debug)]
pub struct ForwardedHeaderConfig {
    pub extend: Option<bool>,
    pub by: Option<String>,
}

/// How a response header that lists the hops is written.
#[derive(Clone, Copy, Debug, PartialEq, Eq, Structural)]
pub struct CommonHeaderConfig {
    pub extend: bool,
}

/// How the `Server` response header is written.
#[derive(Clone, Copy, Debug, PartialEq, Eq, Structural)]
pub struct ServerHeaderConfig {
    pub overrides: bool,
    pub version: bool,
}

/// The request headers that a pattern rewrites.
#[derive(Debug)]
pub struct RequestHeaders {
    pub forwarded: Option<ForwardedHeaderConfig>,
}

/// The response headers that a pattern rewrites.
#[derive(Clone, Copy, Debug, PartialEq, Eq, Structural)]
pub struct ResponseHeaders {
    pub via: Option<CommonHeaderConfig>,
    pub server: Option<ServerHeaderConfig>,
}

/// What a pattern does to a request before it is forwarded.
#[derive(Debug)]
pub struct RequestHeaderConfig {
    pub headers: RequestHeaders,
}

/// What a pattern does to a response before it is sent back.
#[derive(Clone, Copy, Debug, PartialEq, Eq, Structural)]
pub struct ResponseHeaderConfig {
    pub headers: ResponseHeaders,
}

impl Clone for ForwardedHeaderConfig {
    fn clone(&self) -> (copy: Self)
        ensures
            copy == *self,
    {
        let by = match &self.by {
            Some(by) => Some(by.clone()),
            None => None,
        };
        ForwardedHeaderConfig { extend: self.extend, by }
    }
}

impl Clone for RequestHeaders {
    fn clone(&self) -> (copy: Self)
        ensures
            copy == *self,
    {
        let forwarded = match &self.forwarded {
            Some(forwarded) => Some(forwarded.clone()),
            None => None,
        };
        RequestHeaders { forwarded }
    }
}

impl Clone for RequestHeaderConfig {
    fn clone(&self) -> (copy: Self)
        ensures
            copy == *self,
    {
        RequestHeaderConfig { headers: self.headers.clone() }
    }
}

/// Whether any of the backends has a weight above zero.
pub fn has_weight(backends: &Vec<Backend>) -> (some: bool)
    ensures
        some == (total_weight(backends@) > 0),
{
    let mut seen: usize = 0;
    while seen < backends.len()
        invariant
            seen <= backends.len(),
            total_weight(backends@.take(seen as int)) == 0,
        decreases backends.len() - seen,
    {
        proof {
            let next = backends@.take(seen + 1);
            assert(next.drop_last() == backends@.take(seen as int));
            assert(next.last() == backends@[seen as int]);
            if backends@[seen as int].weight > 0 {
                lemma_weight_grows(backends@, seen + 1);
            }
        }
        if backends[seen].weight > 0 {
            return true;
        }
        seen += 1;
    }
    proof {
        assert(backends@.take(seen as int) == backends@);
    }
    false
}

/// The weights of the first backends never sum to more than those of all.
proof fn lemma_weight_grows(backends: Seq<Backend>, first: int)
    requires
        0 <= first <= backends.len(),
    ensures
        total_weight(backends.take(first)) <= total_weight(backends),
    decreases backends.len() - first,
{
    if first < backends.len() {
        let next = backends.take(first + 1);
        assert(next.drop_last() == backends.take(first));
        lemma_weight_grows(backends, first + 1);
    } else {
        assert(backends.take(first) == backends);
    }
}

/// What a `Forward` is made of.
pub struct ForwardView {
    pub backends: Seq<Backend>,
    pub algorithm: Algorithm,
}

/// Requests go to one of several backends, picked by a scheduler. At least
/// one backend has a weight above zero, and the scheduler picks among the
/// backends that have one.
pub struct Forward {
    backends: Vec<Backend>,
    algorithm: Algorithm,
    scheduler: BoxedScheduler,
}

impl View for Forward {
    type V = ForwardView;

    closed spec fn view(&self) -> ForwardView {
        ForwardView { backends: self.backends@, algorithm: self.algorithm }
    }
}

impl Forward {
    #[verifier::type_invariant]
    spec fn well_formed(self) -> bool {
        &&& total_weight(self.backends@) > 0
        &&& forall|server: SocketAddr|
            self.scheduler.servers().contains(server) <==> weight_of(self.backends@, server) > 0
    }

    /// The addresses among which the scheduler picks.
    pub closed spec fn servers(&self) -> Set<SocketAddr> {
        self.scheduler.servers()
    }

    /// Forwarding to `backends` by `algorithm`, with a scheduler made for
    /// them.
    pub fn new(backends: Vec<Backend>, algorithm: Algorithm) -> (forward: Self)
        requires
            total_weight(backends@) > 0,
        ensures
            forward@ == (ForwardView { backends: backends@, algorithm }),
    {
        let scheduler = make(algorithm, &backends);
        Forward { backends, algorithm, scheduler }
    }

    /// The backends.
    pub fn backends(&self) -> (backends: &Vec<Backend>)
        ensures
            backends@ == self@.backends,
            total_weight(backends@) > 0,
    {
        proof {
            use_type_invariant(self);
        }
        &self.backends
    }

    /// The algorithm.
    pub fn algorithm(&self) -> (algorithm: Algorithm)
        ensures
            algorithm == self@.algorithm,
    {
        self.algorithm
    }

    /// The address of the backend that is to take the next request: one
    /// with a weight above zero.
    pub fn next_server(&self) -> (server: SocketAddr)
        ensures
            weight_of(self@.backends, server) > 0,
    {
        proof {
            use_type_invariant(self);
        }
        self.scheduler.next_server()
    }
}

impl Clone for Forward {
    /// The same backends and algorithm, with a scheduler of their own.
    fn clone(&self) -> (copy: Self)
        ensures
            copy@ == self@,
    {
        proof {
            use_type_invariant(self);
        }
        let backends = self.backends.clone();
        assert(backends@ =~= self.backends@);
        Forward::new(backends, self.algorithm)
    }
}

/// The ways to name one backend: by its address alone, with weight one, or
/// with a weight.
#[derive(Clone, Copy, Debug, PartialEq, Eq, Structural)]
pub enum BackendOption {
    Simple(SocketAddr),
    Weighted { address: SocketAddr, weight: usize },
}

impl From<BackendOption> for Backend {
    fn from(value: BackendOption) -> (backend: Backend) {
        match value {
            BackendOption::Simple(address) => Backend { address, weight: 1 },
            BackendOption::Weighted { address, weight } => Backend { address, weight },
        }
    }
}

impl vstd::std_specs::convert::FromSpecImpl<BackendOption> for Backend {
    open spec fn obeys_from_spec() -> bool {
        true
    }

    open spec fn from_spec(value: BackendOption) -> Backend {
        match value {
            BackendOption::Simple(address) => Backend { address, weight: 1 },
            BackendOption::Weighted { address, weight } => Backend { address, weight },
        }
    }
}

/// One value or many of them.
pub enum OneOrMany<T> {
    One(T),
    Many(Vec<T>),
}

impl<T> OneOrMany<T> {
    /// The values, in order.
    pub open spec fn items(self) -> Seq<T> {
        match self {
            OneOrMany::One(item) => seq![item],
            OneOrMany::Many(items) => items@,
        }
    }

    /// The values as a vector.
    pub fn into_vec(self) -> (items: Vec<T>)
        ensures
            items@ == self.items(),
    {
        match self {
            OneOrMany::One(item) => {
                let mut items = Vec::new();
                items.push(item);
                items
            },
            OneOrMany::Many(items) => items,
        }
    }
}

/// The ways to name the backends of a pattern: as a list, spread by the
/// default algorithm, or together with the algorithm.
pub enum ForwardOption {
    Simple(Vec<Backend>),
    WithAlgorithm { algorithm: Algorithm, backends: Vec<Backend> },
}

impl View for ForwardOption {
    type V = ForwardView;

    open spec fn view(&self) -> ForwardView {
        match *self {
            ForwardOption::Simple(backends) => ForwardView {
                backends: backends@,
                algorithm: Algorithm::Wrr,
            },
            ForwardOption::WithAlgorithm { algorithm, backends } => ForwardView {
                backends: backends@,
                algorithm,
            },
        }
    }
}

impl Forward {
    /// The forwarding that `option` describes. At least one of its backends
    /// has a weight above zero.
    pub fn from_option(option: ForwardOption) -> (forward: Self)
        requires
            total_weight(option@.backends) > 0,
        ensures
            forward@ == option@,
    {
        match option {
            ForwardOption::Simple(backends) => Forward::new(backends, Algorithm::Wrr),
            ForwardOption::WithAlgorithm { algorithm, backends } => Forward::new(
                backends,
                algorithm,
            ),
        }
    }
}

/// What an `Action` is made of.
pub enum ActionView {
    Forward(ForwardView),
    Serve(Seq<char>),
}

/// What is done with a request that matches a pattern: it is forwarded to
/// a backend, or a file below a directory is served.
pub enum Action {
    Forward(Forward),
    Serve(String),
}

impl View for Action {
    type V = ActionView;

    open spec fn view(&self) -> ActionView {
        match *self {
            Action::Forward(forward) => ActionView::Forward(forward@),
            Action::Serve(directory) => ActionView::Serve(directory@),
        }
    }
}

impl Clone for Action {
    fn clone(&self) -> (copy: Self)
        ensures
            copy@ == self@,
    {
        match self {
            Action::Forward(forward) => Action::Forward(forward.clone()),
            Action::Serve(directory) => Action::Serve(directory.clone()),
        }
    }
}

/// What a `Pattern` is made of.
pub struct PatternView {
    pub uri: Seq<char>,
    pub action: ActionView,
    pub request: Option<RequestHeaderConfig>,
    pub response: Option<ResponseHeaderConfig>,
}

/// A rule for the requests whose URI starts with `uri`.
pub struct Pattern {
    pub uri: String,
    pub action: Action,
    pub request: Option<RequestHeaderConfig>,
    pub response: Option<ResponseHeaderConfig>,
}

impl View for Pattern {
    type V = PatternView;

    open spec fn view(&self) -> PatternView {
        PatternView {
            uri: self.uri@,
            action: self.action@,
            request: self.request,
            response: self.response,
        }
    }
}

impl Clone for Pattern {
    fn clone(&self) -> (copy: Self)
        ensures
            copy@ == self@,
    {
        let request = match &self.request {
            Some(request) => Some(request.clone()),
            None => None,
        };
        Pattern {
            uri: self.uri.clone(),
            action: self.action.clone(),
            request,
            response: self.response,
        }
    }
}

/// The views of the patterns of a list, in order.
pub open spec fn pattern_views(patterns: Seq<Pattern>) -> Seq<PatternView> {
    patterns.map_values(|pattern: Pattern| pattern@)
}

/// A copy of a list of patterns.
pub fn clone_patterns(patterns: &Vec<Pattern>) -> (copy: Vec<Pattern>)
    ensures
        pattern_views(copy@) == pattern_views(patterns@),
{
    let mut copy: Vec<Pattern> = Vec::new();
    let mut done: usize = 0;
    while done < patterns.len()
        invariant
            done <= patterns.len(),
            pattern_views(copy@) == pattern_views(patterns@.take(done as int)),
        decreases patterns.len() - done,
    {
        let ghost before = copy@;
        copy.push(patterns[done].clone());
        proof {
            assert(pattern_views(copy@) =~= pattern_views(before).push(copy@.last()@));
            assert(pattern_views(patterns@.take(done + 1)) =~= pattern_views(
                patterns@.take(done as int),
            ).push(patterns@[done as int]@));
        }
        done += 1;
    }
    proof {
        assert(patterns@.take(done as int) == patterns@);
    }
    copy
}

/// What a `Server` is made of.
pub struct ServerView {
    pub listen: Seq<SocketAddr>,
    pub patterns: Seq<PatternView>,
    pub max_connections: usize,
    pub name: Option<Seq<char>>,
    pub log_name: Seq<char>,
}

/// One server: the addresses it listens on, its patterns in the order in
/// which they are tried, and the number of connections it holds at once.
pub struct Server {
    pub listen: Vec<SocketAddr>,
    pub patterns: Vec<Pattern>,
    pub max_connections: usize,
    pub name: Option<String>,
    pub log_name: String,
}

/// The view of a string that may be absent.
pub open spec fn text_view(text: Option<String>) -> Option<Seq<char>> {
    match text {
        Some(text) => Some(text@),
        None => None,
    }
}

impl View for Server {
    type V = ServerView;

    open spec fn view(&self) -> ServerView {
        ServerView {
            listen: self.listen@,
            patterns: pattern_views(self.patterns@),
            max_connections: self.max_connections,
            name: text_view(self.name),
            log_name: self.log_name@,
        }
    }
}

impl Server {
    /// A server that can run listens on at least one address and has at
    /// least one pattern.
    pub open spec fn valid(&self) -> bool {
        &&& self.listen@.len() > 0
        &&& self.patterns@.len() > 0
    }
}

impl Clone for Server {
    fn clone(&self) -> (copy: Self)
        ensures
            copy@ == self@,
    {
        let name = match &self.name {
            Some(name) => Some(name.clone()),
            None => None,
        };
        let listen = self.listen.clone();
        assert(listen@ =~= self.listen@);
        Server {
            listen,
            patterns: clone_patterns(&self.patterns),
            max_connections: self.max_connections,
            name,
            log_name: self.log_name.clone(),
        }
    }
}

/// The views of the servers of a list, in order.
pub open spec fn server_views(servers: Seq<Server>) -> Seq<ServerView> {
    servers.map_values(|server: Server| server@)
}

/// The whole configuration: the servers to run.
pub struct Config {
    pub servers: Vec<Server>,
}

impl View for Config {
    type V = Seq<ServerView>;

    open spec fn view(&self) -> Seq<ServerView> {
        server_views(self.servers@)
    }
}

impl Clone for Config {
    fn clone(&self) -> (copy: Self)
        ensures
            copy@ == self@,
    {
        let mut servers: Vec<Server> = Vec::new();
        let mut done: usize = 0;
        while done < self.servers.len()
            invariant
                done <= self.servers.len(),
                server_views(servers@) == server_views(self.servers@.take(done as int)),
            decreases self.servers.len() - done,
        {
            let ghost before = servers@;
            servers.push(self.servers[done].clone());
            proof {
                assert(server_views(servers@) =~= server_views(before).push(servers@.last()@));
                assert(server_views(self.servers@.take(done + 1)) =~= server_views(
                    self.servers@.take(done as int),
                ).push(self.servers@[done as int]@));
            }
            done += 1;
        }
        proof {
            assert(self.servers@.take(done as int) == self.servers@);
        }
        Config { servers }
    }
}

} // verus!
