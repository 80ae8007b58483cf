//! Reading one server out of the fields of its description.
//!
//! A server is described either in the simple form, by one action
//! (`forward` or `serve`) and at most one `uri`, or by a list of patterns
//! under `match`. The two forms do not mix. The fields come one by one, in
//! the order in which they are written; each is first admitted by its key,
//! then stored with its value.

use crate::config::{
    pattern_views,
    text_view,
    Action,
    ActionView,
    Forward,
    ForwardView,
    Pattern,
    PatternView,
    RequestHeaderConfig,
    ResponseHeaderConfig,
    Server,
    ServerView,
};
use crate::net::SocketAddr;
use vstd::prelude::*;

verus! {

/// The keys that the description of a server may hold.
#[derive(Clone, Copy, Debug, PartialEq, Eq, Structural)]
pub enum Field {
    Listen,
    Match,
    Forward,
    Serve,
    Uri,
    Name,
    Connections,
    Request,
    Response,
}

impl Field {
    /// The key as it is written.
    pub fn name(&self) -> (name: &'static str)
        ensures
            name@ == match *self {
                Field::Listen => "listen"@,
                Field::Match => "match"@,
                Field::Forward => "forward"@,
                Field::Serve => "serve"@,
                Field::Uri => "uri"@,
                Field::Name => "name"@,
                Field::Connections => "connections"@,
                Field::Request => "request"@,
                Field::Response => "response"@,
            },
    {
        match self {
            Field::Listen => "listen",
            Field::Match => "match",
            Field::Forward => "forward",
            Field::Serve => "serve",
            Field::Uri => "uri",
            Field::Name => "name",
            Field::Connections => "connections",
            Field::Request => "request",
            Field::Response => "response",
        }
    }
}

/// Why a description is not that of a server.
#[derive(Clone, Copy, Debug, PartialEq, Eq, Structural)]
pub enum ConfigError {
    /// `match` stands beside an action or a `uri` of the simple form.
    MixedSimpleAndMatch,
    /// Both `forward` and `serve` are given.
    MixedActions,
    /// Neither `match` nor an action is given.
    MissingConfig,
    /// A field is given twice.
    DuplicateField(Field),
    /// `request` or `response` is given before any action.
    MissingAction,
    /// No address to listen on is given.
    MissingListen,
}

impl ConfigError {
    /// What to tell the author of the description, for the errors that are
    /// about the two forms. A field given twice or missing is told by its
    /// name alone.
    pub fn message(&self) -> (message: Option<&'static str>)
        ensures
            match *self {
                ConfigError::MixedSimpleAndMatch => message is Some && message->0@
                    == "either use 'match' for multiple patterns or describe a single pattern"@,
                ConfigError::MixedActions => message is Some && message->0@
                    == "use either 'forward' or 'serve', if you need multiple patterns use 'match'"@,
                ConfigError::MissingConfig => message is Some && message->0@
                    == "missing 'match' or simple configuration"@,
                _ => message is None,
            },
    {
        match self {
            ConfigError::MixedSimpleAndMatch => Some(
                "either use 'match' for multiple patterns or describe a single pattern",
            ),
            ConfigError::MixedActions => Some(
                "use either 'forward' or 'serve', if you need multiple patterns use 'match'",
            ),
            ConfigError::MissingConfig => Some("missing 'match' or simple configuration"),
            _ => None,
        }
    }
}

/// One field of a description: its key and the value read for it.
pub enum Entry {
    Listen(Vec<SocketAddr>),
    Match(Vec<Pattern>),
    Forward(Forward),
    Serve(String),
    Uri(String),
    Name(String),
    Connections(usize),
    Request(RequestHeaderConfig),
    Response(ResponseHeaderConfig),
}

/// What an `Entry` is made of.
pub enum EntryView {
    Listen(Seq<SocketAddr>),
    Match(Seq<PatternView>),
    Forward(ForwardView),
    Serve(Seq<char>),
    Uri(Seq<char>),
    Name(Seq<char>),
    Connections(usize),
    Request(RequestHeaderConfig),
    Response(ResponseHeaderConfig),
}

impl EntryView {
    /// The key of the entry.
    pub open spec fn field(self) -> Field {
        match self {
            EntryView::Listen(_) => Field::Listen,
            EntryView::Match(_) => Field::Match,
            EntryView::Forward(_) => Field::Forward,
            EntryView::Serve(_) => Field::Serve,
            EntryView::Uri(_) => Field::Uri,
            EntryView::Name(_) => Field::Name,
            EntryView::Connections(_) => Field::Connections,
            EntryView::Request(_) => Field::Request,
            EntryView::Response(_) => Field::Response,
        }
    }
}

impl View for Entry {
    type V = EntryView;

    open spec fn view(&self) -> EntryView {
        match *self {
            Entry::Listen(listen) => EntryView::Listen(listen@),
            Entry::Match(patterns) => EntryView::Match(pattern_views(patterns@)),
            Entry::Forward(forward) => EntryView::Forward(forward@),
            Entry::Serve(directory) => EntryView::Serve(directory@),
            Entry::Uri(uri) => EntryView::Uri(uri@),
            Entry::Name(name) => EntryView::Name(name@),
            Entry::Connections(limit) => EntryView::Connections(limit),
            Entry::Request(request) => EntryView::Request(request),
            Entry::Response(response) => EntryView::Response(response),
        }
    }
}

impl Entry {
    /// The key of the entry.
    pub fn field(&self) -> (field: Field)
        ensures
            field == self@.field(),
    {
        match self {
            Entry::Listen(_) => Field::Listen,
            Entry::Match(_) => Field::Match,
            Entry::Forward(_) => Field::Forward,
            Entry::Serve(_) => Field::Serve,
            Entry::Uri(_) => Field::Uri,
            Entry::Name(_) => Field::Name,
            Entry::Connections(_) => Field::Connections,
            Entry::Request(_) => Field::Request,
            Entry::Response(_) => Field::Response,
        }
    }
}

/// The views of the entries of a list, in order.
pub open spec fn entry_views(entries: Seq<Entry>) -> Seq<EntryView> {
    entries.map_values(|entry: Entry| entry@)
}

/// What has been read of a description so far.
pub struct ReaderView {
    pub listen: Seq<SocketAddr>,
    pub patterns: Seq<PatternView>,
    /// The pattern of the simple form, once its action is read.
    pub simple: Option<PatternView>,
    pub name: Option<Seq<char>>,
    pub max_connections: usize,
    /// The prefix that the pattern of the simple form will match.
    pub uri: Seq<char>,
    /// Whether `match` was read.
    pub matched: bool,
    /// Whether `uri` was read.
    pub uri_given: bool,
}

/// Nothing read yet: the options hold their defaults.
pub open spec fn start() -> ReaderView {
    ReaderView {
        listen: Seq::empty(),
        patterns: Seq::empty(),
        simple: None,
        name: None,
        max_connections: 1024,
        uri: seq!['/'],
        matched: false,
        uri_given: false,
    }
}

/// The pattern of the simple form as it stands when its action is read.
pub open spec fn simple_pattern(action: ActionView) -> PatternView {
    PatternView { uri: seq!['/'], action, request: None, response: None }
}

/// Whether a field with this key may come next.
pub open spec fn accepts(state: ReaderView, field: Field) -> Result<(), ConfigError> {
    match field {
        Field::Listen => if state.listen.len() > 0 {
            Err(ConfigError::DuplicateField(Field::Listen))
        } else {
            Ok(())
        },
        Field::Match => if state.patterns.len() > 0 {
            Err(ConfigError::DuplicateField(Field::Match))
        } else if state.simple is Some || state.uri_given {
            Err(ConfigError::MixedSimpleAndMatch)
        } else {
            Ok(())
        },
        Field::Forward => if state.matched {
            Err(ConfigError::MixedSimpleAndMatch)
        } else {
            match state.simple {
                Some(pattern) => match pattern.action {
                    ActionView::Forward(_) => Err(ConfigError::DuplicateField(Field::Forward)),
                    ActionView::Serve(_) => Err(ConfigError::MixedActions),
                },
                None => Ok(()),
            }
        },
        Field::Serve => if state.matched {
            Err(ConfigError::MixedSimpleAndMatch)
        } else {
            match state.simple {
                Some(pattern) => match pattern.action {
                    ActionView::Forward(_) => Err(ConfigError::MixedActions),
                    ActionView::Serve(_) => Err(ConfigError::DuplicateField(Field::Serve)),
                },
                None => Ok(()),
            }
        },
        Field::Uri => if state.matched {
            Err(ConfigError::MixedSimpleAndMatch)
        } else {
            Ok(())
        },
        Field::Name => if state.name is Some {
            Err(ConfigError::DuplicateField(Field::Name))
        } else {
            Ok(())
        },
        Field::Connections => Ok(()),
        Field::Request => if state.simple is Some {
            Ok(())
        } else {
            Err(ConfigError::MissingAction)
        },
        Field::Response => if state.simple is Some {
            Ok(())
        } else {
            Err(ConfigError::MissingAction)
        },
    }
}

/// What has been read once an admitted entry is stored.
pub open spec fn stored(state: ReaderView, entry: EntryView) -> ReaderView {
    match entry {
        EntryView::Listen(listen) => ReaderView { listen, ..state },
        EntryView::Match(patterns) => ReaderView { patterns, matched: true, ..state },
        EntryView::Forward(forward) => ReaderView {
            simple: Some(simple_pattern(ActionView::Forward(forward))),
            ..state
        },
        EntryView::Serve(directory) => ReaderView {
            simple: Some(simple_pattern(ActionView::Serve(directory))),
            ..state
        },
        EntryView::Uri(uri) => ReaderView { uri, uri_given: true, ..state },
        EntryView::Name(name) => ReaderView { name: Some(name), ..state },
        EntryView::Connections(limit) => ReaderView { max_connections: limit, ..state },
        EntryView::Request(request) => match state.simple {
            Some(pattern) => ReaderView {
                simple: Some(PatternView { request: Some(request), ..pattern }),
                ..state
            },
            None => state,
        },
        EntryView::Response(response) => match state.simple {
            Some(pattern) => ReaderView {
                simple: Some(PatternView { response: Some(response), ..pattern }),
                ..state
            },
            None => state,
        },
    }
}

/// The patterns of the server: those under `match`, then the one of the
/// simple form, which matches the `uri` read or the default.
pub open spec fn all_patterns(state: ReaderView) -> Seq<PatternView> {
    match state.simple {
        Some(pattern) => state.patterns.push(PatternView { uri: state.uri, ..pattern }),
        None => state.patterns,
    }
}

/// The server that the fields read make, when no more comes.
pub open spec fn finished(state: ReaderView) -> Result<ServerView, ConfigError> {
    if all_patterns(state).len() == 0 {
        Err(ConfigError::MissingConfig)
    } else if state.listen.len() == 0 {
        Err(ConfigError::MissingListen)
    } else {
        Ok(
            ServerView {
                listen: state.listen,
                patterns: all_patterns(state),
                max_connections: state.max_connections,
                name: state.name,
                log_name: "unnamed"@,
            },
        )
    }
}

/// The server that `entries` make after what has been read, or the first
/// error on the way.
pub open spec fn read(state: ReaderView, entries: Seq<EntryView>) -> Result<
    ServerView,
    ConfigError,
>
    decreases entries.len(),
{
    if entries.len() == 0 {
        finished(state)
    } else {
        match accepts(state, entries.first().field()) {
            Err(error) => Err(error),
            Ok(_) => read(stored(state, entries.first()), entries.drop_first()),
        }
    }
}

/// Whether a row of entries holds one with the given key.
pub open spec fn holds_field(entries: Seq<EntryView>, field: Field) -> bool {
    exists|i: int| 0 <= i < entries.len() && (#[trigger] entries[i]).field() == field
}

/// Whether a row of entries holds one of the simple form: an action, or
/// the prefix for it.
pub open spec fn uses_simple_form(entries: Seq<EntryView>) -> bool {
    ||| holds_field(entries, Field::Forward)
    ||| holds_field(entries, Field::Serve)
    ||| holds_field(entries, Field::Uri)
}

/// An entry that is in a row and is not its first is in the rest of it.
proof fn lemma_holds_in_rest(entries: Seq<EntryView>, field: Field)
    requires
        holds_field(entries, field),
        entries.first().field() != field,
    ensures
        holds_field(entries.drop_first(), field),
{
    let i = choose|i: int| 0 <= i < entries.len() && (#[trigger] entries[i]).field() == field;
    assert(entries.drop_first()[i - 1] == entries[i]);
}

/// From any point of the reading on, the two forms do not mix: what is
/// left to read is refused if it holds the one form and the other was read
/// before, or if it holds both.
proof fn lemma_forms_do_not_mix_from(state: ReaderView, entries: Seq<EntryView>)
    requires
        (state.matched && uses_simple_form(entries)) || ((state.simple is Some
            || state.uri_given) && holds_field(entries, Field::Match)) || (uses_simple_form(
            entries,
        ) && holds_field(entries, Field::Match)),
    ensures
        read(state, entries) is Err,
    decreases entries.len(),
{
    let first = entries.first();
    let rest = entries.drop_first();
    if accepts(state, first.field()) is Ok {
        let next = stored(state, first);
        let simple = first.field() == Field::Forward || first.field() == Field::Serve
            || first.field() == Field::Uri;
        if !simple && uses_simple_form(entries) {
            if holds_field(entries, Field::Forward) {
                lemma_holds_in_rest(entries, Field::Forward);
            } else if holds_field(entries, Field::Serve) {
                lemma_holds_in_rest(entries, Field::Serve);
            } else {
                lemma_holds_in_rest(entries, Field::Uri);
            }
        }
        if first.field() != Field::Match && holds_field(entries, Field::Match) {
            lemma_holds_in_rest(entries, Field::Match);
        }
        lemma_forms_do_not_mix_from(next, rest);
    }
}

/// The two forms do not mix. A description that holds `match` and also an
/// action or a prefix of the simple form, in whatever order and whatever
/// else it holds, is not that of a server.
pub proof fn lemma_forms_do_not_mix(entries: Seq<EntryView>)
    requires
        uses_simple_form(entries),
        holds_field(entries, Field::Match),
    ensures
        read(start(), entries) is Err,
{
    lemma_forms_do_not_mix_from(start(), entries);
}

/// The two actions do not mix. A description that holds both `forward`
/// and `serve` is not that of a server.
pub proof fn lemma_actions_do_not_mix(entries: Seq<EntryView>)
    requires
        holds_field(entries, Field::Forward),
        holds_field(entries, Field::Serve),
    ensures
        read(start(), entries) is Err,
{
    lemma_actions_do_not_mix_from(start(), entries);
}

/// From any point of the reading on, what is left to read is refused if it
/// holds an action and an action was read before, or if it holds both
/// actions.
proof fn lemma_actions_do_not_mix_from(state: ReaderView, entries: Seq<EntryView>)
    requires
        (state.simple is Some && (holds_field(entries, Field::Forward) || holds_field(
            entries,
            Field::Serve,
        ))) || (holds_field(entries, Field::Forward) && holds_field(entries, Field::Serve)),
    ensures
        read(state, entries) is Err,
    decreases entries.len(),
{
    let first = entries.first();
    let rest = entries.drop_first();
    if accepts(state, first.field()) is Ok {
        let next = stored(state, first);
        if first.field() != Field::Forward && holds_field(entries, Field::Forward) {
            lemma_holds_in_rest(entries, Field::Forward);
        }
        if first.field() != Field::Serve && holds_field(entries, Field::Serve) {
            lemma_holds_in_rest(entries, Field::Serve);
        }
        lemma_actions_do_not_mix_from(next, rest);
    }
}

/// The view of a server or the error in its place.
pub open spec fn outcome(result: Result<Server, ConfigError>) -> Result<ServerView, ConfigError> {
    match result {
        Ok(server) => Ok(server@),
        Err(error) => Err(error),
    }
}

/// A server in the reading.
pub struct ServerReader {
    listen: Vec<SocketAddr>,
    patterns: Vec<Pattern>,
    simple: Option<Pattern>,
    name: Option<String>,
    max_connections: usize,
    uri: String,
    matched: bool,
    uri_given: bool,
}

/// The view of a pattern that may be absent.
pub open spec fn pattern_view(pattern: Option<Pattern>) -> Option<PatternView> {
    match pattern {
        Some(pattern) => Some(pattern@),
        None => None,
    }
}

impl View for ServerReader {
    type V = ReaderView;

    closed spec fn view(&self) -> ReaderView {
        ReaderView {
            listen: self.listen@,
            patterns: pattern_views(self.patterns@),
            simple: pattern_view(self.simple),
            name: text_view(self.name),
            max_connections: self.max_connections,
            uri: self.uri@,
            matched: self.matched,
            uri_given: self.uri_given,
        }
    }
}

impl ServerReader {
    /// A reader that has read nothing.
    pub fn new() -> (reader: Self)
        ensures
            reader@ == start(),
    {
        let reader = ServerReader {
            listen: Vec::new(),
            patterns: Vec::new(),
            simple: None,
            name: None,
            max_connections: crate::config::default::max_connections(),
            uri: crate::config::default::uri(),
            matched: false,
            uri_given: false,
        };
        assert(reader@.listen =~= start().listen);
        assert(reader@.patterns =~= start().patterns);
        reader
    }

    /// Whether a field with this key may come next, tested before its value
    /// is read.
    pub fn accept(&self, field: Field) -> (accepted: Result<(), ConfigError>)
        ensures
            accepted == accepts(self@, field),
    {
        match field {
            Field::Listen => {
                if self.listen.len() > 0 {
                    return Err(ConfigError::DuplicateField(Field::Listen));
                }
            },
            Field::Match => {
                if self.patterns.len() > 0 {
                    return Err(ConfigError::DuplicateField(Field::Match));
                }
                if self.simple.is_some() || self.uri_given {
                    return Err(ConfigError::MixedSimpleAndMatch);
                }
            },
            Field::Forward => {
                if self.matched {
                    return Err(ConfigError::MixedSimpleAndMatch);
                }
                if let Some(pattern) = &self.simple {
                    return match &pattern.action {
                        Action::Forward(_) => Err(ConfigError::DuplicateField(Field::Forward)),
                        Action::Serve(_) => Err(ConfigError::MixedActions),
                    };
                }
            },
            Field::Serve => {
                if self.matched {
                    return Err(ConfigError::MixedSimpleAndMatch);
                }
                if let Some(pattern) = &self.simple {
                    return match &pattern.action {
                        Action::Forward(_) => Err(ConfigError::MixedActions),
                        Action::Serve(_) => Err(ConfigError::DuplicateField(Field::Serve)),
                    };
                }
            },
            Field::Uri => {
                if self.matched {
                    return Err(ConfigError::MixedSimpleAndMatch);
                }
            },
            Field::Name => {
                if self.name.is_some() {
                    return Err(ConfigError::DuplicateField(Field::Name));
                }
            },
            Field::Connections => {},
            Field::Request => {
                if self.simple.is_none() {
                    return Err(ConfigError::MissingAction);
                }
            },
            Field::Response => {
                if self.simple.is_none() {
                    return Err(ConfigError::MissingAction);
                }
            },
        }
        Ok(())
    }

    /// Stores an entry whose key was admitted.
    pub fn put(self, entry: Entry) -> (reader: Self)
        ensures
            reader@ == stored(self@, entry@),
    {
        let ServerReader {
            listen,
            patterns,
            simple,
            name,
            max_connections,
            uri,
            matched,
            uri_given,
        } = self;
        match entry {
            Entry::Listen(listen) => ServerReader {
                listen,
                patterns,
                simple,
                name,
                max_connections,
                uri,
                matched,
                uri_given,
            },
            Entry::Match(patterns) => ServerReader {
                listen,
                patterns,
                simple,
                name,
                max_connections,
                uri,
                matched: true,
                uri_given,
            },
            Entry::Forward(forward) => ServerReader {
                listen,
                patterns,
                simple: Some(
                    Pattern {
                        uri: crate::config::default::uri(),
                        action: Action::Forward(forward),
                        request: None,
                        response: None,
                    },
                ),
                name,
                max_connections,
                uri,
                matched,
                uri_given,
            },
            Entry::Serve(directory) => ServerReader {
                listen,
                patterns,
                simple: Some(
                    Pattern {
                        uri: crate::config::default::uri(),
                        action: Action::Serve(directory),
                        request: None,
                        response: None,
                    },
                ),
                name,
                max_connections,
                uri,
                matched,
                uri_given,
            },
            Entry::Uri(uri) => ServerReader {
                listen,
                patterns,
                simple,
                name,
                max_connections,
                uri,
                matched,
                uri_given: true,
            },
            Entry::Name(name) => ServerReader {
                listen,
                patterns,
                simple,
                name: Some(name),
                max_connections,
                uri,
                matched,
                uri_given,
            },
            Entry::Connections(max_connections) => ServerReader {
                listen,
                patterns,
                simple,
                name,
                max_connections,
                uri,
                matched,
                uri_given,
            },
            Entry::Request(request) => {
                let simple = match simple {
                    Some(pattern) => Some(
                        Pattern {
                            uri: pattern.uri,
                            action: pattern.action,
                            request: Some(request),
                            response: pattern.response,
                        },
                    ),
                    None => None,
                };
                ServerReader {
                    listen,
                    patterns,
                    simple,
                    name,
                    max_connections,
                    uri,
                    matched,
                    uri_given,
                }
            },
            Entry::Response(response) => {
                let simple = match simple {
                    Some(pattern) => Some(
                        Pattern {
                            uri: pattern.uri,
                            action: pattern.action,
                            request: pattern.request,
                            response: Some(response),
                        },
                    ),
                    None => None,
                };
                ServerReader {
                    listen,
                    patterns,
                    simple,
                    name,
                    max_connections,
                    uri,
                    matched,
                    uri_given,
                }
            },
        }
    }

    /// The server that the fields read make. It listens somewhere and has a
    /// pattern, or there is an error in its place.
    pub fn finish(self) -> (result: Result<Server, ConfigError>)
        ensures
            outcome(result) == finished(self@),
            result matches Ok(server) ==> server.valid(),
    {
        let ServerReader { listen, patterns, simple, name, max_connections, uri, .. } = self;
        let mut patterns = patterns;
        let ghost before = patterns@;
        if let Some(pattern) = simple {
            patterns.push(
                Pattern {
                    uri,
                    action: pattern.action,
                    request: pattern.request,
                    response: pattern.response,
                },
            );
            assert(pattern_views(patterns@) =~= pattern_views(before).push(patterns@.last()@));
        }
        if patterns.len() == 0 {
            return Err(ConfigError::MissingConfig);
        }
        if listen.len() == 0 {
            return Err(ConfigError::MissingListen);
        }
        Ok(Server { listen, patterns, max_connections, name, log_name: "unnamed".to_owned() })
    }
}

/// Reads a server from its fields, in the order in which they are written.
pub fn read_server(entries: Vec<Entry>) -> (result: Result<Server, ConfigError>)
    ensures
        outcome(result) == read(start(), entry_views(entries@)),
        result matches Ok(server) ==> server.valid(),
{
    let mut reader = ServerReader::new();
    let mut remaining = entries;
    while remaining.len() > 0
        invariant
            read(reader@, entry_views(remaining@)) == read(start(), entry_views(entries@)),
        decreases remaining.len(),
    {
        let ghost rest = entry_views(remaining@);
        let ghost state = reader@;
        let entry = remaining.remove(0);
        proof {
            assert(rest.first() == entry@);
            assert(entry_views(remaining@) =~= rest.drop_first());
            assert(read(state, rest) == match accepts(state, entry@.field()) {
                Err(error) => Err(error),
                Ok(_) => read(stored(state, entry@), rest.drop_first()),
            });
        }
        match reader.accept(entry.field()) {
            Err(error) => {
                return Err(error);
            },
            Ok(_) => {
                reader = reader.put(entry);
            },
        }
    }
    reader.finish()
}

} // verus!
