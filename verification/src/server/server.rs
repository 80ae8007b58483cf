//! One listening endpoint: its states, the connections it admits, and its
//! shutdown.
//!
//! A server is driven from outside. Whatever happens to it comes in as an
//! event; the server changes its state and answers with what is to be done
//! next. Connections are admitted against a budget of permits, one for each
//! connection, held for as long as the connection is served.

use crate::config;
use crate::net::SocketAddr;
use crate::Error;
use vstd::prelude::*;

verus! {

/// Where a server is in its shutdown.
#[derive(Clone, Copy, Debug, PartialEq, Eq, Structural)]
pub enum ShutdownState {
    /// The shutdown was announced to this many connections, which are
    /// still at work.
    PendingConnections(usize),
    /// Every connection is done.
    Done,
}

/// The state that a server makes known.
#[derive(Clone, Copy, Debug, PartialEq, Eq, Structural)]
pub enum State {
    Starting,
    Listening,
    /// As many connections are held as the server admits: this many.
    MaxConnectionsReached(usize),
    ShuttingDown(ShutdownState),
}

/// Whether a server may go from one state to another.
pub open spec fn follows(from: State, to: State) -> bool {
    match to {
        State::Starting => false,
        State::Listening => from is Starting || from is MaxConnectionsReached,
        State::MaxConnectionsReached(_) => from is Listening,
        State::ShuttingDown(ShutdownState::PendingConnections(_)) => !(from is ShuttingDown),
        State::ShuttingDown(ShutdownState::Done) => from matches State::ShuttingDown(
            ShutdownState::PendingConnections(_),
        ),
    }
}

/// What a server is busy with.
#[derive(Clone, Copy, Debug, PartialEq, Eq, Structural)]
pub enum Phase {
    /// Its socket is not bound yet.
    Starting,
    /// It admits connections.
    Accepting,
    /// It admits no more, and is about to announce its shutdown.
    Stopping,
    /// It waits for its connections to acknowledge the shutdown.
    Draining,
    /// It is done.
    Done,
}

/// What happens to a server.
#[derive(Debug)]
pub enum Event {
    /// Its socket is bound.
    Bound,
    /// Its accept loop asks for a permit, to accept one more connection.
    Permit,
    /// The holder of a permit gives it back: the connection is done, or
    /// none came of it.
    Closed,
    /// The signal to shut down has come.
    Shutdown,
    /// Accepting connections failed.
    Failed(Error),
    /// The shutdown was announced, to this many connections.
    Notified(usize),
    /// All acknowledgements are in.
    Drained,
}

/// What is to be done next about a server.
#[derive(Debug)]
pub enum Command {
    /// Nothing.
    Ignore,
    /// Start the accept loop.
    Listen,
    /// Accept one connection and serve it; the permit is taken.
    Accept,
    /// Wait until a permit is given back, then ask again.
    Wait,
    /// Close the listening socket and announce the shutdown to the
    /// connections at work.
    Notify,
    /// Wait for the acknowledgements of all connections.
    Collect,
    /// End the run with this result.
    Return(Result<(), Error>),
}

/// How far a server has got.
pub struct Progress {
    pub phase: Phase,
    pub state: State,
    /// The number of permits.
    pub capacity: usize,
    /// The number of permits that are taken.
    pub live: usize,
    /// Why accepting failed, if it did.
    pub failure: Option<Error>,
}

impl Progress {
    /// No more permits are taken than there are, and the state that is
    /// made known goes with the phase.
    pub open spec fn valid(self) -> bool {
        &&& self.live <= self.capacity
        &&& match self.phase {
            Phase::Starting => self.state is Starting,
            Phase::Accepting => self.state is Listening || self.state
                == State::MaxConnectionsReached(self.capacity),
            Phase::Stopping => !(self.state is ShuttingDown),
            Phase::Draining => self.state matches State::ShuttingDown(
                ShutdownState::PendingConnections(_),
            ),
            Phase::Done => self.state == State::ShuttingDown(ShutdownState::Done),
        }
    }

    /// The result with which the run of the server ends: the failure of
    /// its accept loop, if there was one.
    pub open spec fn result(self) -> Result<(), Error> {
        match self.failure {
            Some(error) => Err(error),
            None => Ok(()),
        }
    }
}

/// A server of the given capacity before anything has happened to it.
pub open spec fn fresh(capacity: usize) -> Progress {
    Progress { phase: Phase::Starting, state: State::Starting, capacity, live: 0, failure: None }
}

/// What an event makes of a server, and what is to be done then.
pub open spec fn step(before: Progress, event: Event) -> (Progress, Command) {
    match event {
        Event::Bound => if before.phase is Starting {
            (
                Progress { phase: Phase::Accepting, state: State::Listening, ..before },
                Command::Listen,
            )
        } else {
            (before, Command::Ignore)
        },
        Event::Permit => if before.phase is Accepting {
            if before.live < before.capacity {
                (
                    Progress {
                        state: State::Listening,
                        live: (before.live + 1) as usize,
                        ..before
                    },
                    Command::Accept,
                )
            } else {
                (
                    Progress { state: State::MaxConnectionsReached(before.capacity), ..before },
                    Command::Wait,
                )
            }
        } else {
            (before, Command::Ignore)
        },
        Event::Closed => if before.live > 0 {
            (Progress { live: (before.live - 1) as usize, ..before }, Command::Ignore)
        } else {
            (before, Command::Ignore)
        },
        Event::Shutdown => if before.phase is Starting || before.phase is Accepting {
            (Progress { phase: Phase::Stopping, ..before }, Command::Notify)
        } else {
            (before, Command::Ignore)
        },
        Event::Failed(error) => if before.phase is Starting || before.phase is Accepting {
            (Progress { phase: Phase::Stopping, failure: Some(error), ..before }, Command::Notify)
        } else {
            (before, Command::Ignore)
        },
        Event::Notified(pending) => if before.phase is Stopping {
            (
                Progress {
                    phase: Phase::Draining,
                    state: State::ShuttingDown(ShutdownState::PendingConnections(pending)),
                    ..before
                },
                Command::Collect,
            )
        } else {
            (before, Command::Ignore)
        },
        Event::Drained => if before.phase is Draining {
            (
                Progress {
                    phase: Phase::Done,
                    state: State::ShuttingDown(ShutdownState::Done),
                    ..before
                },
                Command::Return(before.result()),
            )
        } else {
            (before, Command::Ignore)
        },
    }
}

/// What a row of events makes of a server.
pub open spec fn after(before: Progress, events: Seq<Event>) -> Progress
    decreases events.len(),
{
    if events.len() == 0 {
        before
    } else {
        step(after(before, events.drop_last()), events.last()).0
    }
}

/// Admission cap. Whatever happens to a server, and in whatever order, it
/// never holds more connections than it has permits. A permit is taken only
/// when one is free; at the cap the accept loop is told to wait, and only a
/// permit given back lets it go on.
pub proof fn lemma_admission_cap(capacity: usize, events: Seq<Event>)
    ensures
        after(fresh(capacity), events).valid(),
        after(fresh(capacity), events).capacity == capacity,
        after(fresh(capacity), events).live <= capacity,
        forall|event: Event|
            (#[trigger] step(after(fresh(capacity), events), event)).1 is Accept ==> after(
                fresh(capacity),
                events,
            ).live < capacity,
        after(fresh(capacity), events).live == capacity ==> !(step(
            after(fresh(capacity), events),
            Event::Permit,
        ).1 is Accept) && step(after(fresh(capacity), events), Event::Permit).0.live == capacity,
    decreases events.len(),
{
    if events.len() > 0 {
        lemma_admission_cap(capacity, events.drop_last());
    }
}

/// The states that a server makes known come in the order of its life:
/// every event leaves the state as it is or takes it to one that may
/// follow.
pub proof fn lemma_states_in_order(before: Progress, event: Event)
    requires
        before.valid(),
    ensures
        step(before, event).0.valid(),
        step(before, event).0.state == before.state || follows(
            before.state,
            step(before, event).0.state,
        ),
{
}

/// The run of a server ends only when its shutdown is complete, and ends
/// with the failure of its accept loop if there was one.
pub proof fn lemma_return_when_done(before: Progress, event: Event)
    requires
        before.valid(),
    ensures
        step(before, event).1 matches Command::Return(result) ==> {
            &&& step(before, event).0.state == State::ShuttingDown(ShutdownState::Done)
            &&& before.state matches State::ShuttingDown(ShutdownState::PendingConnections(_))
            &&& result == before.result()
        },
{
}

/// The label under which a server writes to the log: its address, and its
/// name in brackets if it has one.
pub open spec fn label(address: Seq<char>, name: Option<Seq<char>>) -> Seq<char> {
    match name {
        Some(name) => address + " ("@ + name + ")"@,
        None => address,
    }
}

/// The label of a server at `address` with the given name.
pub fn log_name(address: &str, name: &Option<String>) -> (text: String)
    ensures
        text@ == label(address@, config::text_view(*name)),
{
    match name {
        Some(name) => {
            let mut text = address.to_owned();
            text.append(" (");
            text.append(name.as_str());
            text.append(")");
            text
        },
        None => address.to_owned(),
    }
}

/// The accept loop of a server as far as admission goes: the budget of
/// permits, of which every connection holds one for as long as it is
/// served.
#[derive(Clone, Copy, Debug)]
pub struct Listener {
    capacity: usize,
    live: usize,
}

impl Listener {
    #[verifier::type_invariant]
    spec fn well_formed(self) -> bool {
        self.live <= self.capacity
    }

    /// The number of permits.
    pub closed spec fn capacity(self) -> usize {
        self.capacity
    }

    /// The number of permits that are taken.
    pub closed spec fn live(self) -> usize {
        self.live
    }

    /// A listener with `capacity` permits, none of them taken.
    pub fn new(capacity: usize) -> (listener: Self)
        ensures
            listener.capacity() == capacity,
            listener.live() == 0,
    {
        Listener { capacity, live: 0 }
    }

    /// The number of permits that are taken: never more than there are.
    pub fn connections(&self) -> (live: usize)
        ensures
            live == self.live(),
            live <= self.capacity(),
    {
        proof {
            use_type_invariant(self);
        }
        self.live
    }

    /// Asks for a permit to accept one more connection. The permit is
    /// given if one is free, and only then.
    pub fn listen(&mut self) -> (admitted: bool)
        ensures
            admitted == (old(self).live() < old(self).capacity()),
            final(self).capacity() == old(self).capacity(),
            final(self).live() == if admitted {
                old(self).live() + 1
            } else {
                old(self).live() as int
            },
    {
        if self.live < self.capacity {
            self.live = self.live + 1;
            true
        } else {
            false
        }
    }

    /// Takes a permit back, if one is out.
    pub fn release(&mut self)
        ensures
            final(self).capacity() == old(self).capacity(),
            final(self).live() == if old(self).live() > 0 {
                old(self).live() - 1
            } else {
                0
            },
    {
        proof {
            use_type_invariant(&*self);
        }
        if self.live > 0 {
            self.live = self.live - 1;
        }
    }
}

/// What a server is busy with, and the state it makes known.
#[derive(Clone, Copy)]
struct Stage {
    phase: Phase,
    state: State,
}

/// One listening endpoint of the proxy.
pub struct Server {
    config: config::Server,
    address: SocketAddr,
    stage: Stage,
    listener: Listener,
    failure: Option<Error>,
}

impl View for Server {
    type V = Progress;

    closed spec fn view(&self) -> Progress {
        Progress {
            phase: self.stage.phase,
            state: self.stage.state,
            capacity: self.listener.capacity(),
            live: self.listener.live(),
            failure: self.failure,
        }
    }
}

impl Server {
    #[verifier::type_invariant]
    spec fn well_formed(self) -> bool {
        self@.valid() && self.listener.capacity() == self.config.max_connections
    }

    /// The configuration that the server runs on.
    pub closed spec fn configuration(&self) -> config::Server {
        self.config
    }

    /// The address that the server listens on.
    pub closed spec fn address(&self) -> SocketAddr {
        self.address
    }

    /// The server for the address at place `replica` of those that
    /// `config` listens on. Nothing has happened to it yet.
    pub fn init(config: config::Server, replica: usize) -> (server: Self)
        requires
            replica < config.listen@.len(),
        ensures
            server@ == fresh(config.max_connections),
            server.configuration() == config,
            server.address() == config.listen@[replica as int],
    {
        let address = config.listen[replica];
        let listener = Listener::new(config.max_connections);
        Server {
            config,
            address,
            stage: Stage { phase: Phase::Starting, state: State::Starting },
            listener,
            failure: None,
        }
    }

    /// The address that the server listens on.
    pub fn socket_address(&self) -> (address: SocketAddr)
        ensures
            address == self.address(),
    {
        self.address
    }

    /// The configuration that the server runs on.
    pub fn config(&self) -> (config: &config::Server)
        ensures
            *config == self.configuration(),
    {
        &self.config
    }

    /// The state of the server, as it is made known.
    pub fn state(&self) -> (state: State)
        ensures
            state == self@.state,
            self@.valid(),
    {
        proof {
            use_type_invariant(self);
        }
        self.stage.state
    }

    /// The number of connections that the server holds: never more than it
    /// has permits.
    pub fn connections(&self) -> (live: usize)
        ensures
            live == self@.live,
            live <= self@.capacity,
    {
        self.listener.connections()
    }

    /// Takes an event, and says what is to be done next.
    pub fn run(&mut self, event: Event) -> (command: Command)
        ensures
            (final(self)@, command) == step(old(self)@, event),
            final(self).configuration() == old(self).configuration(),
            final(self).address() == old(self).address(),
            final(self)@.valid(),
    {
        proof {
            use_type_invariant(&*self);
            lemma_states_in_order(self@, event);
        }
        let accepting = match self.stage.phase {
            Phase::Starting => true,
            Phase::Accepting => true,
            _ => false,
        };
        match event {
            Event::Bound => match self.stage.phase {
                Phase::Starting => {
                    self.stage = Stage { phase: Phase::Accepting, state: State::Listening };
                    Command::Listen
                },
                _ => Command::Ignore,
            },
            Event::Permit => match self.stage.phase {
                Phase::Accepting => {
                    let mut listener = self.listener;
                    if listener.listen() {
                        self.stage = Stage { phase: Phase::Accepting, state: State::Listening };
                        self.listener = listener;
                        Command::Accept
                    } else {
                        self.stage = Stage {
                            phase: Phase::Accepting,
                            state: State::MaxConnectionsReached(self.config.max_connections),
                        };
                        Command::Wait
                    }
                },
                _ => Command::Ignore,
            },
            Event::Closed => {
                let mut listener = self.listener;
                listener.release();
                self.listener = listener;
                Command::Ignore
            },
            Event::Shutdown => {
                if accepting {
                    self.stage = Stage { phase: Phase::Stopping, state: self.stage.state };
                    Command::Notify
                } else {
                    Command::Ignore
                }
            },
            Event::Failed(error) => {
                if accepting {
                    self.stage = Stage { phase: Phase::Stopping, state: self.stage.state };
                    self.failure = Some(error);
                    Command::Notify
                } else {
                    Command::Ignore
                }
            },
            Event::Notified(pending) => match self.stage.phase {
                Phase::Stopping => {
                    self.stage = Stage {
                        phase: Phase::Draining,
                        state: State::ShuttingDown(ShutdownState::PendingConnections(pending)),
                    };
                    Command::Collect
                },
                _ => Command::Ignore,
            },
            Event::Drained => match self.stage.phase {
                Phase::Draining => {
                    self.stage = Stage {
                        phase: Phase::Done,
                        state: State::ShuttingDown(ShutdownState::Done),
                    };
                    let result = match &self.failure {
                        Some(error) => Err(error.clone()),
                        None => Ok(()),
                    };
                    Command::Return(result)
                },
                _ => Command::Ignore,
            },
        }
    }
}

} // verus!
