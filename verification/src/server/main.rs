//! The master: it starts one server for every address of every server of
//! the configuration, and sees all of them through their shutdown.
//!
//! Like a server, the master is driven from outside: what happens comes in
//! as an event, and the master answers with what is to be done.

use crate::config;
use crate::config::Config;
use crate::net::SocketAddr;
use crate::server::server::{fresh, Server};
use crate::Error;
use vstd::prelude::*;

verus! {

/// The place of a server in the configuration and of an address among
/// those that the server listens on.
pub struct Endpoint {
    pub server: int,
    pub replica: int,
}

/// The endpoints of a configuration: for every server in turn, every
/// address that it listens on in turn.
pub open spec fn endpoints(servers: Seq<config::ServerView>) -> Seq<Endpoint>
    decreases servers.len(),
{
    if servers.len() == 0 {
        Seq::empty()
    } else {
        endpoints(servers.drop_last()) + Seq::new(
            servers.last().listen.len(),
            |replica: int| Endpoint { server: servers.len() - 1, replica },
        )
    }
}

/// Whether `server` is the one to run at `endpoint` of the configuration:
/// it has the configuration of its server and the address of its replica,
/// and nothing has happened to it.
pub open spec fn runs_at(server: Server, servers: Seq<config::ServerView>, endpoint: Endpoint) -> bool {
    &&& 0 <= endpoint.server < servers.len()
    &&& 0 <= endpoint.replica < servers[endpoint.server].listen.len()
    &&& server.configuration()@ == servers[endpoint.server]
    &&& server.address() == servers[endpoint.server].listen[endpoint.replica]
    &&& server@ == fresh(servers[endpoint.server].max_connections)
}

/// What happens to the master.
#[derive(Debug)]
pub enum Event {
    /// The signal to shut down has come.
    Trigger,
    /// A server has ended its run, with this result.
    Joined(Result<(), Error>),
}

/// What the master is to do next.
#[derive(Debug)]
pub struct Decision {
    /// Whether to tell all servers to shut down.
    pub shutdown: bool,
    /// The result with which the run of the master ends, if it ends now.
    pub result: Option<Result<(), Error>>,
}

/// How far the master has got.
pub struct Watch {
    /// The number of servers that have not ended their run.
    pub running: usize,
    /// Whether the servers were told to shut down.
    pub notified: bool,
    /// The first error with which a server ended its run.
    pub first_error: Option<Error>,
}

impl Watch {
    /// The result with which the run of the master ends: the first error
    /// of a server, if there was one.
    pub open spec fn result(self) -> Result<(), Error> {
        match self.first_error {
            Some(error) => Err(error),
            None => Ok(()),
        }
    }

    /// The result, once no server runs any more.
    pub open spec fn verdict(self) -> Option<Result<(), Error>> {
        if self.running == 0 {
            Some(self.result())
        } else {
            None
        }
    }
}

/// The master over `servers` servers, before anything has happened.
pub open spec fn watching(servers: usize) -> Watch {
    Watch { running: servers, notified: false, first_error: None }
}

/// What an event makes of the master, and what it is to do then. The
/// servers are told to shut down once: when the signal comes, or when the
/// first of them fails. The run ends when the servers have been told and
/// the last of them has ended.
pub open spec fn supervise(before: Watch, event: Event) -> (Watch, Decision) {
    match event {
        Event::Trigger => if before.notified {
            (before, Decision { shutdown: false, result: None })
        } else {
            let now = Watch { notified: true, ..before };
            (now, Decision { shutdown: true, result: now.verdict() })
        },
        Event::Joined(result) => if before.running == 0 {
            (before, Decision { shutdown: false, result: None })
        } else {
            let first_error = match (before.first_error, result) {
                (None, Err(error)) => Some(error),
                _ => before.first_error,
            };
            let failed = result is Err;
            let now = Watch {
                running: (before.running - 1) as usize,
                notified: before.notified || failed,
                first_error,
            };
            (
                now,
                Decision {
                    shutdown: !before.notified && failed,
                    result: if now.notified {
                        now.verdict()
                    } else {
                        None
                    },
                },
            )
        },
    }
}

/// What a row of events makes of the master.
pub open spec fn watched(before: Watch, events: Seq<Event>) -> Watch
    decreases events.len(),
{
    if events.len() == 0 {
        before
    } else {
        supervise(watched(before, events.drop_last()), events.last()).0
    }
}

/// The number of servers that a row of events reports as ended.
pub open spec fn joined(events: Seq<Event>) -> nat
    decreases events.len(),
{
    if events.len() == 0 {
        0
    } else {
        joined(events.drop_last()) + if events.last() is Joined {
            1nat
        } else {
            0nat
        }
    }
}

/// The first error with which a server ended, in a row of events.
pub open spec fn first_failure(events: Seq<Event>) -> Option<Error>
    decreases events.len(),
{
    if events.len() == 0 {
        None
    } else {
        match first_failure(events.drop_last()) {
            Some(error) => Some(error),
            None => match events.last() {
                Event::Joined(Err(error)) => Some(error),
                _ => None,
            },
        }
    }
}

/// The master keeps count. After any row of events in which no more
/// servers end than there are, as many servers run as have not ended, and
/// the error that the master holds is the first with which one ended.
pub proof fn lemma_master_keeps_count(servers: usize, events: Seq<Event>)
    requires
        joined(events) <= servers,
    ensures
        watched(watching(servers), events).running == servers - joined(events),
        watched(watching(servers), events).first_error == first_failure(events),
    decreases events.len(),
{
    if events.len() > 0 {
        lemma_master_keeps_count(servers, events.drop_last());
    }
}

/// The run of the master ends only when the servers have been told to shut
/// down and every one of them has ended its run; it ends with the first
/// error of a server, if there was one.
pub proof fn lemma_master_returns_last(servers: usize, events: Seq<Event>, event: Event)
    requires
        joined(events.push(event)) <= servers,
    ensures
        supervise(watched(watching(servers), events), event).1.result matches Some(result) ==> {
            &&& joined(events.push(event)) == servers
            &&& supervise(watched(watching(servers), events), event).0.notified
            &&& result == match first_failure(events.push(event)) {
                Some(error) => Err(error),
                None => Ok(()),
            }
        },
{
    lemma_master_keeps_count(servers, events.push(event));
    assert(events.push(event).drop_last() == events);
}

/// The supervisor of all servers.
pub struct Master {
    sockets: Vec<SocketAddr>,
    running: usize,
    notified: bool,
    first_error: Option<Error>,
}

impl View for Master {
    type V = Watch;

    closed spec fn view(&self) -> Watch {
        Watch { running: self.running, notified: self.notified, first_error: self.first_error }
    }
}

impl Master {
    /// The addresses of all servers.
    pub closed spec fn addresses(&self) -> Seq<SocketAddr> {
        self.sockets@
    }

    /// The master of a configuration, and the servers it is to run: one
    /// for every address of every server of the configuration, in their
    /// order.
    pub fn init(config: Config) -> (started: (Self, Vec<Server>))
        ensures
            started.1@.len() == endpoints(config@).len(),
            forall|i: int|
                0 <= i < started.1@.len() ==> runs_at(
                    #[trigger] started.1@[i],
                    config@,
                    endpoints(config@)[i],
                ),
            started.0@ == watching(started.1@.len() as usize),
            started.0.addresses().len() == started.1@.len(),
            forall|i: int|
                0 <= i < started.1@.len() ==> #[trigger] started.0.addresses()[i]
                    == started.1@[i].address(),
    {
        let mut servers: Vec<Server> = Vec::new();
        let mut sockets: Vec<SocketAddr> = Vec::new();
        let mut done: usize = 0;
        while done < config.servers.len()
            invariant
                done <= config.servers.len(),
                servers@.len() == endpoints(config@.take(done as int)).len(),
                sockets@.len() == servers@.len(),
                forall|i: int|
                    0 <= i < servers@.len() ==> runs_at(
                        #[trigger] servers@[i],
                        config@,
                        endpoints(config@.take(done as int))[i],
                    ),
                forall|i: int|
                    0 <= i < servers@.len() ==> #[trigger] sockets@[i] == servers@[i].address(),
            decreases config.servers.len() - done,
        {
            let server_config = &config.servers[done];
            let ghost before = endpoints(config@.take(done as int));
            let ghost views = config@;
            proof {
                assert(config@.take(done + 1).drop_last() == config@.take(done as int));
                assert(config@.take(done + 1).last() == server_config@);
            }
            let mut replica: usize = 0;
            while replica < server_config.listen.len()
                invariant
                    replica <= server_config.listen.len(),
                    done < config.servers.len(),
                    views == config@,
                    *server_config == config.servers@[done as int],
                    views[done as int] == server_config@,
                    servers@.len() == before.len() + replica,
                    sockets@.len() == servers@.len(),
                    forall|i: int|
                        0 <= i < before.len() ==> runs_at(#[trigger] servers@[i], views, before[i]),
                    forall|i: int|
                        before.len() <= i < servers@.len() ==> runs_at(
                            #[trigger] servers@[i],
                            views,
                            Endpoint { server: done as int, replica: i - before.len() },
                        ),
                    forall|i: int|
                        0 <= i < servers@.len() ==> #[trigger] sockets@[i] == servers@[i].address(),
                decreases server_config.listen.len() - replica,
            {
                let server = Server::init(server_config.clone(), replica);
                sockets.push(server.socket_address());
                servers.push(server);
                replica += 1;
            }
            done += 1;
        }
        proof {
            assert(config@.take(done as int) == config@);
        }
        let running = servers.len();
        (Master { sockets, running, notified: false, first_error: None }, servers)
    }

    /// The addresses of all servers.
    pub fn sockets(&self) -> (sockets: Vec<SocketAddr>)
        ensures
            sockets@ == self.addresses(),
    {
        let sockets = self.sockets.clone();
        assert(sockets@ =~= self.sockets@);
        sockets
    }

    /// Takes an event, and says what is to be done next.
    pub fn run(&mut self, event: Event) -> (decision: Decision)
        ensures
            (final(self)@, decision) == supervise(old(self)@, event),
            final(self).addresses() == old(self).addresses(),
    {
        match event {
            Event::Trigger => {
                if self.notified {
                    Decision { shutdown: false, result: None }
                } else {
                    self.notified = true;
                    Decision { shutdown: true, result: self.verdict() }
                }
            },
            Event::Joined(result) => {
                if self.running == 0 {
                    return Decision { shutdown: false, result: None };
                }
                let failed = result.is_err();
                let shutdown = !self.notified && failed;
                if let Err(error) = result {
                    if self.first_error.is_none() {
                        self.first_error = Some(error);
                    }
                }
                self.running = self.running - 1;
                self.notified = self.notified || failed;
                let result = if self.notified {
                    self.verdict()
                } else {
                    None
                };
                Decision { shutdown, result }
            },
        }
    }

    /// The result of the run, once no server runs any more.
    fn verdict(&self) -> (verdict: Option<Result<(), Error>>)
        ensures
            verdict == self@.verdict(),
    {
        if self.running == 0 {
            match &self.first_error {
                Some(error) => Some(Err(error.clone())),
                None => Some(Ok(())),
            }
        } else {
            None
        }
    }
}

} // verus!
