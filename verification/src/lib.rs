//! A reverse proxy and static file server for HTTP/1.1: the rules by which it
//! admits connections, picks backends, rewrites headers, resolves files and
//! shuts down, each stated as a contract and proved.

pub mod config;
pub mod net;
pub mod server;
pub mod service;
pub mod sync;
pub mod text;
pub mod threading;

pub use config::{Action, Algorithm, Backend, Config, Forward, Pattern, Server};
pub use server::{Master, Server as ServerInstance, ShutdownState, State};
pub use service::{LocalResponse, ProxyRequest, ProxyResponse};
pub use sync::{Notification, Ring};
pub use threading::{make as make_scheduler, Scheduler, WeightedRoundRobin};

use vstd::prelude::*;

verus! {

/// The version of the proxy, as it names itself in the `Server` header.
pub const VERSION: &'static str = "0.1.0";

/// What can go wrong while the proxy runs, each with the words of the
/// fault that caused it.
#[derive(Debug)]
pub enum Error {
    /// Reading or writing failed: on a socket, or on a file.
    Io(String),
    /// The configuration could not be read.
    Toml(String),
    /// A request or a response broke the rules of HTTP.
    Http(String),
}

impl Clone for Error {
    fn clone(&self) -> (copy: Self)
        ensures
            copy == *self,
    {
        match self {
            Error::Io(fault) => Error::Io(fault.clone()),
            Error::Toml(fault) => Error::Toml(fault.clone()),
            Error::Http(fault) => Error::Http(fault.clone()),
        }
    }
}

impl Error {
    /// What the error says: its kind, then the words of the fault.
    pub open spec fn text(self) -> Seq<char> {
        match self {
            Error::Io(fault) => "IO error: "@ + fault@,
            Error::Toml(fault) => "TOML parse error: "@ + fault@,
            Error::Http(fault) => "HTTP error: "@ + fault@,
        }
    }

    /// The error in words.
    pub fn message(&self) -> (message: String)
        ensures
            message@ == self.text(),
    {
        match self {
            Error::Io(fault) => "IO error: ".to_owned().concat(fault.as_str()),
            Error::Toml(fault) => "TOML parse error: ".to_owned().concat(fault.as_str()),
            Error::Http(fault) => "HTTP error: ".to_owned().concat(fault.as_str()),
        }
    }
}

} // verus!
