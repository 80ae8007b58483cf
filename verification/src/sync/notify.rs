//! Notifications that a server sends to the tasks of its connections, and
//! what a task owes in return.

use vstd::prelude::*;

verus! {

/// What a server tells the tasks of its connections.
#[derive(Clone, Copy, Debug, PartialEq, Eq, Structural)]
pub enum Notification {
    /// The server shuts down.
    Shutdown,
}

/// Whether a task whose work is done owes an acknowledgement. It looks
/// for a notification once, without waiting; it acknowledges the shutdown
/// if it finds it, and in either case lets go of its subscription. A task
/// that finds nothing owes nothing: letting go is enough for the server to
/// count it as done.
pub fn acknowledges(received: Option<Notification>) -> (owed: bool)
    ensures
        owed == (received is Some),
{
    match received {
        Some(Notification::Shutdown) => true,
        None => false,
    }
}

} // verus!
