//! Forwarding a request to a backend, and what to make of the answer.

use crate::service::headers::{has_field, header_entries, is_field_name};
use http::header::HeaderMap;
use vstd::prelude::*;

verus! {

/// The name of the header by which a client asks to change the protocol.
pub fn upgrade() -> (name: &'static str)
    ensures
        name@ == "upgrade"@,
        is_field_name(name@),
{
    proof {
        reveal_strlit("upgrade");
    }
    "upgrade"
}

/// Whether a request asks to change the protocol: it bears an `Upgrade`
/// header.
pub fn requests_upgrade(headers: &HeaderMap) -> (asked: bool)
    ensures
        asked == header_entries(*headers).contains_key("upgrade"@),
{
    has_field(headers, upgrade())
}

/// What becomes of a request that is forwarded.
#[derive(Clone, Copy, Debug, PartialEq, Eq, Structural)]
pub enum Forwarding {
    /// The client gets the answer "bad gateway" from the proxy itself.
    BadGateway,
    /// The client gets the answer of the backend.
    Relay,
    /// The client gets the answer of the backend, and the two connections
    /// are joined into a tunnel.
    Tunnel,
}

/// The status by which a backend agrees to change the protocol.
pub const SWITCHING_PROTOCOLS: u16 = 101;

/// What becomes of a request once the backend has answered with `status`.
/// An answer that changes the protocol opens a tunnel if the client asked
/// for the change and is a fault of the backend if it did not; every other
/// answer is passed on.
pub open spec fn forwarding(asked: bool, status: u16) -> Forwarding {
    if status == SWITCHING_PROTOCOLS {
        if asked {
            Forwarding::Tunnel
        } else {
            Forwarding::BadGateway
        }
    } else {
        Forwarding::Relay
    }
}

/// What becomes of a request whose backend could not be reached
/// (`answer` is `None`) or answered with a status.
pub fn forward(asked: bool, answer: Option<u16>) -> (outcome: Forwarding)
    ensures
        outcome == match answer {
            None => Forwarding::BadGateway,
            Some(status) => forwarding(asked, status),
        },
{
    match answer {
        None => Forwarding::BadGateway,
        Some(status) => {
            if status == SWITCHING_PROTOCOLS {
                if asked {
                    Forwarding::Tunnel
                } else {
                    Forwarding::BadGateway
                }
            } else {
                Forwarding::Relay
            }
        },
    }
}

} // verus!
