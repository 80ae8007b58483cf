//! Schedulers: policies that pick the backend for the next request.

use crate::config::{Algorithm, Backend};
use crate::net::SocketAddr;
use vstd::prelude::*;

pub mod wrr;

pub use wrr::WeightedRoundRobin;

use wrr::{lemma_cycle_count, total_weight, weight_of, wrr_cycle};

verus! {

/// A policy that picks, request by request, the backend to forward to.
/// Implementations are shared between tasks and called concurrently.
pub trait Scheduler: Send + Sync {
    /// The addresses among which the scheduler picks.
    spec fn servers(&self) -> Set<SocketAddr>;

    /// The address of the server that is to take the next request.
    fn next_server(&self) -> (server: SocketAddr)
        ensures
            self.servers().contains(server),
    ;
}

/// A scheduler of any policy, behind one type.
pub struct BoxedScheduler {
    inner: Box<dyn Scheduler>,
}

impl Scheduler for BoxedScheduler {
    closed spec fn servers(&self) -> Set<SocketAddr> {
        self.inner.servers()
    }

    fn next_server(&self) -> (server: SocketAddr) {
        self.inner.next_server()
    }
}

/// The scheduler that `algorithm` names, over `backends`, of which at least
/// one has a weight above zero. It picks among the addresses of the backends
/// that have one.
pub fn make(algorithm: Algorithm, backends: &Vec<Backend>) -> (scheduler: BoxedScheduler)
    requires
        total_weight(backends@) > 0,
    ensures
        forall|server: SocketAddr|
            scheduler.servers().contains(server) <==> weight_of(backends@, server) > 0,
{
    match algorithm {
        Algorithm::Wrr => {
            let scheduler = WeightedRoundRobin::new(backends);
            proof {
                assert forall|server: SocketAddr|
                    scheduler.servers().contains(server) <==> weight_of(backends@, server)
                        > 0 by {
                    lemma_cycle_count(backends@, server);
                    wrr_cycle(backends@).to_multiset_ensures();
                }
            }
            BoxedScheduler { inner: Box::new(scheduler) }
        },
    }
}

} // verus!
