//! Weighted round robin: each backend takes, in every full cycle, as many
//! requests as its weight says.

use crate::config::Backend;
use crate::net::SocketAddr;
use crate::sync::ring::ring_slot;
use crate::sync::Ring;
use crate::threading::Scheduler;
use vstd::arithmetic::div_mod::{
    lemma_add_mod_noop,
    lemma_mod_add_multiples_vanish,
    lemma_mod_bound,
    lemma_small_mod,
};
use vstd::multiset::Multiset;
use vstd::prelude::*;
use vstd::seq_lib::lemma_multiset_commutative;

verus! {

/// `times` copies of one address.
pub open spec fn repeated(server: SocketAddr, times: nat) -> Seq<SocketAddr> {
    Seq::new(times, |i: int| server)
}

/// The cycle of a weighted round robin: the address of each backend,
/// repeated as often as its weight says, the backends in their given order.
pub open spec fn wrr_cycle(backends: Seq<Backend>) -> Seq<SocketAddr>
    decreases backends.len(),
{
    if backends.len() == 0 {
        Seq::empty()
    } else {
        wrr_cycle(backends.drop_last()) + repeated(
            backends.last().address,
            backends.last().weight as nat,
        )
    }
}

/// The sum of all weights.
pub open spec fn total_weight(backends: Seq<Backend>) -> nat
    decreases backends.len(),
{
    if backends.len() == 0 {
        0
    } else {
        total_weight(backends.drop_last()) + backends.last().weight as nat
    }
}

/// The sum of the weights of the backends that live at `server`.
pub open spec fn weight_of(backends: Seq<Backend>, server: SocketAddr) -> nat
    decreases backends.len(),
{
    if backends.len() == 0 {
        0
    } else {
        let rest = weight_of(backends.drop_last(), server);
        if backends.last().address == server {
            rest + backends.last().weight as nat
        } else {
            rest
        }
    }
}

/// What `count` draws in a row yield from a ring over `cycle`, when the
/// first of them holds ticket `start`.
pub open spec fn draws(cycle: Seq<SocketAddr>, start: nat, count: nat) -> Seq<SocketAddr>
    recommends
        cycle.len() > 0,
{
    Seq::new(count, |k: int| cycle[ring_slot((start + k) as nat, cycle.len())])
}

/// The cycle is as long as the weights are in sum.
pub proof fn lemma_cycle_len(backends: Seq<Backend>)
    ensures
        wrr_cycle(backends).len() == total_weight(backends),
    decreases backends.len(),
{
    if backends.len() > 0 {
        lemma_cycle_len(backends.drop_last());
    }
}

proof fn lemma_repeated_count(server: SocketAddr, times: nat, other: SocketAddr)
    ensures
        repeated(server, times).to_multiset().count(other) == if other == server {
            times
        } else {
            0
        },
    decreases times,
{
    broadcast use vstd::seq_lib::group_to_multiset_ensures;

    if times == 0 {
        assert(repeated(server, times) =~= Seq::<SocketAddr>::empty());
    } else {
        let shorter = (times - 1) as nat;
        lemma_repeated_count(server, shorter, other);
        assert(repeated(server, times) =~= repeated(server, shorter).push(server));
    }
}

/// The cycle holds each address as often as the backends at that address
/// weigh together.
pub proof fn lemma_cycle_count(backends: Seq<Backend>, server: SocketAddr)
    ensures
        wrr_cycle(backends).to_multiset().count(server) == weight_of(backends, server),
    decreases backends.len(),
{
    if backends.len() == 0 {
        assert(wrr_cycle(backends).to_multiset() =~= Multiset::<SocketAddr>::empty()) by {
            broadcast use vstd::seq_lib::group_to_multiset_ensures;

        }
    } else {
        let last = backends.last();
        lemma_cycle_count(backends.drop_last(), server);
        lemma_repeated_count(last.address, last.weight as nat, server);
        lemma_multiset_commutative(
            wrr_cycle(backends.drop_last()),
            repeated(last.address, last.weight as nat),
        );
    }
}

/// A full turn of the ring, wherever it starts, is the cycle cut in two
/// with the halves swapped.
proof fn lemma_full_turn(cycle: Seq<SocketAddr>, start: nat)
    requires
        cycle.len() > 0,
    ensures
        draws(cycle, start, cycle.len()) == cycle.subrange(
            ring_slot(start, cycle.len()),
            cycle.len() as int,
        ) + cycle.subrange(0, ring_slot(start, cycle.len())),
{
    let len = cycle.len() as int;
    let first = ring_slot(start, cycle.len());
    lemma_mod_bound(start as int, len);
    let turned = cycle.subrange(first, len) + cycle.subrange(0, first);
    assert forall|k: int| 0 <= k < len implies draws(cycle, start, cycle.len())[k] == turned[k] by {
        lemma_add_mod_noop(start as int, k, len);
        lemma_small_mod(k as nat, len as nat);
        if first + k < len {
            lemma_small_mod((first + k) as nat, len as nat);
        } else {
            lemma_mod_add_multiples_vanish(first + k - len, len);
            lemma_small_mod((first + k - len) as nat, len as nat);
        }
    }
    assert(draws(cycle, start, cycle.len()) =~= turned);
}

/// Cycle completeness. Take as many draws in a row as the weights are in
/// sum, starting at any ticket: every address comes up exactly as often as
/// the backends at that address weigh together. The tickets of the draws
/// are `start`, `start + 1` and so on; the counter that deals them starts
/// anew after `usize::MAX`, and a row of draws that runs over that point is
/// not covered.
pub proof fn lemma_cycle_complete(backends: Seq<Backend>, start: nat, server: SocketAddr)
    requires
        total_weight(backends) > 0,
        start + total_weight(backends) <= usize::MAX + 1,
    ensures
        draws(wrr_cycle(backends), start, total_weight(backends)).to_multiset().count(server)
            == weight_of(backends, server),
{
    let cycle = wrr_cycle(backends);
    lemma_cycle_len(backends);
    lemma_cycle_count(backends, server);
    lemma_full_turn(cycle, start);
    let first = ring_slot(start, cycle.len());
    lemma_mod_bound(start as int, cycle.len() as int);
    let head = cycle.subrange(0, first);
    let tail = cycle.subrange(first, cycle.len() as int);
    lemma_multiset_commutative(tail, head);
    lemma_multiset_commutative(head, tail);
    assert(cycle =~= head + tail);
}

/// The scheduler of weighted round robin: a ring over the cycle that the
/// backends and their weights make.
#[derive(Debug)]
pub struct WeightedRoundRobin {
    cycle: Ring<SocketAddr>,
}

impl WeightedRoundRobin {
    /// The cycle that the scheduler turns through.
    pub closed spec fn cycle(&self) -> Seq<SocketAddr> {
        self.cycle@
    }

    /// A scheduler over `backends`, of which at least one has a weight
    /// above zero.
    pub fn new(backends: &Vec<Backend>) -> (scheduler: Self)
        requires
            total_weight(backends@) > 0,
        ensures
            scheduler.cycle() == wrr_cycle(backends@),
    {
        let mut cycle: Vec<SocketAddr> = Vec::new();
        let mut done: usize = 0;
        while done < backends.len()
            invariant
                done <= backends.len(),
                cycle@ == wrr_cycle(backends@.take(done as int)),
            decreases backends.len() - done,
        {
            let backend = &backends[done];
            let ghost before = cycle@;
            let mut weight: usize = backend.weight;
            while weight > 0
                invariant
                    weight <= backend.weight,
                    cycle@ == before + repeated(backend.address, (backend.weight - weight) as nat),
                decreases weight,
            {
                cycle.push(backend.address);
                weight -= 1;
            }
            proof {
                let next = backends@.take(done + 1);
                assert(next.drop_last() == backends@.take(done as int));
                assert(next.last() == *backend);
            }
            done += 1;
        }
        proof {
            assert(backends@.take(done as int) == backends@);
            lemma_cycle_len(backends@);
        }
        WeightedRoundRobin { cycle: Ring::new(cycle) }
    }
}

impl Scheduler for WeightedRoundRobin {
    open spec fn servers(&self) -> Set<SocketAddr> {
        Set::new(|server: SocketAddr| self.cycle().contains(server))
    }

    fn next_server(&self) -> (server: SocketAddr) {
        self.cycle.next_as_owned()
    }
}

} // verus!
