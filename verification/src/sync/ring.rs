//! A fixed vector handed out round-robin through an atomic counter.

use std::sync::atomic::{AtomicUsize, Ordering};
use vstd::prelude::*;

verus! {

/// The position that the `ticket`-th draw takes in a ring of `len` values.
pub open spec fn ring_slot(ticket: nat, len: nat) -> int
    recommends
        len > 0,
{
    (ticket % len) as int
}

/// A non-empty vector and a counter of the draws made so far. Every draw
/// takes one ticket from the counter, atomically, and yields the value at
/// the ticket's slot.
#[derive(Debug)]
pub struct Ring<T> {
    values: Vec<T>,
    next: AtomicUsize,
}

impl<T> View for Ring<T> {
    type V = Seq<T>;

    closed spec fn view(&self) -> Seq<T> {
        self.values@
    }
}

impl<T> Ring<T> {
    #[verifier::type_invariant]
    spec fn well_formed(self) -> bool {
        self.values@.len() > 0
    }

    /// A ring over `values`, with no draw made yet.
    pub fn new(values: Vec<T>) -> (ring: Self)
        requires
            values@.len() > 0,
        ensures
            ring@ == values@,
    {
        Ring { values, next: AtomicUsize::new(0) }
    }

    /// The number of values, which is never zero.
    pub fn len(&self) -> (n: usize)
        ensures
            n == self@.len(),
            n > 0,
    {
        proof {
            use_type_invariant(self);
        }
        self.values.len()
    }

    /// The value that the draw with the given ticket yields.
    pub fn at(&self, ticket: usize) -> (value: &T)
        ensures
            self@.len() > 0,
            *value == self@[ring_slot(ticket as nat, self@.len())],
    {
        proof {
            use_type_invariant(self);
        }
        &self.values[ticket % self.values.len()]
    }

    /// Takes the next ticket. Callers on other threads take tickets from the
    /// same counter, so nothing is known of the number that comes back.
    fn ticket(&self) -> usize {
        self.next.fetch_add(1, Ordering::Relaxed)
    }

    /// The position of the next draw. A ring of one value has one position
    /// and leaves the counter alone.
    pub fn next_index(&self) -> (index: usize)
        ensures
            index < self@.len(),
            self@.len() == 1 ==> index == 0,
    {
        proof {
            use_type_invariant(self);
        }
        if self.values.len() == 1 {
            0
        } else {
            self.ticket() % self.values.len()
        }
    }

    /// Draws the next value, by reference.
    pub fn next_as_ref(&self) -> (value: &T)
        ensures
            self@.contains(*value),
            self@.len() == 1 ==> *value == self@[0],
    {
        let index = self.next_index();
        &self.values[index]
    }
}

impl<T: Copy> Ring<T> {
    /// Draws the next value, by copy.
    pub fn next_as_owned(&self) -> (value: T)
        ensures
            self@.contains(value),
            self@.len() == 1 ==> value == self@[0],
    {
        *self.next_as_ref()
    }
}

impl<T: Clone> Ring<T> {
    /// Draws the next value, by clone.
    pub fn next_as_cloned(&self) -> (value: T)
        ensures
            exists|i: int| 0 <= i < self@.len() && cloned(#[trigger] self@[i], value),
            self@.len() == 1 ==> cloned(self@[0], value),
    {
        let index = self.next_index();
        self.values[index].clone()
    }
}

} // verus!
