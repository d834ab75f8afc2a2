//! The listener registry's shape, and the dispatch decision a bulk
//! trampoline makes against it.
//!
//! The registry proper is an external collaborator: a shared mapping from a
//! small integer index to an owning handle on a listener, guarded by mutual
//! exclusion. Here it is modeled as an explicitly owned table of
//! (index, listener) registrations, last registration winning, and the
//! trampoline body is the decision it forces: look the index up; if a
//! listener is registered, hand its handle and the parameter to the
//! scheduler without waiting for the handler; if none is, report the miss
//! non-fatally and do nothing. The host glue performs the scheduling; it
//! holds the registry's guard only for the lookup, never across the handler.

use vstd::prelude::*;

verus! {

/// What a registry lookup finds: the listener under the last registration
/// of the index, if any.
pub open spec fn lookup_in(entries: Seq<(usize, u64)>, index: usize) -> Option<u64>
    decreases entries.len(),
{
    if entries.len() == 0 {
        None::<u64>
    } else if entries.last().0 == index {
        Some(entries.last().1)
    } else {
        lookup_in(entries.drop_last(), index)
    }
}

/// An owned listener registry: registrations in the order they were made,
/// each a (dispatch index, listener handle) pair.
pub struct ListenerRegistry {
    pub entries: Vec<(usize, u64)>,
}

impl ListenerRegistry {
    /// An empty registry: every lookup misses.
    pub fn new() -> (r: ListenerRegistry)
        ensures
            r.entries@ =~= Seq::<(usize, u64)>::empty(),
            forall|index: usize| lookup_in(r.entries@, index) is None,
    {
        let r = ListenerRegistry { entries: Vec::new() };
        r
    }

    /// Registers a listener under an index. A later registration of the same
    /// index shadows an earlier one; every other index is untouched.
    pub fn register(&mut self, index: usize, listener: u64)
        ensures
            final(self).entries@ == old(self).entries@.push((index, listener)),
            lookup_in(final(self).entries@, index) == Some(listener),
            forall|other: usize|
                other != index ==> lookup_in(final(self).entries@, other) == lookup_in(
                    old(self).entries@,
                    other,
                ),
    {
        self.entries.push((index, listener));
        proof {
            assert forall|other: usize| other != index implies lookup_in(self.entries@, other)
                == lookup_in(old(self).entries@, other) by {
                assert(self.entries@.drop_last() =~= old(self).entries@);
            }
            assert(self.entries@.drop_last() =~= old(self).entries@);
        }
    }

    /// Looks an index up: the listener of its last registration, or nothing.
    pub fn lookup(&self, index: usize) -> (r: Option<u64>)
        ensures
            r == lookup_in(self.entries@, index),
    {
        let mut found: Option<u64> = None;
        let mut i: usize = 0;
        while i < self.entries.len()
            invariant
                i <= self.entries@.len(),
                found == lookup_in(self.entries@.take(i as int), index),
            decreases self.entries@.len() - i,
        {
            proof {
                assert(self.entries@.take(i + 1 as int).drop_last() =~= self.entries@.take(
                    i as int,
                ));
                assert(self.entries@.take(i + 1 as int).last() == self.entries@[i as int]);
            }
            if self.entries[i].0 == index {
                found = Some(self.entries[i].1);
            }
            i += 1;
        }
        proof {
            assert(self.entries@.take(self.entries@.len() as int) =~= self.entries@);
        }
        found
    }
}

/// What one bulk-trampoline invocation decides.
#[derive(Clone, Copy, PartialEq, Eq, Structural, Debug)]
pub enum DispatchOutcome {
    /// A listener is registered for the index: its handle and the parameter
    /// go to the scheduler; the trampoline's caller is never blocked on the
    /// handler, whose completion it does not observe.
    Scheduled { listener: u64, param: u32 },
    /// No listener is registered for the index: the miss is reported
    /// non-fatally and nothing is scheduled.
    NoListener { index: usize },
}

/// The decision forced by the registry's contents.
pub open spec fn dispatch_decision(
    entries: Seq<(usize, u64)>,
    index: usize,
    param: u32,
) -> DispatchOutcome {
    match lookup_in(entries, index) {
        Some(listener) => DispatchOutcome::Scheduled { listener, param },
        None => DispatchOutcome::NoListener { index },
    }
}

/// The synchronous part of one bulk-trampoline invocation: the registry
/// lookup for the trampoline's index, and the decision that follows.
/// Scheduling itself, and releasing the registry guard before it, are the
/// host glue's; a handler is scheduled exactly when the index is registered.
pub fn trampoline_invoke(registry: &ListenerRegistry, index: usize, param: u32) -> (r:
    DispatchOutcome)
    ensures
        r == dispatch_decision(registry.entries@, index, param),
{
    match registry.lookup(index) {
        Some(listener) => DispatchOutcome::Scheduled { listener, param },
        None => DispatchOutcome::NoListener { index },
    }
}

} // verus!
