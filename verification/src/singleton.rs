//! The one-time initialization behind every generated singleton accessor.
//!
//! Each generated record variant owns exactly one process-wide instance,
//! built on first access and never replaced. The sequential meaning of that
//! guard is modeled here: a slot that accepts its first value and ignores
//! every later initialization attempt. The host glue realizes it with a
//! standard lazily-initialized-once primitive with interior synchronization,
//! under which exactly one concurrent first caller runs the constructor and
//! every caller observes the one result.

use vstd::prelude::*;

verus! {

/// What one initialization attempt leaves in the slot: the first value
/// sticks, later values are ignored.
pub open spec fn once_init<V>(slot: Option<V>, fresh: V) -> Option<V> {
    if slot is Some {
        slot
    } else {
        Some(fresh)
    }
}

/// A slot initialized at most once.
pub struct OnceSlot<V> {
    slot: Option<V>,
}

impl<V> OnceSlot<V> {
    /// What the slot holds: nothing before first initialization, then
    /// forever its first value.
    pub closed spec fn stored(&self) -> Option<V> {
        self.slot
    }

    /// An empty slot.
    pub fn new() -> (r: OnceSlot<V>)
        ensures
            r.stored() is None,
    {
        OnceSlot { slot: None }
    }

    /// One initialization attempt with a freshly constructed value: stored
    /// if the slot was empty, dropped if it was not.
    pub fn get_or_init(&mut self, fresh: V)
        ensures
            final(self).stored() == once_init(old(self).stored(), fresh),
    {
        if self.slot.is_none() {
            self.slot = Some(fresh);
        }
    }

    /// The instance, once some initialization attempt has run.
    pub fn get(&self) -> (r: &V)
        requires
            self.stored() is Some,
        ensures
            self.stored() == Some(*r),
    {
        match &self.slot {
            Some(v) => v,
            None => vstd::pervasive::unreached(),
        }
    }
}

/// The accessor's guarantee: once a value is stored, every later
/// initialization attempt, whatever fresh value it brings, leaves the slot
/// unchanged, so all callers observe the one first-constructed instance.
pub proof fn lemma_once_init_stable<V>(slot: Option<V>, first: V, later: V)
    ensures
        once_init(once_init(slot, first), later) == once_init(slot, first),
{
}

} // verus!
