//! Change detection for the values a bridge mirrors on the simulation side.

use vstd::prelude::*;

verus! {

/// A value of the simulation together with what its change detection reports
/// to a bridge: whether the simulation's own logic wrote it since the bridge
/// last ran, and whether it only just came into being.
pub struct Watched<T> {
    value: T,
    changed: bool,
    added: bool,
}

impl<T> Watched<T> {
    pub closed spec fn value(&self) -> T {
        self.value
    }

    pub closed spec fn changed(&self) -> bool {
        self.changed
    }

    pub closed spec fn added(&self) -> bool {
        self.added
    }

    /// A value that was just initialized: it counts as added and as changed.
    pub fn new(value: T) -> (watched: Self)
        ensures
            watched.value() == value,
            watched.changed(),
            watched.added(),
    {
        Watched { value, changed: true, added: true }
    }

    pub fn get(&self) -> (value: &T)
        ensures
            *value == self.value(),
    {
        &self.value
    }

    pub fn into_inner(self) -> (value: T)
        ensures
            value == self.value(),
    {
        self.value
    }

    /// A write by the simulation's own logic: the bridge will see a change.
    pub fn set(&mut self, value: T)
        ensures
            final(self).value() == value,
            final(self).changed(),
            final(self).added() == old(self).added(),
    {
        self.value = value;
        self.changed = true;
    }

    /// A write by the bridge itself, which its own change detection does not
    /// report back to it.
    pub fn overwrite(&mut self, value: T)
        ensures
            final(self).value() == value,
            final(self).changed() == old(self).changed(),
            final(self).added() == old(self).added(),
    {
        self.value = value;
    }

    pub fn is_changed(&self) -> (changed: bool)
        ensures
            changed == self.changed(),
    {
        self.changed
    }

    pub fn is_added(&self) -> (added: bool)
        ensures
            added == self.added(),
    {
        self.added
    }

    /// The bridge has run: what happened before is no longer a change.
    pub fn end_tick(&mut self)
        ensures
            final(self).value() == old(self).value(),
            !final(self).changed(),
            !final(self).added(),
    {
        self.changed = false;
        self.added = false;
    }
}

} // verus!
