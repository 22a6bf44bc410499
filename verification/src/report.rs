//! The NKRO report: a bounded, ordered list of the keycodes pressed during one
//! tick. It is rebuilt from scratch every tick; when a keycode does not fit,
//! it is dropped and the caller records a rollover.

use vstd::prelude::*;
use crate::Keycode;

verus! {

/// Bounded keycode list with capacity fixed at construction.
pub struct Report {
    /// The gathered keycodes, oldest first.
    pub keys: Vec<Keycode>,
    /// How many keycodes fit (the rollover limit).
    pub capacity: usize,
}

impl Report {
    /// An empty report that can hold up to `capacity` keycodes.
    pub fn new(capacity: usize) -> (r: Self)
        ensures
            r.keys@.len() == 0,
            r.capacity == capacity,
    {
        Report { keys: Vec::new(), capacity }
    }

    /// Drop every gathered keycode, keeping the capacity.
    pub fn clear(&mut self)
        ensures
            final(self).keys@.len() == 0,
            final(self).capacity == old(self).capacity,
    {
        self.keys.clear();
    }

    /// Append `key` if there is room; report whether it was taken.
    pub fn push(&mut self, key: Keycode) -> (accepted: bool)
        ensures
            final(self).capacity == old(self).capacity,
            accepted == (old(self).keys@.len() < old(self).capacity),
            accepted ==> final(self).keys@ == old(self).keys@.push(key),
            !accepted ==> final(self).keys@ == old(self).keys@,
    {
        if self.keys.len() < self.capacity {
            self.keys.push(key);
            true
        } else {
            false
        }
    }

    /// Number of keycodes gathered so far.
    pub fn len(&self) -> (n: usize)
        ensures
            n == self.keys@.len(),
    {
        self.keys.len()
    }

    /// The keycode at index `i`.
    pub fn get(&self, i: usize) -> (k: Keycode)
        requires
            i < self.keys@.len(),
        ensures
            k == self.keys@[i as int],
    {
        self.keys[i]
    }
}

} // verus!
