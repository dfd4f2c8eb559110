//! A bare flag lock.

use vstd::prelude::*;

verus! {

/// A lock without a value: a flag that its holder sets and clears.
#[derive(Debug)]
pub struct Spinlock {
    flag: bool,
}

impl Spinlock {
    /// Whether the lock is held.
    pub closed spec fn held(&self) -> bool {
        self.flag
    }

    /// A free lock.
    pub fn new() -> (l: Spinlock)
        ensures
            !l.held(),
    {
        Spinlock { flag: false }
    }

    /// Whether the lock is held.
    pub fn is_held(&self) -> (b: bool)
        ensures
            b == self.held(),
    {
        self.flag
    }

    /// Takes a free lock. Nobody else can release a held lock while this call runs, so
    /// the lock has to be free on entry.
    pub fn aquire(&mut self)
        requires
            !old(self).held(),
        ensures
            final(self).held(),
    {
        self.flag = true;
    }

    /// Frees the lock, held or not.
    pub fn release(&mut self)
        ensures
            !final(self).held(),
    {
        self.flag = false;
    }
}

} // verus!
