//! A small counting semaphore.

use vstd::prelude::*;

verus! {

/// A counter of up to 65535 permits: `up` adds one, `down` takes one and needs one to be
/// there.
#[derive(Debug)]
pub struct Semaphore {
    count: u16,
}

impl Semaphore {
    /// How many permits are there to take.
    pub closed spec fn count(&self) -> nat {
        self.count as nat
    }

    /// A semaphore with `initial` permits.
    pub fn new(initial: u16) -> (s: Semaphore)
        ensures
            s.count() == initial,
    {
        Semaphore { count: initial }
    }

    /// How many permits are there to take.
    pub fn available(&self) -> (n: u16)
        ensures
            n == self.count(),
    {
        self.count
    }

    /// Adds a permit. The count has to fit.
    pub fn up(&mut self)
        requires
            old(self).count() < u16::MAX,
        ensures
            final(self).count() == old(self).count() + 1,
    {
        self.count = self.count + 1;
    }

    /// Takes a permit. Nobody else can add one while this call runs, so one has to be
    /// there on entry.
    pub fn down(&mut self)
        requires
            old(self).count() > 0,
        ensures
            final(self).count() == old(self).count() - 1,
    {
        if self.try_down().is_err() {
            vstd::pervasive::unreached()
        }
    }

    /// Takes a permit if there is one, and says so with `Ok`; leaves an empty semaphore
    /// as it is and says `Err`.
    pub fn try_down(&mut self) -> (taken: Result<(), ()>)
        ensures
            taken is Ok <==> old(self).count() > 0,
            final(self).count() == old(self).count() - (if taken is Ok { 1nat } else { 0nat }),
    {
        if self.count > 0 {
            self.count = self.count - 1;
            Ok(())
        } else {
            Err(())
        }
    }
}

} // verus!
