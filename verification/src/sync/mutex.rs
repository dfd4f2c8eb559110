//! An exclusive lock around a value.

use vstd::prelude::*;

verus! {

/// A mutual-exclusion lock that owns the value it protects.
#[derive(Debug)]
pub struct Mutex<T> {
    locked: bool,
    data: T,
}

/// Proof of a successful acquisition. Handing it back to the lock releases the lock.
#[derive(Debug)]
pub struct MutexGuard {
    _held: (),
}

impl<T> Mutex<T> {
    /// Whether a guard is outstanding.
    pub closed spec fn locked(&self) -> bool {
        self.locked
    }

    /// The protected value.
    pub closed spec fn value(&self) -> T {
        self.data
    }

    /// A free lock around `value`.
    pub fn new(value: T) -> (m: Self)
        ensures
            !m.locked(),
            m.value() == value,
    {
        Mutex { locked: false, data: value }
    }

    /// Whether a guard is outstanding.
    pub fn is_locked(&self) -> (b: bool)
        ensures
            b == self.locked(),
    {
        self.locked
    }

    /// Takes the lock if it is free. The lock is held afterwards either way, and the value
    /// is untouched.
    pub fn try_lock(&mut self) -> (g: Option<MutexGuard>)
        ensures
            g is Some <==> !old(self).locked(),
            final(self).locked(),
            final(self).value() == old(self).value(),
    {
        if !self.locked {
            self.locked = true;
            Some(MutexGuard { _held: () })
        } else {
            None
        }
    }

    /// Takes a free lock. Nobody else can release a held lock while this call runs, so the
    /// lock has to be free on entry.
    pub fn lock(&mut self) -> (g: MutexGuard)
        requires
            !old(self).locked(),
        ensures
            final(self).locked(),
            final(self).value() == old(self).value(),
    {
        match self.try_lock() {
            Some(data) => data,
            None => vstd::pervasive::unreached(),
        }
    }

    /// Releases the lock that `guard` stands for.
    pub fn unlock(&mut self, guard: MutexGuard)
        ensures
            !final(self).locked(),
            final(self).value() == old(self).value(),
    {
        let _ = guard;
        self.locked = false;
    }

    /// Reads the protected value on behalf of the guard's holder.
    pub fn get(&self, guard: &MutexGuard) -> (value: &T)
        ensures
            *value == self.value(),
    {
        let _ = guard;
        &self.data
    }

    /// Lends the protected value out for change on behalf of the guard's holder.
    pub fn get_mut(&mut self, guard: &MutexGuard) -> (value: &mut T)
        ensures
            *value == old(self).value(),
            final(self).value() == *final(value),
            final(self).locked() == old(self).locked(),
    {
        let _ = guard;
        &mut self.data
    }

    /// Gives up the lock and hands out the value.
    pub fn into_inner(self) -> (value: T)
        ensures
            value == self.value(),
    {
        self.data
    }
}

} // verus!
