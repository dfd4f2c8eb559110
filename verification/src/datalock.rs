//! An exclusive lock around a value that can also be read past the lock.

use vstd::prelude::*;

verus! {

/// An exclusive lock that owns the value it protects.
#[derive(Debug)]
pub struct DataLock<T> {
    locked: bool,
    data: T,
}

/// Proof of a successful acquisition. Handing it back to the lock releases the lock.
#[derive(Debug)]
pub struct TryDataLock {
    _held: (),
}

impl<T> DataLock<T> {
    /// Whether a guard is outstanding.
    pub closed spec fn locked(&self) -> bool {
        self.locked
    }

    /// The protected value.
    pub closed spec fn value(&self) -> T {
        self.data
    }

    /// A free lock around `value`.
    pub fn new(value: T) -> (l: Self)
        ensures
            !l.locked(),
            l.value() == value,
    {
        DataLock { locked: false, data: value }
    }

    /// Whether a guard is outstanding.
    pub fn is_locked(&self) -> (b: bool)
        ensures
            b == self.locked(),
    {
        self.locked
    }

    /// Takes the lock if it is free. The lock is held afterwards either way, and the value
    /// is untouched.
    pub fn try_lock(&mut self) -> (g: Option<TryDataLock>)
        ensures
            g is Some <==> !old(self).locked(),
            final(self).locked(),
            final(self).value() == old(self).value(),
    {
        let was_locked = self.locked;
        self.locked = true;
        if !was_locked {
            Some(TryDataLock { _held: () })
        } else {
            None
        }
    }

    /// Takes a free lock. Nobody else can release a held lock while this call runs, so the
    /// lock has to be free on entry.
    pub fn lock(&mut self) -> (g: TryDataLock)
        requires
            !old(self).locked(),
        ensures
            final(self).locked(),
            final(self).value() == old(self).value(),
    {
        match self.try_lock() {
            Some(data) => data,
            None => vstd::pervasive::unreached(),
        }
    }

    /// Reads the protected value past the lock, whoever holds it.
    pub fn read(&self) -> (value: &T)
        ensures
            *value == self.value(),
    {
        &self.data
    }

    /// Releases the lock that `guard` stands for.
    pub fn unlock(&mut self, guard: TryDataLock)
        ensures
            !final(self).locked(),
            final(self).value() == old(self).value(),
    {
        let _ = guard;
        self.locked = false;
    }

    /// Reads the protected value on behalf of the guard's holder.
    pub fn get(&self, guard: &TryDataLock) -> (value: &T)
        ensures
            *value == self.value(),
    {
        let _ = guard;
        &self.data
    }

    /// Lends the protected value out for change on behalf of the guard's holder.
    pub fn get_mut(&mut self, guard: &TryDataLock) -> (value: &mut T)
        ensures
            *value == old(self).value(),
            final(self).value() == *final(value),
            final(self).locked() == old(self).locked(),
    {
        let _ = guard;
        &mut self.data
    }
}

} // verus!
