//! A lock around a value for one writer, with readers that are counted but never held up.

use vstd::prelude::*;

verus! {

/// A lock that owns the value it protects. Writers exclude each other; readers are
/// always let in and only counted.
#[derive(Debug)]
pub struct DataRWLock<T> {
    write_lock: bool,
    read_locks: u32,
    data: T,
}

/// Proof of a granted write access. Handing it back to the lock ends the access.
#[derive(Debug)]
pub struct DataWriteLock {
    _held: (),
}

/// Proof of a counted read access. Handing it back to the lock ends the access.
#[derive(Debug)]
pub struct DataReadLock {
    _held: (),
}

impl<T> DataRWLock<T> {
    /// Whether a write guard is outstanding.
    pub closed spec fn write_locked(&self) -> bool {
        self.write_lock
    }

    /// How many read guards are outstanding.
    pub closed spec fn readers(&self) -> nat {
        self.read_locks as nat
    }

    /// The protected value.
    pub closed spec fn value(&self) -> T {
        self.data
    }

    /// A free lock around `value`.
    pub fn new(value: T) -> (l: Self)
        ensures
            !l.write_locked(),
            l.readers() == 0,
            l.value() == value,
    {
        DataRWLock { write_lock: false, read_locks: 0, data: value }
    }

    /// Whether a write guard is outstanding.
    pub fn is_write_locked(&self) -> (b: bool)
        ensures
            b == self.write_locked(),
    {
        self.write_lock
    }

    /// How many read guards are outstanding.
    pub fn reader_count(&self) -> (n: u32)
        ensures
            n == self.readers(),
    {
        self.read_locks
    }

    /// Takes the lock for writing if no writer holds it, whoever reads. The lock is
    /// write-held afterwards either way.
    pub fn try_lock(&mut self) -> (g: Option<DataWriteLock>)
        ensures
            g is Some <==> !old(self).write_locked(),
            final(self).write_locked(),
            final(self).readers() == old(self).readers(),
            final(self).value() == old(self).value(),
    {
        let was_locked = self.write_lock;
        self.write_lock = true;
        if !was_locked {
            Some(DataWriteLock { _held: () })
        } else {
            None
        }
    }

    /// Takes the lock for writing. Nobody else can release it while this call runs, so no
    /// writer may hold it on entry.
    pub fn lock(&mut self) -> (g: DataWriteLock)
        requires
            !old(self).write_locked(),
        ensures
            final(self).write_locked(),
            final(self).readers() == old(self).readers(),
            final(self).value() == old(self).value(),
    {
        match self.try_lock() {
            Some(data) => data,
            None => vstd::pervasive::unreached(),
        }
    }

    /// Lets a reader in and counts it. The count has to fit.
    pub fn read(&mut self) -> (g: DataReadLock)
        requires
            old(self).readers() < u32::MAX,
        ensures
            final(self).readers() == old(self).readers() + 1,
            final(self).write_locked() == old(self).write_locked(),
            final(self).value() == old(self).value(),
    {
        self.read_locks = self.read_locks + 1;
        DataReadLock { _held: () }
    }

    /// Ends the write access that `guard` stands for.
    pub fn release_write(&mut self, guard: DataWriteLock)
        ensures
            !final(self).write_locked(),
            final(self).readers() == old(self).readers(),
            final(self).value() == old(self).value(),
    {
        let _ = guard;
        self.write_lock = false;
    }

    /// Ends the read access that `guard` stands for.
    pub fn release_read(&mut self, guard: DataReadLock)
        requires
            old(self).readers() > 0,
        ensures
            final(self).readers() == old(self).readers() - 1,
            final(self).write_locked() == old(self).write_locked(),
            final(self).value() == old(self).value(),
    {
        let _ = guard;
        self.read_locks = self.read_locks - 1;
    }

    /// Reads the protected value on behalf of the writer.
    pub fn get(&self, guard: &DataWriteLock) -> (value: &T)
        ensures
            *value == self.value(),
    {
        let _ = guard;
        &self.data
    }

    /// Reads the protected value on behalf of a reader.
    pub fn get_shared(&self, guard: &DataReadLock) -> (value: &T)
        ensures
            *value == self.value(),
    {
        let _ = guard;
        &self.data
    }

    /// Lends the protected value out for change on behalf of the writer.
    pub fn get_mut(&mut self, guard: &DataWriteLock) -> (value: &mut T)
        ensures
            *value == old(self).value(),
            final(self).value() == *final(value),
            final(self).write_locked() == old(self).write_locked(),
            final(self).readers() == old(self).readers(),
    {
        let _ = guard;
        &mut self.data
    }
}

} // verus!
