//! A lock around a value for one writer or many readers.

use vstd::prelude::*;

verus! {

/// A lock that owns the value it protects and admits either one writer or any number of
/// readers.
#[derive(Debug)]
pub struct RWLock<T> {
    write_lock: bool,
    read_locks: u32,
    data: T,
}

/// Proof of a granted write access. Handing it back to the lock ends the access.
#[derive(Debug)]
pub struct WriteLockGuard {
    _held: (),
}

/// Proof of a granted read access. Handing it back to the lock ends the access.
#[derive(Debug)]
pub struct ReadLockGuard {
    _held: (),
}

impl<T> RWLock<T> {
    /// Whether a write guard is outstanding.
    pub closed spec fn write_locked(&self) -> bool {
        self.write_lock
    }

    /// How many read guards are outstanding.
    pub closed spec fn readers(&self) -> nat {
        self.read_locks as nat
    }

    /// The protected value.
    pub closed spec fn value(&self) -> T {
        self.data
    }

    /// Writers and readers exclude each other.
    pub open spec fn wf(&self) -> bool {
        !(self.write_locked() && self.readers() > 0)
    }

    /// A free lock around `value`.
    pub fn new(value: T) -> (l: Self)
        ensures
            !l.write_locked(),
            l.readers() == 0,
            l.value() == value,
            l.wf(),
    {
        RWLock { write_lock: false, read_locks: 0, data: value }
    }

    /// Whether a write guard is outstanding.
    pub fn is_write_locked(&self) -> (b: bool)
        ensures
            b == self.write_locked(),
    {
        self.write_lock
    }

    /// How many read guards are outstanding.
    pub fn reader_count(&self) -> (n: u32)
        ensures
            n == self.readers(),
    {
        self.read_locks
    }

    /// Takes the lock for writing if nobody reads and nobody writes.
    pub fn try_write(&mut self) -> (g: Option<WriteLockGuard>)
        ensures
            old(self).wf() ==> final(self).wf(),
            g is Some <==> !old(self).write_locked() && old(self).readers() == 0,
            final(self).write_locked() <==> old(self).write_locked() || old(self).readers() == 0,
            final(self).readers() == old(self).readers(),
            final(self).value() == old(self).value(),
    {
        if self.read_locks > 0 {
            return None;
        }
        if !self.write_lock {
            self.write_lock = true;
            Some(WriteLockGuard { _held: () })
        } else {
            None
        }
    }

    /// Takes a free lock for writing. Nobody else can release the lock while this call
    /// runs, so it has to be free on entry.
    pub fn write(&mut self) -> (g: WriteLockGuard)
        requires
            !old(self).write_locked(),
            old(self).readers() == 0,
        ensures
            old(self).wf() ==> final(self).wf(),
            final(self).write_locked(),
            final(self).readers() == 0,
            final(self).value() == old(self).value(),
    {
        match self.try_write() {
            Some(write_guard) => write_guard,
            None => vstd::pervasive::unreached(),
        }
    }

    /// Takes the lock for reading if nobody writes. The count of readers has to fit.
    pub fn try_read(&mut self) -> (g: Option<ReadLockGuard>)
        requires
            !old(self).write_locked() ==> old(self).readers() < u32::MAX,
        ensures
            old(self).wf() ==> final(self).wf(),
            g is Some <==> !old(self).write_locked(),
            final(self).write_locked() == old(self).write_locked(),
            final(self).readers() == old(self).readers() + (if g is Some { 1nat } else { 0nat }),
            final(self).value() == old(self).value(),
    {
        if self.write_lock {
            None
        } else {
            self.read_locks = self.read_locks + 1;
            Some(ReadLockGuard { _held: () })
        }
    }

    /// Takes the lock for reading. Nobody else can release the lock while this call runs,
    /// so no writer may hold it on entry.
    pub fn read(&mut self) -> (g: ReadLockGuard)
        requires
            !old(self).write_locked(),
            old(self).readers() < u32::MAX,
        ensures
            old(self).wf() ==> final(self).wf(),
            !final(self).write_locked(),
            final(self).readers() == old(self).readers() + 1,
            final(self).value() == old(self).value(),
    {
        match self.try_read() {
            Some(read_guard) => read_guard,
            None => vstd::pervasive::unreached(),
        }
    }

    /// Ends the write access that `guard` stands for.
    pub fn release_write(&mut self, guard: WriteLockGuard)
        ensures
            old(self).wf() ==> final(self).wf(),
            !final(self).write_locked(),
            final(self).readers() == old(self).readers(),
            final(self).value() == old(self).value(),
    {
        let _ = guard;
        self.write_lock = false;
    }

    /// Ends the read access that `guard` stands for.
    pub fn release_read(&mut self, guard: ReadLockGuard)
        requires
            old(self).readers() > 0,
        ensures
            old(self).wf() ==> final(self).wf(),
            final(self).write_locked() == old(self).write_locked(),
            final(self).readers() == old(self).readers() - 1,
            final(self).value() == old(self).value(),
    {
        let _ = guard;
        self.read_locks = self.read_locks - 1;
    }

    /// Reads the protected value on behalf of a writer.
    pub fn get(&self, guard: &WriteLockGuard) -> (value: &T)
        ensures
            *value == self.value(),
    {
        let _ = guard;
        &self.data
    }

    /// Reads the protected value on behalf of a reader.
    pub fn get_shared(&self, guard: &ReadLockGuard) -> (value: &T)
        ensures
            *value == self.value(),
    {
        let _ = guard;
        &self.data
    }

    /// Lends the protected value out for change on behalf of the writer.
    pub fn get_mut(&mut self, guard: &WriteLockGuard) -> (value: &mut T)
        ensures
            *value == old(self).value(),
            final(self).value() == *final(value),
            final(self).write_locked() == old(self).write_locked(),
            final(self).readers() == old(self).readers(),
    {
        let _ = guard;
        &mut self.data
    }

    /// Reads the protected value past the lock, whoever holds it.
    pub fn as_ref_unchecked(&self) -> (value: &T)
        ensures
            *value == self.value(),
    {
        &self.data
    }

    /// Gives up the lock and hands out the value.
    pub fn into_inner(self) -> (value: T)
        ensures
            value == self.value(),
    {
        self.data
    }
}

} // verus!
