//! The read-write lock for poll-driven tasks.

use crate::async_locks::acquire::Acquire;
use crate::async_locks::registry::RegistryModel;
use crate::async_locks::registry::WaitRegistry;
use crate::sync::rwlock::RWLock;
use crate::sync::rwlock::ReadLockGuard;
use crate::sync::rwlock::WriteLockGuard;
use std::task::Waker;
use vstd::prelude::*;

verus! {

/// The state of an [`AsyncRWLock`] as far as the protocol goes: whether a writer holds
/// it, how many readers do, and who waits for it.
pub struct AsyncRWLockModel {
    pub writer: bool,
    pub readers: nat,
    pub registry: RegistryModel,
}

impl AsyncRWLockModel {
    /// A free lock that nobody waits for.
    pub open spec fn fresh() -> Self {
        AsyncRWLockModel { writer: false, readers: 0, registry: RegistryModel::empty() }
    }

    /// Writers and readers exclude each other, and the registry is in order.
    pub open spec fn wf(self) -> bool {
        &&& !(self.writer && self.readers > 0)
        &&& self.registry.wf()
    }

    /// Whether a write attempt made in this state is granted: nobody writes, nobody reads.
    pub open spec fn grants_write(self) -> bool {
        !self.writer && self.readers == 0
    }

    /// Whether a read attempt made in this state is granted: nobody writes.
    pub open spec fn grants_read(self) -> bool {
        !self.writer
    }

    /// The state after a task has asked for write access.
    pub open spec fn lock(self) -> Self {
        if self.grants_write() {
            AsyncRWLockModel { writer: true, ..self }
        } else {
            AsyncRWLockModel { registry: self.registry.allocate(), ..self }
        }
    }

    /// The state after a task has asked for read access.
    pub open spec fn read(self) -> Self {
        if self.grants_read() {
            AsyncRWLockModel { readers: self.readers + 1, ..self }
        } else {
            AsyncRWLockModel { registry: self.registry.allocate(), ..self }
        }
    }

    /// The state after the write request `id` has been polled with `handle`.
    pub open spec fn poll_write(self, id: usize, handle: Waker) -> Self {
        if self.grants_write() {
            AsyncRWLockModel { writer: true, registry: self.registry.deregister(id), ..self }
        } else {
            AsyncRWLockModel { registry: self.registry.register(id, handle), ..self }
        }
    }

    /// The state after the read request `id` has been polled with `handle`.
    pub open spec fn poll_read(self, id: usize, handle: Waker) -> Self {
        if self.grants_read() {
            AsyncRWLockModel {
                readers: self.readers + 1,
                registry: self.registry.deregister(id),
                ..self
            }
        } else {
            AsyncRWLockModel { registry: self.registry.register(id, handle), ..self }
        }
    }

    /// The state after the request `id`, of either kind, has been abandoned.
    pub open spec fn cancel(self, id: usize) -> Self {
        AsyncRWLockModel { registry: self.registry.deregister(id), ..self }
    }

    /// The state after the write guard has come back: no writer, and the first waiter
    /// woken, whatever it waits for.
    pub open spec fn release_write(self) -> Self {
        AsyncRWLockModel { writer: false, registry: self.registry.wake_next(), ..self }
    }

    /// The state after a read guard has come back: one reader less, and the first waiter
    /// woken, whatever it waits for.
    pub open spec fn release_read(self) -> Self {
        AsyncRWLockModel {
            readers: (self.readers - 1) as nat,
            registry: self.registry.wake_next(),
            ..self
        }
    }

    /// The state after `event`.
    pub open spec fn step(self, event: RWLockEvent) -> Self {
        match event {
            RWLockEvent::Lock => self.lock(),
            RWLockEvent::Read => self.read(),
            RWLockEvent::PollWrite(id, handle) => self.poll_write(id, handle),
            RWLockEvent::PollRead(id, handle) => self.poll_read(id, handle),
            RWLockEvent::Cancel(id) => self.cancel(id),
            RWLockEvent::ReleaseWrite => self.release_write(),
            RWLockEvent::ReleaseRead => self.release_read(),
        }
    }

    /// Whether `event`, met in this state, is answered with a write guard.
    pub open spec fn answers_write(self, event: RWLockEvent) -> bool {
        (event is Lock || event is PollWrite) && self.grants_write()
    }

    /// Whether `event`, met in this state, is answered with a read guard.
    pub open spec fn answers_read(self, event: RWLockEvent) -> bool {
        (event is Read || event is PollRead) && self.grants_read()
    }

    /// The state after the events of `trace`, in their order.
    pub open spec fn run(self, trace: Seq<RWLockEvent>) -> Self
        decreases trace.len(),
    {
        if trace.len() == 0 {
            self
        } else {
            self.run(trace.drop_last()).step(trace.last())
        }
    }

    /// How many write guards are out after `trace`, where `held` were out before it.
    pub open spec fn write_guards(self, held: int, trace: Seq<RWLockEvent>) -> int
        decreases trace.len(),
    {
        if trace.len() == 0 {
            held
        } else {
            let before = self.write_guards(held, trace.drop_last());
            if trace.last() is ReleaseWrite {
                before - 1
            } else if self.run(trace.drop_last()).answers_write(trace.last()) {
                before + 1
            } else {
                before
            }
        }
    }

    /// How many read guards are out after `trace`, where `held` were out before it.
    pub open spec fn read_guards(self, held: int, trace: Seq<RWLockEvent>) -> int
        decreases trace.len(),
    {
        if trace.len() == 0 {
            held
        } else {
            let before = self.read_guards(held, trace.drop_last());
            if trace.last() is ReleaseRead {
                before - 1
            } else if self.run(trace.drop_last()).answers_read(trace.last()) {
                before + 1
            } else {
                before
            }
        }
    }

    /// Whether every release in `trace` gives back a guard of its kind that is out at
    /// that moment.
    pub open spec fn legal(self, writing: int, reading: int, trace: Seq<RWLockEvent>) -> bool {
        forall|n: int|
            0 <= n < trace.len() ==> {
                &&& trace[n] is ReleaseWrite ==> self.write_guards(writing, trace.take(n)) > 0
                &&& trace[n] is ReleaseRead ==> self.read_guards(reading, trace.take(n)) > 0
            }
    }

    /// Whether every event of `trace` asks for read access, for the first time or again.
    pub open spec fn only_reads(trace: Seq<RWLockEvent>) -> bool {
        forall|n: int| 0 <= n < trace.len() ==> trace[n] is Read || trace[n] is PollRead
    }

    /// Exclusion. Start in a state that counts the guards that are out, with no reader
    /// beside a writer, and let any events follow in which a guard comes back only while
    /// one of its kind is out. Then at every moment at most one write guard is out, no
    /// read guard is out beside it, and the state still counts the guards.
    pub proof fn lemma_writer_alone_or_readers(
        self,
        writing: int,
        reading: int,
        trace: Seq<RWLockEvent>,
        n: int,
    )
        requires
            writing == (if self.writer { 1int } else { 0int }),
            reading == self.readers,
            !(self.writer && self.readers > 0),
            self.legal(writing, reading, trace),
            0 <= n <= trace.len(),
        ensures
            0 <= self.write_guards(writing, trace.take(n)) <= 1,
            0 <= self.read_guards(reading, trace.take(n)),
            self.write_guards(writing, trace.take(n)) == 1 ==> self.read_guards(
                reading,
                trace.take(n),
            ) == 0,
            self.run(trace.take(n)).writer <==> self.write_guards(writing, trace.take(n)) == 1,
            self.run(trace.take(n)).readers == self.read_guards(reading, trace.take(n)),
        decreases n,
    {
        let prefix = trace.take(n);
        if n > 0 {
            self.lemma_writer_alone_or_readers(writing, reading, trace, n - 1);
            assert(prefix.drop_last() == trace.take(n - 1));
            assert(prefix.last() == trace[n - 1]);
        }
    }

    /// Whatever happens to a lock in order leaves it in order, as long as the polled
    /// requests carry ids that the lock has handed out and a read guard comes back only
    /// while one is out.
    pub proof fn lemma_steps_keep_wf(self, event: RWLockEvent)
        requires
            self.wf(),
            event matches RWLockEvent::PollWrite(id, _) ==> id < self.registry.next_id,
            event matches RWLockEvent::PollRead(id, _) ==> id < self.registry.next_id,
            event is ReleaseRead ==> self.readers > 0,
        ensures
            self.step(event).wf(),
            self.step(event).registry.next_id >= self.registry.next_id,
    {
    }

    /// While a writer holds the lock, no attempt of either kind is granted.
    pub proof fn lemma_writer_excludes_all(self, event: RWLockEvent)
        requires
            self.writer,
        ensures
            !self.answers_write(event),
            !self.answers_read(event),
            !(event is ReleaseWrite) ==> self.step(event).writer,
    {
    }

    /// While a reader holds the lock, no write attempt is granted, neither a first one
    /// nor a poll.
    pub proof fn lemma_readers_exclude_writer(self, event: RWLockEvent)
        requires
            self.readers >= 1,
        ensures
            !self.grants_write(),
            !self.answers_write(event),
            self.lock().registry == self.registry.allocate(),
            self.lock().writer == self.writer,
            self.lock().readers == self.readers,
    {
    }

    /// Readers share. Without a writer, read attempts are granted one and all, however
    /// many readers there are already, and each adds a reader.
    pub proof fn lemma_readers_share(self, trace: Seq<RWLockEvent>, n: int)
        requires
            !self.writer,
            Self::only_reads(trace),
            0 <= n < trace.len(),
        ensures
            self.run(trace.take(n)).answers_read(trace[n]),
            self.run(trace.take(n)).readers == self.readers + n,
            self.read_guards(self.readers as int, trace.take(n + 1)) == self.readers + n + 1,
    {
        self.lemma_reads_add_readers(trace, n);
        self.lemma_reads_add_readers(trace, n + 1);
    }

    /// Without a writer, read attempts leave the lock without one and count up.
    pub proof fn lemma_reads_add_readers(self, trace: Seq<RWLockEvent>, n: int)
        requires
            !self.writer,
            Self::only_reads(trace),
            0 <= n <= trace.len(),
        ensures
            !self.run(trace.take(n)).writer,
            self.run(trace.take(n)).readers == self.readers + n,
            self.read_guards(self.readers as int, trace.take(n)) == self.readers + n,
        decreases n,
    {
        let prefix = trace.take(n);
        if n > 0 {
            self.lemma_reads_add_readers(trace, n - 1);
            assert(prefix.drop_last() == trace.take(n - 1));
            assert(prefix.last() == trace[n - 1]);
        }
    }
}

/// What can happen to an [`AsyncRWLock`].
pub enum RWLockEvent {
    /// A task asks for write access.
    Lock,
    /// A task asks for read access.
    Read,
    /// The write request with this id is polled, and leaves this handle if it stays
    /// pending.
    PollWrite(usize, Waker),
    /// The read request with this id is polled, and leaves this handle if it stays
    /// pending.
    PollRead(usize, Waker),
    /// The request with this id is abandoned.
    Cancel(usize),
    /// The writer gives its guard back.
    ReleaseWrite,
    /// A reader gives its guard back.
    ReleaseRead,
}

/// A read-write lock for tasks that must not block. Write and read requests draw their
/// ids from one sequence and wait in one registry.
pub struct AsyncRWLock<T> {
    inner: WaitRegistry,
    data: RWLock<T>,
}

/// Stands for write access to an [`AsyncRWLock`].
pub struct AsyncWriteLockGuard {
    guard: WriteLockGuard,
}

/// Stands for read access to an [`AsyncRWLock`].
pub struct AsyncReadLockGuard {
    guard: ReadLockGuard,
}

/// A pending request for write access, known to the lock by its waiter id.
pub struct AsyncWriteLockFuture {
    id: usize,
}

/// A pending request for read access, known to the lock by its waiter id.
pub struct AsyncReadLockFuture {
    id: usize,
}

impl View for AsyncWriteLockFuture {
    type V = usize;

    closed spec fn view(&self) -> usize {
        self.id
    }
}

impl View for AsyncReadLockFuture {
    type V = usize;

    closed spec fn view(&self) -> usize {
        self.id
    }
}

impl AsyncWriteLockFuture {
    fn new(id: usize) -> (request: Self)
        ensures
            request@ == id,
    {
        AsyncWriteLockFuture { id }
    }

    /// The waiter id of this request.
    pub fn id(&self) -> (id: usize)
        ensures
            id == self@,
    {
        self.id
    }
}

impl AsyncReadLockFuture {
    fn new(id: usize) -> (request: Self)
        ensures
            request@ == id,
    {
        AsyncReadLockFuture { id }
    }

    /// The waiter id of this request.
    pub fn id(&self) -> (id: usize)
        ensures
            id == self@,
    {
        self.id
    }
}

impl<T> View for AsyncRWLock<T> {
    type V = AsyncRWLockModel;

    closed spec fn view(&self) -> AsyncRWLockModel {
        AsyncRWLockModel {
            writer: self.data.write_locked(),
            readers: self.data.readers(),
            registry: self.inner@,
        }
    }
}

impl<T> AsyncRWLock<T> {
    /// The protected value.
    pub closed spec fn value(&self) -> T {
        self.data.value()
    }

    /// A free lock around `value` that nobody waits for.
    pub fn new(value: T) -> (l: Self)
        ensures
            l@ == AsyncRWLockModel::fresh(),
            l.value() == value,
    {
        AsyncRWLock { inner: WaitRegistry::new(), data: RWLock::new(value) }
    }

    /// Whether a write guard is outstanding.
    pub fn is_write_locked(&self) -> (b: bool)
        ensures
            b == self@.writer,
    {
        self.data.is_write_locked()
    }

    /// How many read guards are outstanding.
    pub fn reader_count(&self) -> (n: u32)
        ensures
            n == self@.readers,
    {
        self.data.reader_count()
    }

    /// How many requests have a wake handle registered.
    pub fn waiting(&self) -> (n: usize)
        ensures
            n == self@.registry.waiters.len(),
    {
        self.inner.len()
    }

    /// Whether the request `id` has a wake handle registered.
    pub fn is_waiting(&self, id: usize) -> (b: bool)
        ensures
            b == self@.registry.waiters.contains_key(id),
    {
        self.inner.is_registered(id)
    }

    /// The id that the next pending request gets.
    pub fn next_id(&self) -> (id: usize)
        ensures
            id == self@.registry.next_id,
    {
        self.inner.next_id()
    }

    /// Asks for write access. It is granted at once where nobody writes and nobody reads,
    /// and the registry then stays as it is; else the answer is a request that carries a
    /// new waiter id.
    pub fn lock(&mut self) -> (answer: Acquire<AsyncWriteLockGuard, AsyncWriteLockFuture>)
        requires
            !old(self)@.grants_write() ==> old(self)@.registry.next_id < usize::MAX,
        ensures
            answer is Ready <==> old(self)@.grants_write(),
            answer matches Acquire::Pending(request) ==> request@ == old(self)@.registry.next_id,
            final(self)@ == old(self)@.lock(),
            final(self).value() == old(self).value(),
    {
        match self.data.try_write() {
            Some(guard) => Acquire::Ready(AsyncWriteLockGuard { guard }),
            None => {
                let current_id = self.inner.allocate();
                Acquire::Pending(AsyncWriteLockFuture::new(current_id))
            },
        }
    }

    /// Asks for read access. It is granted at once where nobody writes, however many
    /// read, and the registry then stays as it is; else the answer is a request that
    /// carries a new waiter id.
    pub fn read(&mut self) -> (answer: Acquire<AsyncReadLockGuard, AsyncReadLockFuture>)
        requires
            old(self)@.grants_read() ==> old(self)@.readers < u32::MAX,
            !old(self)@.grants_read() ==> old(self)@.registry.next_id < usize::MAX,
        ensures
            answer is Ready <==> old(self)@.grants_read(),
            answer matches Acquire::Pending(request) ==> request@ == old(self)@.registry.next_id,
            final(self)@ == old(self)@.read(),
            final(self).value() == old(self).value(),
    {
        match self.data.try_read() {
            Some(guard) => Acquire::Ready(AsyncReadLockGuard { guard }),
            None => {
                let current_id = self.inner.allocate();
                Acquire::Pending(AsyncReadLockFuture::new(current_id))
            },
        }
    }

    /// Polls a pending write request: tries again, and where the lock is still taken,
    /// leaves `handle` in the registry under the request's id, in place of an earlier
    /// one. A granted request is over, and its id leaves the registry with it.
    pub fn poll_write(&mut self, request: AsyncWriteLockFuture, handle: Waker) -> (answer: Acquire<
        AsyncWriteLockGuard,
        AsyncWriteLockFuture,
    >)
        ensures
            answer is Ready <==> old(self)@.grants_write(),
            answer matches Acquire::Pending(again) ==> again@ == request@,
            final(self)@ == old(self)@.poll_write(request@, handle),
            final(self).value() == old(self).value(),
    {
        match self.data.try_write() {
            Some(guard) => {
                self.inner.deregister(request.id);
                Acquire::Ready(AsyncWriteLockGuard { guard })
            },
            None => {
                self.inner.register(request.id, handle);
                Acquire::Pending(request)
            },
        }
    }

    /// Polls a pending read request: tries again, and where a writer still holds the
    /// lock, leaves `handle` in the registry under the request's id, in place of an
    /// earlier one. A granted request is over, and its id leaves the registry with it.
    pub fn poll_read(&mut self, request: AsyncReadLockFuture, handle: Waker) -> (answer: Acquire<
        AsyncReadLockGuard,
        AsyncReadLockFuture,
    >)
        requires
            old(self)@.grants_read() ==> old(self)@.readers < u32::MAX,
        ensures
            answer is Ready <==> old(self)@.grants_read(),
            answer matches Acquire::Pending(again) ==> again@ == request@,
            final(self)@ == old(self)@.poll_read(request@, handle),
            final(self).value() == old(self).value(),
    {
        match self.data.try_read() {
            Some(guard) => {
                self.inner.deregister(request.id);
                Acquire::Ready(AsyncReadLockGuard { guard })
            },
            None => {
                self.inner.register(request.id, handle);
                Acquire::Pending(request)
            },
        }
    }

    /// Abandons a pending write request: its id leaves the registry, so that no later
    /// release spends its wake on it.
    pub fn cancel_write(&mut self, request: AsyncWriteLockFuture)
        ensures
            final(self)@ == old(self)@.cancel(request@),
            final(self).value() == old(self).value(),
    {
        self.inner.deregister(request.id);
    }

    /// Abandons a pending read request: its id leaves the registry, so that no later
    /// release spends its wake on it.
    pub fn cancel_read(&mut self, request: AsyncReadLockFuture)
        ensures
            final(self)@ == old(self)@.cancel(request@),
            final(self).value() == old(self).value(),
    {
        self.inner.deregister(request.id);
    }

    /// Takes the write guard back: ends the write access, then wakes the waiter with the
    /// smallest id, if there is one, and drops its entry. Returns the id that was woken.
    pub fn release_write(&mut self, guard: AsyncWriteLockGuard) -> (woken: Option<usize>)
        ensures
            woken == old(self)@.registry.first(),
            final(self)@ == old(self)@.release_write(),
            final(self).value() == old(self).value(),
    {
        self.data.release_write(guard.guard);
        self.inner.wake_next()
    }

    /// Takes a read guard back: ends that read access, then wakes the waiter with the
    /// smallest id, if there is one, and drops its entry. Returns the id that was woken.
    pub fn release_read(&mut self, guard: AsyncReadLockGuard) -> (woken: Option<usize>)
        requires
            old(self)@.readers > 0,
        ensures
            woken == old(self)@.registry.first(),
            final(self)@ == old(self)@.release_read(),
            final(self).value() == old(self).value(),
    {
        self.data.release_read(guard.guard);
        self.inner.wake_next()
    }

    /// Reads the protected value on behalf of the writer.
    pub fn get(&self, guard: &AsyncWriteLockGuard) -> (value: &T)
        ensures
            *value == self.value(),
    {
        self.data.get(&guard.guard)
    }

    /// Reads the protected value on behalf of a reader.
    pub fn get_shared(&self, guard: &AsyncReadLockGuard) -> (value: &T)
        ensures
            *value == self.value(),
    {
        self.data.get_shared(&guard.guard)
    }

    /// Lends the protected value out for change on behalf of the writer.
    pub fn get_mut(&mut self, guard: &AsyncWriteLockGuard) -> (value: &mut T)
        ensures
            *value == old(self).value(),
            final(self).value() == *final(value),
            final(self)@ == old(self)@,
    {
        self.data.get_mut(&guard.guard)
    }
}

} // verus!
