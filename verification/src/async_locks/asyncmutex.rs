//! The exclusive lock for poll-driven tasks.

use crate::async_locks::acquire::Acquire;
use crate::async_locks::registry::RegistryModel;
use crate::async_locks::registry::WaitRegistry;
use crate::sync::mutex::Mutex;
use crate::sync::mutex::MutexGuard;
use std::task::Waker;
use vstd::prelude::*;

verus! {

/// The state of an [`AsyncMutex`] as far as the protocol goes: whether the lock is held,
/// and who waits for it.
pub struct AsyncMutexModel {
    pub locked: bool,
    pub registry: RegistryModel,
}

/// What can happen to an [`AsyncMutex`].
pub enum MutexEvent {
    /// A task asks for the lock.
    Lock,
    /// The request with this id is polled, and leaves this handle if it stays pending.
    Poll(usize, Waker),
    /// The request with this id is abandoned.
    Cancel(usize),
    /// The holder gives its guard back.
    Release,
}

impl AsyncMutexModel {
    /// A free lock that nobody waits for.
    pub open spec fn fresh() -> Self {
        AsyncMutexModel { locked: false, registry: RegistryModel::empty() }
    }

    /// Whether an attempt made in this state is granted.
    pub open spec fn grants(self) -> bool {
        !self.locked
    }

    /// The state after a task has asked for the lock: held in any case, and one id handed
    /// out where the lock was taken.
    pub open spec fn lock(self) -> Self {
        if self.grants() {
            AsyncMutexModel { locked: true, ..self }
        } else {
            AsyncMutexModel { registry: self.registry.allocate(), ..self }
        }
    }

    /// The state after the request `id` has been polled with `handle`: granted and off
    /// the registry, or registered under its id with that handle.
    pub open spec fn poll(self, id: usize, handle: Waker) -> Self {
        if self.grants() {
            AsyncMutexModel { locked: true, registry: self.registry.deregister(id) }
        } else {
            AsyncMutexModel { registry: self.registry.register(id, handle), ..self }
        }
    }

    /// The state after the request `id` has been abandoned.
    pub open spec fn cancel(self, id: usize) -> Self {
        AsyncMutexModel { registry: self.registry.deregister(id), ..self }
    }

    /// The state after the guard has come back: free, and the first waiter woken.
    pub open spec fn release(self) -> Self {
        AsyncMutexModel { locked: false, registry: self.registry.wake_next() }
    }

    /// The state after `event`.
    pub open spec fn step(self, event: MutexEvent) -> Self {
        match event {
            MutexEvent::Lock => self.lock(),
            MutexEvent::Poll(id, handle) => self.poll(id, handle),
            MutexEvent::Cancel(id) => self.cancel(id),
            MutexEvent::Release => self.release(),
        }
    }

    /// Whether `event`, met in this state, is answered with a guard.
    pub open spec fn answers_ready(self, event: MutexEvent) -> bool {
        match event {
            MutexEvent::Lock => self.grants(),
            MutexEvent::Poll(_, _) => self.grants(),
            MutexEvent::Cancel(_) => false,
            MutexEvent::Release => false,
        }
    }

    /// The state after the events of `trace`, in their order.
    pub open spec fn run(self, trace: Seq<MutexEvent>) -> Self
        decreases trace.len(),
    {
        if trace.len() == 0 {
            self
        } else {
            self.run(trace.drop_last()).step(trace.last())
        }
    }

    /// How many events of `trace` are answered with a guard.
    pub open spec fn granted(self, trace: Seq<MutexEvent>) -> nat
        decreases trace.len(),
    {
        if trace.len() == 0 {
            0
        } else {
            let before = self.granted(trace.drop_last());
            if self.run(trace.drop_last()).answers_ready(trace.last()) {
                before + 1
            } else {
                before
            }
        }
    }

    /// How many guards come back in `trace`.
    pub open spec fn released(trace: Seq<MutexEvent>) -> nat
        decreases trace.len(),
    {
        if trace.len() == 0 {
            0
        } else if trace.last() is Release {
            Self::released(trace.drop_last()) + 1
        } else {
            Self::released(trace.drop_last())
        }
    }

    /// How many guards are out after `trace`, where `held` were out before it.
    pub open spec fn outstanding(self, held: int, trace: Seq<MutexEvent>) -> int {
        held + self.granted(trace) - Self::released(trace)
    }

    /// Whether every release in `trace` gives back a guard that is out at that moment.
    pub open spec fn legal(self, held: int, trace: Seq<MutexEvent>) -> bool {
        forall|n: int|
            0 <= n < trace.len() && trace[n] is Release ==> self.outstanding(held, trace.take(n))
                > 0
    }

    /// Whether every event of `trace` is a poll.
    pub open spec fn only_polls(trace: Seq<MutexEvent>) -> bool {
        forall|n: int| 0 <= n < trace.len() ==> trace[n] is Poll
    }

    /// Mutual exclusion. Start with the lock held exactly if one guard is out, and let
    /// any events follow in which a guard comes back only while one is out. Then at every
    /// moment at most one guard is out, and the lock is held exactly while one is.
    pub proof fn lemma_at_most_one_guard(self, held: int, trace: Seq<MutexEvent>, n: int)
        requires
            held == (if self.locked { 1int } else { 0int }),
            self.legal(held, trace),
            0 <= n <= trace.len(),
        ensures
            0 <= self.outstanding(held, trace.take(n)) <= 1,
            self.run(trace.take(n)).locked <==> self.outstanding(held, trace.take(n)) == 1,
        decreases n,
    {
        let prefix = trace.take(n);
        if n > 0 {
            self.lemma_at_most_one_guard(held, trace, n - 1);
            assert(prefix.drop_last() == trace.take(n - 1));
            assert(prefix.last() == trace[n - 1]);
        }
    }

    /// Whatever happens to the lock leaves its registry in order, as long as the polled
    /// requests carry ids that the lock has handed out.
    pub proof fn lemma_steps_keep_registry_wf(self, event: MutexEvent)
        requires
            self.registry.wf(),
            event matches MutexEvent::Poll(id, _) ==> id < self.registry.next_id,
        ensures
            self.step(event).registry.wf(),
            self.step(event).registry.next_id >= self.registry.next_id,
    {
    }

    /// In a state where the lock is held, no attempt is granted, whatever it is.
    pub proof fn lemma_held_lock_grants_nothing(self, event: MutexEvent)
        requires
            self.locked,
        ensures
            !self.answers_ready(event),
            !(event is Release) ==> self.step(event).locked,
    {
    }

    /// After a release, polling the pending requests one after the other, in whatever
    /// order, grants exactly one of them: the one polled first.
    pub proof fn lemma_polls_after_release_grant_once(self, polls: Seq<MutexEvent>)
        requires
            Self::only_polls(polls),
            polls.len() > 0,
        ensures
            self.release().granted(polls) == 1,
            self.release().answers_ready(polls[0]),
            self.release().run(polls).locked,
    {
        self.release().lemma_polls_grant_while_free(polls);
    }

    /// Polls grant once from a free lock and never from a held one, and leave it held.
    pub proof fn lemma_polls_grant_while_free(self, polls: Seq<MutexEvent>)
        requires
            Self::only_polls(polls),
        ensures
            self.granted(polls) == (if !self.locked && polls.len() > 0 { 1nat } else { 0nat }),
            self.run(polls).locked <==> self.locked || polls.len() > 0,
        decreases polls.len(),
    {
        if polls.len() > 0 {
            assert(Self::only_polls(polls.drop_last())) by {
                assert forall|n: int| 0 <= n < polls.drop_last().len() implies polls.drop_last()[n]
                    is Poll by {
                    assert(polls.drop_last()[n] == polls[n]);
                }
            }
            self.lemma_polls_grant_while_free(polls.drop_last());
            assert(polls.last() is Poll);
        }
    }

    /// A request that was granted or abandoned has left the registry: a wake that still
    /// reaches its task finds nothing to poll, and no release spends its wake on it.
    /// Abandoning it once more changes nothing.
    pub proof fn lemma_finished_request_is_inert(self, id: usize, handle: Waker)
        ensures
            self.grants() ==> !self.poll(id, handle).registry.waiters.contains_key(id),
            !self.cancel(id).registry.waiters.contains_key(id),
            self.cancel(id).cancel(id) == self.cancel(id),
            self.cancel(id).locked == self.locked,
            self.cancel(id).registry.first() != Some(id),
            self.cancel(id).release().registry == self.cancel(id).registry.wake_next(),
    {
        self.registry.lemma_deregistered_id_is_inert(id, if id == 0 { 1usize } else { 0usize });
    }
}

/// A lock for tasks that must not block: an attempt that finds the lock taken gets a
/// request to poll instead of waiting.
pub struct AsyncMutex<T> {
    inner: WaitRegistry,
    data: Mutex<T>,
}

/// Stands for holding an [`AsyncMutex`]. Giving it back releases the lock and wakes the
/// first waiter.
pub struct AsyncMutexGuard {
    guard: MutexGuard,
}

/// A pending request for an [`AsyncMutex`], known to the lock by its waiter id.
pub struct AsyncMutexFuture {
    id: usize,
}

impl View for AsyncMutexFuture {
    type V = usize;

    closed spec fn view(&self) -> usize {
        self.id
    }
}

impl AsyncMutexFuture {
    fn new(id: usize) -> (request: Self)
        ensures
            request@ == id,
    {
        AsyncMutexFuture { id }
    }

    /// The waiter id of this request.
    pub fn id(&self) -> (id: usize)
        ensures
            id == self@,
    {
        self.id
    }
}

impl<T> View for AsyncMutex<T> {
    type V = AsyncMutexModel;

    closed spec fn view(&self) -> AsyncMutexModel {
        AsyncMutexModel { locked: self.data.locked(), registry: self.inner@ }
    }
}

impl<T> AsyncMutex<T> {
    /// The protected value.
    pub closed spec fn value(&self) -> T {
        self.data.value()
    }

    /// A free lock around `value` that nobody waits for.
    pub fn new(value: T) -> (m: Self)
        ensures
            m@ == AsyncMutexModel::fresh(),
            m.value() == value,
    {
        AsyncMutex { inner: WaitRegistry::new(), data: Mutex::new(value) }
    }

    /// Whether a guard is outstanding.
    pub fn is_locked(&self) -> (b: bool)
        ensures
            b == self@.locked,
    {
        self.data.is_locked()
    }

    /// How many requests have a wake handle registered.
    pub fn waiting(&self) -> (n: usize)
        ensures
            n == self@.registry.waiters.len(),
    {
        self.inner.len()
    }

    /// Whether the request `id` has a wake handle registered.
    pub fn is_waiting(&self, id: usize) -> (b: bool)
        ensures
            b == self@.registry.waiters.contains_key(id),
    {
        self.inner.is_registered(id)
    }

    /// The id that the next pending request gets.
    pub fn next_id(&self) -> (id: usize)
        ensures
            id == self@.registry.next_id,
    {
        self.inner.next_id()
    }

    /// Asks for the lock. A free lock is taken at once and the registry stays as it is;
    /// a held one answers with a request that carries a new waiter id.
    pub fn lock(&mut self) -> (answer: Acquire<AsyncMutexGuard, AsyncMutexFuture>)
        requires
            old(self)@.locked ==> old(self)@.registry.next_id < usize::MAX,
        ensures
            answer is Ready <==> old(self)@.grants(),
            answer matches Acquire::Pending(request) ==> request@ == old(self)@.registry.next_id,
            final(self)@ == old(self)@.lock(),
            final(self).value() == old(self).value(),
    {
        match self.data.try_lock() {
            Some(guard) => Acquire::Ready(AsyncMutexGuard { guard }),
            None => {
                let current_id = self.inner.allocate();
                Acquire::Pending(AsyncMutexFuture::new(current_id))
            },
        }
    }

    /// Polls a pending request: tries the lock again, and where it is still held, leaves
    /// `handle` in the registry under the request's id, in place of an earlier one. A
    /// granted request is over, and its id leaves the registry with it.
    pub fn poll(&mut self, request: AsyncMutexFuture, handle: Waker) -> (answer: Acquire<
        AsyncMutexGuard,
        AsyncMutexFuture,
    >)
        ensures
            answer is Ready <==> old(self)@.grants(),
            answer matches Acquire::Pending(again) ==> again@ == request@,
            final(self)@ == old(self)@.poll(request@, handle),
            final(self).value() == old(self).value(),
    {
        match self.data.try_lock() {
            Some(guard) => {
                self.inner.deregister(request.id);
                Acquire::Ready(AsyncMutexGuard { guard })
            },
            None => {
                self.inner.register(request.id, handle);
                Acquire::Pending(request)
            },
        }
    }

    /// Abandons a pending request: its id leaves the registry, so that no later release
    /// spends its wake on it.
    pub fn cancel(&mut self, request: AsyncMutexFuture)
        ensures
            final(self)@ == old(self)@.cancel(request@),
            final(self).value() == old(self).value(),
    {
        self.inner.deregister(request.id);
    }

    /// Takes the guard back: frees the lock, then wakes the waiter with the smallest id,
    /// if there is one, and drops its entry. Returns the id that was woken. The woken
    /// task is not handed the lock: it has to win it with its next poll.
    pub fn release(&mut self, guard: AsyncMutexGuard) -> (woken: Option<usize>)
        ensures
            woken == old(self)@.registry.first(),
            final(self)@ == old(self)@.release(),
            final(self).value() == old(self).value(),
    {
        self.data.unlock(guard.guard);
        self.inner.wake_next()
    }

    /// Reads the protected value on behalf of the guard's holder.
    pub fn get(&self, guard: &AsyncMutexGuard) -> (value: &T)
        ensures
            *value == self.value(),
    {
        self.data.get(&guard.guard)
    }

    /// Lends the protected value out for change on behalf of the guard's holder.
    pub fn get_mut(&mut self, guard: &AsyncMutexGuard) -> (value: &mut T)
        ensures
            *value == old(self).value(),
            final(self).value() == *final(value),
            final(self)@ == old(self)@,
    {
        self.data.get_mut(&guard.guard)
    }
}

} // verus!
