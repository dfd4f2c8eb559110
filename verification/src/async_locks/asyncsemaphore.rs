//! The counting semaphore for poll-driven tasks.

use crate::async_locks::acquire::Acquire;
use crate::async_locks::registry::RegistryModel;
use crate::async_locks::registry::WaitRegistry;
use crate::sync::semaphore::Semaphore;
use std::task::Waker;
use vstd::prelude::*;

verus! {

/// The state of an [`AsyncSemaphore`] as far as the protocol goes: how many permits it
/// has, and who waits for one.
pub struct AsyncSemaphoreModel {
    pub count: nat,
    pub registry: RegistryModel,
}

impl AsyncSemaphoreModel {
    /// A semaphore with `initial` permits that nobody waits for.
    pub open spec fn fresh(initial: nat) -> Self {
        AsyncSemaphoreModel { count: initial, registry: RegistryModel::empty() }
    }

    /// Whether an attempt to take a permit is granted in this state.
    pub open spec fn grants(self) -> bool {
        self.count > 0
    }

    /// The state after a task has asked for a permit: one permit less, or one id handed
    /// out where none was there.
    pub open spec fn down(self) -> Self {
        if self.grants() {
            AsyncSemaphoreModel { count: (self.count - 1) as nat, ..self }
        } else {
            AsyncSemaphoreModel { registry: self.registry.allocate(), ..self }
        }
    }

    /// The state after the request `id` has been polled with `handle`: granted and off
    /// the registry, or registered under its id with that handle.
    pub open spec fn poll(self, id: usize, handle: Waker) -> Self {
        if self.grants() {
            AsyncSemaphoreModel {
                count: (self.count - 1) as nat,
                registry: self.registry.deregister(id),
            }
        } else {
            AsyncSemaphoreModel { registry: self.registry.register(id, handle), ..self }
        }
    }

    /// The state after the request `id` has been abandoned.
    pub open spec fn cancel(self, id: usize) -> Self {
        AsyncSemaphoreModel { registry: self.registry.deregister(id), ..self }
    }

    /// The state after a permit has come back: one permit more, and the first waiter
    /// woken.
    pub open spec fn up(self) -> Self {
        AsyncSemaphoreModel { count: self.count + 1, registry: self.registry.wake_next() }
    }

    /// The state after `n` tasks in a row have asked for a permit.
    pub open spec fn downs(self, n: nat) -> Self
        decreases n,
    {
        if n == 0 {
            self
        } else {
            self.downs((n - 1) as nat).down()
        }
    }

    /// The state after `n` permits in a row have come back.
    pub open spec fn ups(self, n: nat) -> Self
        decreases n,
    {
        if n == 0 {
            self
        } else {
            self.ups((n - 1) as nat).up()
        }
    }

    /// Whatever happens to the semaphore leaves its registry in order, as long as the
    /// polled requests carry ids that the semaphore has handed out.
    pub proof fn lemma_steps_keep_registry_wf(self, id: usize, handle: Waker)
        requires
            self.registry.wf(),
        ensures
            self.down().registry.wf(),
            id < self.registry.next_id ==> self.poll(id, handle).registry.wf(),
            self.cancel(id).registry.wf(),
            self.up().registry.wf(),
    {
    }

    /// Taking permits while there are some is granted each time, takes the count down by
    /// one each time, and leaves the registry alone.
    pub proof fn lemma_downs_within_count(self, n: nat)
        requires
            n <= self.count,
        ensures
            self.downs(n).count == self.count - n,
            self.downs(n).registry == self.registry,
            n < self.count ==> self.downs(n).grants(),
        decreases n,
    {
        if n > 0 {
            self.lemma_downs_within_count((n - 1) as nat);
        }
    }

    /// Giving permits back takes the count up by one each time.
    pub proof fn lemma_ups_count(self, n: nat)
        ensures
            self.ups(n).count == self.count + n,
        decreases n,
    {
        if n > 0 {
            self.lemma_ups_count((n - 1) as nat);
        }
    }

    /// Round trip. Taking `n` permits that are there and giving `n` back restores the
    /// count, and every one of the `n` attempts is granted at once.
    pub proof fn lemma_round_trip(self, n: nat, k: nat)
        requires
            n <= self.count,
            k < n,
        ensures
            self.downs(n).ups(n).count == self.count,
            self.downs(k).grants(),
    {
        self.lemma_downs_within_count(n);
        self.lemma_downs_within_count(k);
        self.downs(n).lemma_ups_count(n);
    }

    /// One attempt too many. With the permits used up, a further attempt is not granted
    /// and gets the next id; a poll of it registers its handle and stays pending; and
    /// once a permit has come back, the next poll of it is granted and takes that permit.
    pub proof fn lemma_down_beyond_count_waits(self, handle: Waker, again: Waker)
        requires
            self.registry.next_id <= usize::MAX,
        ensures
            !self.downs(self.count).grants(),
            self.downs(self.count).down().count == 0,
            self.downs(self.count).down().registry == self.registry.allocate(),
            ({
                let id = self.registry.next_id as usize;
                let waiting = self.downs(self.count).down().poll(id, handle);
                &&& !waiting.grants()
                &&& waiting.registry.waiters.contains_key(id)
                &&& waiting.registry.waiters[id] == handle
                &&& waiting.up().grants()
                &&& waiting.up().poll(id, again).count == 0
                &&& !waiting.up().poll(id, again).registry.waiters.contains_key(id)
            }),
    {
        self.lemma_downs_within_count(self.count);
    }
}

/// A counting semaphore for tasks that must not block: an attempt that finds no permit
/// gets a request to poll instead of waiting.
pub struct AsyncSemaphore {
    inner: WaitRegistry,
    sema: Semaphore,
}

/// A pending request for a permit, known to the semaphore by its waiter id.
pub struct AsyncSemaphoreFuture {
    id: usize,
}

impl View for AsyncSemaphoreFuture {
    type V = usize;

    closed spec fn view(&self) -> usize {
        self.id
    }
}

impl AsyncSemaphoreFuture {
    fn new(id: usize) -> (request: Self)
        ensures
            request@ == id,
    {
        AsyncSemaphoreFuture { id }
    }

    /// The waiter id of this request.
    pub fn id(&self) -> (id: usize)
        ensures
            id == self@,
    {
        self.id
    }
}

impl View for AsyncSemaphore {
    type V = AsyncSemaphoreModel;

    closed spec fn view(&self) -> AsyncSemaphoreModel {
        AsyncSemaphoreModel { count: self.sema.count(), registry: self.inner@ }
    }
}

impl AsyncSemaphore {
    /// A semaphore with `initial` permits that nobody waits for.
    pub fn new(initial: u32) -> (s: Self)
        ensures
            s@ == AsyncSemaphoreModel::fresh(initial as nat),
    {
        AsyncSemaphore { inner: WaitRegistry::new(), sema: Semaphore::new(initial) }
    }

    /// How many permits are there to take.
    pub fn available(&self) -> (n: u32)
        ensures
            n == self@.count,
    {
        self.sema.available()
    }

    /// How many requests have a wake handle registered.
    pub fn waiting(&self) -> (n: usize)
        ensures
            n == self@.registry.waiters.len(),
    {
        self.inner.len()
    }

    /// Whether the request `id` has a wake handle registered.
    pub fn is_waiting(&self, id: usize) -> (b: bool)
        ensures
            b == self@.registry.waiters.contains_key(id),
    {
        self.inner.is_registered(id)
    }

    /// The id that the next pending request gets.
    pub fn next_id(&self) -> (id: usize)
        ensures
            id == self@.registry.next_id,
    {
        self.inner.next_id()
    }

    /// Asks for a permit. Where one is there it is taken at once and the registry stays
    /// as it is; else the answer is a request that carries a new waiter id. No guard
    /// comes with a permit: whoever took it gives it back with `up`.
    pub fn down(&mut self) -> (answer: Acquire<(), AsyncSemaphoreFuture>)
        requires
            !old(self)@.grants() ==> old(self)@.registry.next_id < usize::MAX,
        ensures
            answer is Ready <==> old(self)@.grants(),
            answer matches Acquire::Pending(request) ==> request@ == old(self)@.registry.next_id,
            final(self)@ == old(self)@.down(),
    {
        if self.sema.try_down().is_err() {
            let current_id = self.inner.allocate();
            Acquire::Pending(AsyncSemaphoreFuture::new(current_id))
        } else {
            Acquire::Ready(())
        }
    }

    /// Polls a pending request: tries again, and where there is still no permit, leaves
    /// `handle` in the registry under the request's id, in place of an earlier one. A
    /// granted request is over, and its id leaves the registry with it.
    pub fn poll(&mut self, request: AsyncSemaphoreFuture, handle: Waker) -> (answer: Acquire<
        (),
        AsyncSemaphoreFuture,
    >)
        ensures
            answer is Ready <==> old(self)@.grants(),
            answer matches Acquire::Pending(again) ==> again@ == request@,
            final(self)@ == old(self)@.poll(request@, handle),
    {
        if self.sema.try_down().is_ok() {
            self.inner.deregister(request.id);
            Acquire::Ready(())
        } else {
            self.inner.register(request.id, handle);
            Acquire::Pending(request)
        }
    }

    /// Abandons a pending request: its id leaves the registry, so that no later `up`
    /// spends its wake on it.
    pub fn cancel(&mut self, request: AsyncSemaphoreFuture)
        ensures
            final(self)@ == old(self)@.cancel(request@),
    {
        self.inner.deregister(request.id);
    }

    /// Gives a permit back, or adds one: counts up, then wakes the waiter with the
    /// smallest id, if there is one, and drops its entry. Returns the id that was woken.
    /// The count has to fit; beyond that there is no limit, and permits that were never
    /// taken make the semaphore larger.
    pub fn up(&mut self) -> (woken: Option<usize>)
        requires
            old(self)@.count < u32::MAX,
        ensures
            woken == old(self)@.registry.first(),
            final(self)@ == old(self)@.up(),
    {
        self.sema.up();
        self.inner.wake_next()
    }
}

} // verus!
