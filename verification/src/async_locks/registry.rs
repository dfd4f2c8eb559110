//! The wait registry shared by the adapters: who is waiting, and who is woken next.

use std::collections::BTreeMap;
use std::task::Waker;
use vstd::prelude::*;
use vstd::std_specs::cmp::OrdSpec;
use vstd::std_specs::iter::IteratorSpec;

verus! {

broadcast use vstd::std_specs::btree::group_btree_axioms;

/// `std::task::Waker`: the handle a task leaves behind to be polled again. Nothing is
/// known of what is inside one.
#[verifier::external_type_specification]
#[verifier::external_body]
pub struct ExWaker(Waker);

/// Calls `Waker::wake` on `handle`, which asks the executor to poll the handle's task
/// again. The call gives nothing back, so nothing is claimed of it.
#[verifier::external_body]
pub(crate) fn wake(handle: Waker) {
    handle.wake()
}

/// What a registry holds: the wake handles by waiter id, and the id that the next
/// waiter gets.
pub struct RegistryModel {
    pub waiters: Map<usize, Waker>,
    pub next_id: nat,
}

impl RegistryModel {
    /// No waiter, and 0 as the first id.
    pub open spec fn empty() -> Self {
        RegistryModel { waiters: Map::empty(), next_id: 0 }
    }

    /// Every registered id has been handed out, and only finitely many are registered.
    pub open spec fn wf(self) -> bool {
        &&& self.waiters.dom().finite()
        &&& forall|id: usize| self.waiters.contains_key(id) ==> id < self.next_id
    }

    /// The registry after one id has been handed out.
    pub open spec fn allocate(self) -> Self {
        RegistryModel { next_id: self.next_id + 1, ..self }
    }

    /// The registry after `handle` has been stored under `id`, in place of an earlier one.
    pub open spec fn register(self, id: usize, handle: Waker) -> Self {
        RegistryModel { waiters: self.waiters.insert(id, handle), ..self }
    }

    /// The registry without an entry for `id`.
    pub open spec fn deregister(self, id: usize) -> Self {
        RegistryModel { waiters: self.waiters.remove(id), ..self }
    }

    /// Whether `id` is registered and no smaller id is.
    pub open spec fn is_least(self, id: usize) -> bool {
        &&& self.waiters.contains_key(id)
        &&& forall|other: usize| self.waiters.contains_key(other) ==> id <= other
    }

    /// The smallest registered id: the waiter that the next release wakes.
    pub open spec fn first(self) -> Option<usize> {
        if exists|id: usize| self.is_least(id) {
            Some(choose|id: usize| self.is_least(id))
        } else {
            None
        }
    }

    /// The registry after one release: without its smallest id, if it had any.
    pub open spec fn wake_next(self) -> Self {
        match self.first() {
            Some(id) => self.deregister(id),
            None => self,
        }
    }

    /// The smallest registered id is the only one that `first` can name.
    pub proof fn lemma_first_is_least(self, id: usize)
        requires
            self.is_least(id),
        ensures
            self.first() == Some(id),
    {
        let chosen = choose|k: usize| self.is_least(k);
        assert(self.is_least(chosen));
        assert(chosen <= id && id <= chosen);
    }

    /// Without a waiter there is no first one.
    pub proof fn lemma_first_of_none(self)
        requires
            self.waiters.dom().is_empty(),
        ensures
            self.first() is None,
    {
        assert forall|id: usize| !self.is_least(id) by {
            assert(!self.waiters.dom().contains(id));
        }
    }

    /// Among registered ids there is a smallest one.
    pub proof fn lemma_first_exists(self, id: usize)
        requires
            self.waiters.contains_key(id),
        ensures
            self.first() is Some,
            self.is_least(self.first().unwrap()),
            self.first().unwrap() <= id,
        decreases id,
    {
        if self.is_least(id) {
            self.lemma_first_is_least(id);
        } else {
            let smaller = choose|other: usize| self.waiters.contains_key(other) && other < id;
            self.lemma_first_exists(smaller);
        }
    }

    /// The registry after `n` releases in a row, with no poll in between.
    pub open spec fn after_wakes(self, n: nat) -> Self
        decreases n,
    {
        if n == 0 {
            self
        } else {
            self.after_wakes((n - 1) as nat).wake_next()
        }
    }

    /// The id that release number `n` of such a row wakes, counted from 0, if a waiter is
    /// left by then.
    pub open spec fn woken_at(self, n: nat) -> Option<usize> {
        self.after_wakes(n).first()
    }

    /// The steps of a registry keep it well-formed; only an id that was handed out may
    /// be registered.
    pub proof fn lemma_steps_keep_wf(self, id: usize, handle: Waker)
        requires
            self.wf(),
        ensures
            Self::empty().wf(),
            self.allocate().wf(),
            id < self.next_id ==> self.register(id, handle).wf(),
            self.deregister(id).wf(),
            self.wake_next().wf(),
    {
    }

    /// Only handing out an id moves the next id, and it moves it up by one: ids come in
    /// increasing order and none comes twice.
    pub proof fn lemma_ids_increase(self, id: usize, handle: Waker)
        ensures
            self.allocate().next_id == self.next_id + 1,
            self.allocate().waiters == self.waiters,
            self.register(id, handle).next_id == self.next_id,
            self.deregister(id).next_id == self.next_id,
            self.wake_next().next_id == self.next_id,
    {
    }

    /// A handle registered under an id replaces the one that was there: the registry
    /// keeps the handle of the latest poll, and one entry for each id.
    pub proof fn lemma_latest_handle_wins(self, id: usize, earlier: Waker, later: Waker)
        ensures
            self.register(id, earlier).register(id, later) == self.register(id, later),
            self.register(id, later).waiters[id] == later,
            self.register(id, later).waiters.dom() == self.waiters.dom().insert(id),
    {
        assert(self.register(id, earlier).register(id, later).waiters =~= self.register(
            id,
            later,
        ).waiters);
    }

    /// The id handed out next is registered nowhere, and larger than all that are.
    pub proof fn lemma_allocated_id_is_fresh(self)
        requires
            self.wf(),
            self.next_id <= usize::MAX,
        ensures
            !self.waiters.contains_key(self.next_id as usize),
            forall|id: usize| self.waiters.contains_key(id) ==> id < self.next_id,
            self.allocate().next_id == self.next_id + 1,
    {
    }

    /// What `first` names is registered, and nothing smaller is.
    pub proof fn lemma_first_names_least(self)
        ensures
            self.first() matches Some(id) ==> self.is_least(id),
            self.first() is None ==> forall|id: usize| !self.waiters.contains_key(id),
    {
        if self.first() is None {
            assert forall|id: usize| !self.waiters.contains_key(id) by {
                if self.waiters.contains_key(id) {
                    self.lemma_first_exists(id);
                }
            }
        }
    }

    /// Releases only take waiters away: who is registered after more of them was
    /// registered after fewer.
    pub proof fn lemma_wakes_shrink(self, i: nat, j: nat, id: usize)
        requires
            i <= j,
            self.after_wakes(j).waiters.contains_key(id),
        ensures
            self.after_wakes(i).waiters.contains_key(id),
            self.after_wakes(i).waiters[id] == self.after_wakes(j).waiters[id],
        decreases j - i,
    {
        if i < j {
            self.lemma_wakes_shrink(i, (j - 1) as nat, id);
        }
    }

    /// Wake order. Successive releases wake waiters in the order of their ids: a later
    /// release of the row wakes a larger id than an earlier one.
    pub proof fn lemma_wake_order_increasing(self, i: nat, j: nat)
        requires
            i < j,
            self.woken_at(i) is Some,
            self.woken_at(j) is Some,
        ensures
            self.woken_at(i).unwrap() < self.woken_at(j).unwrap(),
    {
        let a = self.woken_at(i).unwrap();
        let b = self.woken_at(j).unwrap();
        self.after_wakes(i).lemma_first_names_least();
        self.after_wakes(j).lemma_first_names_least();
        self.lemma_wakes_shrink(i + 1, j, b);
        assert(self.after_wakes(i + 1) == self.after_wakes(i).wake_next());
    }

    /// Wake order, seen from the waiters: of two registered ids the smaller one is
    /// woken first. Where release number `j` wakes `b`, an earlier release of the row
    /// has woken every registered `a` below `b`.
    pub proof fn lemma_smaller_waiter_woken_first(self, a: usize, b: usize, j: nat) -> (i: nat)
        requires
            self.waiters.contains_key(a),
            a < b,
            self.woken_at(j) == Some(b),
        ensures
            i < j,
            self.woken_at(i) == Some(a),
    {
        self.after_wakes(j).lemma_first_names_least();
        self.lemma_gone_waiter_was_woken(a, j)
    }

    /// A waiter that is gone after `n` releases in a row was woken by one of them.
    pub proof fn lemma_gone_waiter_was_woken(self, id: usize, n: nat) -> (i: nat)
        requires
            self.waiters.contains_key(id),
            !self.after_wakes(n).waiters.contains_key(id),
        ensures
            i < n,
            self.woken_at(i) == Some(id),
        decreases n,
    {
        let before = self.after_wakes((n - 1) as nat);
        if before.waiters.contains_key(id) {
            before.lemma_first_names_least();
            (n - 1) as nat
        } else {
            self.lemma_gone_waiter_was_woken(id, (n - 1) as nat)
        }
    }

    /// An abandoned or finished request is out of the way. Once its id is off the
    /// registry, taking it off again changes nothing, no release picks it, and every
    /// other waiter keeps its entry and its turn.
    pub proof fn lemma_deregistered_id_is_inert(self, id: usize, other: usize)
        requires
            other != id,
        ensures
            self.deregister(id).deregister(id) == self.deregister(id),
            !self.deregister(id).waiters.contains_key(id),
            self.deregister(id).first() != Some(id),
            self.deregister(id).next_id == self.next_id,
            self.deregister(id).waiters.contains_key(other) == self.waiters.contains_key(other),
            self.waiters.contains_key(other) ==> self.deregister(id).waiters[other]
                == self.waiters[other],
            self.waiters.contains_key(other) ==> self.deregister(id).first() is Some,
    {
        let gone = self.deregister(id);
        assert(gone.deregister(id).waiters =~= gone.waiters);
        gone.lemma_first_names_least();
        if self.waiters.contains_key(other) {
            gone.lemma_first_exists(other);
        }
    }
}

/// The waiters of one adapter, by id, and the id that the next waiter will get.
pub struct WaitRegistry {
    waiter: BTreeMap<usize, Waker>,
    next_waiter: usize,
}

impl View for WaitRegistry {
    type V = RegistryModel;

    closed spec fn view(&self) -> RegistryModel {
        RegistryModel { waiters: self.waiter@, next_id: self.next_waiter as nat }
    }
}

impl WaitRegistry {
    /// An empty registry whose first id is 0.
    pub fn new() -> (r: Self)
        ensures
            r@ == RegistryModel::empty(),
    {
        WaitRegistry { waiter: BTreeMap::new(), next_waiter: 0 }
    }

    /// The id that the next waiter gets.
    pub fn next_id(&self) -> (id: usize)
        ensures
            id == self@.next_id,
    {
        self.next_waiter
    }

    /// How many waiters are registered.
    pub fn len(&self) -> (n: usize)
        ensures
            n == self@.waiters.len(),
    {
        self.waiter.len()
    }

    /// Whether a handle is stored under `id`.
    pub fn is_registered(&self, id: usize) -> (b: bool)
        ensures
            b == self@.waiters.contains_key(id),
    {
        self.waiter.contains_key(&id)
    }

    /// Hands out the next id. Ids come in increasing order and none comes twice.
    pub fn allocate(&mut self) -> (id: usize)
        requires
            old(self)@.next_id < usize::MAX,
        ensures
            id == old(self)@.next_id,
            final(self)@ == old(self)@.allocate(),
    {
        let id = self.next_waiter;
        self.next_waiter = id + 1;
        id
    }

    /// Stores `handle` under `id`. A handle stored there before is replaced, so the
    /// registry keeps the one of the latest poll.
    pub fn register(&mut self, id: usize, handle: Waker)
        ensures
            final(self)@ == old(self)@.register(id, handle),
    {
        self.waiter.insert(id, handle);
    }

    /// Removes the entry of `id`, if there is one, and says whether there was.
    pub fn deregister(&mut self, id: usize) -> (was_registered: bool)
        ensures
            was_registered == old(self)@.waiters.contains_key(id),
            final(self)@ == old(self)@.deregister(id),
    {
        self.waiter.remove(&id).is_some()
    }

    /// The smallest registered id, if any id is registered.
    pub fn first_waiter(&self) -> (id: Option<usize>)
        ensures
            id == self@.first(),
            id is None <==> self@.waiters.dom().is_empty(),
            id matches Some(k) ==> self@.is_least(k),
    {
        for k in it: self.waiter.keys()
            invariant
                it.index() == 0,
        {
            proof {
                broadcast use vstd::laws_cmp::group_laws_cmp;
                broadcast use vstd::laws_cmp::lemma_ref_obeys_cmp_spec;

                let s = it.seq();
                assert(s == vstd::std_specs::btree::spec_keys_iter(&self.waiter).remaining());
                assert(s.unref().to_set() == self.waiter@.dom());
                assert(s.unref()[0] == *k);
                assert(self@.waiters.contains_key(*k));
                assert(vstd::laws_cmp::obeys_cmp::<&usize>());
                vstd::std_specs::btree::axiom_increasing_seq_meaning::<&usize>(s);
                assert forall|other: usize| self@.waiters.contains_key(other) implies *k
                    <= other by {
                    assert(s.unref().to_set().contains(other));
                    let j = choose|j: int| 0 <= j < s.unref().len() && s.unref()[j] == other;
                    if j > 0 {
                        assert(OrdSpec::cmp_spec(&s[0], &s[j]) is Less);
                    }
                }
                self@.lemma_first_is_least(*k);
            }
            return Some(*k);
        }
        proof {
            self@.lemma_first_of_none();
        }
        None
    }

    /// Takes the waiter with the smallest id out of the registry, with its handle.
    pub fn take_first(&mut self) -> (taken: Option<(usize, Waker)>)
        ensures
            final(self)@ == old(self)@.wake_next(),
            match taken {
                Some((id, handle)) => old(self)@.first() == Some(id) && old(self)@.waiters[id]
                    == handle,
                None => old(self)@.first() is None,
            },
    {
        match self.first_waiter() {
            Some(id) => match self.waiter.remove(&id) {
                Some(handle) => Some((id, handle)),
                None => vstd::pervasive::unreached(),
            },
            None => None,
        }
    }

    /// Wakes the waiter with the smallest id, if there is a waiter, and drops its entry:
    /// the woken task registers again when its next poll finds the primitive taken.
    /// Returns the id that was woken.
    pub fn wake_next(&mut self) -> (woken: Option<usize>)
        ensures
            woken == old(self)@.first(),
            final(self)@ == old(self)@.wake_next(),
    {
        match self.take_first() {
            Some((id, handle)) => {
                wake(handle);
                Some(id)
            },
            None => None,
        }
    }
}

} // verus!
