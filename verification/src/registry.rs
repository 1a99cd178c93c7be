//! The guarded singleton slot: lazy construction, and the laws it obeys.
//!
//! [`Registry`] is the state behind the one-time-initialization gate: an
//! optional shared handle to the instance, together with a count of how many
//! times the construction procedure has run. [`Registry::get_instance`]
//! performs the guarded test-and-initialize step; [`step`] is that step as a relation
//! between states, and the proof functions at the end of the module state
//! the registry's laws over arbitrary sequences of retrievals.

use std::sync::Arc;

use vstd::prelude::*;

use crate::instance::Singleton;

verus! {

/// The lazy-initialization slot.
///
/// Exactly one of two abstract states holds: uninitialized (no instance
/// exists, the constructor has never run) or initialized (one instance
/// exists, the constructor has run exactly once). The transition runs only
/// forward; nothing ever clears the slot.
pub struct Registry {
    /// The shared handle to the one instance, once constructed.
    slot: Option<Arc<Singleton>>,
    /// How many times the construction procedure has run.
    constructions: u64,
}

/// How one retrieval transforms the slot, and which handle it yields.
///
/// This is the full contract of [`Registry::get_instance`], written as a
/// relation so that laws about several calls can quantify over it.
pub open spec fn step(pre: Registry, post: Registry, handle: Singleton) -> bool {
    &&& post.wf()
    &&& post.initialized()
    &&& handle == post.instance()
    &&& handle.ready
    &&& (pre.initialized() ==> post == pre)
    &&& (!pre.initialized() ==> post.construction_count() == pre.construction_count() + 1)
}

impl Registry {
    /// Whether the one instance has been constructed.
    pub closed spec fn initialized(&self) -> bool {
        self.slot is Some
    }

    /// The instance in the slot.
    pub closed spec fn instance(&self) -> Singleton
        recommends
            self.initialized(),
    {
        *self.slot->Some_0
    }

    /// How many times the construction procedure has run.
    pub closed spec fn construction_count(&self) -> u64 {
        self.constructions
    }

    /// The slot's invariant: the constructor has run at most once, it has
    /// run exactly once just when the instance exists, and any existing
    /// instance is fully constructed.
    pub open spec fn wf(&self) -> bool {
        &&& self.construction_count() <= 1
        &&& self.initialized() <==> self.construction_count() == 1
        &&& self.initialized() ==> self.instance().ready
    }

    /// A fresh slot: uninitialized, constructor never run.
    pub fn new() -> (registry: Registry)
        ensures
            registry.wf(),
            !registry.initialized(),
            registry.construction_count() == 0,
    {
        Registry { slot: None, constructions: 0 }
    }

    /// Retrieve the shared instance, constructing it if and only if no
    /// instance exists yet.
    ///
    /// The returned handle always refers to the instance held in the slot
    /// afterwards, and an already-initialized slot is left untouched, so
    /// repeated calls keep returning the same instance and never run the
    /// constructor again.
    pub fn get_instance(&mut self) -> (handle: Arc<Singleton>)
        requires
            old(self).wf(),
        ensures
            step(*old(self), *final(self), *handle),
    {
        match &self.slot {
            Some(shared) => shared.clone(),
            None => {
                let shared = Arc::new(Singleton::new());
                self.slot = Some(shared.clone());
                self.constructions = self.constructions + 1;
                shared
            },
        }
    }

    /// Read the slot without changing it: the handle, if one exists.
    pub fn peek(&self) -> (handle: Option<Arc<Singleton>>)
        ensures
            handle is Some <==> self.initialized(),
            handle matches Some(shared) ==> *shared == self.instance(),
    {
        match &self.slot {
            Some(shared) => Some(shared.clone()),
            None => None,
        }
    }

    /// Whether the one instance has been constructed.
    pub fn is_initialized(&self) -> (initialized: bool)
        ensures
            initialized == self.initialized(),
    {
        self.slot.is_some()
    }

    /// How many times the construction procedure has run.
    pub fn constructions_so_far(&self) -> (count: u64)
        ensures
            count == self.construction_count(),
    {
        self.constructions
    }
}

/// `trace(start, states, handles)` says: beginning from `start`, a sequence
/// of retrievals ran one after another, the i-th leaving the registry in
/// `states[i]` and returning `handles[i]`. The lock serializes concurrent
/// retrievals into exactly such a sequence, in whichever order they won it.
pub open spec fn trace(start: Registry, states: Seq<Registry>, handles: Seq<Singleton>) -> bool {
    &&& states.len() == handles.len()
    &&& states.len() > 0 ==> step(start, states[0], handles[0])
    &&& forall|i: int| 1 <= i < states.len() ==> step(states[i - 1], #[trigger] states[i], handles[i])
}

/// After the first retrieval the registry never changes again: the state
/// machine moves forward once and then stays put.
proof fn lemma_state_stable(start: Registry, states: Seq<Registry>, handles: Seq<Singleton>, i: int)
    requires
        trace(start, states, handles),
        0 <= i < states.len(),
    ensures
        states[i] == states[0],
    decreases i,
{
    if i > 0 {
        lemma_state_stable(start, states, handles, i - 1);
        assert(step(states[i - 1], states[i], handles[i]));
    }
}

/// Uniqueness: however many retrievals one registry serves, every pair of
/// handles handed out refers to the identical instance.
pub proof fn lemma_uniqueness(start: Registry, states: Seq<Registry>, handles: Seq<Singleton>)
    requires
        trace(start, states, handles),
    ensures
        forall|i: int, j: int|
            0 <= i < handles.len() && 0 <= j < handles.len() ==> handles[i] == handles[j],
{
    assert forall|i: int, j: int|
        0 <= i < handles.len() && 0 <= j < handles.len() implies handles[i] == handles[j] by {
        lemma_state_stable(start, states, handles, i);
        lemma_state_stable(start, states, handles, j);
        if i > 0 {
            assert(step(states[i - 1], states[i], handles[i]));
        }
        if j > 0 {
            assert(step(states[j - 1], states[j], handles[j]));
        }
    }
}

/// Single construction: starting from a fresh registry, any positive number
/// of retrievals runs the construction procedure exactly once, whichever
/// caller's retrieval came first.
pub proof fn lemma_single_construction(start: Registry, states: Seq<Registry>, handles: Seq<Singleton>)
    requires
        !start.initialized(),
        start.construction_count() == 0,
        trace(start, states, handles),
        states.len() > 0,
    ensures
        states.last().construction_count() == 1,
{
    lemma_state_stable(start, states, handles, states.len() - 1);
    assert(step(start, states[0], handles[0]));
}

/// Idempotent retrieval: a call that finds the registry already initialized
/// leaves it untouched — in particular the constructor does not run again —
/// and returns the existing instance.
pub proof fn lemma_idempotent_retrieval(pre: Registry, post: Registry, handle: Singleton)
    requires
        pre.initialized(),
        step(pre, post, handle),
    ensures
        post == pre,
        post.construction_count() == pre.construction_count(),
        handle == pre.instance(),
{
}

/// No partial visibility: every handle a retrieval yields refers to a fully
/// constructed instance — its end-of-construction marker is set.
pub proof fn lemma_no_partial_observation(pre: Registry, post: Registry, handle: Singleton)
    requires
        step(pre, post, handle),
    ensures
        handle.ready,
{
}

} // verus!
