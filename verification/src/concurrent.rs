//! The lock-guarded registry that parallel callers share.

use std::sync::Arc;

use vstd::prelude::*;
use vstd::rwlock::RwLock;
use vstd::rwlock::RwLockPredicate;

use crate::instance::Singleton;
use crate::registry::Registry;

verus! {

/// The invariant imposed on the slot for as long as it sits in the lock:
/// every value stored satisfies [`Registry::wf`].
pub struct WellFormed {}

impl RwLockPredicate<Registry> for WellFormed {
    open spec fn inv(self, registry: Registry) -> bool {
        registry.wf()
    }
}

/// A lazily initialized singleton slot behind a reader-writer lock.
///
/// Any number of callers may hold shared references to one value of this
/// type and call [`Self::get_instance`] in parallel: the lock serializes
/// initialization, so the construction procedure runs at most once, and
/// every caller receives a handle to a fully constructed instance.
pub struct LazySingletonRegistry {
    lock: RwLock<Registry, WellFormed>,
}

impl LazySingletonRegistry {
    #[verifier::type_invariant]
    spec fn well_locked(&self) -> bool {
        self.lock.pred() == (WellFormed {})
    }

    /// A fresh registry: uninitialized, constructor never run.
    pub fn new() -> (registry: LazySingletonRegistry) {
        let slot = Registry::new();
        let lock = RwLock::new(slot, Ghost(WellFormed {}));
        LazySingletonRegistry { lock }
    }

    /// Retrieve the shared instance, constructing it on first demand.
    ///
    /// Once the slot is initialized a read lock suffices, so concurrent
    /// retrievals proceed in parallel without blocking one another. Before
    /// that, the caller takes the write lock and re-checks the slot: at
    /// most one of the racing callers finds it still empty and runs the
    /// constructor, while the rest receive the instance that caller built.
    /// Every handle handed out refers to a fully constructed instance.
    pub fn get_instance(&self) -> (handle: Arc<Singleton>)
        ensures
            (*handle).ready,
    {
        proof {
            use_type_invariant(self);
        }
        let read_handle = self.lock.acquire_read();
        let existing = read_handle.borrow().peek();
        read_handle.release_read();
        match existing {
            Some(shared) => shared,
            None => {
                let (slot, write_handle) = self.lock.acquire_write();
                let mut slot = slot;
                let shared = slot.get_instance();
                write_handle.release_write(slot);
                shared
            },
        }
    }

    /// How many times the construction procedure has run: never more than
    /// once, however many retrievals have happened.
    pub fn construction_count(&self) -> (count: u64)
        ensures
            count <= 1,
    {
        proof {
            use_type_invariant(self);
        }
        let read_handle = self.lock.acquire_read();
        let count = read_handle.borrow().constructions_so_far();
        read_handle.release_read();
        count
    }

    /// Whether the one instance has been constructed yet.
    pub fn is_initialized(&self) -> (initialized: bool) {
        proof {
            use_type_invariant(self);
        }
        let read_handle = self.lock.acquire_read();
        let initialized = read_handle.borrow().is_initialized();
        read_handle.release_read();
        initialized
    }
}

} // verus!
