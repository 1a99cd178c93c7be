//! A lazily constructed, thread-safe singleton registry.
//!
//! The crate provides one guarantee: a process-wide instance is constructed
//! at most once, no matter how many callers ask for it, and every caller
//! receives a shared handle to that same instance.
//!
//! [`registry::Registry`] is the guarded slot itself: an optional shared
//! handle together with a count of constructor runs, manipulated under
//! mutual exclusion. Its contracts pin down lazy construction, idempotent
//! retrieval and the impossibility of a second constructor run, and proof
//! functions in the same module state those laws over arbitrary call
//! sequences. [`concurrent::LazySingletonRegistry`] wraps the slot in a
//! reader-writer lock so that parallel callers are serialized and never
//! observe a partially initialized slot.

pub mod concurrent;
pub mod instance;
pub mod registry;
