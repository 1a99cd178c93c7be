//! The payload type shared through the registry.

use vstd::prelude::*;

verus! {

/// The value of which at most one instance exists per registry.
///
/// The payload carries no application data; its one field is a marker that
/// the constructor sets as its last act, so that an observer holding a
/// handle can check that construction had finished before the handle was
/// handed out.
#[derive(Clone, Copy, PartialEq, Eq, Structural, Debug)]
pub struct Singleton {
    /// Set exactly when construction has run to completion.
    pub ready: bool,
}

impl Singleton {
    /// The fixed, parameterless construction procedure.
    ///
    /// Every value it returns is fully constructed: the marker is set.
    pub fn new() -> (instance: Singleton)
        ensures
            instance.ready,
    {
        Singleton { ready: true }
    }
}

} // verus!
