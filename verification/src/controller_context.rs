//! The informer factory shared by the controllers.

use vstd::prelude::*;

verus! {

/// Factory for the shared informers that watch cluster resources; it records
/// whether its informers have been started.
#[derive(Clone, Copy, Debug)]
pub struct InformerFactory {
    started: bool,
}

impl InformerFactory {
    /// Whether the informers have been started.
    pub closed spec fn is_started(self) -> bool {
        self.started
    }

    /// A new informer factory whose informers have not been started.
    pub fn new() -> (f: InformerFactory)
        ensures
            !f.is_started(),
    {
        InformerFactory { started: false }
    }

    /// Starts the informers; from then on they count as started.
    pub fn start(&mut self)
        ensures
            final(self).is_started(),
    {
        self.started = true;
    }

    /// Whether the informers have been started.
    pub fn started(&self) -> (b: bool)
        ensures
            b == self.is_started(),
    {
        self.started
    }
}

impl Default for InformerFactory {
    /// A new informer factory whose informers have not been started.
    fn default() -> (f: InformerFactory)
        ensures
            !f.is_started(),
    {
        InformerFactory::new()
    }
}

} // verus!
