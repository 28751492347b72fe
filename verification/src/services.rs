//! The shape shared by the shell's background services.

use vstd::prelude::*;

verus! {

/// A background service that reports its updates to callbacks.
pub trait Service: Sized {
    /// The type that represents an event when the service is updated.
    type Event;

    /// Creates an instance of this service, spawning threads as needed for its
    /// logic.
    fn launch() -> Self;

    /// Adds a callback to this service that will be called upon updates.
    fn with<F: FnMut(Self::Event) + Send + Sync + 'static>(self, callback: F) -> Self;
}

} // verus!
