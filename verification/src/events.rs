use vstd::prelude::*;

verus! {

/// The single application-level event this core delivers to the owning
/// application: a request to shut down. The surface's native handle is
/// destroyed before this event is delivered, so the owner must not touch the
/// surface after receiving it.
#[derive(Clone, Copy, Debug, PartialEq, Eq, Structural)]
pub enum Event {
    Quit,
}

} // verus!
