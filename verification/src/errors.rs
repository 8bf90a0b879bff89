use vstd::prelude::*;

verus! {

/// Fatal initialization errors. Either one aborts surface creation: the
/// process cannot proceed without a registered class and a created surface.
/// A rejected fullscreen mode switch is deliberately not here — it is a
/// degraded, non-fatal condition and creation continues at the same geometry.
#[derive(Clone, Copy, Debug, PartialEq, Eq, Structural)]
pub enum FatalError {
    /// The host refused to register the window class.
    ClassRegistration,
    /// The host failed to create the surface (no native handle came back).
    SurfaceCreation,
}

} // verus!
