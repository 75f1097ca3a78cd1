//! Error taxonomy of the lifecycle layer.

use vstd::prelude::*;

verus! {

/// Everything that can go wrong while bringing the rendering pipeline up or
/// keeping it alive. All variants except `PresentIntervalUnsupported` are
/// fatal: they abort startup or rendering and become the process result.
#[derive(Clone, Copy, Debug, PartialEq, Eq, Structural)]
pub enum LifecycleError {
    /// The platform offered no framebuffer configuration to pick from.
    ConfigSelectionEmpty,
    /// Building the display connection or a window failed.
    DisplayOrWindowCreationFailed,
    /// Every profile of the context fallback chain was rejected.
    ContextCreationExhausted,
    /// The platform rejected the window/config pairing for a surface.
    SurfaceCreationFailed,
    /// The vsync request was rejected; rendering continues without it.
    PresentIntervalUnsupported,
    /// Presenting (swapping) the surface failed.
    PresentationFailed,
}

impl LifecycleError {
    /// Whether this error aborts the application (everything but a rejected
    /// present-interval request does).
    pub open spec fn spec_is_fatal(self) -> bool {
        !(self is PresentIntervalUnsupported)
    }

    /// Executable twin of [`Self::spec_is_fatal`].
    pub fn is_fatal(&self) -> (r: bool)
        ensures
            r == self.spec_is_fatal(),
    {
        !matches!(self, LifecycleError::PresentIntervalUnsupported)
    }
}

} // verus!
