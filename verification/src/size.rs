//! Window dimensions and the policy for resolving a size proposal from the
//! window shell, including the "client chooses" escape hatch signalled by a
//! zero proposal.

use vstd::prelude::*;

verus! {

/// The fallback edge length used when the shell defers the sizing choice to
/// the client by proposing a zero size.
pub const DEFAULT_DIMENSION: i32 = 320;

/// A window size in pixels. Once a size influences the presentation surface
/// it is never zero in either dimension (see [`WindowSize::wf`]).
#[derive(Clone, Copy, Debug, PartialEq, Eq, Structural)]
pub struct WindowSize {
    pub width: i32,
    pub height: i32,
}

impl WindowSize {
    /// Both dimensions are strictly positive.
    pub open spec fn wf(self) -> bool {
        self.width > 0 && self.height > 0
    }
}

/// The size used when the shell lets the client decide.
pub open spec fn spec_default_size() -> WindowSize {
    WindowSize { width: DEFAULT_DIMENSION, height: DEFAULT_DIMENSION }
}

impl Default for WindowSize {
    /// The default window size, used for a zero size proposal.
    fn default() -> (r: Self)
        ensures
            r == spec_default_size(),
    {
        WindowSize { width: DEFAULT_DIMENSION, height: DEFAULT_DIMENSION }
    }
}

/// A size proposal from the shell is meaningful when it is the "client
/// chooses" marker (both dimensions zero) or strictly positive in both
/// dimensions; a conforming shell sends nothing else.
pub open spec fn proposal_wf(width: i32, height: i32) -> bool {
    (width == 0 && height == 0) || (width > 0 && height > 0)
}

/// What a size proposal resolves to: the default size for the zero marker,
/// the proposed size otherwise.
pub open spec fn spec_resolve_proposal(width: i32, height: i32) -> WindowSize {
    if width == 0 && height == 0 {
        spec_default_size()
    } else {
        WindowSize { width, height }
    }
}

/// Resolves a size proposal from the shell: a (0, 0) proposal means the
/// client is free to pick, and becomes the default size; anything else is
/// kept as proposed.
pub fn resolve_proposal(width: i32, height: i32) -> (r: WindowSize)
    ensures
        r == spec_resolve_proposal(width, height),
{
    if width == 0 && height == 0 {
        WindowSize::default()
    } else {
        WindowSize { width, height }
    }
}

/// Checks that a size proposal is meaningful, so that unverified callers can
/// test the condition before handing the proposal to the state machine.
pub fn proposal_ok(width: i32, height: i32) -> (r: bool)
    ensures
        r == proposal_wf(width, height),
{
    (width == 0 && height == 0) || (width > 0 && height > 0)
}

} // verus!
