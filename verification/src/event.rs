//! The events the display server delivers to the session, the actions the
//! session asks its caller to perform in response, and the errors raised when
//! an event finds the session in a state the protocol sequence forbids.

use vstd::prelude::*;

use crate::size::proposal_wf;

verus! {

/// The closed set of registry interfaces this session acts on: the
/// surface-factory global, the window-shell global, and everything else
/// (a deliberate no-op).
#[derive(Clone, Copy, Debug, PartialEq, Eq, Structural)]
pub enum GlobalKind {
    SurfaceFactory,
    WindowShell,
    Other,
}

/// Which of the known interfaces a registry announcement names.
pub open spec fn spec_classify(name: Seq<char>) -> GlobalKind {
    if name == "wl_compositor"@ {
        GlobalKind::SurfaceFactory
    } else if name == "xdg_wm_base"@ {
        GlobalKind::WindowShell
    } else {
        GlobalKind::Other
    }
}

/// Resolves a registry interface name to the closed set of interfaces the
/// session knows; any other interface is classified as `Other` and later
/// ignored deliberately.
pub fn classify_interface(name: &String) -> (r: GlobalKind)
    ensures
        r == spec_classify(name@),
{
    if *name == String::from_str("wl_compositor") {
        GlobalKind::SurfaceFactory
    } else if *name == String::from_str("xdg_wm_base") {
        GlobalKind::WindowShell
    } else {
        GlobalKind::Other
    }
}

/// A protocol event delivered to the session, reduced to the plain values
/// the lifecycle decisions depend on.
#[derive(Debug)]
pub enum Event {
    /// The registry announced a global: a numeric name, its interface, and
    /// the advertised version.
    GlobalAnnounced { name: u32, interface: String, version: u32 },
    /// The shell asked for a liveness reply carrying this serial.
    ShellPing { serial: u32 },
    /// The window surface received a configure carrying this serial; it must
    /// be acknowledged with the same serial.
    SurfaceConfigure { serial: u32 },
    /// The toplevel window received a size proposal.
    ToplevelConfigure { width: i32, height: i32 },
    /// The toplevel window was asked to close.
    ToplevelClose,
}

impl Event {
    /// A size proposal must be the zero marker or strictly positive; every
    /// other event is unconditionally meaningful.
    pub open spec fn wf(self) -> bool {
        match self {
            Event::ToplevelConfigure { width, height } => proposal_wf(width, height),
            _ => true,
        }
    }

    /// Checks well-formedness, so that unverified callers can test the
    /// condition before handing an event to the state machine.
    pub fn is_wf(&self) -> (r: bool)
        ensures
            r == self.wf(),
    {
        match self {
            Event::ToplevelConfigure { width, height } => crate::size::proposal_ok(
                *width,
                *height,
            ),
            _ => true,
        }
    }
}

/// An action the caller must perform against the display server or the GPU,
/// in the order the session emits them.
#[derive(Clone, Copy, Debug, PartialEq, Eq, Structural)]
pub enum Action {
    /// Bind the surface-factory global under this registry name and version,
    /// and immediately create the base drawable surface from it.
    BindSurfaceFactory { name: u32, version: u32 },
    /// Bind the window-shell global under this registry name and version.
    BindWindowShell { name: u32, version: u32 },
    /// Assign the window role, in strict order: create the role adapter from
    /// the drawable surface, immediately create the toplevel window from the
    /// adapter, set the window metadata, then issue a commit with no buffer
    /// attached.
    AssignRole,
    /// Answer a shell ping with the same serial.
    Pong { serial: u32 },
    /// Acknowledge a configure by echoing its serial.
    AckConfigure { serial: u32 },
    /// (Re)configure the presentation surface with these dimensions.
    ConfigureGpu { width: u32, height: u32 },
}

impl Action {
    /// Whether performing this action sends a request to the display server;
    /// the one action that does not is GPU-side work.
    pub open spec fn is_protocol_request(self) -> bool {
        !(self is ConfigureGpu)
    }
}

/// A broken protocol sequence: a required object is missing when an event
/// assumes it. Always fatal to the caller, never retried.
#[derive(Clone, Copy, Debug, PartialEq, Eq, Structural)]
pub enum SessionError {
    /// Initialization ended without the surface-factory global.
    MissingSurfaceFactory,
    /// Initialization ended without the window-shell global.
    MissingWindowShell,
    /// A configure arrived before any window role was assigned.
    RoleNotAssigned,
    /// A pending size must be applied but the GPU context does not exist yet.
    GpuNotInitialized,
}

impl SessionError {
    /// A description naming the violated invariant, for the caller's abort
    /// message.
    pub fn message(&self) -> (r: String)
        ensures
            match *self {
                SessionError::MissingSurfaceFactory => r@
                    == "missing required capability: surface factory global was never announced"@,
                SessionError::MissingWindowShell => r@
                    == "missing required capability: window shell global was never announced"@,
                SessionError::RoleNotAssigned => r@
                    == "configure received before any window role was assigned"@,
                SessionError::GpuNotInitialized => r@
                    == "pending size cannot be applied: GPU context was never initialized"@,
            },
    {
        match self {
            SessionError::MissingSurfaceFactory => String::from_str(
                "missing required capability: surface factory global was never announced",
            ),
            SessionError::MissingWindowShell => String::from_str(
                "missing required capability: window shell global was never announced",
            ),
            SessionError::RoleNotAssigned => String::from_str(
                "configure received before any window role was assigned",
            ),
            SessionError::GpuNotInitialized => String::from_str(
                "pending size cannot be applied: GPU context was never initialized",
            ),
        }
    }
}

} // verus!
