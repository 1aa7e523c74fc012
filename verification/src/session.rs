//! The session: the whole-process state of the window lifecycle, and the
//! single step function that consumes one protocol event and decides which
//! actions the caller must perform, in order.
//!
//! The step is given first as a specification ([`step`], [`step_ok`],
//! [`step_err`]) and then as the executable [`Session::handle_event`], which
//! is proved to follow it exactly.

use vstd::prelude::*;

use crate::event::Action;
use crate::event::Event;
use crate::event::GlobalKind;
use crate::event::SessionError;
use crate::event::spec_classify;
use crate::size::WindowSize;
use crate::size::spec_resolve_proposal;
use crate::size::resolve_proposal;

verus! {

/// The whole-process state. Booleans record which protocol objects exist;
/// the objects themselves live with the unverified caller that performs the
/// emitted [`Action`]s.
#[derive(Clone, Copy, Debug)]
pub struct Session {
    /// False once a close event arrives; no further frames are rendered.
    pub running: bool,
    /// The surface-factory global is bound and the base drawable surface
    /// exists.
    pub surface_created: bool,
    /// The window-shell global is bound.
    pub shell_bound: bool,
    /// The role adapter and the toplevel window exist and the initial
    /// content-free commit has been issued.
    pub role_assigned: bool,
    /// At least one configure has been acknowledged.
    pub configured: bool,
    /// The GPU context (adapter, device, queue, presentable surface) exists.
    pub gpu_initialized: bool,
    /// The size the presentation surface is currently configured with.
    pub size: Option<WindowSize>,
    /// The most recent size proposal from the shell, not yet applied;
    /// consumed by the next acknowledged configure.
    pub pending_resize: Option<WindowSize>,
}

impl Session {
    /// Structural well-formedness: a role needs both globals, a configure
    /// needs a role, an applied size needs the GPU context and the GPU
    /// context needs the base surface, and no stored size is ever zero.
    pub open spec fn wf(self) -> bool {
        &&& (self.role_assigned ==> self.surface_created && self.shell_bound)
        &&& (self.configured ==> self.role_assigned)
        &&& (self.gpu_initialized ==> self.surface_created)
        &&& (match self.size {
            Some(s) => s.wf() && self.gpu_initialized,
            None => true,
        })
        &&& (match self.pending_resize {
            Some(s) => s.wf(),
            None => true,
        })
    }
}

/// The state at startup: running, with nothing created, bound, assigned or
/// configured.
pub open spec fn spec_init() -> Session {
    Session {
        running: true,
        surface_created: false,
        shell_bound: false,
        role_assigned: false,
        configured: false,
        gpu_initialized: false,
        size: None,
        pending_resize: None,
    }
}

impl Default for Session {
    /// A fresh session in the startup state.
    fn default() -> (r: Self)
        ensures
            r == spec_init(),
    {
        Session {
            running: true,
            surface_created: false,
            shell_bound: false,
            role_assigned: false,
            configured: false,
            gpu_initialized: false,
            size: None,
            pending_resize: None,
        }
    }
}

/// Whether an event finds the session in a state the protocol sequence
/// allows. A configure assumes a window role exists, and applying a pending
/// size assumes the GPU context exists; every other event is always
/// acceptable.
pub open spec fn step_ok(s: Session, ev: Event) -> bool {
    match ev {
        Event::SurfaceConfigure { .. } => s.role_assigned && (s.pending_resize is Some
            ==> s.gpu_initialized),
        Event::ToplevelConfigure { .. } => s.role_assigned,
        _ => true,
    }
}

/// The invariant an unacceptable event violates. Meaningful only when
/// `!step_ok(s, ev)`.
pub open spec fn step_err(s: Session, ev: Event) -> SessionError {
    match ev {
        Event::SurfaceConfigure { .. } => if !s.role_assigned {
            SessionError::RoleNotAssigned
        } else {
            SessionError::GpuNotInitialized
        },
        _ => SessionError::RoleNotAssigned,
    }
}

/// One step of the global-registry binder: bind each needed global the
/// first time it is announced (a repeated announcement is ignored, so the
/// base surface is created at most once), and the moment both the base
/// surface and the shell exist with no role assigned yet — in either
/// binding order — assign the window role.
pub open spec fn step_global(s: Session, name: u32, interface: Seq<char>, version: u32) -> (
    Session,
    Seq<Action>,
) {
    match spec_classify(interface) {
        GlobalKind::SurfaceFactory => if !s.surface_created {
            let bound = Session { surface_created: true, ..s };
            if bound.shell_bound && !bound.role_assigned {
                (
                    Session { role_assigned: true, ..bound },
                    seq![Action::BindSurfaceFactory { name, version }, Action::AssignRole],
                )
            } else {
                (bound, seq![Action::BindSurfaceFactory { name, version }])
            }
        } else {
            (s, Seq::<Action>::empty())
        },
        GlobalKind::WindowShell => if !s.shell_bound {
            let bound = Session { shell_bound: true, ..s };
            if bound.surface_created && !bound.role_assigned {
                (
                    Session { role_assigned: true, ..bound },
                    seq![Action::BindWindowShell { name, version }, Action::AssignRole],
                )
            } else {
                (bound, seq![Action::BindWindowShell { name, version }])
            }
        } else {
            (s, Seq::<Action>::empty())
        },
        GlobalKind::Other => (s, Seq::<Action>::empty()),
    }
}

/// One step on an acknowledged configure: echo the serial first; then, if a
/// pending size was recorded, apply it to the presentation surface and
/// promote it to the current size, clearing the pending slot; in every case
/// the session becomes configured. An unacceptable event (see [`step_ok`])
/// changes nothing.
pub open spec fn step_surface_configure(s: Session, serial: u32) -> (Session, Seq<Action>) {
    if !step_ok(s, Event::SurfaceConfigure { serial }) {
        (s, Seq::<Action>::empty())
    } else {
        match s.pending_resize {
            Some(sz) => (
                Session { configured: true, size: Some(sz), pending_resize: None, ..s },
                seq![
                    Action::AckConfigure { serial },
                    Action::ConfigureGpu { width: sz.width as u32, height: sz.height as u32 },
                ],
            ),
            None => (Session { configured: true, ..s }, seq![Action::AckConfigure { serial }]),
        }
    }
}

/// The complete step function: the next session state and the actions to
/// perform, in order, for one event. An event that [`step_ok`] refuses
/// changes nothing and emits nothing (the executable step reports the error
/// instead).
pub open spec fn step(s: Session, ev: Event) -> (Session, Seq<Action>) {
    match ev {
        Event::GlobalAnnounced { name, interface, version } => step_global(
            s,
            name,
            interface@,
            version,
        ),
        Event::ShellPing { serial } => (s, seq![Action::Pong { serial }]),
        Event::SurfaceConfigure { serial } => step_surface_configure(s, serial),
        Event::ToplevelConfigure { width, height } => if step_ok(s, ev) {
            (
                Session { pending_resize: Some(spec_resolve_proposal(width, height)), ..s },
                Seq::<Action>::empty(),
            )
        } else {
            (s, Seq::<Action>::empty())
        },
        Event::ToplevelClose => (Session { running: false, ..s }, Seq::<Action>::empty()),
    }
}

/// A step on a well-formed event preserves session well-formedness.
pub proof fn lemma_step_preserves_wf(s: Session, ev: Event)
    requires
        s.wf(),
        ev.wf(),
    ensures
        step(s, ev).0.wf(),
{
}

impl Session {
    /// Consumes one protocol event: mutates the session exactly as [`step`]
    /// says and returns the actions the caller must now perform, in order.
    /// When the event finds the session in a state the protocol sequence
    /// forbids, nothing changes and the violated invariant is reported.
    pub fn handle_event(&mut self, ev: Event) -> (r: Result<Vec<Action>, SessionError>)
        requires
            old(self).wf(),
            ev.wf(),
        ensures
            final(self).wf(),
            match r {
                Ok(actions) => step_ok(*old(self), ev) && *final(self) == step(*old(self), ev).0
                    && actions@ == step(*old(self), ev).1,
                Err(e) => !step_ok(*old(self), ev) && *final(self) == *old(self) && e == step_err(
                    *old(self),
                    ev,
                ),
            },
    {
        let ghost s0 = *self;
        match ev {
            Event::GlobalAnnounced { name, interface, version } => {
                let mut actions: Vec<Action> = Vec::new();
                match crate::event::classify_interface(&interface) {
                    GlobalKind::SurfaceFactory => {
                        if !self.surface_created {
                            self.surface_created = true;
                            actions.push(Action::BindSurfaceFactory { name, version });
                            if self.shell_bound && !self.role_assigned {
                                self.role_assigned = true;
                                actions.push(Action::AssignRole);
                            }
                        }
                    },
                    GlobalKind::WindowShell => {
                        if !self.shell_bound {
                            self.shell_bound = true;
                            actions.push(Action::BindWindowShell { name, version });
                            if self.surface_created && !self.role_assigned {
                                self.role_assigned = true;
                                actions.push(Action::AssignRole);
                            }
                        }
                    },
                    GlobalKind::Other => {},
                }
                proof {
                    assert(actions@ =~= step(s0, ev).1);
                }
                Ok(actions)
            },
            Event::ShellPing { serial } => {
                let mut actions: Vec<Action> = Vec::new();
                actions.push(Action::Pong { serial });
                proof {
                    assert(actions@ =~= step(s0, ev).1);
                }
                Ok(actions)
            },
            Event::SurfaceConfigure { serial } => {
                if !self.role_assigned {
                    return Err(SessionError::RoleNotAssigned);
                }
                let mut actions: Vec<Action> = Vec::new();
                actions.push(Action::AckConfigure { serial });
                match self.pending_resize {
                    Some(sz) => {
                        if !self.gpu_initialized {
                            return Err(SessionError::GpuNotInitialized);
                        }
                        actions.push(
                            Action::ConfigureGpu {
                                width: sz.width as u32,
                                height: sz.height as u32,
                            },
                        );
                        self.size = Some(sz);
                        self.pending_resize = None;
                    },
                    None => {},
                }
                self.configured = true;
                proof {
                    assert(actions@ =~= step(s0, ev).1);
                }
                Ok(actions)
            },
            Event::ToplevelConfigure { width, height } => {
                if !self.role_assigned {
                    return Err(SessionError::RoleNotAssigned);
                }
                self.pending_resize = Some(resolve_proposal(width, height));
                Ok(Vec::new())
            },
            Event::ToplevelClose => {
                self.running = false;
                Ok(Vec::new())
            },
        }
    }

    /// Whether initialization may proceed: both required globals must have
    /// been bound by the time the initial event burst has been handled;
    /// the absence of either is a fatal missing capability, the factory
    /// reported first.
    pub fn finish_initialization(&self) -> (r: Result<(), SessionError>)
        ensures
            match r {
                Ok(()) => self.surface_created && self.shell_bound,
                Err(e) => {
                    &&& !(self.surface_created && self.shell_bound)
                    &&& e == if !self.surface_created {
                        SessionError::MissingSurfaceFactory
                    } else {
                        SessionError::MissingWindowShell
                    }
                },
            },
    {
        if !self.surface_created {
            Err(SessionError::MissingSurfaceFactory)
        } else if !self.shell_bound {
            Err(SessionError::MissingWindowShell)
        } else {
            Ok(())
        }
    }

    /// Records that the GPU context now exists. It is created exactly once
    /// per process, from the base drawable surface.
    pub fn mark_gpu_initialized(&mut self)
        requires
            old(self).wf(),
            !old(self).gpu_initialized,
            old(self).surface_created,
        ensures
            final(self).wf(),
            *final(self) == (Session { gpu_initialized: true, ..*old(self) }),
    {
        self.gpu_initialized = true;
    }

    /// Whether the GPU context exists already, so that unverified callers
    /// can test the condition before [`Session::mark_gpu_initialized`].
    pub fn gpu_ready(&self) -> (r: bool)
        ensures
            r == self.gpu_initialized,
    {
        self.gpu_initialized
    }

    /// Whether the session is still running; the steady-state loop exits
    /// when this turns false.
    pub fn is_running(&self) -> (r: bool)
        ensures
            r == self.running,
    {
        self.running
    }

    /// Whether the render step may run: only once at least one configure
    /// has been acknowledged, never before.
    pub fn should_render(&self) -> (r: bool)
        ensures
            r == self.configured,
    {
        self.configured
    }
}

/// The title the window role is given at assignment.
pub fn window_title() -> (r: String)
    ensures
        (r@ == "receba"@),
{
    String::from_str("receba")
}

/// The application identifier the window role is given at assignment.
pub fn window_app_id() -> (r: String)
    ensures
        (r@ == "EstamosAquiDaSilva.org"@),
{
    String::from_str("EstamosAquiDaSilva.org")
}

} // verus!
