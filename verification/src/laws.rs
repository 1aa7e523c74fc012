//! The laws of the lifecycle machine, proved over whole event sequences:
//! the base surface is bound exactly once, the window role is assigned at
//! most once, every configure is acknowledged first, resize bursts coalesce
//! into a single presentation-surface reconfiguration, and the session never
//! reports itself configured before a configure arrives.

use vstd::prelude::*;

use crate::event::Action;
use crate::event::Event;
use crate::event::GlobalKind;
use crate::event::spec_classify;
use crate::session::Session;
use crate::session::step;
use crate::session::step_ok;
use crate::size::WindowSize;
use crate::size::proposal_wf;
use crate::size::spec_default_size;
use crate::size::spec_resolve_proposal;

verus! {

/// The state after feeding a whole event sequence to the step function,
/// first event first.
pub open spec fn run_state(s: Session, evs: Seq<Event>) -> Session
    decreases evs.len(),
{
    if evs.len() == 0 {
        s
    } else {
        run_state(step(s, evs[0]).0, evs.drop_first())
    }
}

/// Every action emitted while feeding a whole event sequence to the step
/// function, in emission order.
pub open spec fn run_actions(s: Session, evs: Seq<Event>) -> Seq<Action>
    decreases evs.len(),
{
    if evs.len() == 0 {
        Seq::<Action>::empty()
    } else {
        step(s, evs[0]).1 + run_actions(step(s, evs[0]).0, evs.drop_first())
    }
}

/// Running a concatenation runs the first part, then the second from the
/// state the first part reached.
pub proof fn lemma_run_append(s: Session, a: Seq<Event>, b: Seq<Event>)
    ensures
        run_state(s, a + b) == run_state(run_state(s, a), b),
        run_actions(s, a + b) =~= run_actions(s, a) + run_actions(run_state(s, a), b),
    decreases a.len(),
{
    if a.len() == 0 {
        assert(a + b =~= b);
        assert(run_actions(s, a) + run_actions(run_state(s, a), b) =~= run_actions(s, b));
    } else {
        assert((a + b)[0] == a[0]);
        assert((a + b).drop_first() =~= a.drop_first() + b);
        lemma_run_append(step(s, a[0]).0, a.drop_first(), b);
        assert(run_actions(s, a + b) =~= run_actions(s, a) + run_actions(run_state(s, a), b));
    }
}

/// Law: the session invariant holds in every state a run of well-formed
/// events can reach — in particular, a size that has reached the
/// presentation surface is never zero in either dimension.
pub proof fn lemma_run_preserves_wf(s: Session, evs: Seq<Event>)
    requires
        s.wf(),
        forall|i: int| 0 <= i < evs.len() ==> (#[trigger] evs[i]).wf(),
    ensures
        run_state(s, evs).wf(),
    decreases evs.len(),
{
    if evs.len() > 0 {
        let rest = evs.drop_first();
        crate::session::lemma_step_preserves_wf(s, evs[0]);
        assert forall|i: int| 0 <= i < rest.len() implies (#[trigger] rest[i]).wf() by {
            assert(rest[i] == evs[i + 1]);
        }
        lemma_run_preserves_wf(step(s, evs[0]).0, rest);
    }
}

/// The discriminator of an action, the vocabulary the counting laws speak.
#[derive(Clone, Copy, Debug, PartialEq, Eq, Structural)]
pub enum ActionKind {
    BindSurfaceFactory,
    BindWindowShell,
    AssignRole,
    Pong,
    AckConfigure,
    ConfigureGpu,
}

/// Which kind an action is of.
pub open spec fn kind_of(a: Action) -> ActionKind {
    match a {
        Action::BindSurfaceFactory { .. } => ActionKind::BindSurfaceFactory,
        Action::BindWindowShell { .. } => ActionKind::BindWindowShell,
        Action::AssignRole => ActionKind::AssignRole,
        Action::Pong { .. } => ActionKind::Pong,
        Action::AckConfigure { .. } => ActionKind::AckConfigure,
        Action::ConfigureGpu { .. } => ActionKind::ConfigureGpu,
    }
}

/// How many actions of this kind a sequence holds.
pub open spec fn count_kind(acts: Seq<Action>, k: ActionKind) -> nat
    decreases acts.len(),
{
    if acts.len() == 0 {
        0
    } else {
        (if kind_of(acts[0]) == k {
            1nat
        } else {
            0nat
        }) + count_kind(acts.drop_first(), k)
    }
}

/// Counting distributes over concatenation.
pub proof fn lemma_count_kind_add(a: Seq<Action>, b: Seq<Action>, k: ActionKind)
    ensures
        count_kind(a + b, k) == count_kind(a, k) + count_kind(b, k),
    decreases a.len(),
{
    if a.len() == 0 {
        assert(a + b =~= b);
    } else {
        assert((a + b).drop_first() =~= a.drop_first() + b);
        lemma_count_kind_add(a.drop_first(), b, k);
    }
}

/// The count over a one-action sequence.
pub proof fn lemma_count_kind_one(a: Action, k: ActionKind)
    ensures
        count_kind(seq![a], k) == if kind_of(a) == k {
            1nat
        } else {
            0nat
        },
{
    assert(seq![a].drop_first() =~= Seq::<Action>::empty());
    assert(count_kind(Seq::<Action>::empty(), k) == 0);
}

/// The count over a two-action sequence.
pub proof fn lemma_count_kind_two(a: Action, b: Action, k: ActionKind)
    ensures
        count_kind(seq![a, b], k) == (if kind_of(a) == k {
            1nat
        } else {
            0nat
        }) + (if kind_of(b) == k {
            1nat
        } else {
            0nat
        }),
{
    assert(seq![a, b].drop_first() =~= seq![b]);
    lemma_count_kind_one(b, k);
}

/// Whether an event is a registry announcement of the surface-factory
/// global.
pub open spec fn announces_surface_factory(ev: Event) -> bool {
    match ev {
        Event::GlobalAnnounced { interface, .. } => spec_classify(interface@)
            is SurfaceFactory,
        _ => false,
    }
}

/// One step binds the surface factory exactly when the announcement is the
/// first one seen, and the flag records exactly that.
proof fn lemma_step_factory(s: Session, ev: Event)
    ensures
        step(s, ev).0.surface_created == (s.surface_created || announces_surface_factory(ev)),
        count_kind(step(s, ev).1, ActionKind::BindSurfaceFactory) == if !s.surface_created
            && announces_surface_factory(ev) {
            1nat
        } else {
            0nat
        },
{
    let (s1, acts) = step(s, ev);
    match ev {
        Event::GlobalAnnounced { name, interface, version } => {
            match spec_classify(interface@) {
                GlobalKind::SurfaceFactory => {
                    if !s.surface_created {
                        if s.shell_bound && !s.role_assigned {
                            lemma_count_kind_two(
                                Action::BindSurfaceFactory { name, version },
                                Action::AssignRole,
                                ActionKind::BindSurfaceFactory,
                            );
                        } else {
                            lemma_count_kind_one(
                                Action::BindSurfaceFactory { name, version },
                                ActionKind::BindSurfaceFactory,
                            );
                        }
                    }
                },
                GlobalKind::WindowShell => {
                    if !s.shell_bound {
                        if s.surface_created && !s.role_assigned {
                            lemma_count_kind_two(
                                Action::BindWindowShell { name, version },
                                Action::AssignRole,
                                ActionKind::BindSurfaceFactory,
                            );
                        } else {
                            lemma_count_kind_one(
                                Action::BindWindowShell { name, version },
                                ActionKind::BindSurfaceFactory,
                            );
                        }
                    }
                },
                GlobalKind::Other => {},
            }
        },
        Event::ShellPing { serial } => {
            lemma_count_kind_one(Action::Pong { serial }, ActionKind::BindSurfaceFactory);
        },
        Event::SurfaceConfigure { serial } => {
            lemma_step_configure_counts(s, serial, ActionKind::BindSurfaceFactory);
        },
        Event::ToplevelConfigure { .. } => {},
        Event::ToplevelClose => {},
    }
}

/// The actions of a configure step hold no action of any kind but the
/// acknowledgement and the GPU reconfiguration.
proof fn lemma_step_configure_counts(s: Session, serial: u32, k: ActionKind)
    requires
        k != ActionKind::AckConfigure,
        k != ActionKind::ConfigureGpu,
    ensures
        count_kind(step(s, Event::SurfaceConfigure { serial }).1, k) == 0,
{
    if step_ok(s, Event::SurfaceConfigure { serial }) {
        match s.pending_resize {
            Some(sz) => {
                lemma_count_kind_two(
                    Action::AckConfigure { serial },
                    Action::ConfigureGpu { width: sz.width as u32, height: sz.height as u32 },
                    k,
                );
            },
            None => {
                lemma_count_kind_one(Action::AckConfigure { serial }, k);
            },
        }
    }
}

/// Law: over any event sequence whatsoever, the surface-factory global is
/// bound — and with it the base surface created — exactly once if the
/// factory had not been bound yet and some event announces it, in whatever
/// position, and never a second time; and the session flag records exactly
/// whether it has been seen.
pub proof fn lemma_base_surface_created_once(s: Session, evs: Seq<Event>)
    ensures
        run_state(s, evs).surface_created == (s.surface_created || exists|i: int|
            0 <= i < evs.len() && announces_surface_factory(#[trigger] evs[i])),
        count_kind(run_actions(s, evs), ActionKind::BindSurfaceFactory) == if !s.surface_created
            && (exists|i: int| 0 <= i < evs.len() && announces_surface_factory(#[trigger] evs[i])) {
            1nat
        } else {
            0nat
        },
    decreases evs.len(),
{
    if evs.len() == 0 {
    } else {
        let ev = evs[0];
        let rest = evs.drop_first();
        let s1 = step(s, ev).0;
        lemma_step_factory(s, ev);
        lemma_base_surface_created_once(s1, rest);
        lemma_count_kind_add(
            step(s, ev).1,
            run_actions(s1, rest),
            ActionKind::BindSurfaceFactory,
        );
        assert forall|i: int| 0 <= i < rest.len() implies rest[i] == evs[i + 1] by {}
        if announces_surface_factory(ev) {
            assert(announces_surface_factory(evs[0]));
        }
        if exists|i: int| 0 <= i < rest.len() && announces_surface_factory(#[trigger] rest[i]) {
            let i = choose|i: int|
                0 <= i < rest.len() && announces_surface_factory(#[trigger] rest[i]);
            assert(announces_surface_factory(evs[i + 1]));
        }
        if exists|i: int| 0 <= i < evs.len() && announces_surface_factory(#[trigger] evs[i]) {
            let i = choose|i: int|
                0 <= i < evs.len() && announces_surface_factory(#[trigger] evs[i]);
            if i > 0 {
                assert(announces_surface_factory(rest[i - 1]));
            }
        }
    }
}

/// One step assigns the window role at most once, only if it was never
/// assigned before, and the flag records the assignment.
proof fn lemma_step_role(s: Session, ev: Event)
    ensures
        s.role_assigned ==> step(s, ev).0.role_assigned,
        step(s, ev).0.role_assigned == (s.role_assigned || count_kind(
            step(s, ev).1,
            ActionKind::AssignRole,
        ) == 1),
        count_kind(step(s, ev).1, ActionKind::AssignRole) <= if s.role_assigned {
            0nat
        } else {
            1nat
        },
{
    match ev {
        Event::GlobalAnnounced { name, interface, version } => {
            match spec_classify(interface@) {
                GlobalKind::SurfaceFactory => {
                    if !s.surface_created {
                        if s.shell_bound && !s.role_assigned {
                            lemma_count_kind_two(
                                Action::BindSurfaceFactory { name, version },
                                Action::AssignRole,
                                ActionKind::AssignRole,
                            );
                        } else {
                            lemma_count_kind_one(
                                Action::BindSurfaceFactory { name, version },
                                ActionKind::AssignRole,
                            );
                        }
                    }
                },
                GlobalKind::WindowShell => {
                    if !s.shell_bound {
                        if s.surface_created && !s.role_assigned {
                            lemma_count_kind_two(
                                Action::BindWindowShell { name, version },
                                Action::AssignRole,
                                ActionKind::AssignRole,
                            );
                        } else {
                            lemma_count_kind_one(
                                Action::BindWindowShell { name, version },
                                ActionKind::AssignRole,
                            );
                        }
                    }
                },
                GlobalKind::Other => {},
            }
        },
        Event::ShellPing { serial } => {
            lemma_count_kind_one(Action::Pong { serial }, ActionKind::AssignRole);
        },
        Event::SurfaceConfigure { serial } => {
            lemma_step_configure_counts(s, serial, ActionKind::AssignRole);
        },
        Event::ToplevelConfigure { .. } => {},
        Event::ToplevelClose => {},
    }
}

/// Law: over any event sequence whatsoever, the window role is assigned at
/// most once; once the session records an assigned role, no later event can
/// ever make it assign a role again.
pub proof fn lemma_role_assigned_at_most_once(s: Session, evs: Seq<Event>)
    ensures
        count_kind(run_actions(s, evs), ActionKind::AssignRole) <= if s.role_assigned {
            0nat
        } else {
            1nat
        },
        run_state(s, evs).role_assigned == (s.role_assigned || count_kind(
            run_actions(s, evs),
            ActionKind::AssignRole,
        ) == 1),
    decreases evs.len(),
{
    if evs.len() == 0 {
    } else {
        let ev = evs[0];
        let rest = evs.drop_first();
        let s1 = step(s, ev).0;
        lemma_step_role(s, ev);
        lemma_role_assigned_at_most_once(s1, rest);
        lemma_count_kind_add(step(s, ev).1, run_actions(s1, rest), ActionKind::AssignRole);
    }
}

/// Law: a configure step acknowledges the configure by echoing its serial
/// before anything else it does, and sends no further protocol request:
/// whatever else the step asks for is GPU-side work.
pub proof fn lemma_ack_comes_first(s: Session, serial: u32)
    requires
        step_ok(s, Event::SurfaceConfigure { serial }),
    ensures
        ({
            let acts = step(s, Event::SurfaceConfigure { serial }).1;
            &&& acts.len() >= 1
            &&& acts[0] == (Action::AckConfigure { serial })
            &&& forall|i: int|
                1 <= i < acts.len() ==> !(#[trigger] acts[i]).is_protocol_request()
        }),
{
}

/// Law: a size proposal never becomes a zero pending size: the zero marker
/// resolves to the default size, anything else is kept as proposed, and the
/// recorded pending size is well-formed either way.
pub proof fn lemma_zero_proposal_becomes_default(s: Session, width: i32, height: i32)
    requires
        s.role_assigned,
        proposal_wf(width, height),
    ensures
        step(s, Event::ToplevelConfigure { width, height }).0.pending_resize == Some(
            spec_resolve_proposal(width, height),
        ),
        spec_resolve_proposal(width, height).wf(),
        width == 0 && height == 0 ==> step(
            s,
            Event::ToplevelConfigure { width, height },
        ).0.pending_resize == Some(spec_default_size()),
{
}

/// What a toplevel size proposal resolves to; the default size for any
/// other event.
pub open spec fn proposal_resolution(ev: Event) -> WindowSize {
    match ev {
        Event::ToplevelConfigure { width, height } => spec_resolve_proposal(width, height),
        _ => spec_default_size(),
    }
}

/// A run of size proposals alone emits no action at all and leaves only the
/// last proposal pending: last-write-wins coalescing.
pub proof fn lemma_toplevel_burst(s: Session, evs: Seq<Event>)
    requires
        s.role_assigned,
        forall|i: int| 0 <= i < evs.len() ==> (#[trigger] evs[i]) is ToplevelConfigure,
        evs.len() > 0,
    ensures
        run_actions(s, evs) =~= Seq::<Action>::empty(),
        run_state(s, evs) == (Session {
            pending_resize: Some(proposal_resolution(evs.last())),
            ..s
        }),
    decreases evs.len(),
{
    let ev = evs[0];
    let rest = evs.drop_first();
    let s1 = step(s, ev).0;
    assert(s1 == (Session { pending_resize: Some(proposal_resolution(ev)), ..s }));
    assert(step(s, ev).1 =~= Seq::<Action>::empty());
    if rest.len() == 0 {
        assert(evs.last() == ev);
        assert(run_state(s1, rest) == s1);
        assert(run_actions(s1, rest) =~= Seq::<Action>::empty());
        assert(run_actions(s, evs) =~= step(s, ev).1 + run_actions(s1, rest));
    } else {
        assert forall|i: int| 0 <= i < rest.len() implies (#[trigger] rest[i])
            is ToplevelConfigure by {
            assert(rest[i] == evs[i + 1]);
        }
        lemma_toplevel_burst(s1, rest);
        assert(rest.last() == evs.last());
        assert(run_actions(s, evs) =~= step(s, ev).1 + run_actions(s1, rest));
    }
}

/// Law: proposals with sizes S1, ..., Sn followed by a single acknowledged
/// configure reconfigure the presentation surface exactly once, with the
/// resolution of Sn alone, right after the echoed acknowledgement; the
/// resolved Sn becomes the current size and the pending slot is cleared.
pub proof fn lemma_resize_coalescing(s: Session, evs: Seq<Event>, serial: u32)
    requires
        s.role_assigned,
        s.gpu_initialized,
        evs.len() >= 2,
        forall|i: int|
            0 <= i < evs.len() - 1 ==> (#[trigger] evs[i]) is ToplevelConfigure && evs[i].wf(),
        evs.last() == (Event::SurfaceConfigure { serial }),
    ensures
        ({
            let sn = proposal_resolution(evs[evs.len() - 2]);
            &&& run_actions(s, evs) =~= seq![
                Action::AckConfigure { serial },
                Action::ConfigureGpu { width: sn.width as u32, height: sn.height as u32 },
            ]
            &&& count_kind(run_actions(s, evs), ActionKind::ConfigureGpu) == 1
            &&& run_state(s, evs).size == Some(sn)
            &&& run_state(s, evs).pending_resize is None
            &&& run_state(s, evs).configured
        }),
{
    let prefix = evs.drop_last();
    let lastev = seq![evs.last()];
    assert(evs =~= prefix + lastev);
    assert forall|i: int| 0 <= i < prefix.len() implies (#[trigger] prefix[i])
        is ToplevelConfigure by {
        assert(prefix[i] == evs[i]);
    }
    assert(prefix.last() == evs[evs.len() - 2]);
    lemma_toplevel_burst(s, prefix);
    let s1 = run_state(s, prefix);
    lemma_run_append(s, prefix, lastev);
    let sn = proposal_resolution(evs[evs.len() - 2]);
    assert(sn.wf());
    assert(s1.pending_resize == Some(sn));
    assert(lastev.drop_first() =~= Seq::<Event>::empty());
    let s2 = step(s1, evs.last()).0;
    assert(run_state(s1, lastev) == run_state(s2, lastev.drop_first()));
    assert(run_state(s2, lastev.drop_first()) == s2);
    assert(run_actions(s2, lastev.drop_first()) =~= Seq::<Action>::empty());
    assert(run_actions(s1, lastev) =~= step(s1, evs.last()).1);
    assert(run_actions(s, evs) =~= step(s1, evs.last()).1);
    lemma_count_kind_two(
        Action::AckConfigure { serial },
        Action::ConfigureGpu { width: sn.width as u32, height: sn.height as u32 },
        ActionKind::ConfigureGpu,
    );
}

/// Law: as long as no configure event arrives, the session never reports
/// itself configured, and so the render step — gated on
/// [`Session::should_render`] — never runs.
pub proof fn lemma_never_configured_without_configure(s: Session, evs: Seq<Event>)
    requires
        !s.configured,
        forall|i: int| 0 <= i < evs.len() ==> !((#[trigger] evs[i]) is SurfaceConfigure),
    ensures
        !run_state(s, evs).configured,
    decreases evs.len(),
{
    if evs.len() == 0 {
    } else {
        let rest = evs.drop_first();
        assert forall|i: int| 0 <= i < rest.len() implies !((#[trigger] rest[i])
            is SurfaceConfigure) by {
            assert(rest[i] == evs[i + 1]);
        }
        lemma_never_configured_without_configure(step(s, evs[0]).0, rest);
    }
}

} // verus!
