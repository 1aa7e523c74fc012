use window_lifecycle::Action;
use window_lifecycle::Event;
use window_lifecycle::GlobalKind;
use window_lifecycle::Session;
use window_lifecycle::SessionError;
use window_lifecycle::WindowSize;
use window_lifecycle::classify_interface;
use window_lifecycle::proposal_ok;
use window_lifecycle::resolve_proposal;
use window_lifecycle::window_app_id;
use window_lifecycle::window_title;

fn announce(name: u32, interface: &str, version: u32) -> Event {
    Event::GlobalAnnounced { name, interface: String::from(interface), version }
}

/// A session with both globals bound and the window role assigned.
fn session_with_role() -> Session {
    let mut s = Session::default();
    s.handle_event(announce(1, "wl_compositor", 6)).unwrap();
    s.handle_event(announce(2, "xdg_wm_base", 5)).unwrap();
    s
}

#[test]
fn factory_then_shell_binds_and_assigns_role() {
    let mut s = Session::default();
    let a1 = s.handle_event(announce(1, "wl_compositor", 6)).unwrap();
    assert_eq!(a1, vec![Action::BindSurfaceFactory { name: 1, version: 6 }]);
    assert!(s.surface_created);
    assert!(!s.role_assigned);
    let a2 = s.handle_event(announce(2, "xdg_wm_base", 5)).unwrap();
    assert_eq!(
        a2,
        vec![Action::BindWindowShell { name: 2, version: 5 }, Action::AssignRole]
    );
    assert!(s.shell_bound);
    assert!(s.role_assigned);
}

#[test]
fn shell_then_factory_assigns_role_on_factory_bind() {
    let mut s = Session::default();
    let a1 = s.handle_event(announce(2, "xdg_wm_base", 5)).unwrap();
    assert_eq!(a1, vec![Action::BindWindowShell { name: 2, version: 5 }]);
    assert!(!s.role_assigned);
    let a2 = s.handle_event(announce(1, "wl_compositor", 6)).unwrap();
    assert_eq!(
        a2,
        vec![Action::BindSurfaceFactory { name: 1, version: 6 }, Action::AssignRole]
    );
    assert!(s.role_assigned);
}

#[test]
fn duplicate_factory_announcement_is_ignored() {
    let mut s = Session::default();
    s.handle_event(announce(1, "wl_compositor", 6)).unwrap();
    let again = s.handle_event(announce(7, "wl_compositor", 6)).unwrap();
    assert_eq!(again, vec![]);
    assert!(s.surface_created);
}

#[test]
fn duplicate_shell_announcement_is_ignored() {
    let mut s = session_with_role();
    let again = s.handle_event(announce(9, "xdg_wm_base", 5)).unwrap();
    assert_eq!(again, vec![]);
}

#[test]
fn role_is_never_assigned_twice() {
    let mut s = session_with_role();
    let a1 = s.handle_event(announce(7, "wl_compositor", 6)).unwrap();
    let a2 = s.handle_event(announce(8, "xdg_wm_base", 5)).unwrap();
    assert!(!a1.contains(&Action::AssignRole));
    assert!(!a2.contains(&Action::AssignRole));
}

#[test]
fn unknown_interface_is_ignored() {
    let mut s = Session::default();
    let a = s.handle_event(announce(3, "wl_output", 4)).unwrap();
    assert_eq!(a, vec![]);
    assert!(!s.surface_created);
    assert!(!s.shell_bound);
}

#[test]
fn classify_interface_resolves_known_names() {
    assert_eq!(
        classify_interface(&String::from("wl_compositor")),
        GlobalKind::SurfaceFactory
    );
    assert_eq!(classify_interface(&String::from("xdg_wm_base")), GlobalKind::WindowShell);
    assert_eq!(classify_interface(&String::from("wl_seat")), GlobalKind::Other);
    assert_eq!(classify_interface(&String::from("")), GlobalKind::Other);
}

#[test]
fn ping_is_answered_with_same_serial() {
    let mut s = Session::default();
    let a = s.handle_event(Event::ShellPing { serial: 41 }).unwrap();
    assert_eq!(a, vec![Action::Pong { serial: 41 }]);
}

#[test]
fn zero_proposal_resolves_to_default_size() {
    let mut s = session_with_role();
    s.handle_event(Event::ToplevelConfigure { width: 0, height: 0 }).unwrap();
    assert_eq!(s.pending_resize, Some(WindowSize { width: 320, height: 320 }));
}

#[test]
fn default_size_is_320_by_320() {
    let d = WindowSize::default();
    assert_eq!(d.width, 320);
    assert_eq!(d.height, 320);
}

#[test]
fn resolve_proposal_keeps_a_positive_proposal() {
    assert_eq!(resolve_proposal(800, 600), WindowSize { width: 800, height: 600 });
    assert_eq!(resolve_proposal(0, 0), WindowSize { width: 320, height: 320 });
}

#[test]
fn proposal_ok_accepts_zero_marker_and_positive_only() {
    assert!(proposal_ok(0, 0));
    assert!(proposal_ok(1, 1));
    assert!(!proposal_ok(0, 600));
    assert!(!proposal_ok(800, 0));
    assert!(!proposal_ok(-1, 600));
}

#[test]
fn configure_applies_pending_size_after_ack() {
    let mut s = session_with_role();
    s.mark_gpu_initialized();
    s.handle_event(Event::ToplevelConfigure { width: 800, height: 600 }).unwrap();
    let a = s.handle_event(Event::SurfaceConfigure { serial: 5 }).unwrap();
    assert_eq!(
        a,
        vec![
            Action::AckConfigure { serial: 5 },
            Action::ConfigureGpu { width: 800, height: 600 },
        ]
    );
    assert!(s.configured);
    assert_eq!(s.size, Some(WindowSize { width: 800, height: 600 }));
    assert_eq!(s.pending_resize, None);
}

#[test]
fn resize_burst_coalesces_to_last_proposal() {
    let mut s = session_with_role();
    s.mark_gpu_initialized();
    s.handle_event(Event::ToplevelConfigure { width: 100, height: 100 }).unwrap();
    s.handle_event(Event::ToplevelConfigure { width: 200, height: 200 }).unwrap();
    s.handle_event(Event::ToplevelConfigure { width: 640, height: 480 }).unwrap();
    let a = s.handle_event(Event::SurfaceConfigure { serial: 9 }).unwrap();
    let configures: Vec<&Action> = a
        .iter()
        .filter(|x| matches!(x, Action::ConfigureGpu { .. }))
        .collect();
    assert_eq!(configures.len(), 1);
    assert_eq!(
        a,
        vec![
            Action::AckConfigure { serial: 9 },
            Action::ConfigureGpu { width: 640, height: 480 },
        ]
    );
    assert_eq!(s.size, Some(WindowSize { width: 640, height: 480 }));
}

#[test]
fn empty_configure_is_still_acked() {
    let mut s = session_with_role();
    let a = s.handle_event(Event::SurfaceConfigure { serial: 12 }).unwrap();
    assert_eq!(a, vec![Action::AckConfigure { serial: 12 }]);
    assert!(s.configured);
    assert_eq!(s.size, None);
}

#[test]
fn ack_precedes_any_other_action_of_a_configure() {
    let mut s = session_with_role();
    s.mark_gpu_initialized();
    s.handle_event(Event::ToplevelConfigure { width: 0, height: 0 }).unwrap();
    let a = s.handle_event(Event::SurfaceConfigure { serial: 77 }).unwrap();
    assert_eq!(a[0], Action::AckConfigure { serial: 77 });
}

#[test]
fn close_stops_the_session() {
    let mut s = session_with_role();
    assert!(s.is_running());
    s.handle_event(Event::ToplevelClose).unwrap();
    assert!(!s.is_running());
}

#[test]
fn render_is_gated_until_configured() {
    let mut s = Session::default();
    assert!(!s.should_render());
    s.handle_event(announce(1, "wl_compositor", 6)).unwrap();
    s.handle_event(announce(2, "xdg_wm_base", 5)).unwrap();
    s.handle_event(Event::ToplevelConfigure { width: 64, height: 64 }).unwrap();
    assert!(!s.should_render());
    s.mark_gpu_initialized();
    s.handle_event(Event::SurfaceConfigure { serial: 1 }).unwrap();
    assert!(s.should_render());
}

#[test]
fn configure_before_role_assignment_is_rejected() {
    let mut s = Session::default();
    let e = s.handle_event(Event::SurfaceConfigure { serial: 5 }).unwrap_err();
    assert_eq!(e, SessionError::RoleNotAssigned);
    assert!(!s.configured);
}

#[test]
fn size_proposal_before_role_assignment_is_rejected() {
    let mut s = Session::default();
    let e = s.handle_event(Event::ToplevelConfigure { width: 10, height: 10 }).unwrap_err();
    assert_eq!(e, SessionError::RoleNotAssigned);
    assert_eq!(s.pending_resize, None);
}

#[test]
fn pending_size_without_gpu_context_is_rejected() {
    let mut s = session_with_role();
    s.handle_event(Event::ToplevelConfigure { width: 100, height: 100 }).unwrap();
    let e = s.handle_event(Event::SurfaceConfigure { serial: 2 }).unwrap_err();
    assert_eq!(e, SessionError::GpuNotInitialized);
    assert!(!s.configured);
    assert_eq!(s.pending_resize, Some(WindowSize { width: 100, height: 100 }));
}

#[test]
fn initialization_without_shell_is_fatal() {
    let mut s = Session::default();
    s.handle_event(announce(1, "wl_compositor", 6)).unwrap();
    let e = s.finish_initialization().unwrap_err();
    assert_eq!(e, SessionError::MissingWindowShell);
}

#[test]
fn initialization_without_factory_is_fatal() {
    let mut s = Session::default();
    s.handle_event(announce(2, "xdg_wm_base", 5)).unwrap();
    let e = s.finish_initialization().unwrap_err();
    assert_eq!(e, SessionError::MissingSurfaceFactory);
    let fresh = Session::default();
    assert_eq!(fresh.finish_initialization().unwrap_err(), SessionError::MissingSurfaceFactory);
}

#[test]
fn initialization_with_both_globals_proceeds() {
    let s = session_with_role();
    assert!(s.finish_initialization().is_ok());
}

#[test]
fn gpu_context_is_recorded_once() {
    let mut s = session_with_role();
    assert!(!s.gpu_ready());
    s.mark_gpu_initialized();
    assert!(s.gpu_ready());
}

#[test]
fn error_messages_name_the_violated_invariant() {
    assert_eq!(
        SessionError::MissingSurfaceFactory.message(),
        "missing required capability: surface factory global was never announced"
    );
    assert_eq!(
        SessionError::MissingWindowShell.message(),
        "missing required capability: window shell global was never announced"
    );
    assert_eq!(
        SessionError::RoleNotAssigned.message(),
        "configure received before any window role was assigned"
    );
    assert_eq!(
        SessionError::GpuNotInitialized.message(),
        "pending size cannot be applied: GPU context was never initialized"
    );
}

#[test]
fn window_metadata_is_fixed() {
    assert_eq!(window_title(), "receba");
    assert_eq!(window_app_id(), "EstamosAquiDaSilva.org");
}

#[test]
fn event_well_formedness_matches_proposal_rule() {
    assert!(Event::ToplevelConfigure { width: 0, height: 0 }.is_wf());
    assert!(Event::ToplevelConfigure { width: 5, height: 9 }.is_wf());
    assert!(!Event::ToplevelConfigure { width: 0, height: 9 }.is_wf());
    assert!(Event::ToplevelClose.is_wf());
    assert!(Event::ShellPing { serial: 0 }.is_wf());
}
