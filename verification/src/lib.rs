//! A verified window/session lifecycle state machine for a display-server
//! protocol that demands an explicit handshake before pixels may be shown:
//! global discovery, surface role assignment, the configure/ack cycle with
//! resize coalescing, and the gating of GPU presentation-surface setup.

pub mod event;
pub mod laws;
pub mod session;
pub mod size;

pub use event::Action;
pub use event::Event;
pub use event::GlobalKind;
pub use event::SessionError;
pub use event::classify_interface;
pub use session::Session;
pub use session::window_app_id;
pub use session::window_title;
pub use size::WindowSize;
pub use size::resolve_proposal;
pub use size::proposal_ok;
