//! A verified model of a windowed GPU presentation harness.
//!
//! The harness opens a window, binds a presentation surface to it, and runs a
//! per-frame loop that clears the surface (optionally drawing a single
//! triangle). The backend work itself — the window system, the GPU device,
//! the display — is an external collaborator; this crate holds the decisions
//! the harness makes around that work, each with a proved contract.

pub mod app_loop;
pub mod format;
pub mod frame;
pub mod lifecycle;
pub mod surface;
pub mod webbuild;
