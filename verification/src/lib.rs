//! Command dispatch and tool-mode control for an interactive drawing
//! application.
//!
//! The crate keeps a single source of truth for "which mode is the editor
//! in": a registry of named commands drives an exclusive-choice state
//! machine (pen kind, shape kind, draw style, renderer backend), a
//! momentary-override controller for the temporary eraser, a broadcaster
//! that fans accepted transitions out to registered observers, and a
//! handedness transform that mirrors a fixed set of layout slots.

pub mod axes;
pub mod layout;
pub mod machine;
pub mod notify;
pub mod registry;
pub mod save;
pub mod zoom;
