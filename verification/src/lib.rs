//! Per-monitor capture-and-selection engine for an interactive screenshot
//! cropping tool.
//!
//! The engine is pure logic: a selection state machine that tracks the drag
//! lifecycle (`Idle` → `Selecting` → `Selected`), rectangle normalization,
//! corner-handle hit-testing, and the coordination of one session per
//! physical display. Window creation, rendering, and the OS-level pixel grab
//! are collaborators outside this crate: they hand the engine plain values
//! (pointer positions, button edges, captured pixel buffers) and consume the
//! state it produces.

pub mod coordinator;
pub mod geometry;
pub mod handle;
pub mod machine;
pub mod session;
