//! Lifecycle core for a hardware-accelerated rendering context bound to a
//! platform window.
//!
//! The crate models the decision layer of an event-driven renderer: picking a
//! framebuffer configuration, choosing which context profile to try next in a
//! capability fallback chain, guarding surface resizes, and sequencing the
//! suspend/resume/exit transitions. A host program performs the platform
//! calls (window creation, context creation, buffer swaps) and reports their
//! outcomes back to this state machine.

pub mod config;
pub mod context;
pub mod error;
pub mod lifecycle;
