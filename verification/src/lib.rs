//! Verified core of an EGL-style rendering-context manager.
//!
//! The library covers context-creation attribute negotiation and the
//! move-only typestate machine that governs binding a context to a surface.
//! Native EGL calls themselves are described by plain call descriptors; an
//! unverified adapter performs them and feeds the outcomes back in.

pub mod attrs;
pub mod context;
pub mod display;
pub mod error;
pub mod surface;
pub mod version;
