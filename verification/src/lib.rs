//! Attach a short type label to an externally owned string and hand back a
//! handle that reports the label and still gives access to the original
//! value, without copying it and without taking ownership.
//!
//! Three mechanisms produce such handles:
//! - [`leaking`]: each handle's wrapper is heap-allocated and deliberately
//!   never reclaimed.
//! - [`arena`]: wrappers live in an arena that frees them all together.
//! - [`dynvtable`]: a registry caches, per label, a dispatch table whose
//!   entry points are freshly generated machine code ([`emit`]).

pub mod arena;
pub mod dynvtable;
pub mod emit;
pub mod leaking;
pub mod object;

pub use leaking::annotate;
