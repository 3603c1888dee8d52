//! Verified core of a gesture-triggered backup tool.
//!
//! A pointer drag that traces the whole screen perimeter, followed by a
//! horizontal confirmation stroke, starts a cancellable, integrity-checked
//! copy of a file tree.  This crate holds the gesture recognizers, the
//! gesture state machine, the backup engine and the supervisor bookkeeping,
//! all with verified contracts; the surrounding process (input listening,
//! file I/O, rendering) lives outside and exchanges plain values with it.

pub mod appstate;
pub mod digest;
pub mod edges;
pub mod engine;
pub mod filter;
pub mod machine;
pub mod stroke;
pub mod supervisor;
pub mod text;
