//! Typed value layer for a handful of Linux control-plane syscalls:
//! clock reading and adjustment, high-resolution sleeping, CPU affinity
//! and memory locking.  This crate holds the pure part of that surface:
//! the time value with its nanosecond normalization and arithmetic, the
//! CPU affinity bitmask, the clock identifiers, and the conversion
//! between the caller-facing adjustment record and its padded kernel
//! mirror.  The raw kernel invocations themselves live outside it.

pub mod clock;
pub mod mman;
pub mod sched;
pub mod time;

pub use sched::CpuSet;
pub use time::TimeSpec;
pub use time::Timeval;
