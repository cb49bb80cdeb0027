//! Verified core of a cooperative, trap-driven thread scheduler for a
//! single-core ARM kernel: status-register fields, the critical-section
//! discipline, syscall decoding and the round-robin run queue.

pub mod bits;
pub mod psr;
pub mod cs;
pub mod threading;
pub mod syscalls;
pub mod exceptions;
pub mod banked;
pub mod demo;
pub mod rotation;
