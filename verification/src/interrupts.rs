//! Traps: synchronous exceptions and asynchronous interrupts.

pub mod trap;
