//! The devices the runtime talks to, each as a register map and the rules
//! for using it.

pub mod clint;
pub mod virt_uart;
