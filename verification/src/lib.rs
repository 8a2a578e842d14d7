//! Trap-handling core of a bare-metal RISC-V machine-mode runtime.
//!
//! Nothing here touches hardware. A platform layer owns the registers: it
//! hands this library the values it has read, and performs the stores the
//! library returns, in the order given. Every decision of the runtime is
//! thereby an ordinary value with a contract:
//!
//! - [`interrupts::trap::handle_trap`] decides how execution goes on after
//!   a trap;
//! - [`drivers::virt_uart`] sends and receives bytes on the diagnostic
//!   channel;
//! - [`drivers::clint`] schedules the next timer interrupt;
//! - [`halt`] ends the run after a fatal failure;
//! - [`console`] is the rule of the service loop.
//!
//! [`mmio::received`] says what a register receives from a list of stores;
//! the laws of the modules are stated over it.

pub mod console;
pub mod drivers;
pub mod halt;
pub mod interrupts;
pub mod mmio;
pub mod render;
