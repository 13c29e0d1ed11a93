//! Interrupt control for a single RISC-V hart: global disable and enable of
//! machine-mode interrupts, and critical sections that restore the previous
//! interrupt-enable state on exit.

pub mod interrupt;
pub mod register;
