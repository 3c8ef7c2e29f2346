//! The decision logic of a small RISC-V SBI firmware: SBI call dispatch,
//! trap routing, old-spec instruction emulation, and the register values that
//! the UART, CLINT and PLL drivers program.

pub mod config;
pub mod frame;
pub mod mmio;
pub mod csr;
pub mod sbi;
pub mod trap;
pub mod sbt;
pub mod clint;
pub mod uart;
pub mod console;
pub mod sysctl;
pub mod misa;
