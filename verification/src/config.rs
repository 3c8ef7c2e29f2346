//! Board configuration shared by the drivers and the SBI handlers.

use vstd::prelude::*;

verus! {

/// Clock of the QEMU NS16550a UART, in Hz.
pub const CLK: u32 = 11_059_200;

/// Number of harts.
pub const NCPU: usize = 2;

/// Stack per hart, in bytes.
pub const STACK_SIZE: usize = 2 * 1024;

/// `log2(STACK_SIZE)`: the shift from a hart id to its stack offset.
pub const STACK_OFFSET: usize = 11;

/// Size of the firmware heap, in bytes.
pub const HEAP_SIZE: usize = 4 * 1024;

/// Serial line speed.
pub const BAUDRATE: u32 = 115200;

/// Raise an interrupt when the UART receives a byte.
pub const RECV_IRQ: bool = true;

/// Raise an interrupt when the UART can take a byte.
pub const TRANS_IRQ: bool = false;

} // verus!
