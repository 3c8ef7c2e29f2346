//! A write to a memory-mapped device register, for the caller to carry out
//! with a volatile store.

use vstd::prelude::*;

verus! {

#[derive(Clone, Copy, Debug, PartialEq, Eq, Structural)]
pub enum MmioWrite {
    U8 { addr: usize, byte: u8 },
    U32 { addr: usize, word: u32 },
    U64 { addr: usize, double: u64 },
}

} // verus!
