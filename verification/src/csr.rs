//! Single-bit changes to the interrupt control registers, for the caller to
//! carry out with the CSR set and clear instructions.

use vstd::prelude::*;

verus! {

pub const CSR_MSTATUS: u16 = 0x300;
pub const CSR_MIE: u16 = 0x304;
pub const CSR_MIP: u16 = 0x344;

/// An interrupt control bit.
#[derive(Clone, Copy, Debug, PartialEq, Eq, Structural)]
pub enum CsrBit {
    /// `mip.SSIP`: supervisor software interrupt pending.
    Ssip,
    /// `mip.STIP`: supervisor timer interrupt pending.
    Stip,
    /// `mie.MSIE`: machine software interrupt enable.
    Msie,
    /// `mie.MTIE`: machine timer interrupt enable.
    Mtie,
    /// `mie.MEIE`: machine external interrupt enable.
    Meie,
    /// `mstatus.UIE`: user interrupt enable.
    Uie,
    /// `mstatus.SIE`: supervisor interrupt enable.
    Sie,
    /// `mstatus.MIE`: machine interrupt enable.
    Mie,
}

/// Setting or clearing one bit.
#[derive(Clone, Copy, Debug, PartialEq, Eq, Structural)]
pub enum CsrOp {
    SetBit(CsrBit),
    ClearBit(CsrBit),
}

/// The CSR that holds the bit.
pub open spec fn csr_of(b: CsrBit) -> u16 {
    match b {
        CsrBit::Ssip | CsrBit::Stip => CSR_MIP,
        CsrBit::Msie | CsrBit::Mtie | CsrBit::Meie => CSR_MIE,
        CsrBit::Uie | CsrBit::Sie | CsrBit::Mie => CSR_MSTATUS,
    }
}

/// The bit's position in its CSR (privileged spec, figures 3.6, 3.11, 3.12).
pub open spec fn bit_of(b: CsrBit) -> u64 {
    match b {
        CsrBit::Ssip => 1,
        CsrBit::Stip => 5,
        CsrBit::Msie => 3,
        CsrBit::Mtie => 7,
        CsrBit::Meie => 11,
        CsrBit::Uie => 0,
        CsrBit::Sie => 1,
        CsrBit::Mie => 3,
    }
}

} // verus!
