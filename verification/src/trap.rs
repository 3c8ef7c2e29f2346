//! Routing of M-mode traps: what the firmware does for each trap cause, and
//! which causes it leaves to the supervisor.

use vstd::prelude::*;
use riscv::register::mcause as rv;
use crate::csr::{CsrBit, CsrOp, csr_of, bit_of, CSR_MIP};
use riscv::register::mcause::Exception as E;

verus! {

/// Interrupt causes, as the `riscv` crate names them.
#[derive(Clone, Copy, Debug, PartialEq, Eq, Structural)]
pub enum Interrupt {
    UserSoft,
    SupervisorSoft,
    MachineSoft,
    UserTimer,
    SupervisorTimer,
    MachineTimer,
    UserExternal,
    SupervisorExternal,
    MachineExternal,
    Unknown,
}

/// Exception causes, as the `riscv` crate names them.
#[derive(Clone, Copy, Debug, PartialEq, Eq, Structural)]
pub enum Exception {
    InstructionMisaligned,
    InstructionFault,
    IllegalInstruction,
    Breakpoint,
    LoadMisaligned,
    LoadFault,
    StoreMisaligned,
    StoreFault,
    UserEnvCall,
    SupervisorEnvCall,
    MachineEnvCall,
    InstructionPageFault,
    LoadPageFault,
    StorePageFault,
    Unknown,
}

/// A decoded `mcause`.
#[derive(Clone, Copy, Debug, PartialEq, Eq, Structural)]
pub enum Trap {
    Interrupt(Interrupt),
    Exception(Exception),
}

/// The interrupt that an interrupt code names (privileged spec, table 3.6).
pub open spec fn spec_interrupt(nr: usize) -> Interrupt {
    if nr == 0 { Interrupt::UserSoft }
    else if nr == 1 { Interrupt::SupervisorSoft }
    else if nr == 3 { Interrupt::MachineSoft }
    else if nr == 4 { Interrupt::UserTimer }
    else if nr == 5 { Interrupt::SupervisorTimer }
    else if nr == 7 { Interrupt::MachineTimer }
    else if nr == 8 { Interrupt::UserExternal }
    else if nr == 9 { Interrupt::SupervisorExternal }
    else if nr == 11 { Interrupt::MachineExternal }
    else { Interrupt::Unknown }
}

/// The exception that an exception code names (privileged spec, table 3.6).
pub open spec fn spec_exception(nr: usize) -> Exception {
    if nr == 0 { Exception::InstructionMisaligned }
    else if nr == 1 { Exception::InstructionFault }
    else if nr == 2 { Exception::IllegalInstruction }
    else if nr == 3 { Exception::Breakpoint }
    else if nr == 4 { Exception::LoadMisaligned }
    else if nr == 5 { Exception::LoadFault }
    else if nr == 6 { Exception::StoreMisaligned }
    else if nr == 7 { Exception::StoreFault }
    else if nr == 8 { Exception::UserEnvCall }
    else if nr == 9 { Exception::SupervisorEnvCall }
    else if nr == 11 { Exception::MachineEnvCall }
    else if nr == 12 { Exception::InstructionPageFault }
    else if nr == 13 { Exception::LoadPageFault }
    else if nr == 15 { Exception::StorePageFault }
    else { Exception::Unknown }
}

/// `riscv::register::mcause::Interrupt::from`: claimed to map the codes of
/// the machine, supervisor and user interrupts to their variants and every
/// other code to `Unknown`, as its `match` in the crate's source does.
#[verifier::external_body]
fn interrupt_from(nr: usize) -> (r: Interrupt)
    ensures
        r == spec_interrupt(nr),
{
    match rv::Interrupt::from(nr) {
        rv::Interrupt::UserSoft => Interrupt::UserSoft, rv::Interrupt::SupervisorSoft => Interrupt::SupervisorSoft,
        rv::Interrupt::MachineSoft => Interrupt::MachineSoft, rv::Interrupt::UserTimer => Interrupt::UserTimer,
        rv::Interrupt::SupervisorTimer => Interrupt::SupervisorTimer, rv::Interrupt::MachineTimer => Interrupt::MachineTimer,
        rv::Interrupt::UserExternal => Interrupt::UserExternal, rv::Interrupt::SupervisorExternal => Interrupt::SupervisorExternal,
        rv::Interrupt::MachineExternal => Interrupt::MachineExternal, rv::Interrupt::Unknown => Interrupt::Unknown,
    }
}

/// `riscv::register::mcause::Exception::from`: claimed to map the exception
/// codes to their variants and every other code to `Unknown`, as its `match`
/// in the crate's source does.
#[verifier::external_body]
fn exception_from(nr: usize) -> (r: Exception)
    ensures
        r == spec_exception(nr),
{
    match E::from(nr) {
        E::InstructionMisaligned => Exception::InstructionMisaligned, E::InstructionFault => Exception::InstructionFault,
        E::IllegalInstruction => Exception::IllegalInstruction, E::Breakpoint => Exception::Breakpoint,
        E::LoadMisaligned => Exception::LoadMisaligned, E::LoadFault => Exception::LoadFault,
        E::StoreMisaligned => Exception::StoreMisaligned, E::StoreFault => Exception::StoreFault,
        E::UserEnvCall => Exception::UserEnvCall, E::SupervisorEnvCall => Exception::SupervisorEnvCall,
        E::MachineEnvCall => Exception::MachineEnvCall, E::InstructionPageFault => Exception::InstructionPageFault,
        E::LoadPageFault => Exception::LoadPageFault, E::StorePageFault => Exception::StorePageFault,
        E::Unknown => Exception::Unknown,
    }
}

/// The interrupt flag of a 64-bit `mcause` (bit 63).
pub const MCAUSE_INTERRUPT: u64 = 0x8000_0000_0000_0000;

pub open spec fn spec_decode_mcause(bits: u64) -> Trap {
    if bits >= MCAUSE_INTERRUPT {
        Trap::Interrupt(spec_interrupt((bits - MCAUSE_INTERRUPT) as usize))
    } else {
        Trap::Exception(spec_exception(bits as usize))
    }
}

/// Decodes a 64-bit `mcause`: bit 63 tells an interrupt from an exception, the
/// other bits are the code.
pub fn decode_mcause(bits: u64) -> (r: Trap)
    ensures
        r == spec_decode_mcause(bits),
        r is Interrupt <==> (bits >> 63) == 1,
        bits == 9 ==> r == Trap::Exception(Exception::SupervisorEnvCall),
        bits == 2 ==> r == Trap::Exception(Exception::IllegalInstruction),
        bits == MCAUSE_INTERRUPT + 3 ==> r == Trap::Interrupt(Interrupt::MachineSoft),
        bits == MCAUSE_INTERRUPT + 7 ==> r == Trap::Interrupt(Interrupt::MachineTimer),
        bits == MCAUSE_INTERRUPT + 11 ==> r == Trap::Interrupt(Interrupt::MachineExternal),
{
    assert(((bits >> 63) == 1) == (bits >= 0x8000_0000_0000_0000u64)) by (bit_vector);
    let is_interrupt = bits & (1u64 << 63) == 1u64 << 63;
    let code = bits & !(1u64 << 63);
    assert(is_interrupt == (bits >= MCAUSE_INTERRUPT) && code == if bits >= MCAUSE_INTERRUPT {
        (bits - MCAUSE_INTERRUPT) as u64
    } else {
        bits
    }) by (bit_vector)
        requires
            is_interrupt == (bits & (1u64 << 63) == 1u64 << 63),
            code == bits & !(1u64 << 63),
            MCAUSE_INTERRUPT == 0x8000_0000_0000_0000u64,
    ;
    if is_interrupt {
        Trap::Interrupt(interrupt_from(code as usize))
    } else {
        Trap::Exception(exception_from(code as usize))
    }
}

/// Build options that change how traps are handled.
#[derive(Clone, Copy, Debug)]
pub struct TrapConfig {
    /// The board has no supervisor external interrupt (the K210): external
    /// interrupts reach the kernel as supervisor software interrupts.
    pub soft_extern: bool,
    /// Emulate instructions of the 1.9.1 privileged spec.
    pub old_spec: bool,
}

/// What the firmware does for a trap.
#[derive(Clone, Copy, Debug, PartialEq, Eq, Structural)]
pub enum TrapAction {
    /// An SBI call: run the SBI handler, then return past the `ecall` ([`next_mepc`]).
    SbiCall,
    /// Hand the timer to the supervisor ([`csr_ops`]: set STIP, clear MTIE).
    ForwardTimer,
    /// Hand the IPI to the supervisor ([`csr_ops`]: set SSIP) and clear this hart's `msip`.
    ForwardSoft,
    /// Hand the external interrupt to the supervisor as a software interrupt:
    /// clear MEIE and MTIE, set SSIP. The kernel re-enables MEIE with `sbi_xv6_set_ext`.
    ForwardExternalAsSoft,
    /// Nothing to do.
    Ignore,
    /// Try [`crate::sbt::translation`]; stop with a report if it does not apply.
    EmulateInstruction,
    /// Stop with a report of the cause, `mepc`, `mtval` and the frame.
    Fatal,
}

pub open spec fn spec_trap_action(cause: Trap, cfg: TrapConfig) -> TrapAction {
    match cause {
        Trap::Exception(Exception::SupervisorEnvCall) => TrapAction::SbiCall,
        Trap::Interrupt(Interrupt::MachineTimer) => TrapAction::ForwardTimer,
        Trap::Interrupt(Interrupt::MachineSoft) => TrapAction::ForwardSoft,
        Trap::Interrupt(Interrupt::MachineExternal) => if cfg.soft_extern {
            TrapAction::ForwardExternalAsSoft
        } else {
            TrapAction::Ignore
        },
        Trap::Exception(Exception::IllegalInstruction) => if cfg.old_spec {
            TrapAction::EmulateInstruction
        } else {
            TrapAction::Fatal
        },
        _ => TrapAction::Fatal,
    }
}

/// Decides what to do for a trap with the given cause.
pub fn trap_handler(cause: Trap, cfg: &TrapConfig) -> (r: TrapAction)
    ensures
        r == spec_trap_action(cause, *cfg),
        cause == Trap::Exception(Exception::SupervisorEnvCall) ==> r == TrapAction::SbiCall,
        cause == Trap::Interrupt(Interrupt::MachineTimer) ==> r == TrapAction::ForwardTimer,
        cause == Trap::Interrupt(Interrupt::MachineSoft) ==> r == TrapAction::ForwardSoft,
        cause == Trap::Interrupt(Interrupt::MachineExternal) && cfg.soft_extern ==> r == TrapAction::ForwardExternalAsSoft,
        cause == Trap::Interrupt(Interrupt::MachineExternal) && !cfg.soft_extern ==> r == TrapAction::Ignore,
        cause == Trap::Exception(Exception::IllegalInstruction) && cfg.old_spec ==> r == TrapAction::EmulateInstruction,
        r == TrapAction::SbiCall ==> cause == Trap::Exception(Exception::SupervisorEnvCall),
        r == TrapAction::EmulateInstruction ==> cause == Trap::Exception(Exception::IllegalInstruction) && cfg.old_spec,
        r == TrapAction::Fatal ==> !(cause == Trap::Exception(Exception::SupervisorEnvCall)
            || cause == Trap::Interrupt(Interrupt::MachineTimer) || cause == Trap::Interrupt(Interrupt::MachineSoft)
            || cause == Trap::Interrupt(Interrupt::MachineExternal)
            || (cause == Trap::Exception(Exception::IllegalInstruction) && cfg.old_spec)),
{
    match cause {
        Trap::Exception(Exception::SupervisorEnvCall) => TrapAction::SbiCall,
        Trap::Interrupt(Interrupt::MachineTimer) => TrapAction::ForwardTimer,
        Trap::Interrupt(Interrupt::MachineSoft) => TrapAction::ForwardSoft,
        Trap::Interrupt(Interrupt::MachineExternal) => {
            if cfg.soft_extern {
                TrapAction::ForwardExternalAsSoft
            } else {
                TrapAction::Ignore
            }
        },
        Trap::Exception(Exception::IllegalInstruction) => {
            if cfg.old_spec {
                TrapAction::EmulateInstruction
            } else {
                TrapAction::Fatal
            }
        },
        _ => TrapAction::Fatal,
    }
}

/// The interrupt control bits that `a` changes, in order. (`ForwardSoft`
/// also clears the hart's `msip` in the CLINT, with [`crate::clint::clear_ipi`].)
pub open spec fn spec_csr_ops(a: TrapAction) -> Seq<CsrOp> {
    match a {
        TrapAction::ForwardTimer => seq![CsrOp::SetBit(CsrBit::Stip), CsrOp::ClearBit(CsrBit::Mtie)],
        TrapAction::ForwardSoft => seq![CsrOp::SetBit(CsrBit::Ssip)],
        TrapAction::ForwardExternalAsSoft => seq![
            CsrOp::ClearBit(CsrBit::Meie),
            CsrOp::ClearBit(CsrBit::Mtie),
            CsrOp::SetBit(CsrBit::Ssip),
        ],
        _ => seq![],
    }
}

/// The interrupt bits to change for a trap action: a forwarded timer sets
/// STIP and masks the M-mode timer until the next `set_timer`; a forwarded
/// IPI sets SSIP; an external interrupt handed over as a software interrupt
/// masks MEIE and MTIE and sets SSIP.
pub fn csr_ops(a: TrapAction) -> (r: Vec<CsrOp>)
    ensures
        r@ == spec_csr_ops(a),
{
    let mut r: Vec<CsrOp> = Vec::new();
    match a {
        TrapAction::ForwardTimer => {
            r.push(CsrOp::SetBit(CsrBit::Stip));
            r.push(CsrOp::ClearBit(CsrBit::Mtie));
        },
        TrapAction::ForwardSoft => {
            r.push(CsrOp::SetBit(CsrBit::Ssip));
        },
        TrapAction::ForwardExternalAsSoft => {
            r.push(CsrOp::ClearBit(CsrBit::Meie));
            r.push(CsrOp::ClearBit(CsrBit::Mtie));
            r.push(CsrOp::SetBit(CsrBit::Ssip));
        },
        _ => {},
    }
    assert(r@ =~= spec_csr_ops(a));
    r
}

/// The interrupt enables that trap setup turns on: machine external and
/// machine software. The machine timer waits for the first `set_timer` call.
pub fn init_csr_ops() -> (r: Vec<CsrOp>)
    ensures
        r@ == seq![CsrOp::SetBit(CsrBit::Meie), CsrOp::SetBit(CsrBit::Msie)],
{
    let mut r: Vec<CsrOp> = Vec::new();
    r.push(CsrOp::SetBit(CsrBit::Meie));
    r.push(CsrOp::SetBit(CsrBit::Msie));
    r
}

/// The return address past a 4-byte instruction at `mepc` (wrapping).
pub fn next_mepc(mepc: usize) -> (r: usize)
    ensures
        r == (if mepc + 4 > usize::MAX { mepc + 4 - usize::MAX - 1 } else { mepc + 4 }),
{
    mepc.wrapping_add(4)
}

/// Interrupts delegated to S-mode: supervisor software, timer and external (bits 1, 5, 9).
pub const MIDELEG: u64 = 0x222;

/// Exceptions delegated to S-mode: misaligned fetch, fetch fault, breakpoint,
/// load fault, store fault, U-mode ecall and the page faults.
pub const MEDELEG: u64 = 0xb1ab;

/// Cause `code` is delegated by `mask`.
pub open spec fn delegates(mask: u64, code: u64) -> bool {
    (mask >> code) & 1 == 1
}

/// The delegation masks hand S-mode exactly its own interrupts, and keep in
/// M-mode the `ecall` from S-mode (the SBI), the illegal instruction (its
/// emulation) and every M-mode interrupt.
pub proof fn lemma_delegation()
    ensures
        forall|code: u64| code < 64 ==> (delegates(MIDELEG, code) <==> (code == 1 || code == 5 || code == 9)),
        !delegates(MEDELEG, 9),
        !delegates(MEDELEG, 2),
        delegates(MEDELEG, 8),
        forall|code: u64| code < 64 ==> (delegates(MEDELEG, code) <==> (code == 0 || code == 1 || code == 3
            || code == 5 || code == 7 || code == 8 || code == 12 || code == 13 || code == 15)),
{
    assert(forall|code: u64| code < 64 ==> (((0x222u64 >> code) & 1 == 1) <==> (code == 1 || code == 5 || code == 9))) by (bit_vector);
    assert(forall|code: u64| code < 64 ==> (((0xb1abu64 >> code) & 1 == 1) <==> (code == 0 || code == 1 || code == 3
        || code == 5 || code == 7 || code == 8 || code == 12 || code == 13 || code == 15))) by (bit_vector);
}

/// Every interrupt that the firmware raises in `mip` for the supervisor
/// (STIP, SSIP) is one that `MIDELEG` delegates to S-mode, so it reaches the
/// kernel's trap handler.
pub proof fn lemma_forwarded_interrupts_are_delegated(a: TrapAction, i: int)
    requires
        0 <= i < spec_csr_ops(a).len(),
        spec_csr_ops(a)[i] matches CsrOp::SetBit(b) && csr_of(b) == CSR_MIP,
    ensures
        spec_csr_ops(a)[i] matches CsrOp::SetBit(b) && delegates(MIDELEG, bit_of(b)),
{
    lemma_delegation();
}

} // verus!
