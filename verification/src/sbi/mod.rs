//! Dispatch of SBI calls (`ecall` from S-mode) to the extensions.
//!
//! Each handler decodes the call from the saved registers and returns an
//! [`SbiRequest`]: either the reply to write back at once, or the machine
//! operation to perform first, together with the function of this crate that
//! computes the reply from what the operation produced.

use vstd::prelude::*;
use crate::frame::TrapFrame;
use crate::csr::{CsrBit, CsrOp};

pub mod base;
pub mod legacy;
pub mod time;
pub mod ipi;
pub mod firmware;
pub mod vendor;

verus! {

pub const SUCCESS: i64 = 0;
pub const ERR_FAILED: i64 = -1;
pub const ERR_NOT_SUPPORTED: i64 = -2;
pub const ERR_INVALID_PARAM: i64 = -3;
pub const ERR_DENIED: i64 = -4;
pub const ERR_INVALID_ADDRESS: i64 = -5;
pub const ERR_ALREADY_AVAILABLE: i64 = -6;
pub const ERR_ALREADY_STARTED: i64 = -7;
pub const ERR_ALREADY_STOPPED: i64 = -8;

pub const EID_BASE: i64 = 0x10;
pub const EID_LEGACY_MIN: i64 = 0x00;
pub const EID_LEGACY_MAX: i64 = 0x0f;
pub const EID_TIME: i64 = 0x5449_4d45;
pub const EID_IPI: i64 = 0x0073_5049;
pub const EID_VENDOR_MIN: i64 = 0x0900_0000;
pub const EID_VENDOR_MAX: i64 = 0x09ff_ffff;
pub const EID_FIRMWARE_MIN: i64 = 0x0a00_0000;
pub const EID_FIRMWARE_MAX: i64 = 0x0aff_ffff;

/// The pair an SBI call returns: error code (in a0) and value (in a1).
#[derive(Clone, Copy, Debug, PartialEq, Eq, Structural)]
pub struct SbiRet(pub i64, pub i64);

/// The versions and implementation id that the Base extension reports.
#[derive(Clone, Copy, Debug)]
pub struct SbiConfig {
    pub spec_major: u32,
    pub spec_minor: u32,
    pub impl_id: i64,
    pub impl_major: u32,
    pub impl_minor: u32,
}

/// A machine identification CSR that the Base extension reads.
#[derive(Clone, Copy, Debug, PartialEq, Eq, Structural)]
pub enum MachineIdCsr {
    Vendor,
    Arch,
    Impl,
}

/// What a legacy call (extension ids 0..=0x0f) asks of the machine. Legacy
/// calls return through a0 alone, or not at all.
#[derive(Clone, Copy, Debug, PartialEq, Eq, Structural)]
pub enum LegacyRequest {
    /// Program `mtimecmp`, then change the bits that [`legacy::timer_irq_after_set`] and
    /// [`legacy::timer_irq_ops`] give.
    SetTimer { stime_value: u64 },
    /// Write the byte to the console.
    ConsolePutchar { c: u8 },
    /// Read a byte from the console and store [`legacy::getchar_reply`] in a0.
    ConsoleGetchar,
    /// Change the bits of [`request_csr_ops`] (clear SSIP).
    ClearIpi,
    /// Read the 32-bit hart mask at this address and signal [`legacy::ipi_targets`].
    SendIpi { hart_mask_addr: usize },
    /// Change the bits of [`request_csr_ops`] (disable interrupts) and wait forever.
    Shutdown,
    /// Report the function and store `ERR_NOT_SUPPORTED` in a0.
    Unsupported { eid: i64 },
}

/// What an SBI call asks of the machine.
#[derive(Debug, PartialEq, Eq)]
pub enum SbiRequest {
    /// Write the reply into a0/a1 ([`apply_reply`]).
    Reply(SbiRet),
    /// A legacy call.
    Legacy(LegacyRequest),
    /// Read the CSR and reply with [`base::machine_id_reply`].
    ReadMachineId(MachineIdCsr),
    /// Program `mtimecmp`, change the bits of [`request_csr_ops`], then write `reply`.
    SetTimer { stime_value: u64, reply: SbiRet },
    /// Raise an M-mode software interrupt on each of `harts`, then write `reply`.
    SendIpi { harts: Vec<usize>, reply: SbiRet },
    /// Change the bits of [`request_csr_ops`], then write `reply`.
    EnableExternal { reply: SbiRet },
    /// Read MEIE and reply with [`firmware::xv6_k210::is_ext_reply`].
    QueryExternal,
    /// Write the NUL-terminated string at `addr`, at most `n` bytes, driving a
    /// [`firmware::xv6_k210::PutsCursor`], and reply with its count.
    Puts { addr: usize, n: usize },
    /// Read `mtime` and reply with [`firmware::xv6_k210::timer_reply`].
    ReadTimer,
    /// An extension this firmware does not know: report it, then write `reply`.
    UnknownExtension { eid: i64, reply: SbiRet },
}

pub open spec fn is_legacy_eid(eid: i64) -> bool {
    EID_LEGACY_MIN <= eid <= EID_LEGACY_MAX
}

pub open spec fn is_vendor_eid(eid: i64) -> bool {
    EID_VENDOR_MIN <= eid <= EID_VENDOR_MAX
}

pub open spec fn is_firmware_eid(eid: i64) -> bool {
    EID_FIRMWARE_MIN <= eid <= EID_FIRMWARE_MAX
}

/// What [`handler`] answers for the call in `tf`.
pub open spec fn handler_result(tf: TrapFrame, cfg: SbiConfig, r: SbiRequest) -> bool {
    let eid = tf.a7;
    if is_legacy_eid(eid) {
        r == SbiRequest::Legacy(legacy::spec_handler(tf))
    } else if eid == EID_BASE {
        r == base::spec_handler(tf, cfg)
    } else if eid == EID_TIME {
        r == time::spec_handler(tf)
    } else if eid == EID_IPI {
        ipi::handler_result(tf, r)
    } else if is_vendor_eid(eid) {
        r == SbiRequest::Reply(vendor::spec_handler(tf))
    } else if is_firmware_eid(eid) {
        r == firmware::spec_handler(tf)
    } else {
        r == (SbiRequest::UnknownExtension { eid, reply: SbiRet(ERR_NOT_SUPPORTED, 0) })
    }
}

/// Routes the call in a7 to its extension. Legacy extension ids go to the
/// legacy handler; Base, Time, IPI, the vendor and the firmware ranges to
/// theirs; any other id is unknown and answered `ERR_NOT_SUPPORTED`.
pub fn handler(tf: &TrapFrame, cfg: &SbiConfig) -> (r: SbiRequest)
    ensures
        handler_result(*tf, *cfg, r),
{
    let eid = tf.a7;
    if eid >= EID_LEGACY_MIN && eid <= EID_LEGACY_MAX {
        SbiRequest::Legacy(legacy::handler(tf))
    } else if EID_BASE == eid {
        base::handler(tf, cfg)
    } else if EID_TIME == eid {
        time::handler(tf)
    } else if EID_IPI == eid {
        ipi::handler(tf)
    } else if eid >= EID_VENDOR_MIN && eid <= EID_VENDOR_MAX {
        SbiRequest::Reply(vendor::handler(tf))
    } else if eid >= EID_FIRMWARE_MIN && eid <= EID_FIRMWARE_MAX {
        firmware::handler(tf)
    } else {
        SbiRequest::UnknownExtension { eid, reply: SbiRet(ERR_NOT_SUPPORTED, 0) }
    }
}

/// Writes the reply of a non-legacy call: the error code into a0 and the value
/// into a1. No other register changes.
pub fn apply_reply(tf: &mut TrapFrame, ret: SbiRet)
    ensures
        final(tf).is_reply(*old(tf), ret.0, ret.1),
{
    tf.a0 = ret.0;
    tf.a1 = ret.1;
}

/// The interrupt bits that a request changes, in order, before its reply.
/// A legacy `set_timer` decides its bits only after `mtimecmp` is
/// programmed ([`legacy::timer_irq_after_set`], [`legacy::timer_irq_ops`]).
pub open spec fn spec_request_csr_ops(r: SbiRequest) -> Seq<CsrOp> {
    match r {
        SbiRequest::SetTimer { .. } => seq![CsrOp::ClearBit(CsrBit::Stip), CsrOp::SetBit(CsrBit::Mtie)],
        SbiRequest::EnableExternal { .. } => seq![CsrOp::SetBit(CsrBit::Meie), CsrOp::SetBit(CsrBit::Mtie)],
        SbiRequest::Legacy(LegacyRequest::ClearIpi) => seq![CsrOp::ClearBit(CsrBit::Ssip)],
        SbiRequest::Legacy(LegacyRequest::Shutdown) => seq![
            CsrOp::ClearBit(CsrBit::Mie),
            CsrOp::ClearBit(CsrBit::Sie),
            CsrOp::ClearBit(CsrBit::Uie),
        ],
        _ => seq![],
    }
}

/// The interrupt bits a request changes: the TIME extension's `set_timer`
/// clears STIP and enables the M-mode timer; `sbi_xv6_set_ext` enables the
/// M-mode external and timer interrupts; the legacy `clear_ipi` clears SSIP;
/// shutdown disables interrupts in every mode.
pub fn request_csr_ops(r: &SbiRequest) -> (ops: Vec<CsrOp>)
    ensures
        ops@ == spec_request_csr_ops(*r),
{
    let mut ops: Vec<CsrOp> = Vec::new();
    match r {
        SbiRequest::SetTimer { .. } => {
            ops.push(CsrOp::ClearBit(CsrBit::Stip));
            ops.push(CsrOp::SetBit(CsrBit::Mtie));
        },
        SbiRequest::EnableExternal { .. } => {
            ops.push(CsrOp::SetBit(CsrBit::Meie));
            ops.push(CsrOp::SetBit(CsrBit::Mtie));
        },
        SbiRequest::Legacy(LegacyRequest::ClearIpi) => {
            ops.push(CsrOp::ClearBit(CsrBit::Ssip));
        },
        SbiRequest::Legacy(LegacyRequest::Shutdown) => {
            ops.push(CsrOp::ClearBit(CsrBit::Mie));
            ops.push(CsrOp::ClearBit(CsrBit::Sie));
            ops.push(CsrOp::ClearBit(CsrBit::Uie));
        },
        _ => {},
    }
    assert(ops@ =~= spec_request_csr_ops(*r));
    ops
}

/// The error codes that an SBI reply carries.
pub open spec fn is_sbi_error_code(e: i64) -> bool {
    e == SUCCESS || e == ERR_FAILED || e == ERR_NOT_SUPPORTED || e == ERR_INVALID_PARAM
}

/// Every reply that a call gets, at once or after its operation, carries one
/// of the SBI error codes, and a failed call returns the value 0.
pub proof fn lemma_replies_are_well_formed(tf: TrapFrame, cfg: SbiConfig, r: SbiRequest)
    requires
        handler_result(tf, cfg, r),
    ensures
        r matches SbiRequest::Reply(ret) ==> is_sbi_error_code(ret.0) && (ret.0 != SUCCESS ==> ret.1 == 0),
        r matches SbiRequest::SetTimer { reply, .. } ==> reply == SbiRet(SUCCESS, 0),
        r matches SbiRequest::SendIpi { reply, .. } ==> reply == SbiRet(SUCCESS, 0),
        r matches SbiRequest::EnableExternal { reply } ==> reply == SbiRet(SUCCESS, 0),
        r matches SbiRequest::UnknownExtension { reply, .. } ==> reply == SbiRet(ERR_NOT_SUPPORTED, 0),
{
}

/// A function id that an extension does not define is answered
/// `ERR_NOT_SUPPORTED` with value 0, in every non-legacy extension.
pub proof fn lemma_unknown_functions_not_supported(tf: TrapFrame, cfg: SbiConfig, r: SbiRequest)
    requires
        handler_result(tf, cfg, r),
        !is_legacy_eid(tf.a7),
        tf.a7 == EID_BASE ==> tf.a6 < 0 || tf.a6 > 6,
        tf.a7 == EID_TIME ==> tf.a6 != 0,
        tf.a7 == EID_IPI ==> tf.a6 != 0,
        tf.a7 == firmware::XV6_K210 ==> tf.a6 != 0 && tf.a6 != 1 && tf.a6 != 0x10 && tf.a6 != 0x20,
    ensures
        r == SbiRequest::Reply(SbiRet(ERR_NOT_SUPPORTED, 0)) || r == (SbiRequest::UnknownExtension {
            eid: tf.a7,
            reply: SbiRet(ERR_NOT_SUPPORTED, 0),
        }),
{
}

/// Every extension that probing reports is served: it is Base, or a legacy
/// call that is decoded to its operation rather than refused.
pub proof fn lemma_probed_extensions_are_served(tf: TrapFrame)
    requires
        base::spec_probe(tf.a7),
    ensures
        tf.a7 == EID_BASE || (is_legacy_eid(tf.a7) && !(legacy::spec_handler(tf) is Unsupported)),
{
}

} // verus!
