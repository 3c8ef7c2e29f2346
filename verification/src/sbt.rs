//! Emulation of instructions from the 1.9.1 privileged spec that newer cores
//! (the K210 among them) reject as illegal: `sfence.vma` and `rdtime`.

use vstd::prelude::*;
use crate::frame::TrapFrame;

verus! {

/// What an illegal instruction turned out to be.
#[derive(Clone, Copy, Debug, PartialEq, Eq, Structural)]
pub enum OldSpecInst {
    /// `sfence.vma`, emulated with `sfence.vm` after switching to Sv39.
    SfenceVma,
    /// `rdtime rd`, emulated by reading `mtime` into `rd`.
    Rdtime { rd: u8 },
    /// Anything else: not emulated.
    Other,
}

/// The effect that `translation` asks the machine to carry out.
#[derive(Clone, Copy, Debug, PartialEq, Eq, Structural)]
pub enum Translation {
    /// Write `sptbr` (CSR 0x180), write `mstatus`, execute `sfence.vm x0`,
    /// then skip the instruction.
    Sfence { sptbr: u64, mstatus: u64 },
    /// The destination register was written in the frame; skip the instruction.
    Rdtime,
    /// Not an instruction that can be emulated.
    Unhandled,
}

pub open spec fn is_sfence_vma(ins: u32) -> bool {
    ins & 0xFE007FFF == 0x12000073
}

pub open spec fn is_rdtime(ins: u32) -> bool {
    ins & 0xFFFFF07F == 0xC0102073
}

/// The `rd` field, bits 11..7.
pub open spec fn rd_field(ins: u32) -> u8 {
    ((ins >> 7) & 0x1f) as u8
}

pub open spec fn spec_classify(ins: u32) -> OldSpecInst {
    if is_sfence_vma(ins) {
        OldSpecInst::SfenceVma
    } else if is_rdtime(ins) {
        OldSpecInst::Rdtime { rd: rd_field(ins) }
    } else {
        OldSpecInst::Other
    }
}

/// The registers that an emulated `rdtime` may write: t0-t6 and a0-a7.
pub open spec fn is_writable_rd(rd: u8) -> bool {
    (5 <= rd <= 7) || (10 <= rd <= 17) || (28 <= rd <= 31)
}

/// The Sv39 root page number for `sptbr`: bits 37..0 of `satp`.
pub open spec fn spec_sptbr(satp: u64) -> u64 {
    satp & 0x3F_FFFF_FFFF
}

/// `mstatus` with the 1.9.1 VM field (bits 28..24) set to Sv39 (9).
pub open spec fn spec_sv39_mstatus(mstatus: u64) -> u64 {
    (mstatus & !0x1F00_0000u64) | 0x0900_0000u64
}

/// Whether an emulated `rdtime` may write register `x<rd>` (t0-t6, a0-a7).
pub fn writable_rd(rd: u8) -> (r: bool)
    ensures
        r == is_writable_rd(rd),
{
    (5 <= rd && rd <= 7) || (10 <= rd && rd <= 17) || (28 <= rd && rd <= 31)
}

/// `ins` is `sfence.vma rs1, rs2` for some `rs1` and `rs2`: funct7 0001001,
/// funct3 000, rd 0, opcode SYSTEM.
pub open spec fn sfence_vma_fields(ins: u32) -> bool {
    &&& ins >> 25 == 0x09
    &&& (ins >> 12) & 0x7 == 0
    &&& (ins >> 7) & 0x1f == 0
    &&& ins & 0x7f == 0x73
}

/// `ins` is `rdtime rd`, that is `csrrs rd, time, x0`: CSR 0xC01, rs1 0,
/// funct3 010, opcode SYSTEM.
pub open spec fn rdtime_fields(ins: u32) -> bool {
    &&& ins >> 20 == 0xC01
    &&& (ins >> 15) & 0x1f == 0
    &&& (ins >> 12) & 0x7 == 2
    &&& ins & 0x7f == 0x73
}

/// The decoding by fields: an instruction is taken for `sfence.vma` exactly
/// when its fields say so, whatever its `rs1` and `rs2`; for `rdtime` exactly
/// when its fields say so, with `rd` from bits 11..7; otherwise it is not emulated.
pub proof fn lemma_classify_by_fields(ins: u32)
    ensures
        spec_classify(ins) == OldSpecInst::SfenceVma <==> sfence_vma_fields(ins),
        rdtime_fields(ins) ==> spec_classify(ins) == (OldSpecInst::Rdtime { rd: ((ins >> 7) & 0x1f) as u8 }),
        spec_classify(ins) is Rdtime ==> rdtime_fields(ins),
        spec_classify(ins) is Other <==> !sfence_vma_fields(ins) && !rdtime_fields(ins),
{
    assert((ins & 0xFE007FFF == 0x12000073) <==> (ins >> 25 == 0x09 && (ins >> 12) & 0x7 == 0
        && (ins >> 7) & 0x1f == 0 && ins & 0x7f == 0x73)) by (bit_vector);
    assert((ins & 0xFFFFF07F == 0xC0102073) <==> (ins >> 20 == 0xC01 && (ins >> 15) & 0x1f == 0
        && (ins >> 12) & 0x7 == 2 && ins & 0x7f == 0x73)) by (bit_vector);
}

/// Every `sfence.vma rs1, rs2` is emulated, whatever its operands.
pub proof fn lemma_sfence_vma_any_operands(rs1: u32, rs2: u32)
    requires
        rs1 < 32,
        rs2 < 32,
    ensures
        spec_classify(0x12000073u32 | (rs2 << 20) | (rs1 << 15)) == OldSpecInst::SfenceVma,
{
    let ins = 0x12000073u32 | (rs2 << 20) | (rs1 << 15);
    assert(ins >> 25 == 0x09 && (ins >> 12) & 0x7 == 0 && (ins >> 7) & 0x1f == 0 && ins & 0x7f == 0x73)
        by (bit_vector)
        requires
            rs1 < 32,
            rs2 < 32,
            ins == 0x12000073u32 | (rs2 << 20) | (rs1 << 15),
    ;
    lemma_classify_by_fields(ins);
}

/// Decodes which old-spec instruction `ins` is.
pub fn classify(ins: u32) -> (r: OldSpecInst)
    ensures
        r == spec_classify(ins),
        r == OldSpecInst::SfenceVma <==> sfence_vma_fields(ins),
        rdtime_fields(ins) ==> r == (OldSpecInst::Rdtime { rd: ((ins >> 7) & 0x1f) as u8 }),
        r is Rdtime ==> rdtime_fields(ins),
        r is Other <==> !sfence_vma_fields(ins) && !rdtime_fields(ins),
{
    proof {
        lemma_classify_by_fields(ins);
    }
    if ins & 0xFE007FFF == 0x12000073 {
        OldSpecInst::SfenceVma
    } else if ins & 0xFFFFF07F == 0xC0102073 {
        OldSpecInst::Rdtime { rd: ((ins >> 7) & 0b1_1111) as u8 }
    } else {
        OldSpecInst::Other
    }
}

/// The value for `sptbr`: the PPN of `satp` (bits 43..0), cut to the 38 bits
/// that Sv39 uses.
pub fn sptbr_bits(satp_bits: u64) -> (r: u64)
    ensures
        r == spec_sptbr(satp_bits),
        r < 0x40_0000_0000,
{
    let ppn = satp_bits & 0xFFF_FFFF_FFFF;
    let r = ppn & 0x3F_FFFF_FFFF;
    assert(r == spec_sptbr(satp_bits) && r < 0x40_0000_0000) by (bit_vector)
        requires
            ppn == satp_bits & 0xFFF_FFFF_FFFF,
            r == ppn & 0x3F_FFFF_FFFF,
    ;
    r
}

/// `mstatus` with paging turned on in 1.9.1 terms: the VM field set to Sv39,
/// every other bit kept.
pub fn sv39_mstatus(mstatus_bits: u64) -> (r: u64)
    ensures
        r == spec_sv39_mstatus(mstatus_bits),
        (r >> 24) & 0x1f == 9,
        r & !0x1F00_0000u64 == mstatus_bits & !0x1F00_0000u64,
{
    let mut m = mstatus_bits;
    m = m & !0x1F00_0000u64;
    m = m | (9u64 << 24);
    assert((m >> 24) & 0x1f == 9 && m & !0x1F00_0000u64 == mstatus_bits & !0x1F00_0000u64
        && m == (mstatus_bits & !0x1F00_0000u64) | 0x0900_0000u64) by (bit_vector)
        requires
            m == (mstatus_bits & !0x1F00_0000u64) | (9u64 << 24),
    ;
    m
}

/// Puts the two halfwords of an instruction together (the low one first in memory).
pub fn extract_inst(low: u16, high: u16) -> (r: u32)
    ensures
        r == low + high * 0x10000,
{
    let l = low as u32;
    let h = high as u32;
    let r = l | (h << 16);
    assert(r == l + h * 0x10000) by (bit_vector)
        requires
            l < 0x10000,
            h < 0x10000,
            r == l | (h << 16),
    ;
    r
}

/// Writes the 64-bit `value` into register `x<rd>` of the frame (as the
/// signed register image); nothing else changes.
pub fn set_rd(trap_frame: &mut TrapFrame, rd: u8, value: u64)
    requires
        is_writable_rd(rd),
    ensures
        final(trap_frame).is_update(*old(trap_frame), rd as int, value as i64),
{
    match rd {
        10 => trap_frame.a0 = value as i64,
        11 => trap_frame.a1 = value as i64,
        12 => trap_frame.a2 = value as i64,
        13 => trap_frame.a3 = value as i64,
        14 => trap_frame.a4 = value as i64,
        15 => trap_frame.a5 = value as i64,
        16 => trap_frame.a6 = value as i64,
        17 => trap_frame.a7 = value as i64,
        5 => trap_frame.t0 = value as i64,
        6 => trap_frame.t1 = value as i64,
        7 => trap_frame.t2 = value as i64,
        28 => trap_frame.t3 = value as i64,
        29 => trap_frame.t4 = value as i64,
        30 => trap_frame.t5 = value as i64,
        _ => trap_frame.t6 = value as i64,
    }
}

/// Emulates the illegal instruction `ins`. For `rdtime`, `mtime` is written
/// into the destination register; for `sfence.vma` the CSR values to install
/// are returned; anything else leaves the frame as it was.
pub fn translation(ins: u32, tf: &mut TrapFrame, satp_bits: u64, mstatus_bits: u64, mtime: u64) -> (r: Translation)
    requires
        spec_classify(ins) matches OldSpecInst::Rdtime { rd } ==> is_writable_rd(rd),
    ensures
        match spec_classify(ins) {
            OldSpecInst::SfenceVma => {
                &&& r == Translation::Sfence {
                    sptbr: spec_sptbr(satp_bits),
                    mstatus: spec_sv39_mstatus(mstatus_bits),
                }
                &&& *final(tf) == *old(tf)
            },
            OldSpecInst::Rdtime { rd } => {
                &&& r == Translation::Rdtime
                &&& final(tf).is_update(*old(tf), rd as int, mtime as i64)
            },
            OldSpecInst::Other => {
                &&& r == Translation::Unhandled
                &&& *final(tf) == *old(tf)
            },
        },
{
    match classify(ins) {
        OldSpecInst::SfenceVma => {
            Translation::Sfence { sptbr: sptbr_bits(satp_bits), mstatus: sv39_mstatus(mstatus_bits) }
        },
        OldSpecInst::Rdtime { rd } => {
            set_rd(tf, rd, mtime);
            Translation::Rdtime
        },
        OldSpecInst::Other => Translation::Unhandled,
    }
}

} // verus!
