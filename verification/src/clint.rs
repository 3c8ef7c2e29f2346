//! The core-local interruptor (CLINT): `mtime`, the per-hart `mtimecmp`
//! comparators and the per-hart `msip` software interrupt bits. QEMU's virt
//! board and the K210 place it at the same address with the same layout.

use vstd::prelude::*;
use crate::config::NCPU;
use crate::mmio::MmioWrite;

verus! {

pub const CLINT_BASE: usize = 0x0200_0000;
pub const TIME_COMPARE_OFFSET: usize = 0x4000;
pub const MTIME_OFFSET: usize = 0xbff8;

/// Address of the 64-bit `mtime` counter (shared by all harts).
pub const MTIME_ADDR: usize = CLINT_BASE + MTIME_OFFSET;

/// Address of hart `hartid`'s 32-bit `msip` register.
pub open spec fn msip_addr(hartid: usize) -> int {
    CLINT_BASE + 4 * hartid
}

/// Address of hart `hartid`'s 64-bit `mtimecmp` register.
pub open spec fn time_compare_addr(hartid: usize) -> int {
    CLINT_BASE + TIME_COMPARE_OFFSET + 8 * hartid
}

/// The write that programs hart `hartid`'s timer comparator with `timer_val`.
pub open spec fn spec_set_timer(hartid: usize, timer_val: u64) -> MmioWrite {
    MmioWrite::U64 { addr: time_compare_addr(hartid) as usize, double: timer_val }
}

/// The write that raises (`word == 1`) or clears (`word == 0`) hart `hartid`'s `msip`.
pub open spec fn spec_msip_write(hartid: usize, word: u32) -> MmioWrite {
    MmioWrite::U32 { addr: msip_addr(hartid) as usize, word }
}

/// The `msip` registers of all harts (indexed by hart) after the write `w`.
pub open spec fn msip_after(msip: Seq<u32>, w: MmioWrite) -> Seq<u32> {
    match w {
        MmioWrite::U32 { addr, word } => {
            if CLINT_BASE <= addr < CLINT_BASE + 4 * msip.len() && (addr - CLINT_BASE) % 4 == 0 {
                msip.update((addr - CLINT_BASE) / 4, word)
            } else {
                msip
            }
        },
        _ => msip,
    }
}

/// The `mtimecmp` registers of all harts (indexed by hart) after the write `w`.
pub open spec fn time_compare_after(compares: Seq<u64>, w: MmioWrite) -> Seq<u64> {
    match w {
        MmioWrite::U64 { addr, double } => {
            let base = CLINT_BASE + TIME_COMPARE_OFFSET;
            if base <= addr < base + 8 * compares.len() && (addr - base) % 8 == 0 {
                compares.update((addr - base) / 8, double)
            } else {
                compares
            }
        },
        _ => compares,
    }
}

/// Programs hart `hartid`'s timer comparator: the timer interrupt is pending
/// while `mtime >= timer_val`.
pub fn set_timer(hartid: usize, timer_val: u64) -> (w: MmioWrite)
    requires
        hartid < NCPU,
    ensures
        w == spec_set_timer(hartid, timer_val),
{
    MmioWrite::U64 { addr: CLINT_BASE + TIME_COMPARE_OFFSET + 8 * hartid, double: timer_val }
}

/// Raises the M-mode software interrupt of hart `hartid` by writing 1 to its `msip`.
pub fn send_ipi(hartid: usize) -> (w: MmioWrite)
    requires
        hartid < NCPU,
    ensures
        w == spec_msip_write(hartid, 1),
{
    MmioWrite::U32 { addr: CLINT_BASE + 4 * hartid, word: 1 }
}

/// Clears the M-mode software interrupt of hart `hartid` by writing 0 to its `msip`.
pub fn clear_ipi(hartid: usize) -> (w: MmioWrite)
    requires
        hartid < NCPU,
    ensures
        w == spec_msip_write(hartid, 0),
{
    MmioWrite::U32 { addr: CLINT_BASE + 4 * hartid, word: 0 }
}

/// Distinct harts have distinct `msip` and `mtimecmp` registers, and none of
/// them overlaps another register of the CLINT.
pub proof fn lemma_clint_registers_disjoint(h1: usize, h2: usize)
    requires
        h1 < NCPU,
        h2 < NCPU,
    ensures
        h1 != h2 ==> msip_addr(h1) != msip_addr(h2),
        h1 != h2 ==> time_compare_addr(h1) != time_compare_addr(h2),
        msip_addr(h1) + 4 <= time_compare_addr(h2),
        time_compare_addr(h1) + 8 <= MTIME_ADDR,
{
}

/// Raising or clearing an IPI changes that hart's `msip` and nothing else:
/// no other hart's `msip` and no timer comparator.
pub proof fn lemma_msip_write(msip: Seq<u32>, compares: Seq<u64>, h: usize, word: u32)
    requires
        msip.len() == NCPU,
        h < NCPU,
    ensures
        msip_after(msip, spec_msip_write(h, word)) == msip.update(h as int, word),
        time_compare_after(compares, spec_msip_write(h, word)) == compares,
{
}

/// Programming a timer changes that hart's comparator and nothing else: no
/// other hart's comparator and no `msip`.
pub proof fn lemma_set_timer_write(msip: Seq<u32>, compares: Seq<u64>, h: usize, v: u64)
    requires
        compares.len() == NCPU,
        h < NCPU,
    ensures
        time_compare_after(compares, spec_set_timer(h, v)) == compares.update(h as int, v),
        msip_after(msip, spec_set_timer(h, v)) == msip,
{
}

/// `clear_ipi` undoes `send_ipi`: after both, hart `h`'s `msip` is 0 and every
/// other register is as before; so the registers are back where they were
/// when the IPI was not pending.
pub proof fn lemma_clear_undoes_send(msip: Seq<u32>, h: usize)
    requires
        msip.len() == NCPU,
        h < NCPU,
    ensures
        msip_after(msip_after(msip, spec_msip_write(h, 1)), spec_msip_write(h, 0)) == msip.update(h as int, 0),
        msip[h as int] == 0 ==> msip_after(msip_after(msip, spec_msip_write(h, 1)), spec_msip_write(h, 0))
            == msip,
{
    lemma_msip_write(msip, seq![], h, 1);
    lemma_msip_write(msip.update(h as int, 1), seq![], h, 0);
    assert(msip.update(h as int, 1).update(h as int, 0) =~= msip.update(h as int, 0));
    if msip[h as int] == 0 {
        assert(msip.update(h as int, 0) =~= msip);
    }
}

} // verus!
