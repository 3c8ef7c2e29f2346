//! The legacy extensions (ids 0..=0x0f). They return through a0 alone.

use vstd::prelude::*;
use crate::frame::TrapFrame;
use crate::config::NCPU;
use super::{LegacyRequest, ERR_NOT_SUPPORTED};
use crate::csr::{CsrBit, CsrOp};

verus! {

pub const EID_SET_TIMER: i64 = 0;
pub const EID_CONSOLE_PUTCHAR: i64 = 1;
pub const EID_CONSOLE_GETCHAR: i64 = 2;
pub const EID_CLEAR_IPI: i64 = 3;
pub const EID_SEND_IPI: i64 = 4;
pub const EID_REMOTE_FENCE_I: i64 = 5;
pub const EID_REMOTE_SFENCE_VMA: i64 = 6;
pub const EID_REMOTE_SFENCE_VMA_ASID: i64 = 7;
pub const EID_SHUTDOWN: i64 = 8;

/// The legacy calls this firmware implements (the remote fences are not).
pub open spec fn spec_has_extension(ext: i64) -> bool {
    ext == EID_SET_TIMER || ext == EID_CONSOLE_PUTCHAR || ext == EID_CONSOLE_GETCHAR
        || ext == EID_CLEAR_IPI || ext == EID_SEND_IPI || ext == EID_SHUTDOWN
}

pub open spec fn spec_handler(tf: TrapFrame) -> LegacyRequest {
    let eid = tf.a7;
    if eid == EID_SET_TIMER {
        LegacyRequest::SetTimer { stime_value: tf.a0 as u64 }
    } else if eid == EID_CONSOLE_PUTCHAR {
        LegacyRequest::ConsolePutchar { c: tf.a0 as u8 }
    } else if eid == EID_CONSOLE_GETCHAR {
        LegacyRequest::ConsoleGetchar
    } else if eid == EID_CLEAR_IPI {
        LegacyRequest::ClearIpi
    } else if eid == EID_SEND_IPI {
        LegacyRequest::SendIpi { hart_mask_addr: tf.a0 as usize }
    } else if eid == EID_SHUTDOWN {
        LegacyRequest::Shutdown
    } else {
        LegacyRequest::Unsupported { eid }
    }
}

/// Decodes the legacy call in a7 with its argument in a0.
pub fn handler(tf: &TrapFrame) -> (r: LegacyRequest)
    ensures
        r == spec_handler(*tf),
        r is Unsupported <==> !spec_has_extension(tf.a7),
        tf.a7 == EID_SET_TIMER ==> (r matches LegacyRequest::SetTimer { stime_value } && stime_value as i64 == tf.a0),
        tf.a7 == EID_CONSOLE_PUTCHAR ==> (r matches LegacyRequest::ConsolePutchar { c } && c as int == (tf.a0 as int) % 256),
{
    proof {
        lemma_legacy_arguments(*tf);
    }
    let eid = tf.a7;
    if eid == EID_SET_TIMER {
        LegacyRequest::SetTimer { stime_value: tf.a0 as u64 }
    } else if eid == EID_CONSOLE_PUTCHAR {
        LegacyRequest::ConsolePutchar { c: tf.a0 as u8 }
    } else if eid == EID_CONSOLE_GETCHAR {
        LegacyRequest::ConsoleGetchar
    } else if eid == EID_CLEAR_IPI {
        LegacyRequest::ClearIpi
    } else if eid == EID_SEND_IPI {
        LegacyRequest::SendIpi { hart_mask_addr: tf.a0 as usize }
    } else if eid == EID_SHUTDOWN {
        LegacyRequest::Shutdown
    } else {
        LegacyRequest::Unsupported { eid }
    }
}

/// The legacy calls take their argument whole: `set_timer` programs the full
/// 64 bits of a0, `console_putchar` writes the low byte of a0.
pub proof fn lemma_legacy_arguments(tf: TrapFrame)
    ensures
        tf.a7 == EID_SET_TIMER ==> (spec_handler(tf) matches LegacyRequest::SetTimer { stime_value }
            && stime_value as i64 == tf.a0),
        tf.a7 == EID_CONSOLE_PUTCHAR ==> (spec_handler(tf) matches LegacyRequest::ConsolePutchar { c }
            && c as int == (tf.a0 as int) % 256),
{
    let a = tf.a0;
    assert(((a as u64) as i64) == a) by (bit_vector);
    assert((a as u8) as int == (a as int) % 256) by (bit_vector);
}

/// Whether `ext` is an implemented legacy call.
pub fn has_extension(ext: i64) -> (r: bool)
    ensures
        r == spec_has_extension(ext),
{
    (EID_SET_TIMER == ext) || (EID_CONSOLE_PUTCHAR == ext) || (EID_CONSOLE_GETCHAR == ext)
        || (EID_CLEAR_IPI == ext) || (EID_SEND_IPI == ext) || (EID_SHUTDOWN == ext)
}

/// The interrupt bits to change once `mtimecmp` has been programmed.
#[derive(Clone, Copy, Debug, PartialEq, Eq, Structural)]
pub enum TimerIrq {
    /// The deadline has passed already: set STIP for the supervisor and
    /// disable the M-mode timer interrupt.
    Forward,
    /// The deadline lies ahead: clear STIP and enable the M-mode timer interrupt.
    Arm,
}

/// Decides from MTIP, read after programming `mtimecmp`, whether the timer
/// has fired already.
pub fn timer_irq_after_set(mtip: bool) -> (r: TimerIrq)
    ensures
        r == (if mtip { TimerIrq::Forward } else { TimerIrq::Arm }),
{
    if mtip {
        TimerIrq::Forward
    } else {
        TimerIrq::Arm
    }
}

pub open spec fn spec_timer_irq_ops(t: TimerIrq) -> Seq<CsrOp> {
    match t {
        TimerIrq::Forward => seq![CsrOp::SetBit(CsrBit::Stip), CsrOp::ClearBit(CsrBit::Mtie)],
        TimerIrq::Arm => seq![CsrOp::ClearBit(CsrBit::Stip), CsrOp::SetBit(CsrBit::Mtie)],
    }
}

/// The interrupt bits that a timer decision changes, in order.
pub fn timer_irq_ops(t: TimerIrq) -> (r: Vec<CsrOp>)
    ensures
        r@ == spec_timer_irq_ops(t),
{
    let mut r: Vec<CsrOp> = Vec::new();
    match t {
        TimerIrq::Forward => {
            r.push(CsrOp::SetBit(CsrBit::Stip));
            r.push(CsrOp::ClearBit(CsrBit::Mtie));
        },
        TimerIrq::Arm => {
            r.push(CsrOp::ClearBit(CsrBit::Stip));
            r.push(CsrOp::SetBit(CsrBit::Mtie));
        },
    }
    assert(r@ =~= spec_timer_irq_ops(t));
    r
}

/// `sbi_console_getchar` returns the byte as a C `int` from a signed char:
/// bytes 0x80..=0xff come back negative (no input, 0xff, is -1).
pub fn getchar_reply(tf: &mut TrapFrame, c: u8)
    ensures
        final(tf).is_update(*old(tf), 10, (if c < 0x80 { c as int } else { c as int - 0x100 }) as i64),
{
    let v = (c as i8) as i64;
    if c < 0x80 {
        assert(v == c as i64) by (bit_vector)
            requires
                v == (c as i8) as i64,
                c < 0x80,
        ;
    } else {
        assert(v == c as i64 - 0x100) by (bit_vector)
            requires
                v == (c as i8) as i64,
                c >= 0x80,
        ;
    }
    tf.a0 = v;
}

/// An unsupported legacy call gets `ERR_NOT_SUPPORTED` in a0.
pub fn unsupported_reply(tf: &mut TrapFrame)
    ensures
        final(tf).is_update(*old(tf), 10, ERR_NOT_SUPPORTED),
{
    tf.a0 = ERR_NOT_SUPPORTED;
}

/// Bit `i` of `mask` is set.
pub open spec fn mask_has(mask: usize, i: usize) -> bool {
    mask & (1usize << i) != 0
}

/// The harts below `n`, in increasing order, whose bit is set in `mask`.
pub open spec fn harts_in_mask(mask: usize, n: nat) -> Seq<usize>
    decreases n,
{
    if n == 0 {
        seq![]
    } else {
        let prev = harts_in_mask(mask, (n - 1) as nat);
        if mask_has(mask, (n - 1) as usize) {
            prev.push((n - 1) as usize)
        } else {
            prev
        }
    }
}

/// The harts named by a mask are below the bound, in strictly increasing
/// order (so none is signalled twice), and each has its bit set.
pub proof fn lemma_harts_in_mask(mask: usize, n: nat)
    requires
        n <= usize::MAX,
    ensures
        forall|i: int| 0 <= i < harts_in_mask(mask, n).len() ==> #[trigger] harts_in_mask(mask, n)[i] < n,
        forall|i: int, j: int|
            0 <= i < j < harts_in_mask(mask, n).len() ==> harts_in_mask(mask, n)[i] < harts_in_mask(mask, n)[j],
        forall|i: int|
            0 <= i < harts_in_mask(mask, n).len() ==> mask_has(mask, #[trigger] harts_in_mask(mask, n)[i]),
    decreases n,
{
    if n > 0 {
        let prev = harts_in_mask(mask, (n - 1) as nat);
        lemma_harts_in_mask(mask, (n - 1) as nat);
        let cur = harts_in_mask(mask, n);
        if mask_has(mask, (n - 1) as usize) {
            assert(cur == prev.push((n - 1) as usize));
            assert forall|i: int| 0 <= i < cur.len() implies #[trigger] cur[i] < n by {
                if i < prev.len() {
                    assert(cur[i] == prev[i]);
                }
            }
            assert forall|i: int, j: int| 0 <= i < j < cur.len() implies cur[i] < cur[j] by {
                assert(cur[i] == prev[i]);
                if j < prev.len() {
                    assert(cur[j] == prev[j]);
                }
            }
            assert forall|i: int| 0 <= i < cur.len() implies mask_has(mask, #[trigger] cur[i]) by {
                if i < prev.len() {
                    assert(cur[i] == prev[i]);
                }
            }
        }
    }
}

/// Every hart below the bound whose bit is set in the mask is named: the list
/// holds exactly the set bits below `n`, in increasing order.
pub proof fn lemma_harts_in_mask_exact(mask: usize, n: nat)
    requires
        n <= usize::MAX,
    ensures
        forall|i: usize| (i as nat) < n ==> (harts_in_mask(mask, n).contains(i) <==> mask & (1usize << i) != 0),
        forall|j: int| 0 <= j < harts_in_mask(mask, n).len() ==> (harts_in_mask(mask, n)[j] as nat) < n,
        forall|j: int, k: int|
            0 <= j < k < harts_in_mask(mask, n).len() ==> harts_in_mask(mask, n)[j] < harts_in_mask(mask, n)[k],
    decreases n,
{
    lemma_harts_in_mask(mask, n);
    let cur = harts_in_mask(mask, n);
    assert forall|i: usize| (i as nat) < n implies (cur.contains(i) <==> mask & (1usize << i) != 0) by {
        if cur.contains(i) {
            let j = choose|j: int| 0 <= j < cur.len() && cur[j] == i;
            assert(mask_has(mask, cur[j]));
        }
        if mask & (1usize << i) != 0 {
            lemma_harts_in_mask_complete(mask, n, i);
        }
    }
}

proof fn lemma_harts_in_mask_complete(mask: usize, n: nat, i: usize)
    requires
        n <= usize::MAX,
        (i as nat) < n,
        mask_has(mask, i),
    ensures
        harts_in_mask(mask, n).contains(i),
    decreases n,
{
    let prev = harts_in_mask(mask, (n - 1) as nat);
    if (i as nat) < n - 1 {
        lemma_harts_in_mask_complete(mask, (n - 1) as nat, i);
        let j = choose|j: int| 0 <= j < prev.len() && prev[j] == i;
        if mask_has(mask, (n - 1) as usize) {
            assert(harts_in_mask(mask, n)[j] == i);
        }
    } else {
        assert(i == (n - 1) as usize);
        assert(harts_in_mask(mask, n) == prev.push(i));
        assert(harts_in_mask(mask, n)[prev.len() as int] == i);
    }
}

/// The harts, in increasing order, that a legacy `sbi_send_ipi` with this
/// hart mask signals: those below `NCPU` whose bit is set.
pub fn ipi_targets(hart_mask: usize) -> (r: Vec<usize>)
    ensures
        r@ == harts_in_mask(hart_mask, NCPU as nat),
        forall|i: usize| i < NCPU ==> (r@.contains(i) <==> hart_mask & (1usize << i) != 0),
        forall|j: int| 0 <= j < r@.len() ==> r@[j] < NCPU,
        forall|j: int, k: int| 0 <= j < k < r@.len() ==> r@[j] < r@[k],
{
    proof {
        lemma_harts_in_mask_exact(hart_mask, NCPU as nat);
    }
    let mut r: Vec<usize> = Vec::new();
    let mut hartid: usize = 0;
    while hartid < NCPU
        invariant
            hartid <= NCPU,
            r@ == harts_in_mask(hart_mask, hartid as nat),
        decreases NCPU - hartid,
    {
        let mask: usize = 1usize << hartid;
        if 0 != (hart_mask & mask) {
            r.push(hartid);
        }
        hartid = hartid + 1;
    }
    r
}

} // verus!
