//! The IPI extension ("sPI"): M-mode software interrupts sent to a set of harts.
//! There is no clear call: S-mode clears SSIP itself.

use vstd::prelude::*;
use crate::frame::TrapFrame;
use crate::config::NCPU;
use super::{SbiRequest, SbiRet, SUCCESS, ERR_NOT_SUPPORTED, ERR_INVALID_PARAM};
use super::legacy::{harts_in_mask, lemma_harts_in_mask_exact};

verus! {

pub const SEND_IPI: i64 = 0;

/// How many bits of the hart mask name harts: those from the base up to
/// `NCPU`, and never more than 32.
pub open spec fn max_shift(hart_mask_base: usize) -> usize {
    if NCPU - hart_mask_base < 32 { (NCPU - hart_mask_base) as usize } else { 32 }
}

/// What `handler` answers for the call in `tf`.
pub open spec fn handler_result(tf: TrapFrame, r: SbiRequest) -> bool {
    let hart_mask = tf.a0 as usize;
    let hart_mask_base = tf.a1 as usize;
    if tf.a6 != SEND_IPI {
        r == SbiRequest::Reply(SbiRet(ERR_NOT_SUPPORTED, 0))
    } else if hart_mask_base > NCPU {
        r == SbiRequest::Reply(SbiRet(ERR_INVALID_PARAM, 0))
    } else if hart_mask >> max_shift(hart_mask_base) != 0 {
        r == SbiRequest::Reply(SbiRet(ERR_INVALID_PARAM, 0))
    } else {
        r matches SbiRequest::SendIpi { harts, reply } && harts@ == harts_in_mask(
            hart_mask,
            max_shift(hart_mask_base) as nat,
        ) && reply == SbiRet(SUCCESS, 0)
    }
}

/// `sbi_send_ipi(hart_mask, hart_mask_base)`. A base beyond `NCPU`, or a mask
/// with a bit set at or above the number of harts from the base, is refused
/// with `ERR_INVALID_PARAM`; otherwise hart `i` is signalled for every bit `i`
/// set in the mask, and the call succeeds.
pub fn handler(tf: &TrapFrame) -> (r: SbiRequest)
    ensures
        handler_result(*tf, r),
        tf.a6 != SEND_IPI ==> r == SbiRequest::Reply(SbiRet(ERR_NOT_SUPPORTED, 0)),
        tf.a6 == SEND_IPI && (tf.a1 as usize) > NCPU ==> r == SbiRequest::Reply(SbiRet(ERR_INVALID_PARAM, 0)),
        forall|i: usize|
            max_shift(tf.a1 as usize) <= i < usize::BITS && #[trigger] ((tf.a0 as usize) & (1usize << i)) != 0
                ==> r == SbiRequest::Reply(SbiRet(if tf.a6 == SEND_IPI { ERR_INVALID_PARAM } else { ERR_NOT_SUPPORTED }, 0)),
        !(r is SendIpi) ==> r is Reply,
        r matches SbiRequest::SendIpi { harts, .. } ==> {
            &&& forall|i: usize|
                i < max_shift(tf.a1 as usize) ==> (harts@.contains(i) <==> (tf.a0 as usize) & (1usize << i) != 0)
            &&& forall|j: int| 0 <= j < harts@.len() ==> harts@[j] < max_shift(tf.a1 as usize)
            &&& forall|j: int, k: int| 0 <= j < k < harts@.len() ==> harts@[j] < harts@[k]
        },
{
    let fid = tf.a6;
    if fid == SEND_IPI {
        let hart_mask = tf.a0 as usize;
        let hart_mask_base = tf.a1 as usize;
        if hart_mask_base > NCPU {
            SbiRequest::Reply(SbiRet(ERR_INVALID_PARAM, 0))
        } else {
            let rest = NCPU - hart_mask_base;
            let max_shift: usize = if rest < 32 { rest } else { 32 };
            proof {
                let m = max_shift;
                assert forall|i: usize| m <= i < usize::BITS && #[trigger] (hart_mask & (1usize << i)) != 0 implies hart_mask
                    >> m != 0usize by {
                    assert(m <= i < usize::BITS && hart_mask & (1usize << i) != 0 ==> hart_mask >> m != 0usize)
                        by (bit_vector);
                }
            }
            if 0 != (hart_mask >> max_shift) {
                SbiRequest::Reply(SbiRet(ERR_INVALID_PARAM, 0))
            } else {
                let mut harts: Vec<usize> = Vec::new();
                let mut i: usize = 0;
                while i < max_shift
                    invariant
                        i <= max_shift,
                        max_shift <= 32,
                        harts@ == harts_in_mask(hart_mask, i as nat),
                    decreases max_shift - i,
                {
                    let hart: usize = 1usize << i;
                    if 0 != (hart_mask & hart) {
                        harts.push(i);
                    }
                    i = i + 1;
                }
                proof {
                    lemma_harts_in_mask_exact(hart_mask, max_shift as nat);
                }
                SbiRequest::SendIpi { harts, reply: SbiRet(SUCCESS, 0) }
            }
        }
    } else {
        SbiRequest::Reply(SbiRet(ERR_NOT_SUPPORTED, 0))
    }
}

/// A successful `sbi_send_ipi` signals exactly the harts whose bit is set in
/// the mask (all of them below the number of harts counted from the base),
/// each once, in increasing order.
pub proof fn lemma_send_ipi_signals_set_bits(tf: TrapFrame, r: SbiRequest)
    requires
        handler_result(tf, r),
    ensures
        r matches SbiRequest::SendIpi { harts, reply } ==> {
            &&& reply == SbiRet(SUCCESS, 0)
            &&& forall|i: usize| i < NCPU ==> (harts@.contains(i) <==> (tf.a0 as usize) & (1usize << i) != 0)
            &&& forall|j: int, k: int| 0 <= j < k < harts@.len() ==> harts@[j] < harts@[k]
        },
{
    let hart_mask = tf.a0 as usize;
    let base = tf.a1 as usize;
    if r is SendIpi {
        let m = max_shift(base);
        lemma_harts_in_mask_exact(hart_mask, m as nat);
        assert forall|i: usize| m <= i < NCPU implies (hart_mask & (1usize << i)) == 0 by {
            assert(hart_mask >> m == 0usize);
            assert(m <= i < 64 ==> (hart_mask >> m == 0usize ==> hart_mask & (1usize << i) == 0)) by (bit_vector);
        }
    }
}

} // verus!
