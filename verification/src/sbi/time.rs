//! The Timer extension ("TIME").

use vstd::prelude::*;
use crate::frame::TrapFrame;
use super::{SbiRequest, SbiRet, SUCCESS, ERR_NOT_SUPPORTED};

verus! {

pub const SET_TIMER: i64 = 0;

pub open spec fn spec_handler(tf: TrapFrame) -> SbiRequest {
    if tf.a6 == SET_TIMER {
        SbiRequest::SetTimer { stime_value: tf.a0 as u64, reply: SbiRet(SUCCESS, 0) }
    } else {
        SbiRequest::Reply(SbiRet(ERR_NOT_SUPPORTED, 0))
    }
}

/// `sbi_set_timer` programs `mtimecmp` with the full 64 bits of a0 and succeeds.
pub proof fn lemma_set_timer_takes_a0(tf: TrapFrame)
    ensures
        tf.a6 == SET_TIMER ==> (spec_handler(tf) matches SbiRequest::SetTimer { stime_value, reply }
            && stime_value as i64 == tf.a0 && reply == SbiRet(SUCCESS, 0)),
{
    let a = tf.a0;
    assert(((a as u64) as i64) == a) by (bit_vector);
}

/// `sbi_set_timer(stime_value)`: program `mtimecmp` with a0 (which clears
/// MTIP), clear STIP, enable the M-mode timer interrupt, and succeed.
/// Other function ids are not supported.
pub fn handler(tf: &TrapFrame) -> (r: SbiRequest)
    ensures
        r == spec_handler(*tf),
        tf.a6 == SET_TIMER ==> (r matches SbiRequest::SetTimer { stime_value, reply } && stime_value as i64
            == tf.a0 && reply == SbiRet(SUCCESS, 0)),
        tf.a6 != SET_TIMER ==> r == SbiRequest::Reply(SbiRet(ERR_NOT_SUPPORTED, 0)),
{
    proof {
        lemma_set_timer_takes_a0(*tf);
    }
    let fid = tf.a6;
    if fid == SET_TIMER {
        let stime_value = tf.a0 as u64;
        SbiRequest::SetTimer { stime_value, reply: SbiRet(SUCCESS, 0) }
    } else {
        SbiRequest::Reply(SbiRet(ERR_NOT_SUPPORTED, 0))
    }
}

} // verus!
