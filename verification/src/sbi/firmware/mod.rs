//! Firmware-specific extension space.

use vstd::prelude::*;
use crate::frame::TrapFrame;
use super::{SbiRequest, SbiRet, ERR_NOT_SUPPORTED};

pub mod xv6_k210;

verus! {

/// The extension of the xv6-k210 kernel.
pub const XV6_K210: i64 = 0x0a00_0210;

pub open spec fn spec_handler(tf: TrapFrame) -> SbiRequest {
    if tf.a7 == XV6_K210 {
        xv6_k210::spec_handler(tf)
    } else {
        SbiRequest::Reply(SbiRet(ERR_NOT_SUPPORTED, 0))
    }
}

/// Routes a firmware-space call to its extension; only xv6-k210 is known.
pub fn handler(tf: &TrapFrame) -> (r: SbiRequest)
    ensures
        r == spec_handler(*tf),
{
    let eid = tf.a7;
    if eid == XV6_K210 {
        xv6_k210::handler(tf)
    } else {
        SbiRequest::Reply(SbiRet(ERR_NOT_SUPPORTED, 0))
    }
}

/// Whether `ext` is a firmware extension this firmware implements.
pub fn has_extension(ext: i64) -> (r: bool)
    ensures
        r == (ext == XV6_K210),
{
    XV6_K210 == ext
}

} // verus!
