//! Vendor-specific extension space: no vendor extension is implemented.

use vstd::prelude::*;
use crate::frame::TrapFrame;
use super::{SbiRet, ERR_NOT_SUPPORTED};

verus! {

pub open spec fn spec_handler(tf: TrapFrame) -> SbiRet {
    SbiRet(ERR_NOT_SUPPORTED, 0)
}

/// Every vendor call is answered `ERR_NOT_SUPPORTED`.
pub fn handler(tf: &TrapFrame) -> (r: SbiRet)
    ensures
        r == spec_handler(*tf),
{
    SbiRet(ERR_NOT_SUPPORTED, 0)
}

/// No vendor extension is present.
pub fn has_extension(_ext: i64) -> (r: bool)
    ensures
        !r,
{
    false
}

} // verus!
