//! The registers that the trap vector saves before calling into the firmware.

use vstd::prelude::*;

verus! {

/// The general-purpose registers of the interrupted hart, in the order the
/// trap vector stores them (x0 is not saved).
#[derive(Clone, Copy, Debug)]
pub struct TrapFrame {
    pub ra: i64,
    pub sp: i64,
    pub gp: i64,
    pub tp: i64,
    pub t0: i64,
    pub t1: i64,
    pub t2: i64,
    pub s0: i64,
    pub s1: i64,
    pub a0: i64,
    pub a1: i64,
    pub a2: i64,
    pub a3: i64,
    pub a4: i64,
    pub a5: i64,
    pub a6: i64,
    pub a7: i64,
    pub s2: i64,
    pub s3: i64,
    pub s4: i64,
    pub s5: i64,
    pub s6: i64,
    pub s7: i64,
    pub s8: i64,
    pub s9: i64,
    pub s10: i64,
    pub s11: i64,
    pub t3: i64,
    pub t4: i64,
    pub t5: i64,
    pub t6: i64,
}

impl TrapFrame {
    /// The saved value of integer register `x<x>`, for `1 <= x <= 31`.
    pub open spec fn reg(self, x: int) -> i64 {
        if x == 1 { self.ra }
        else if x == 2 { self.sp }
        else if x == 3 { self.gp }
        else if x == 4 { self.tp }
        else if x == 5 { self.t0 }
        else if x == 6 { self.t1 }
        else if x == 7 { self.t2 }
        else if x == 8 { self.s0 }
        else if x == 9 { self.s1 }
        else if x == 10 { self.a0 }
        else if x == 11 { self.a1 }
        else if x == 12 { self.a2 }
        else if x == 13 { self.a3 }
        else if x == 14 { self.a4 }
        else if x == 15 { self.a5 }
        else if x == 16 { self.a6 }
        else if x == 17 { self.a7 }
        else if x == 18 { self.s2 }
        else if x == 19 { self.s3 }
        else if x == 20 { self.s4 }
        else if x == 21 { self.s5 }
        else if x == 22 { self.s6 }
        else if x == 23 { self.s7 }
        else if x == 24 { self.s8 }
        else if x == 25 { self.s9 }
        else if x == 26 { self.s10 }
        else if x == 27 { self.s11 }
        else if x == 28 { self.t3 }
        else if x == 29 { self.t4 }
        else if x == 30 { self.t5 }
        else { self.t6 }
    }

    /// `self` holds `error` in a0 and `value` in a1, and agrees with `other` elsewhere.
    pub open spec fn is_reply(self, other: TrapFrame, error: i64, value: i64) -> bool {
        &&& self.a0 == error
        &&& self.a1 == value
        &&& forall|y: int| 1 <= y <= 31 && y != 10 && y != 11 ==> #[trigger] self.reg(y) == other.reg(y)
    }

    /// `self` and `other` agree on every register but `x<x>`, which holds `v` in `self`.
    pub open spec fn is_update(self, other: TrapFrame, x: int, v: i64) -> bool {
        &&& self.reg(x) == v
        &&& forall|y: int| 1 <= y <= 31 && y != x ==> #[trigger] self.reg(y) == other.reg(y)
    }
}

} // verus!
