//! Calls that the xv6-k210 kernel makes: re-enabling external interrupts after
//! handling one, asking whether one is being handled, writing a string, and
//! reading the timer.

use vstd::prelude::*;
use crate::frame::TrapFrame;
use crate::sbi::{SbiRequest, SbiRet, SUCCESS, ERR_NOT_SUPPORTED};

verus! {

pub const SET_EXT: i64 = 0;
pub const IS_EXT: i64 = 1;
pub const CONSOLE_PUTS: i64 = 0x10;
pub const GET_TIMER: i64 = 0x20;

pub open spec fn spec_handler(tf: TrapFrame) -> SbiRequest {
    let fid = tf.a6;
    if fid == SET_EXT {
        SbiRequest::EnableExternal { reply: SbiRet(SUCCESS, 0) }
    } else if fid == IS_EXT {
        SbiRequest::QueryExternal
    } else if fid == CONSOLE_PUTS {
        SbiRequest::Puts { addr: tf.a0 as usize, n: tf.a1 as usize }
    } else if fid == GET_TIMER {
        SbiRequest::ReadTimer
    } else {
        SbiRequest::Reply(SbiRet(ERR_NOT_SUPPORTED, 0))
    }
}

/// Decodes the xv6-k210 function in a6.
pub fn handler(tf: &TrapFrame) -> (r: SbiRequest)
    ensures
        r == spec_handler(*tf),
{
    let fid = tf.a6;
    if fid == SET_EXT {
        SbiRequest::EnableExternal { reply: SbiRet(SUCCESS, 0) }
    } else if fid == IS_EXT {
        SbiRequest::QueryExternal
    } else if fid == CONSOLE_PUTS {
        SbiRequest::Puts { addr: tf.a0 as usize, n: tf.a1 as usize }
    } else if fid == GET_TIMER {
        SbiRequest::ReadTimer
    } else {
        SbiRequest::Reply(SbiRet(ERR_NOT_SUPPORTED, 0))
    }
}

/// `sbi_xv6_is_ext`: while an external interrupt is being handled MEIE is kept
/// clear, so the answer is 1 when MEIE is clear and 0 when it is set.
pub fn is_ext_reply(meie: bool) -> (r: SbiRet)
    ensures
        r == SbiRet(SUCCESS, if meie { 0 } else { 1 }),
{
    if meie {
        SbiRet(SUCCESS, 0)
    } else {
        SbiRet(SUCCESS, 1)
    }
}

/// `sbi_xv6_get_timer`: the value of `mtime`.
pub fn timer_reply(mtime: u64) -> (r: SbiRet)
    ensures
        r == SbiRet(SUCCESS, mtime as i64),
{
    SbiRet(SUCCESS, mtime as i64)
}

/// The length of the string `sbi_xv6_puts(s, n)` writes from the bytes `s`:
/// it stops before the first NUL byte, after `n` bytes, or at the end of `s`.
pub open spec fn is_puts_len(s: Seq<u8>, n: nat, len: nat) -> bool {
    &&& len <= n
    &&& len <= s.len()
    &&& forall|i: int| 0 <= i < len ==> s[i] != 0
    &&& len == n || len == s.len() || s[len as int] == 0
}

/// The progress of `sbi_xv6_puts` through the caller's string, one byte at a time.
pub struct PutsCursor {
    cnt: usize,
    n: usize,
    done: bool,
}

impl PutsCursor {
    /// Bytes written so far.
    pub closed spec fn count(&self) -> nat {
        self.cnt as nat
    }

    /// The most bytes the call may write.
    pub closed spec fn limit(&self) -> nat {
        self.n as nat
    }

    /// A NUL byte has been seen.
    pub closed spec fn stopped(&self) -> bool {
        self.done
    }

    pub closed spec fn wf(&self) -> bool {
        self.cnt <= self.n
    }

    /// A cursor at the start of a string of at most `n` bytes.
    pub fn new(n: usize) -> (c: PutsCursor)
        ensures
            c.wf(),
            c.count() == 0,
            c.limit() == n,
            !c.stopped(),
    {
        PutsCursor { cnt: 0, n, done: false }
    }

    /// Whether the next byte must be read: no NUL yet and fewer than `n` written.
    pub fn wants_byte(&self) -> (r: bool)
        requires
            self.wf(),
        ensures
            r == (!self.stopped() && self.count() < self.limit()),
    {
        !self.done && self.cnt < self.n
    }

    /// The address of the next byte of the string that starts at `base`.
    pub fn byte_addr(&self, base: usize) -> (r: usize)
        ensures
            r == (if base + self.count() > usize::MAX { base + self.count() - usize::MAX - 1 } else {
                base + self.count()
            }),
    {
        base.wrapping_add(self.cnt)
    }

    /// Takes the next byte of the string: a NUL ends the string, any other
    /// byte is counted and must be written to the console (the result says which).
    pub fn feed(&mut self, c: u8) -> (emit: bool)
        requires
            old(self).wf(),
            !old(self).stopped(),
            old(self).count() < old(self).limit(),
        ensures
            final(self).wf(),
            emit == (c != 0),
            final(self).limit() == old(self).limit(),
            final(self).stopped() == (c == 0),
            final(self).count() == if c == 0 { old(self).count() } else { old(self).count() + 1 },
    {
        if 0 == c {
            self.done = true;
            false
        } else {
            self.cnt = self.cnt + 1;
            true
        }
    }

    /// The reply: success and the number of bytes written.
    pub fn reply(&self) -> (r: SbiRet)
        ensures
            r == SbiRet(SUCCESS, self.count() as i64),
    {
        SbiRet(SUCCESS, self.cnt as i64)
    }
}

/// `sbi_xv6_puts` on the bytes `s` of the caller's string: the bytes it
/// writes to the console and its reply.
pub fn console_puts(s: &[u8], n: usize) -> (r: (Vec<u8>, SbiRet))
    ensures
        is_puts_len(s@, n as nat, r.0@.len()),
        r.0@ == s@.take(r.0@.len() as int),
        r.1 == SbiRet(SUCCESS, r.0@.len() as i64),
{
    let mut out: Vec<u8> = Vec::new();
    let mut cursor = PutsCursor::new(n);
    while cursor.wants_byte() && out.len() < s.len()
        invariant
            cursor.wf(),
            cursor.limit() == n,
            out@.len() == cursor.count(),
            out@.len() <= s@.len(),
            out@ == s@.take(cursor.count() as int),
            forall|i: int| 0 <= i < out@.len() ==> s@[i] != 0,
            cursor.stopped() ==> out@.len() < s@.len() && s@[out@.len() as int] == 0,
        decreases n - cursor.count() + (if cursor.stopped() { 0int } else { 1int }),
    {
        let i = out.len();
        let c = s[i];
        if cursor.feed(c) {
            out.push(c);
            assert(out@ =~= s@.take(cursor.count() as int));
        }
    }
    let reply = cursor.reply();
    (out, reply)
}

} // verus!
