//! The firmware's own console output (`print!`).

use vstd::prelude::*;

verus! {

/// The console that `print!` writes to.
pub struct Stdout;

/// Each character cut to its low byte: what `print!` sends to the UART.
pub open spec fn spec_stdout_bytes(s: Seq<char>) -> Seq<u8> {
    s.map_values(|c: char| (c as u32) as u8)
}

/// On ASCII text the console sends exactly the string's UTF-8 bytes, the
/// same as the UARTs' own `write_str`.
pub proof fn lemma_ascii_stdout_is_utf8(s: Seq<char>)
    requires
        forall|i: int| 0 <= i < s.len() ==> (#[trigger] s[i] as u32) < 0x80,
    ensures
        spec_stdout_bytes(s) == vstd::utf8::encode_utf8(s),
    decreases s.len(),
{
    if s.len() > 0 {
        lemma_ascii_stdout_is_utf8(s.drop_first());
        assert(s[0] as u32 <= 0x7F);
        let c = s[0] as u32;
        assert((c & 0x7F) as u8 == c as u8) by (bit_vector)
            requires
                c < 0x80,
        ;
        assert(spec_stdout_bytes(s) =~= seq![c as u8] + spec_stdout_bytes(s.drop_first()));
        assert(spec_stdout_bytes(s) =~= vstd::utf8::encode_utf8(s));
    } else {
        assert(spec_stdout_bytes(s) =~= vstd::utf8::encode_utf8(s));
    }
}

impl Stdout {
    /// The bytes that writing `s` puts on the UART: one per character, its
    /// low byte (ASCII text goes out unchanged).
    pub fn write_str(&self, s: &str) -> (r: Vec<u8>)
        ensures
            r@ == spec_stdout_bytes(s@),
    {
        let mut out: Vec<u8> = Vec::new();
        for c in it: s.chars()
            invariant
                it.seq() == s@,
                out@ == spec_stdout_bytes(s@.take(it.index() as int)),
        {
            out.push((c as u32) as u8);
            assert(s@.take(it.index() + 1) =~= s@.take(it.index() as int).push(c));
            assert(out@ =~= spec_stdout_bytes(s@.take(it.index() + 1)));
        }
        assert(s@.take(s@.len() as int) =~= s@);
        out
    }
}

} // verus!
