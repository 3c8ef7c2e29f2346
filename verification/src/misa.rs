//! Decoding of the `misa` register, which the firmware reports at boot: the
//! machine XLEN and the letters of the implemented extensions.

use vstd::prelude::*;

verus! {

/// The machine XLEN field (bits 63..62 of a 64-bit `misa`).
#[derive(Clone, Copy, Debug, PartialEq, Eq, Structural)]
pub enum Mxl {
    Xlen32,
    Xlen64,
    Xlen128,
}

/// Decodes the XLEN field; the values 1, 2, 3 mean 32, 64 and 128 bits
/// (0 is reserved).
pub fn mxl(bits: u64) -> (r: Mxl)
    requires
        bits >> 62 != 0,
    ensures
        r == (if bits >> 62 == 1 { Mxl::Xlen32 } else if bits >> 62 == 2 { Mxl::Xlen64 } else { Mxl::Xlen128 }),
{
    let value = (bits >> 62) as u8;
    assert(bits >> 62 < 4) by (bit_vector);
    if value == 1 {
        Mxl::Xlen32
    } else if value == 2 {
        Mxl::Xlen64
    } else {
        Mxl::Xlen128
    }
}

/// Extension `letter` ('A'..='Z') is implemented: bit `letter - 'A'` is set.
pub open spec fn spec_has_extension(bits: u64, i: int) -> bool {
    (bits >> (i as u64)) & 1 == 1
}

/// The extension letters among the first `n`, in alphabetical order.
pub open spec fn spec_extensions(bits: u64, n: nat) -> Seq<char>
    decreases n,
{
    if n == 0 {
        seq![]
    } else {
        let prev = spec_extensions(bits, (n - 1) as nat);
        if spec_has_extension(bits, n - 1) {
            prev.push(((n - 1) + 65) as char)
        } else {
            prev
        }
    }
}

/// The capital letter of extension bit `i`: 'A' for bit 0, up to 'Z' for bit 25.
pub open spec fn letter(i: int) -> char {
    (65 + i) as char
}

/// The letters listed for the first `n` bits are exactly those whose bit is
/// set, each a capital letter, in strictly alphabetical order.
pub proof fn lemma_extensions_exact(bits: u64, n: nat)
    requires
        n <= 26,
    ensures
        forall|i: int| 0 <= i < n ==> (spec_extensions(bits, n).contains(#[trigger] letter(i)) <==> (bits >> (i as u64)) & 1 == 1),
        forall|j: int| 0 <= j < spec_extensions(bits, n).len() ==> 65 <= (#[trigger] spec_extensions(bits, n)[j] as u32) < 65 + n,
        forall|j: int, k: int|
            0 <= j < k < spec_extensions(bits, n).len() ==> (spec_extensions(bits, n)[j] as u32) < (spec_extensions(bits, n)[k] as u32),
    decreases n,
{
    if n > 0 {
        lemma_extensions_exact(bits, (n - 1) as nat);
        let prev = spec_extensions(bits, (n - 1) as nat);
        let cur = spec_extensions(bits, n);
        let last = ((n - 1) + 65) as char;
        assert(last as u32 == (n - 1) + 65);
        if spec_has_extension(bits, n - 1) {
            assert(cur == prev.push(last));
            assert forall|j: int| 0 <= j < cur.len() implies 65 <= (#[trigger] cur[j] as u32) < 65 + n by {
                if j < prev.len() {
                    assert(cur[j] == prev[j]);
                }
            }
            assert forall|j: int, k: int| 0 <= j < k < cur.len() implies (cur[j] as u32) < (cur[k] as u32) by {
                assert(cur[j] == prev[j]);
                assert(65 <= (prev[j] as u32) < 65 + (n - 1));
                if k < prev.len() {
                    assert(cur[k] == prev[k]);
                }
            }
        }
        assert forall|i: int| 0 <= i < n implies (cur.contains(#[trigger] letter(i)) <==> (bits >> (i as u64)) & 1 == 1) by {
            let ch = letter(i);
            assert(ch as u32 == 65 + i);
            if i < n - 1 {
                if spec_has_extension(bits, n - 1) {
                    if cur.contains(ch) {
                        let j = choose|j: int| 0 <= j < cur.len() && cur[j] == ch;
                        if j < prev.len() {
                            assert(prev[j] == ch);
                        }
                    }
                    if prev.contains(ch) {
                        let j = choose|j: int| 0 <= j < prev.len() && prev[j] == ch;
                        assert(cur[j] == ch);
                    }
                }
            } else {
                assert(ch == last);
                if spec_has_extension(bits, n - 1) {
                    assert(cur[prev.len() as int] == ch);
                } else {
                    if prev.contains(ch) {
                        let j = choose|j: int| 0 <= j < prev.len() && prev[j] == ch;
                        assert(65 <= (prev[j] as u32) < 65 + (n - 1));
                    }
                }
            }
        }
    }
}

/// The letters of the extensions that `misa` reports, from 'A' to 'Z'.
pub fn extensions(bits: u64) -> (r: Vec<char>)
    ensures
        r@ == spec_extensions(bits, 26),
        forall|i: int| 0 <= i < 26 ==> (r@.contains(#[trigger] letter(i)) <==> (bits >> (i as u64)) & 1 == 1),
        forall|j: int| 0 <= j < r@.len() ==> 65 <= (#[trigger] r@[j] as u32) <= 90,
        forall|j: int, k: int| 0 <= j < k < r@.len() ==> (r@[j] as u32) < (r@[k] as u32),
{
    proof {
        lemma_extensions_exact(bits, 26);
    }
    let mut r: Vec<char> = Vec::new();
    let mut i: u8 = 0;
    while i < 26
        invariant
            i <= 26,
            r@ == spec_extensions(bits, i as nat),
        decreases 26 - i,
    {
        let shift = i as u64;
        let has = bits & (1u64 << shift) == (1u64 << shift);
        assert(has == ((bits >> shift) & 1 == 1)) by (bit_vector)
            requires
                has == (bits & (1u64 << shift) == (1u64 << shift)),
                shift < 26,
        ;
        if has {
            let letter = (65 + i) as char;
            r.push(letter);
        }
        i = i + 1;
    }
    r
}

} // verus!
