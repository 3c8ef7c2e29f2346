//! Clock configuration of the K210 system controller.

use vstd::prelude::*;
use vstd::arithmetic::div_mod::lemma_div_is_ordered_by_denominator;
use vstd::arithmetic::div_mod::lemma_fundamental_div_mod;

verus! {

/// The oscillator that feeds the K210 PLLs, in Hz.
pub const CLK_IN: u32 = 26_000_000;

/// Largest value of `nr` and of `od` (the PLL's `clkr + 1` and `clkod + 1`).
pub const PLL_NR_MAX: u32 = 16;

/// Largest value of `nr * od`.
pub const PLL_NR_OD_MAX: u32 = 256;

/// Largest value of `nf` (the PLL's `clkf + 1`).
pub const PLL_NF_MAX: u32 = 64;

/// Whether the divider product `m` can still reach `freq`: the highest
/// frequency the PLL produces with it, `freq_in * 64 / m`, is at least `freq`.
pub open spec fn pll_fits(freq_in: u32, freq: u32, m: int) -> bool {
    freq <= (freq_in * PLL_NF_MAX) as int / m
}

/// `nr` divides `p` with `nr` and `p / nr` both in `1..=16`.
pub open spec fn pll_splits(p: int, nr: int) -> bool {
    &&& 1 <= nr <= PLL_NR_MAX
    &&& p % nr == 0
    &&& 1 <= p / nr <= PLL_NR_MAX
}

/// `p` is `nr * od` for some `nr` and `od` in `1..=16`.
pub open spec fn pll_is_product(p: int) -> bool {
    exists|nr: int| #[trigger] pll_splits(p, nr)
}

/// A product that the PLL can be set to and that reaches `freq`.
pub open spec fn pll_ok(freq_in: u32, freq: u32, m: int) -> bool {
    pll_is_product(m) && pll_fits(freq_in, freq, m)
}

/// The largest acceptable divider product in `1..=top`, or 1 when there is none.
pub open spec fn pll_largest_fit(freq_in: u32, freq: u32, top: int) -> int
    decreases top,
{
    if top <= 1 {
        1
    } else if pll_ok(freq_in, freq, top) {
        top
    } else {
        pll_largest_fit(freq_in, freq, top - 1)
    }
}

/// The `nr * od` product that the PLL search settles on: the largest one, for
/// the finest steps of `nf`.
pub open spec fn pll_nr_od(freq_in: u32, freq: u32) -> int {
    pll_largest_fit(freq_in, freq, PLL_NR_OD_MAX as int)
}

/// The `nf` multiplier that goes with `pll_nr_od`: `freq * nr * od / freq_in`,
/// capped at 64.
pub open spec fn pll_nf(freq_in: u32, freq: u32) -> int {
    let nf = freq * pll_nr_od(freq_in, freq) / (freq_in as int);
    if nf < PLL_NF_MAX { nf } else { PLL_NF_MAX as int }
}

/// A smaller divider product fits whenever a larger one does.
pub proof fn lemma_pll_fits_downward(freq_in: u32, freq: u32, k: int, m: int)
    requires
        1 <= k <= m,
        pll_fits(freq_in, freq, m),
    ensures
        pll_fits(freq_in, freq, k),
{
    lemma_div_is_ordered_by_denominator((freq_in * PLL_NF_MAX) as int, k, m);
}

/// `pll_largest_fit` is the unique `m0` that is acceptable (or is 1) and above
/// which, up to `top`, nothing is.
pub proof fn lemma_pll_largest_fit(freq_in: u32, freq: u32, top: int, m0: int)
    requires
        1 <= m0 <= top,
        m0 == 1 || pll_ok(freq_in, freq, m0),
        forall|m: int| m0 < m <= top ==> !pll_ok(freq_in, freq, m),
    ensures
        pll_largest_fit(freq_in, freq, top) == m0,
    decreases top,
{
    if top > 1 && top != m0 {
        assert(!pll_ok(freq_in, freq, top));
        lemma_pll_largest_fit(freq_in, freq, top - 1, m0);
    }
}

proof fn lemma_largest_fit_props(freq_in: u32, freq: u32, top: int)
    requires
        top >= 1,
    ensures
        1 <= pll_largest_fit(freq_in, freq, top) <= top,
        pll_largest_fit(freq_in, freq, top) == 1 || pll_ok(
            freq_in,
            freq,
            pll_largest_fit(freq_in, freq, top),
        ),
        forall|m: int| pll_largest_fit(freq_in, freq, top) < m <= top ==> !pll_ok(freq_in, freq, m),
    decreases top,
{
    if top > 1 && !pll_ok(freq_in, freq, top) {
        lemma_largest_fit_props(freq_in, freq, top - 1);
    }
}

/// The search result is a product of two factors in `1..=16`, reaches `freq`
/// (unless it is the fallback 1), and no larger such product does.
pub proof fn lemma_pll_nr_od_is_largest(freq_in: u32, freq: u32)
    ensures
        1 <= pll_nr_od(freq_in, freq) <= PLL_NR_OD_MAX,
        pll_is_product(pll_nr_od(freq_in, freq)),
        pll_nr_od(freq_in, freq) == 1 || pll_fits(freq_in, freq, pll_nr_od(freq_in, freq)),
        forall|m: int|
            pll_nr_od(freq_in, freq) < m <= PLL_NR_OD_MAX && #[trigger] pll_is_product(m)
                ==> !pll_fits(freq_in, freq, m),
{
    lemma_largest_fit_props(freq_in, freq, PLL_NR_OD_MAX as int);
    assert(pll_splits(1, 1));
    assert forall|m: int|
        pll_nr_od(freq_in, freq) < m <= PLL_NR_OD_MAX && #[trigger] pll_is_product(m) implies !pll_fits(
        freq_in,
        freq,
        m,
    ) by {
        assert(!pll_ok(freq_in, freq, m));
    }
}

/// The PLL never runs faster than asked, and below the cap on `nf` it is
/// within one step of the request: with `k = nr * od`,
/// `freq_in * nf <= freq * k`, and `freq * k < freq_in * (nf + 1)` unless `nf == 64`.
pub proof fn lemma_pll_output_near_request(freq_in: u32, freq: u32)
    requires
        freq_in > 0,
    ensures
        freq_in * pll_nf(freq_in, freq) <= freq * pll_nr_od(freq_in, freq),
        pll_nf(freq_in, freq) < PLL_NF_MAX ==> freq * pll_nr_od(freq_in, freq) < freq_in * (
        pll_nf(freq_in, freq) + 1),
        0 <= pll_nf(freq_in, freq) <= PLL_NF_MAX,
{
    lemma_pll_nr_od_is_largest(freq_in, freq);
    let p = freq * pll_nr_od(freq_in, freq);
    let q = p / (freq_in as int);
    lemma_fundamental_div_mod(p, freq_in as int);
    assert(q * freq_in <= p < (q + 1) * freq_in) by (nonlinear_arith)
        requires
            p == freq_in * q + p % (freq_in as int),
            0 <= p % (freq_in as int) < freq_in,
    ;
    assert(q >= 0) by (nonlinear_arith)
        requires
            p >= 0,
            freq_in > 0,
            q == p / (freq_in as int),
    ;
    assert(freq_in * pll_nf(freq_in, freq) <= freq_in * q) by (nonlinear_arith)
        requires
            pll_nf(freq_in, freq) <= q,
            freq_in > 0,
    ;
    assert((q + 1) * freq_in == freq_in * (q + 1)) by (nonlinear_arith);
}

/// Finds PLL parameters `(nr, od, nf)` for `freq_out = freq_in / nr * nf / od`
/// as near as possible to `freq` without exceeding it: `nr * od` is the largest
/// product of two factors in `1..=16` with `freq <= freq_in * 64 / (nr * od)`
/// (1 when there is none), and `nf = freq * nr * od / freq_in`, capped at 64.
/// The product is split with the smallest `nr` that leaves `od <= 16`.
pub fn calculate_pll_config(freq_in: u32, freq: u32) -> (r: (u8, u8, u8))
    requires
        freq_in > 0,
        freq_in * PLL_NF_MAX <= u32::MAX,
    ensures
        1 <= r.0 <= PLL_NR_MAX,
        1 <= r.1 <= PLL_NR_MAX,
        r.0 * r.1 == pll_nr_od(freq_in, freq),
        r.2 == pll_nf(freq_in, freq),
        forall|nr: int| 1 <= nr < r.0 ==> !pll_splits(pll_nr_od(freq_in, freq), nr),
{
    // binary search for the largest m in 2..=256 that fits; left stays 1 if none does
    let mut left: u32 = 1;
    let mut right: u32 = 0b10_000 * 0b10_000 + 1;
    while left + 1 < right
        invariant
            freq_in > 0,
            freq_in * PLL_NF_MAX <= u32::MAX,
            1 <= left < right <= PLL_NR_OD_MAX + 1,
            left == 1 || pll_fits(freq_in, freq, left as int),
            forall|m: int| right <= m <= PLL_NR_OD_MAX ==> !pll_fits(freq_in, freq, m),
        decreases right - left,
    {
        let mid = (left + right) / 2;
        let max_freq = freq_in * 0b1_000_000 / mid;
        if freq > max_freq {
            proof {
                assert forall|m: int| mid <= m <= PLL_NR_OD_MAX implies !pll_fits(
                    freq_in,
                    freq,
                    m,
                ) by {
                    if pll_fits(freq_in, freq, m) {
                        lemma_pll_fits_downward(freq_in, freq, mid as int, m);
                    }
                }
            }
            right = mid;
        } else {
            left = mid;
        }
    }
    // walk down from there to the largest product of two factors in 1..=16
    let mut p: u32 = left;
    loop
        invariant
            freq_in > 0,
            freq_in * PLL_NF_MAX <= u32::MAX,
            1 <= p <= left <= PLL_NR_OD_MAX,
            left == 1 || pll_fits(freq_in, freq, left as int),
            forall|m: int| left < m <= PLL_NR_OD_MAX ==> !pll_fits(freq_in, freq, m),
            forall|m: int| p < m <= left ==> !#[trigger] pll_is_product(m),
        decreases p,
    {
        let mut nr: u32 = 1;
        while nr <= 0b10_000
            invariant
                1 <= nr <= PLL_NR_MAX + 1,
                freq_in > 0,
                freq_in * PLL_NF_MAX <= u32::MAX,
                1 <= p <= left <= PLL_NR_OD_MAX,
                left == 1 || pll_fits(freq_in, freq, left as int),
                forall|m: int| left < m <= PLL_NR_OD_MAX ==> !pll_fits(freq_in, freq, m),
                forall|m: int| p < m <= left ==> !#[trigger] pll_is_product(m),
                forall|a: int| 1 <= a < nr ==> !pll_splits(p as int, a),
            decreases 0b10_001 - nr,
        {
            if p % nr == 0 && p / nr <= 0b10_000 {
                let od = p / nr;
                proof {
                    lemma_fundamental_div_mod(p as int, nr as int);
                    assert(od >= 1) by (nonlinear_arith)
                        requires
                            p == nr * od + 0,
                            p >= 1,
                            nr >= 1,
                            od >= 0,
                    ;
                    assert(pll_splits(p as int, nr as int));
                    // p is acceptable (or the fallback), and nothing above it is
                    if p > 1 {
                        lemma_pll_fits_downward(freq_in, freq, p as int, left as int);
                    }
                    assert forall|m: int| p < m <= PLL_NR_OD_MAX implies !pll_ok(freq_in, freq, m) by {
                        if m <= left {
                            assert(!pll_is_product(m));
                        }
                    }
                    lemma_pll_largest_fit(freq_in, freq, PLL_NR_OD_MAX as int, p as int);
                    // freq * p does not overflow: freq <= X / p
                    if p > 1 {
                        let x = (freq_in * PLL_NF_MAX) as int;
                        lemma_fundamental_div_mod(x, p as int);
                        assert(freq * p <= (x / p as int) * p) by (nonlinear_arith)
                            requires
                                freq <= x / p as int,
                                p > 0,
                        ;
                        assert((x / p as int) * p <= x) by (nonlinear_arith)
                            requires
                                x == p * (x / p as int) + x % (p as int),
                                x % (p as int) >= 0,
                        ;
                        assert(freq * p <= u32::MAX);
                    } else {
                        assert(freq * p == freq) by (nonlinear_arith)
                            requires
                                p == 1,
                        ;
                    }
                    assert(nr * od == p) by (nonlinear_arith)
                        requires
                            p == nr * od + 0,
                    ;
                }
                let nf = freq * p / freq_in;
                let nf = if nf < 0b1_000_000 { nf } else { 0b1_000_000 };
                return (nr as u8, od as u8, nf as u8);
            }
            assert(!pll_splits(p as int, nr as int));
            nr = nr + 1;
        }
        proof {
            assert(!pll_splits(p as int, 1));
            assert(p > 1);
            assert forall|nr: int| #[trigger] pll_splits(p as int, nr) implies false by {
                assert(1 <= nr < 17);
            }
        }
        p = p - 1;
    }
}

} // verus!
