//! The fixed-point encodings of colorimetric records, decoded to integer
//! billionths so that the final division by a billion is the only inexact
//! step.
use vstd::prelude::*;

verus! {

pub const ONE_BILLION: u64 = 1_000_000_000;

pub const TWO_THIRTY: u64 = 0x4000_0000;

/// The billionths of a 2.30 fixed-point value, truncated.
pub open spec fn fxp230_billionths(fxp: int) -> int {
    fxp * 1_000_000_000 / 0x4000_0000
}

/// Decodes a 2.30 fixed-point value (30 fractional bits) to billionths:
/// `fxp * 10^9 / 2^30`, truncated.
pub fn fxp230_to_billionths(fxp: i32) -> (r: u64)
    requires
        fxp >= 0,
    ensures
        r == fxp230_billionths(fxp as int),
{
    assert(0 <= fxp * 1_000_000_000 <= 0x7fff_ffff * 1_000_000_000) by (nonlinear_arith)
        requires
            0 <= fxp <= 0x7fff_ffff,
    ;
    (fxp as u64 * ONE_BILLION) / TWO_THIRTY
}

/// The 2.30 decoding does not decrease as its input grows.
pub proof fn lemma_fxp230_monotonic(a: int, b: int)
    requires
        0 <= a <= b,
    ensures
        fxp230_billionths(a) <= fxp230_billionths(b),
{
    assert(a * 1_000_000_000 <= b * 1_000_000_000) by (nonlinear_arith)
        requires
            a <= b,
    ;
    vstd::arithmetic::div_mod::lemma_div_is_ordered(
        a * 1_000_000_000,
        b * 1_000_000_000,
        0x4000_0000,
    );
}

} // verus!
