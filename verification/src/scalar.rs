//! Single-precision scalars carried as raw 32-bit patterns.
//!
//! Verus has no theory of floating-point numbers, so every coordinate and
//! model parameter in this crate is the bit pattern of an IEEE 754
//! single-precision value, held in a `u32`. The arithmetic itself is done by
//! the `rustc_apfloat` software implementation behind trusted wrappers. Each
//! operation is a pure function of its operands' bit patterns, so its result
//! is given a name by an uninterpreted spec function, and all contracts of
//! the models are stated over those names.

use rustc_apfloat::Float;
use vstd::prelude::*;

verus! {

/// The bit pattern of the sum `a + b` (round to nearest, ties to even).
pub uninterp spec fn add_of(a: u32, b: u32) -> u32;

/// The bit pattern of the difference `a - b` (round to nearest, ties to even).
pub uninterp spec fn sub_of(a: u32, b: u32) -> u32;

/// The bit pattern of the product `a * b` (round to nearest, ties to even).
pub uninterp spec fn mul_of(a: u32, b: u32) -> u32;

/// Whether the value of `a` is ordered strictly below the value of `b`
/// (false whenever either operand is a NaN).
pub uninterp spec fn lt_of(a: u32, b: u32) -> bool;

/// The integer part of the value of `a`: truncation toward zero, with zero
/// for NaN and for values below zero (a finite single-precision value always
/// fits in 128 bits).
pub uninterp spec fn trunc_of(a: u32) -> u128;

/// The bit pattern of the single-precision value nearest to the integer `n`
/// (round to nearest, ties to even).
pub uninterp spec fn float_of_int(n: u32) -> u32;

/// Relies on rustc_apfloat's IEEE single-precision addition (`Single::add`,
/// round to nearest, ties to even), a pure function of the operands.
#[verifier::external_body]
pub(crate) fn add_bits(a: u32, b: u32) -> (r: u32)
    ensures
        r == add_of(a, b),
{
    let x = rustc_apfloat::ieee::Single::from_bits(a as u128);
    let y = rustc_apfloat::ieee::Single::from_bits(b as u128);
    (x + y).value.to_bits() as u32
}

/// Relies on rustc_apfloat's IEEE single-precision subtraction (`Single::sub`,
/// round to nearest, ties to even), a pure function of the operands.
#[verifier::external_body]
pub(crate) fn sub_bits(a: u32, b: u32) -> (r: u32)
    ensures
        r == sub_of(a, b),
{
    let x = rustc_apfloat::ieee::Single::from_bits(a as u128);
    let y = rustc_apfloat::ieee::Single::from_bits(b as u128);
    (x - y).value.to_bits() as u32
}

/// Relies on rustc_apfloat's IEEE single-precision multiplication
/// (`Single::mul`, round to nearest, ties to even), a pure function of the
/// operands.
#[verifier::external_body]
pub(crate) fn mul_bits(a: u32, b: u32) -> (r: u32)
    ensures
        r == mul_of(a, b),
{
    let x = rustc_apfloat::ieee::Single::from_bits(a as u128);
    let y = rustc_apfloat::ieee::Single::from_bits(b as u128);
    (x * y).value.to_bits() as u32
}

/// Relies on rustc_apfloat's IEEE comparison (`PartialOrd` on `Single`):
/// strict order on the values, false on NaN.
#[verifier::external_body]
pub(crate) fn lt_bits(a: u32, b: u32) -> (r: bool)
    ensures
        r == lt_of(a, b),
{
    let x = rustc_apfloat::ieee::Single::from_bits(a as u128);
    let y = rustc_apfloat::ieee::Single::from_bits(b as u128);
    x < y
}

/// Relies on rustc_apfloat's float-to-unsigned conversion
/// (`Single::to_u128_r` with rounding toward zero): truncation, zero for NaN
/// and for values below zero.
#[verifier::external_body]
pub(crate) fn trunc_bits(a: u32) -> (r: u128)
    ensures
        r == trunc_of(a),
{
    let x = rustc_apfloat::ieee::Single::from_bits(a as u128);
    let mut exact = false;
    x.to_u128_r(128, rustc_apfloat::Round::TowardZero, &mut exact).value
}

/// Relies on rustc_apfloat's unsigned-to-float conversion
/// (`Single::from_u128`, round to nearest, ties to even).
#[verifier::external_body]
pub(crate) fn int_to_bits(n: u32) -> (r: u32)
    ensures
        r == float_of_int(n),
{
    let x = rustc_apfloat::ieee::Single::from_u128(n as u128).value;
    x.to_bits() as u32
}

/// `r` is the integer square root of `n`.
pub open spec fn is_floor_sqrt(n: int, r: int) -> bool {
    0 <= r && r * r <= n && n < (r + 1) * (r + 1)
}

/// The integer square root of `n` (well defined for `n >= 0` by
/// `lemma_floor_sqrt_unique`).
pub open spec fn sqrt_floor(n: int) -> int {
    choose|r: int| is_floor_sqrt(n, r)
}

/// The integer square root is unique.
pub proof fn lemma_floor_sqrt_unique(n: int, a: int, b: int)
    requires
        is_floor_sqrt(n, a),
        is_floor_sqrt(n, b),
    ensures
        a == b,
{
    if a < b {
        assert((a + 1) * (a + 1) <= b * b) by (nonlinear_arith)
            requires
                0 <= a + 1 <= b,
        ;
    }
    if b < a {
        assert((b + 1) * (b + 1) <= a * a) by (nonlinear_arith)
            requires
                0 <= b + 1 <= a,
        ;
    }
}

/// The integer square root of `n`, by binary search.
pub fn isqrt(n: u128) -> (r: u128)
    ensures
        is_floor_sqrt(n as int, r as int),
        r as int == sqrt_floor(n as int),
{
    let mut lo: u128 = 0;
    let mut hi: u128 = 0x1_0000_0000_0000_0000;
    proof {
        assert((0x1_0000_0000_0000_0000int) * 0x1_0000_0000_0000_0000 > u128::MAX as int)
            by (nonlinear_arith);
    }
    while lo + 1 < hi
        invariant
            lo < hi <= 0x1_0000_0000_0000_0000,
            (lo as int) * (lo as int) <= n as int,
            (n as int) < (hi as int) * (hi as int),
        decreases hi - lo,
    {
        let mid = lo + (hi - lo) / 2;
        proof {
            assert((mid as int) * (mid as int) <= (0xFFFF_FFFF_FFFF_FFFFu64 as int) * (0xFFFF_FFFF_FFFF_FFFFu64 as int)) by (nonlinear_arith)
                requires
                    0 <= mid as int <= 0xFFFF_FFFF_FFFF_FFFFu64 as int,
            ;
            assert((0xFFFF_FFFF_FFFF_FFFFu64 as int) * (0xFFFF_FFFF_FFFF_FFFFu64 as int) <= u128::MAX as int)
                by (nonlinear_arith);
        }
        if mid * mid <= n {
            lo = mid;
        } else {
            hi = mid;
        }
    }
    proof {
        assert(is_floor_sqrt(n as int, lo as int));
        lemma_floor_sqrt_unique(n as int, lo as int, sqrt_floor(n as int));
    }
    lo
}

} // verus!
