//! IEEE-754 binary64 values carried as their bit patterns.
//!
//! A real-valued parameter is stored as the `u64` that `f64::to_bits` gives
//! for it; the predicates below characterise the classes of values that the
//! library's decisions depend on.

use vstd::prelude::*;
use vstd::arithmetic::power2::{lemma_pow2_pos, lemma_pow2_strictly_increases, lemma_pow2_unfold, pow2};

verus! {

/// Bit pattern of `0.0`.
pub const ZERO_BITS: u64 = 0x0000_0000_0000_0000;

/// Bit pattern of `0.1`.
pub const TENTH_BITS: u64 = 0x3FB9_9999_9999_999A;

/// Bit pattern of `0.5`.
pub const HALF_BITS: u64 = 0x3FE0_0000_0000_0000;

/// Bit pattern of `1.0`.
pub const ONE_BITS: u64 = 0x3FF0_0000_0000_0000;

/// Bit pattern of positive infinity; every larger magnitude is a NaN.
pub const INFINITY_BITS: u64 = 0x7FF0_0000_0000_0000;

/// Bit pattern of the quiet NaN that `f64::NAN` denotes.
pub const NAN_BITS: u64 = 0x7FF8_0000_0000_0000;

/// The sign bit.
pub const SIGN_BIT: u64 = 0x8000_0000_0000_0000;

/// The bits of a value with its sign cleared.
pub open spec fn magnitude(bits: u64) -> u64 {
    if bits >= SIGN_BIT {
        (bits - SIGN_BIT) as u64
    } else {
        bits
    }
}

/// The value is a NaN: all exponent bits set and a non-zero fraction.
pub open spec fn is_nan_bits(bits: u64) -> bool {
    magnitude(bits) > INFINITY_BITS
}

/// The value compares greater than `0.0`: positive sign, not zero, not NaN
/// (positive infinity included).
pub open spec fn is_positive_bits(bits: u64) -> bool {
    0 < bits <= INFINITY_BITS
}

/// Whether the value is greater than `0.0`.
pub fn is_positive(bits: u64) -> (r: bool)
    ensures
        r == is_positive_bits(bits),
{
    0 < bits && bits <= INFINITY_BITS
}

/// Whether the value is a NaN.
pub fn is_nan(bits: u64) -> (r: bool)
    ensures
        r == is_nan_bits(bits),
{
    let m = if bits >= SIGN_BIT { bits - SIGN_BIT } else { bits };
    m > INFINITY_BITS
}

/// The canonical NaN is a NaN, and no NaN compares greater than zero.
pub proof fn lemma_nan_bits()
    ensures
        is_nan_bits(NAN_BITS),
        forall|b: u64| is_nan_bits(b) ==> !is_positive_bits(b),
{
}

/// The value is finite: neither an infinity nor a NaN.
pub open spec fn is_finite_bits(bits: u64) -> bool {
    magnitude(bits) < INFINITY_BITS
}

/// Weight of the lowest exponent bit: `2^52`.
pub open spec fn fraction_scale() -> nat {
    0x10_0000_0000_0000
}

/// The biased exponent field (bits 52 to 62).
pub open spec fn exponent_field(bits: u64) -> nat {
    (magnitude(bits) / 0x10_0000_0000_0000u64) as nat
}

/// The fraction field (bits 0 to 51).
pub open spec fn fraction_field(bits: u64) -> nat {
    (magnitude(bits) % 0x10_0000_0000_0000u64) as nat
}

/// The magnitude of a finite value in units of `2^-1074`, the smallest
/// subnormal: a subnormal (exponent field 0) is `fraction * 2^-1074`, a
/// normal number is `(2^52 + fraction) * 2^(exponent - 1075)`.
pub open spec fn scaled_magnitude(bits: u64) -> nat {
    let e = exponent_field(bits);
    let f = fraction_field(bits);
    if e == 0 {
        f
    } else {
        (f + fraction_scale()) * pow2((e - 1) as nat)
    }
}

/// The value of a finite `f64` in units of `2^-1074` (an integer), signed
/// by the sign bit.
pub open spec fn scaled_value(bits: u64) -> int {
    if bits >= SIGN_BIT {
        -(scaled_magnitude(bits) as int)
    } else {
        scaled_magnitude(bits) as int
    }
}

/// Of two finite values, the one with the larger bits (sign cleared) has
/// the larger magnitude.
pub proof fn lemma_scaled_magnitude_strictly_increases(a: u64, b: u64)
    requires
        magnitude(a) < magnitude(b),
        is_finite_bits(b),
    ensures
        scaled_magnitude(a) < scaled_magnitude(b),
{
    let s = fraction_scale();
    let ma = magnitude(a) as int;
    let mb = magnitude(b) as int;
    let ea = exponent_field(a) as int;
    let eb = exponent_field(b) as int;
    let fa = fraction_field(a) as int;
    let fb = fraction_field(b) as int;
    assert(ma == ea * s + fa && 0 <= fa < s);
    assert(mb == eb * s + fb && 0 <= fb < s);
    assert(ea < eb || (ea == eb && fa < fb)) by (nonlinear_arith)
        requires
            ma == ea * s + fa,
            mb == eb * s + fb,
            0 <= fa < s,
            0 <= fb < s,
            ma < mb,
            s > 0,
    ;
    if ea == eb {
        if ea > 0 {
            let p = pow2((ea - 1) as nat);
            lemma_pow2_pos((ea - 1) as nat);
            assert((fa + s) * p < (fb + s) * p) by (nonlinear_arith)
                requires
                    fa < fb,
                    p > 0,
            ;
        }
    } else {
        let pb = pow2((eb - 1) as nat);
        lemma_pow2_pos((eb - 1) as nat);
        assert(s <= (fb + s) * pb) by (nonlinear_arith)
            requires
                fb >= 0,
                pb >= 1,
        ;
        if ea > 0 {
            let pa = pow2((ea - 1) as nat);
            lemma_pow2_pos((ea - 1) as nat);
            lemma_pow2_unfold(ea as nat);
            assert(pow2(ea as nat) == 2 * pa);
            if ea < eb - 1 {
                lemma_pow2_strictly_increases(ea as nat, (eb - 1) as nat);
            }
            assert(pow2(ea as nat) <= pb);
            assert((fa + s) * pa < s * pow2(ea as nat)) by (nonlinear_arith)
                requires
                    fa < s,
                    pa > 0,
                    pow2(ea as nat) == 2 * pa,
            ;
            assert(s * pow2(ea as nat) <= s * pb) by (nonlinear_arith)
                requires
                    pow2(ea as nat) <= pb,
                    s > 0,
            ;
            assert(s * pb <= (fb + s) * pb) by (nonlinear_arith)
                requires
                    fb >= 0,
                    pb >= 0,
            ;
        }
    }
}

/// A finite value has magnitude zero exactly when its bits, sign cleared,
/// are zero.
pub proof fn lemma_scaled_magnitude_zero(a: u64)
    requires
        is_finite_bits(a),
    ensures
        scaled_magnitude(a) == 0 <==> magnitude(a) == 0,
{
    if magnitude(a) > 0 {
        lemma_scaled_magnitude_strictly_increases(0, a);
    }
}

} // verus!
