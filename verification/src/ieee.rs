//! IEEE 754 binary64 / binary32 values held as their bit patterns.
//!
//! The library never handles a floating-point value itself: a double is kept
//! as the `u64` that `to_bits` gives, a single as the `u32`. The functions here
//! decide, on those bits, what Rust's float comparisons and casts decide.
use vstd::arithmetic::power2::*;
use vstd::bits::*;
use vstd::prelude::*;

verus! {

pub open spec fn f64_exponent(bits: u64) -> int {
    ((bits >> 52u64) & 0x7ffu64) as int
}

pub open spec fn f64_fraction(bits: u64) -> int {
    (bits & 0xf_ffff_ffff_ffffu64) as int
}

/// The sign bit is set (the value is negative, or -0.0, or a NaN with the bit set).
pub open spec fn f64_sign(bits: u64) -> bool {
    bits >= 0x8000_0000_0000_0000u64
}

pub open spec fn f64_is_nan(bits: u64) -> bool {
    f64_exponent(bits) == 0x7ff && f64_fraction(bits) != 0
}

/// The bits encode +0.0 or -0.0.
pub open spec fn f64_is_zero(bits: u64) -> bool {
    f64_exponent(bits) == 0 && f64_fraction(bits) == 0
}

/// `a == b` on the doubles that `a` and `b` encode: NaN equals nothing,
/// +0.0 equals -0.0, and otherwise equal values have equal encodings.
pub open spec fn f64_equal(a: u64, b: u64) -> bool {
    !f64_is_nan(a) && !f64_is_nan(b) && (a == b || (f64_is_zero(a) && f64_is_zero(b)))
}

/// The integer part of the magnitude of the finite double that `bits` encodes.
pub open spec fn f64_magnitude_floor(bits: u64) -> nat {
    let e = f64_exponent(bits);
    if e == 0 {
        0  // zero or subnormal: magnitude below 1

    } else {
        let m = (f64_fraction(bits) + pow2(52)) as nat;
        if e >= 1075 {
            m * pow2((e - 1075) as nat)
        } else {
            m / pow2((1075 - e) as nat)
        }
    }
}

/// Rust's `as` cast from a double to an unsigned integer type whose largest
/// value is `max`: rounds towards zero, NaN gives 0, out-of-range values
/// saturate (negative ones to 0, large ones and +inf to `max`).
pub open spec fn f64_to_unsigned(bits: u64, max: nat) -> nat {
    if f64_is_nan(bits) {
        0
    } else if f64_sign(bits) {
        0
    } else if f64_exponent(bits) == 0x7ff {
        max
    } else if f64_magnitude_floor(bits) > max {
        max
    } else {
        f64_magnitude_floor(bits)
    }
}

pub open spec fn f32_is_zero(bits: u32) -> bool {
    bits & 0x7fff_ffffu32 == 0
}

/// `a == b` for the doubles encoded by `a` and `b`.
pub fn f64_bits_equal(a: u64, b: u64) -> (r: bool)
    ensures
        r == f64_equal(a, b),
{
    let ea = (a >> 52u64) & 0x7ffu64;
    let fa = a & 0xf_ffff_ffff_ffffu64;
    let eb = (b >> 52u64) & 0x7ffu64;
    let fb = b & 0xf_ffff_ffff_ffffu64;
    let nan_a = ea == 0x7ff && fa != 0;
    let nan_b = eb == 0x7ff && fb != 0;
    let zero_a = ea == 0 && fa == 0;
    let zero_b = eb == 0 && fb == 0;
    !nan_a && !nan_b && (a == b || (zero_a && zero_b))
}

/// `x != 0.0` for the double encoded by `bits` (true for NaN).
pub fn f64_bits_nonzero(bits: u64) -> (r: bool)
    ensures
        r == !f64_is_zero(bits),
{
    let e = (bits >> 52u64) & 0x7ffu64;
    let f = bits & 0xf_ffff_ffff_ffffu64;
    !(e == 0 && f == 0)
}

/// `x != 0.0` for the single encoded by `bits` (true for NaN).
pub fn f32_bits_nonzero(bits: u32) -> (r: bool)
    ensures
        r == !f32_is_zero(bits),
{
    bits & 0x7fff_ffffu32 != 0
}

/// `x as u64` (when `max` is `u64::MAX`) or `x as u8` (when `max` is 255)
/// for the double `x` encoded by `bits`.
pub fn f64_bits_to_unsigned(bits: u64, max: u64) -> (r: u64)
    ensures
        r as nat == f64_to_unsigned(bits, max as nat),
{
    let e = (bits >> 52u64) & 0x7ffu64;
    let f = bits & 0xf_ffff_ffff_ffffu64;
    proof {
        lemma2_to64();
        lemma2_to64_rest();
    }
    if e == 0x7ff && f != 0 {
        return 0;
    }
    if bits >= 0x8000_0000_0000_0000u64 {
        return 0;
    }
    if e == 0x7ff {
        return max;
    }
    if e < 1023 {
        // magnitude below 1
        proof {
            if e != 0 {
                let m = (f + pow2(52)) as nat;
                assert(f < 0x10_0000_0000_0000) by (bit_vector)
                    requires
                        f == bits & 0xf_ffff_ffff_ffffu64,
                ;
                if 1075 - e > 53 {
                    lemma_pow2_strictly_increases(53, (1075 - e) as nat);
                }
                assert(m < pow2((1075 - e) as nat));
                vstd::arithmetic::div_mod::lemma_basic_div(m as int, pow2((1075 - e) as nat) as int);
            }
        }
        return 0;
    }
    let m: u64 = f | 0x10_0000_0000_0000u64;
    assert(m == f + 0x10_0000_0000_0000u64) by (bit_vector)
        requires
            f == bits & 0xf_ffff_ffff_ffffu64,
            m == f | 0x10_0000_0000_0000u64,
    ;
    assert(f < 0x10_0000_0000_0000) by (bit_vector)
        requires
            f == bits & 0xf_ffff_ffff_ffffu64,
    ;
    if e >= 1087 {
        // magnitude at least 2^64
        proof {
            let m_n = (f + pow2(52)) as nat;
            lemma_pow2_pos((e - 1087) as nat);
            lemma_pow2_adds((e - 1087) as nat, 12);
            assert(pow2((e - 1075) as nat) >= pow2(12)) by {
                vstd::arithmetic::mul::lemma_mul_inequality(
                    1,
                    pow2((e - 1087) as nat) as int,
                    pow2(12) as int,
                );
            }
            assert(m_n * pow2((e - 1075) as nat) >= pow2(52) * pow2(12)) by (nonlinear_arith)
                requires
                    m_n >= pow2(52),
                    pow2((e - 1075) as nat) >= pow2(12),
            ;
            lemma_pow2_adds(52, 12);
            assert(f64_magnitude_floor(bits) > max);
        }
        return max;
    }
    let floor: u64 = if e >= 1075 {
        let shift: u64 = e - 1075;
        proof {
            lemma_pow2_adds(53, shift as nat);
            if shift < 11 {
                lemma_pow2_strictly_increases(shift as nat, 11);
            }
            lemma_pow2_pos(shift as nat);
            assert(m * pow2(shift as nat) < pow2(53) * pow2(11)) by (nonlinear_arith)
                requires
                    m < pow2(53),
                    0 < pow2(shift as nat) <= pow2(11),
            ;
            lemma_pow2_adds(53, 11);
            lemma_u64_shl_is_mul(m, shift);
        }
        m << shift
    } else {
        let shift: u64 = 1075 - e;
        proof {
            lemma_u64_shr_is_div(m, shift);
        }
        m >> shift
    };
    if floor > max {
        max
    } else {
        floor
    }
}

} // verus!
