use vstd::arithmetic::div_mod::lemma_div_denominator;
use vstd::arithmetic::mul::{lemma_mul_inequality, lemma_mul_upper_bound};
use vstd::arithmetic::power2::{
    lemma2_to64, lemma_pow2_adds, lemma_pow2_pos, lemma_pow2_strictly_increases,
    lemma_pow2_unfold, pow2,
};
use vstd::prelude::*;

verus! {

/// 2 to the power 52: the weight of the hidden bit of a binary64 number.
pub const HIDDEN_BIT: u64 = 0x10_0000_0000_0000;

/// 2 to the power 63: the sign bit of a binary64 number.
pub const SIGN_BIT: u64 = 0x8000_0000_0000_0000;

/// Whether the sign bit of the pattern is set.
pub open spec fn float_negative(bits: u64) -> bool {
    bits >= SIGN_BIT
}

/// The biased exponent of the pattern, 0 to 2047.
pub open spec fn float_exponent(bits: u64) -> int {
    (bits as int / HIDDEN_BIT as int) % 2048
}

/// The 52 fraction bits of the pattern.
pub open spec fn float_fraction(bits: u64) -> int {
    bits as int % HIDDEN_BIT as int
}

/// Whether the pattern is not a number.
pub open spec fn float_is_nan(bits: u64) -> bool {
    float_exponent(bits) == 2047 && float_fraction(bits) != 0
}

/// Whether the pattern is an infinity.
pub open spec fn float_is_infinite(bits: u64) -> bool {
    float_exponent(bits) == 2047 && float_fraction(bits) == 0
}

/// Whether the pattern is one of the two zeros.
pub open spec fn float_is_zero(bits: u64) -> bool {
    float_exponent(bits) == 0 && float_fraction(bits) == 0
}

/// The whole part of the magnitude of a finite number: its significand
/// scaled by its exponent, what lies behind the point cut off.
pub open spec fn float_magnitude(bits: u64) -> nat {
    let e = float_exponent(bits);
    let significand = HIDDEN_BIT as int + float_fraction(bits);
    if e < 1023 {
        0
    } else if e >= 1075 {
        (significand * pow2((e - 1075) as nat)) as nat
    } else {
        (significand / pow2((1075 - e) as nat) as int) as nat
    }
}

/// The number cut off toward zero, for a finite pattern.
pub open spec fn float_truncated(bits: u64) -> int {
    if float_negative(bits) {
        -(float_magnitude(bits) as int)
    } else {
        float_magnitude(bits) as int
    }
}

/// The integer between `lo` and `hi` that a cast of the number gives:
/// 0 for what is not a number, the nearer bound for what lies outside,
/// the number cut off toward zero otherwise.
pub open spec fn float_cast(bits: u64, lo: int, hi: int) -> int {
    if float_is_nan(bits) {
        0
    } else if float_is_infinite(bits) {
        if float_negative(bits) {
            lo
        } else {
            hi
        }
    } else if float_truncated(bits) < lo {
        lo
    } else if float_truncated(bits) > hi {
        hi
    } else {
        float_truncated(bits)
    }
}

/// Equality of two numbers as IEEE 754 has it: nothing equals what is
/// not a number, and the two zeros are equal.
pub open spec fn float_same(a: u64, b: u64) -> bool {
    !float_is_nan(a) && !float_is_nan(b) && (a == b || (float_is_zero(a) && float_is_zero(b)))
}

proof fn lemma_pow2_values()
    ensures
        pow2(52) == 0x10_0000_0000_0000,
        pow2(53) == 0x20_0000_0000_0000,
        pow2(73) == 0x200_0000_0000_0000_0000,
        pow2(74) == 0x400_0000_0000_0000_0000,
        pow2(75) == 0x800_0000_0000_0000_0000,
{
    lemma2_to64();
    lemma_pow2_adds(32, 20);
    lemma_pow2_adds(32, 21);
    lemma_pow2_adds(64, 9);
    lemma_pow2_adds(64, 10);
    lemma_pow2_adds(64, 11);
}

proof fn lemma_pow2_monotone(a: nat, b: nat)
    requires
        a <= b,
    ensures
        pow2(a) <= pow2(b),
{
    if a < b {
        lemma_pow2_strictly_increases(a, b);
    }
}

/// Whether the pattern is not a number.
pub fn is_nan(bits: u64) -> (yes: bool)
    ensures
        yes == float_is_nan(bits),
{
    (bits / HIDDEN_BIT) % 2048 == 2047 && bits % HIDDEN_BIT != 0
}

/// Whether the pattern is one of the two zeros.
pub fn is_zero(bits: u64) -> (yes: bool)
    ensures
        yes == float_is_zero(bits),
{
    (bits / HIDDEN_BIT) % 2048 == 0 && bits % HIDDEN_BIT == 0
}

/// Compares two numbers as IEEE 754 does.
pub fn same_float(a: u64, b: u64) -> (same: bool)
    ensures
        same == float_same(a, b),
{
    !is_nan(a) && !is_nan(b) && (a == b || (is_zero(a) && is_zero(b)))
}

/// The cast of the number to a signed 128-bit integer.
pub fn float_to_i128(bits: u64) -> (n: i128)
    ensures
        n == float_cast(bits, i128::MIN as int, i128::MAX as int),
{
    let negative = bits >= SIGN_BIT;
    let exponent: u64 = (bits / HIDDEN_BIT) % 2048;
    let fraction: u64 = bits % HIDDEN_BIT;
    if exponent == 2047 {
        if fraction != 0 {
            return 0;
        }
        return if negative {
            i128::MIN
        } else {
            i128::MAX
        };
    }
    if exponent < 1023 {
        return 0;
    }
    let significand: u128 = (HIDDEN_BIT + fraction) as u128;
    proof {
        lemma_pow2_values();
        lemma2_to64();
        assert(significand * pow2(0) == significand) by (nonlinear_arith)
            requires
                pow2(0) == 1,
        ;
    }
    let mut acc: u128 = significand;
    let mut i: u64 = 0;
    if exponent >= 1075 {
        let shift: u64 = exponent - 1075;
        if shift >= 75 {
            proof {
                lemma_pow2_monotone(75, shift as nat);
                lemma_mul_inequality(pow2(75) as int, pow2(shift as nat) as int, significand as int);
                lemma_mul_inequality(
                    HIDDEN_BIT as int,
                    significand as int,
                    pow2(75) as int,
                );
                assert(significand * pow2(shift as nat) >= 0x8000_0000_0000_0000_0000_0000_0000_0000)
                    by (nonlinear_arith)
                    requires
                        significand * pow2(75) <= significand * pow2(shift as nat)
                            || pow2(75) * significand <= pow2(shift as nat) * significand,
                        HIDDEN_BIT * pow2(75) <= significand * pow2(75),
                        HIDDEN_BIT == 0x10_0000_0000_0000,
                        pow2(75) == 0x800_0000_0000_0000_0000,
                ;
            }
            return if negative {
                i128::MIN
            } else {
                i128::MAX
            };
        }
        while i < shift
            invariant
                i <= shift < 75,
                HIDDEN_BIT <= significand < 2 * HIDDEN_BIT,
                acc == significand * pow2(i as nat),
            decreases shift - i,
        {
            proof {
                lemma_pow2_monotone(i as nat, 73);
                lemma_pow2_values();
                lemma_mul_upper_bound(
                    significand as int,
                    2 * HIDDEN_BIT as int,
                    pow2(i as nat) as int,
                    pow2(73) as int,
                );
                lemma_pow2_unfold((i + 1) as nat);
                assert(significand * pow2((i + 1) as nat) == 2 * (significand * pow2(i as nat)))
                    by (nonlinear_arith)
                    requires
                        pow2((i + 1) as nat) == 2 * pow2(i as nat),
                ;
            }
            acc = acc * 2;
            i += 1;
        }
    } else {
        let shift: u64 = 1075 - exponent;
        proof {
            lemma2_to64();
        }
        while i < shift
            invariant
                i <= shift <= 52,
                acc == significand as int / pow2(i as nat) as int,
            decreases shift - i,
        {
            proof {
                lemma_pow2_pos(i as nat);
                lemma_pow2_unfold((i + 1) as nat);
                lemma_div_denominator(significand as int, pow2(i as nat) as int, 2);
                assert(pow2(i as nat) * 2 == pow2((i + 1) as nat));
            }
            acc = acc / 2;
            i += 1;
        }
    }
    assert(acc == float_magnitude(bits));
    proof {
        lemma_pow2_monotone(i as nat, 74);
        lemma_pow2_pos(i as nat);
        if exponent >= 1075 {
            lemma_mul_upper_bound(
                significand as int,
                2 * HIDDEN_BIT - 1,
                pow2(i as nat) as int,
                pow2(74) as int,
            );
            assert((2 * HIDDEN_BIT - 1) * pow2(74) < 0x8000_0000_0000_0000_0000_0000_0000_0000)
                by (nonlinear_arith)
                requires
                    HIDDEN_BIT == 0x10_0000_0000_0000,
                    pow2(74) == 0x400_0000_0000_0000_0000,
            ;
        } else {
            assert(significand as int / pow2(i as nat) as int <= significand) by (nonlinear_arith)
                requires
                    pow2(i as nat) >= 1,
                    significand >= 0,
            ;
        }
    }
    assert(acc < 0x8000_0000_0000_0000_0000_0000_0000_0000);
    if negative {
        -(acc as i128)
    } else {
        acc as i128
    }
}

} // verus!
