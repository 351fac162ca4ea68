//! The order of IEEE 754 binary32 numbers, on their bit patterns.
//!
//! Radii, centres and densities travel as bit patterns. Copying them needs
//! nothing more; choosing a band and noticing a change need `<` and `==`,
//! which are exact and are decided here on the patterns.

use vstd::arithmetic::power2::*;
use vstd::prelude::*;

verus! {

/// The pattern of 0.0.
pub const ZERO: u32 = 0;

/// The pattern of 1.0.
pub const ONE: u32 = 0x3f80_0000;

/// The pattern of -1.0.
pub const MINUS_ONE: u32 = 0xbf80_0000;

/// The pattern without its sign bit.
pub open spec fn magnitude(bits: u32) -> nat {
    (if bits >= 0x8000_0000 {
        bits - 0x8000_0000
    } else {
        bits as int
    }) as nat
}

/// Whether the pattern is not a number.
pub open spec fn is_nan(bits: u32) -> bool {
    magnitude(bits) > 0x7f80_0000
}

/// The absolute value that a sign-free pattern stands for, in units of the
/// smallest subnormal (2^-149). Infinity gets the value that would follow the
/// largest finite number, so it lies above all of them.
pub open spec fn scaled_magnitude(m: nat) -> nat {
    let exponent = m / 0x80_0000;
    let fraction = m % 0x80_0000;
    if exponent == 0 {
        fraction
    } else {
        (0x80_0000 + fraction) * pow2((exponent - 1) as nat)
    }
}

/// The value that a pattern stands for, in units of 2^-149. Both zeros have
/// the value 0.
pub open spec fn scaled_value(bits: u32) -> int {
    if bits >= 0x8000_0000 {
        -(scaled_magnitude(magnitude(bits)) as int)
    } else {
        scaled_magnitude(magnitude(bits)) as int
    }
}

/// `a < b` on the numbers: false where either is not a number.
pub open spec fn lt(a: u32, b: u32) -> bool {
    !is_nan(a) && !is_nan(b) && scaled_value(a) < scaled_value(b)
}

/// `a == b` on the numbers: false where either is not a number, true for the
/// two zeros.
pub open spec fn eq(a: u32, b: u32) -> bool {
    !is_nan(a) && !is_nan(b) && scaled_value(a) == scaled_value(b)
}

/// A larger sign-free pattern stands for a larger absolute value.
pub proof fn magnitude_order(m: nat, n: nat)
    requires
        m < n,
    ensures
        scaled_magnitude(m) < scaled_magnitude(n),
{
    let em = m / 0x80_0000;
    let en = n / 0x80_0000;
    let fm = m % 0x80_0000;
    let fn_ = n % 0x80_0000;
    if em == en {
        if em != 0 {
            let p = pow2((em - 1) as nat);
            lemma_pow2_pos((em - 1) as nat);
            assert((0x80_0000 + fm) * p < (0x80_0000 + fn_) * p) by (nonlinear_arith)
                requires
                    fm < fn_,
                    p > 0,
            ;
        }
    } else {
        assert(em < en);
        let q = pow2((en - 1) as nat);
        lemma_pow2_pos((en - 1) as nat);
        assert((0x80_0000 + fn_) * q >= 0x80_0000 * q) by (nonlinear_arith);
        if em == 0 {
            assert(0x80_0000 * q >= 0x80_0000) by (nonlinear_arith)
                requires
                    q > 0,
            ;
        } else {
            let p = pow2((em - 1) as nat);
            lemma_pow2_pos((em - 1) as nat);
            assert((0x80_0000 + fm) * p < 0x100_0000 * p) by (nonlinear_arith)
                requires
                    fm < 0x80_0000,
                    p > 0,
            ;
            lemma_pow2_unfold(em);
            if em < en - 1 {
                lemma_pow2_strictly_increases(em, (en - 1) as nat);
            }
        }
    }
}

/// The patterns of the values compare as the patterns themselves.
proof fn value_order(a: u32, b: u32)
    ensures
        magnitude(a) < magnitude(b) <==> scaled_magnitude(magnitude(a)) < scaled_magnitude(
            magnitude(b),
        ),
        magnitude(a) == 0 <==> scaled_magnitude(magnitude(a)) == 0,
        magnitude(b) == 0 <==> scaled_magnitude(magnitude(b)) == 0,
{
    let m = magnitude(a);
    let n = magnitude(b);
    if m < n {
        magnitude_order(m, n);
    }
    if n < m {
        magnitude_order(n, m);
    }
    if m > 0 {
        magnitude_order(0, m);
    }
    if n > 0 {
        magnitude_order(0, n);
    }
}

/// The pattern without its sign bit: that of the absolute value.
pub fn abs(bits: u32) -> (r: u32)
    ensures
        r == magnitude(bits),
{
    if bits >= 0x8000_0000 {
        bits - 0x8000_0000
    } else {
        bits
    }
}

/// Whether the number of pattern `a` is less than that of pattern `b`.
pub fn less(a: u32, b: u32) -> (r: bool)
    ensures
        r == lt(a, b),
{
    let m: u32 = abs(a);
    let n: u32 = abs(b);
    proof {
        value_order(a, b);
        value_order(b, a);
    }
    if m > 0x7f80_0000 || n > 0x7f80_0000 {
        false
    } else if a < 0x8000_0000 {
        b < 0x8000_0000 && m < n
    } else if b < 0x8000_0000 {
        m != 0 || n != 0
    } else {
        n < m
    }
}

/// Whether the numbers of the two patterns are equal.
pub fn equal(a: u32, b: u32) -> (r: bool)
    ensures
        r == eq(a, b),
{
    let m: u32 = abs(a);
    let n: u32 = abs(b);
    proof {
        value_order(a, b);
        value_order(b, a);
    }
    if m > 0x7f80_0000 || n > 0x7f80_0000 {
        false
    } else {
        a == b || (m == 0 && n == 0)
    }
}

/// Zero is less than one.
pub proof fn zero_is_below_one()
    ensures
        lt(ZERO, ONE),
{
    magnitude_order(0, ONE as nat);
}

/// Of two numbers exactly one of less, equal and greater holds.
pub proof fn trichotomy(a: u32, b: u32)
    requires
        !is_nan(a),
        !is_nan(b),
    ensures
        lt(a, b) || eq(a, b) || lt(b, a),
        !(lt(a, b) && eq(a, b)),
        !(lt(a, b) && lt(b, a)),
        !(eq(a, b) && lt(b, a)),
{
}

/// The order is transitive.
pub proof fn transitivity(a: u32, b: u32, c: u32)
    requires
        lt(a, b),
        lt(b, c),
    ensures
        lt(a, c),
{
}

/// A pattern that is not a number is neither less than, equal to nor greater
/// than any pattern, itself among them.
pub proof fn nan_is_unordered(a: u32, b: u32)
    requires
        is_nan(a),
    ensures
        !lt(a, b),
        !lt(b, a),
        !eq(a, b),
        !eq(b, a),
{
}

/// Numbers that are not negative compare as their patterns do, negative ones
/// the other way round; the two zeros are equal, and every other negative
/// number lies below every number that is not negative.
pub proof fn patterns_order_numbers(a: u32, b: u32)
    requires
        !is_nan(a),
        !is_nan(b),
    ensures
        a < 0x8000_0000 && b < 0x8000_0000 ==> (lt(a, b) <==> a < b) && (eq(a, b) <==> a == b),
        a >= 0x8000_0000 && b >= 0x8000_0000 ==> (lt(a, b) <==> b < a) && (eq(a, b) <==> a == b),
        a > 0x8000_0000 && b < 0x8000_0000 ==> lt(a, b) && !eq(a, b) && !lt(b, a),
        a == 0x8000_0000 && b < 0x8000_0000 ==> (lt(a, b) <==> b > 0) && (eq(a, b) <==> b == 0),
{
    value_order(a, b);
    value_order(b, a);
}

/// Not a number is what has all exponent bits set and some fraction bit.
pub proof fn numbers_are_up_to_infinity(bits: u32)
    ensures
        bits <= 0x7f80_0000 ==> !is_nan(bits),
        0x7f80_0000 < bits < 0x8000_0000 ==> is_nan(bits),
        0x8000_0000 <= bits <= 0xff80_0000 ==> !is_nan(bits),
        bits > 0xff80_0000 ==> is_nan(bits),
{
}

/// The pattern without its sign bit stands for the absolute value.
pub proof fn magnitude_is_absolute(bits: u32)
    ensures
        magnitude(bits) < 0x8000_0000,
        bits < 0x8000_0000 ==> magnitude(bits) == bits,
        bits >= 0x8000_0000 ==> magnitude(bits) + 0x8000_0000 == bits,
        scaled_value(magnitude(bits) as u32) >= 0,
        scaled_value(magnitude(bits) as u32) == scaled_value(bits) || scaled_value(
            magnitude(bits) as u32,
        ) == -scaled_value(bits),
{
}

/// Equal numbers compare alike with any third.
pub proof fn equals_compare_alike(a: u32, b: u32, c: u32)
    requires
        eq(a, b),
    ensures
        eq(b, a),
        lt(a, c) == lt(b, c),
        lt(c, a) == lt(c, b),
        eq(a, c) == eq(b, c),
{
}

} // verus!
