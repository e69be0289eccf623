//! The binary32 interchange format of IEEE 754: the three fields of a 32-bit
//! pattern and the number that a finite pattern encodes.
//!
//! Every finite binary32 number is a whole multiple of 2^-149, so its
//! magnitude is modelled as a natural number of such units. Comparing two
//! numbers is then comparing two naturals.

use vstd::arithmetic::power2::*;
use vstd::prelude::*;

verus! {

/// Width of the fraction field in bits.
pub const FRACTION_BITS: u32 = 23;

/// Mask of the fraction field.
pub const FRACTION_MASK: u32 = 0x7f_ffff;

/// The leading significand bit that normal numbers carry implicitly.
pub const HIDDEN_BIT: u32 = 0x80_0000;

/// Largest exponent field; it marks infinities and NaNs.
pub const EXPONENT_MAX: u32 = 0xff;

/// Mask of the sign bit.
pub const SIGN_BIT: u32 = 0x8000_0000;

/// Binary logarithm of the number of units in one: finite magnitudes are
/// counted in steps of 2^-149.
pub const UNIT_LOG2: u32 = 149;

/// Whether the sign bit is set.
pub open spec fn sign_bit(bits: u32) -> bool {
    bits >= SIGN_BIT
}

/// The biased exponent field.
pub open spec fn exponent_field(bits: u32) -> nat {
    ((bits / HIDDEN_BIT) % 0x100) as nat
}

/// The fraction field.
pub open spec fn fraction_field(bits: u32) -> nat {
    (bits % HIDDEN_BIT) as nat
}

/// Whether the pattern encodes a number, rather than an infinity or a NaN.
pub open spec fn is_finite(bits: u32) -> bool {
    exponent_field(bits) < EXPONENT_MAX
}

/// The significand as an integer: the fraction, with the hidden bit in front
/// unless the exponent field is zero.
pub open spec fn significand(bits: u32) -> nat {
    if exponent_field(bits) == 0 {
        fraction_field(bits)
    } else {
        HIDDEN_BIT as nat + fraction_field(bits)
    }
}

/// Binary logarithm of the weight of the significand's last bit, in units.
pub open spec fn weight_log2(bits: u32) -> nat {
    if exponent_field(bits) == 0 {
        0
    } else {
        (exponent_field(bits) - 1) as nat
    }
}

/// The magnitude of a finite pattern in units of 2^-149.
pub open spec fn magnitude(bits: u32) -> nat {
    significand(bits) * pow2(weight_log2(bits))
}

/// The number of units in one, `2^149`.
pub open spec fn unit() -> nat {
    pow2(UNIT_LOG2 as nat)
}

/// Reads the sign bit.
pub fn is_negative(bits: u32) -> (negative: bool)
    ensures
        negative == sign_bit(bits),
{
    bits >= SIGN_BIT
}

/// Reads the biased exponent field.
pub fn exponent(bits: u32) -> (field: u32)
    ensures
        field == exponent_field(bits),
        field <= EXPONENT_MAX,
{
    assert((bits >> 23u32) & 0xffu32 == (bits / 0x80_0000u32) % 0x100u32) by (bit_vector);
    (bits >> FRACTION_BITS) & EXPONENT_MAX
}

/// Reads the fraction field.
pub fn fraction(bits: u32) -> (field: u32)
    ensures
        field == fraction_field(bits),
        field < HIDDEN_BIT,
{
    assert(bits & 0x7f_ffffu32 == bits % 0x80_0000u32) by (bit_vector);
    bits & FRACTION_MASK
}

/// Among patterns with a clear sign bit, a larger pattern encodes a larger
/// magnitude: the numbers are ordered as their patterns are.
pub proof fn lemma_magnitude_strictly_increases(a: u32, b: u32)
    requires
        a < b,
        !sign_bit(b),
    ensures
        magnitude(a) < magnitude(b),
{
    let ea = exponent_field(a);
    let eb = exponent_field(b);
    let sa = significand(a) as int;
    let sb = significand(b) as int;
    let wa = pow2(weight_log2(a)) as int;
    let wb = pow2(weight_log2(b)) as int;
    assert(a == ea * HIDDEN_BIT + fraction_field(a));
    assert(b == eb * HIDDEN_BIT + fraction_field(b));
    lemma_pow2_pos(weight_log2(a));
    lemma_pow2_pos(weight_log2(b));
    if ea == eb {
        assert(sa * wa < sb * wb) by (nonlinear_arith)
            requires
                sa < sb,
                wa == wb,
                wa > 0,
        ;
    } else {
        // The smaller number stays below the bottom of the larger one's binade.
        assert(ea < eb);
        assert(HIDDEN_BIT * wb <= sb * wb) by (nonlinear_arith)
            requires
                HIDDEN_BIT <= sb,
                wb > 0,
        ;
        if ea == 0 {
            lemma2_to64();
            assert(sa * wa < HIDDEN_BIT * wb) by (nonlinear_arith)
                requires
                    sa < HIDDEN_BIT,
                    wa == 1,
                    wb >= 1,
            ;
        } else {
            lemma_pow2_unfold(ea);
            if ea < eb - 1 {
                lemma_pow2_strictly_increases(ea, (eb - 1) as nat);
            }
            assert(sa * wa < HIDDEN_BIT * wb) by (nonlinear_arith)
                requires
                    sa < 2 * HIDDEN_BIT,
                    wa > 0,
                    2 * wa <= wb,
            ;
        }
    }
}

/// A pattern with a clear sign bit encodes zero only if it is zero itself,
/// and one with the sign bit set only if no other bit is set.
pub proof fn lemma_magnitude_zero(bits: u32)
    ensures
        magnitude(bits) == 0 <==> (bits == 0 || bits == SIGN_BIT),
{
    let s = significand(bits) as int;
    let w = pow2(weight_log2(bits)) as int;
    lemma_pow2_pos(weight_log2(bits));
    assert(bits == (bits / SIGN_BIT) * SIGN_BIT + exponent_field(bits) * HIDDEN_BIT
        + fraction_field(bits));
    assert(s * w == 0 <==> s == 0) by (nonlinear_arith)
        requires
            s >= 0,
            w > 0,
    ;
}

} // verus!
