//! What holds of the duty value: it does not depend on how an angle or a
//! pulse width is written, it never decreases as the angle grows, and it stays
//! between the duty values of the shortest and the longest pulse.

use crate::binary32::{
    exponent_field, lemma_magnitude_strictly_increases, lemma_magnitude_zero, magnitude,
    sign_bit, significand, unit, weight_log2, SIGN_BIT, UNIT_LOG2,
};
use crate::bounds::clamped;
use crate::servo::{
    duty_of_angle, duty_of_bits, duty_of_pulse, max_duty, min_duty, pulse_den, pulse_num,
    shift_of, valid_angle, MAX_ANGLE_BITS, SERVO_MAX_ANGLE, SERVO_MAX_PULSEWIDTH_US,
    SERVO_MIN_PULSEWIDTH_US, US_TO_DUTY_DEN, US_TO_DUTY_NUM,
};
use vstd::arithmetic::div_mod::*;
use vstd::arithmetic::power2::*;
use vstd::prelude::*;

verus! {

/// The formulas with the constants written out, which makes them linear.
pub(crate) proof fn lemma_linear_forms(num: int, den: int)
    ensures
        pulse_num(num, den) == 1900 * num + 54000 * den,
        pulse_den(den) == 180 * den,
        duty_of_pulse(num, den) == (65535 * num) / (20000 * den),
{
    assert(num * US_TO_DUTY_NUM == 65535 * num) by (nonlinear_arith);
    assert(den * US_TO_DUTY_DEN == 20000 * den) by (nonlinear_arith);
    assert(pulse_num(num, den) == 1900 * num + 54000 * den) by (nonlinear_arith);
    assert(pulse_den(den) == 180 * den) by (nonlinear_arith);
}

/// Writing a pulse width with a larger denominator does not change its duty
/// value.
pub proof fn lemma_duty_of_pulse_scales(num: int, den: int, factor: int)
    requires
        0 <= num,
        0 < den,
        0 < factor,
    ensures
        duty_of_pulse(factor * num, factor * den) == duty_of_pulse(num, den),
{
    lemma_linear_forms(num, den);
    lemma_linear_forms(factor * num, factor * den);
    assert(65535 * (factor * num) == factor * (65535 * num)) by (nonlinear_arith);
    assert(20000 * (factor * den) == factor * (20000 * den)) by (nonlinear_arith);
    lemma_div_multiples_vanish_quotient(factor, 65535 * num, 20000 * den);
}

/// A longer pulse never has a smaller duty value, however the two pulse
/// widths are written.
pub proof fn lemma_duty_of_pulse_monotonic(num1: int, den1: int, num2: int, den2: int)
    requires
        0 <= num1,
        0 <= num2,
        0 < den1,
        0 < den2,
        num1 * den2 <= num2 * den1,
    ensures
        duty_of_pulse(num1, den1) <= duty_of_pulse(num2, den2),
{
    let den = den2 * den1;
    assert(den == den1 * den2 && den > 0) by (nonlinear_arith)
        requires
            den == den2 * den1,
            0 < den1,
            0 < den2,
    ;
    let left = den2 * num1;
    let right = den1 * num2;
    assert(0 <= left <= right) by (nonlinear_arith)
        requires
            num1 * den2 <= num2 * den1,
            left == den2 * num1,
            right == den1 * num2,
            0 <= num1,
            0 < den2,
    ;
    lemma_duty_of_pulse_scales(num1, den1, den2);
    lemma_duty_of_pulse_scales(num2, den2, den1);
    lemma_linear_forms(left, den);
    lemma_linear_forms(right, den);
    lemma_div_is_ordered(65535 * left, 65535 * right, 20000 * den);
}

/// A larger angle never has a smaller duty value, however the two angles are
/// written.
pub proof fn lemma_duty_of_angle_monotonic(num1: int, den1: int, num2: int, den2: int)
    requires
        0 <= num1,
        0 <= num2,
        0 < den1,
        0 < den2,
        num1 * den2 <= num2 * den1,
    ensures
        duty_of_angle(num1, den1) <= duty_of_angle(num2, den2),
{
    lemma_linear_forms(num1, den1);
    lemma_linear_forms(num2, den2);
    assert((1900 * num1 + 54000 * den1) * (180 * den2) <= (1900 * num2 + 54000 * den2) * (180
        * den1)) by (nonlinear_arith)
        requires
            num1 * den2 <= num2 * den1,
    ;
    lemma_duty_of_pulse_monotonic(
        pulse_num(num1, den1),
        pulse_den(den1),
        pulse_num(num2, den2),
        pulse_den(den2),
    );
}

/// Writing an angle with a larger denominator does not change its duty value.
pub proof fn lemma_duty_of_angle_scales(num: int, den: int, factor: int)
    requires
        0 <= num,
        0 < den,
        0 < factor,
    ensures
        duty_of_angle(factor * num, factor * den) == duty_of_angle(num, den),
{
    let scaled_num = factor * num;
    let scaled_den = factor * den;
    assert(0 <= scaled_num && 0 < scaled_den && scaled_num * den == num * scaled_den)
        by (nonlinear_arith)
        requires
            scaled_num == factor * num,
            scaled_den == factor * den,
            0 <= num,
            0 < den,
            0 < factor,
    ;
    lemma_duty_of_angle_monotonic(scaled_num, scaled_den, num, den);
    lemma_duty_of_angle_monotonic(num, den, scaled_num, scaled_den);
}

/// The duty value of a pulse that the servo accepts lies between those of
/// the shortest and the longest pulse.
pub proof fn lemma_duty_of_pulse_within_limits(num: int, den: int)
    requires
        0 < den,
        SERVO_MIN_PULSEWIDTH_US * den <= num <= SERVO_MAX_PULSEWIDTH_US * den,
    ensures
        min_duty() <= duty_of_pulse(num, den) <= max_duty(),
{
    assert(300 * den <= num * 1 && num * 1 <= 2200 * den) by (nonlinear_arith)
        requires
            SERVO_MIN_PULSEWIDTH_US * den <= num <= SERVO_MAX_PULSEWIDTH_US * den,
    ;
    lemma_duty_of_pulse_monotonic(SERVO_MIN_PULSEWIDTH_US as int, 1, num, den);
    lemma_duty_of_pulse_monotonic(num, den, SERVO_MAX_PULSEWIDTH_US as int, 1);
}

/// The shortest pulse lasts 983 ticks and the longest 7208.
pub proof fn lemma_duty_limits()
    ensures
        min_duty() == 983,
        max_duty() == 7208,
{
    lemma_linear_forms(SERVO_MIN_PULSEWIDTH_US as int, 1);
    lemma_linear_forms(SERVO_MAX_PULSEWIDTH_US as int, 1);
}

/// An angle of at most a sixty-fourth of a degree has the duty value of the
/// shortest pulse: it adds less to the pulse than is missing to the next tick.
pub proof fn lemma_duty_of_small_angle(num: int, den: int)
    requires
        0 <= num,
        0 < den,
        64 * num <= den,
    ensures
        duty_of_angle(num, den) == min_duty(),
{
    lemma_duty_limits();
    lemma_linear_forms(num, den);
    lemma_linear_forms(pulse_num(num, den), pulse_den(den));
    let ticks = 65535 * (1900 * num + 54000 * den);
    let period = 20000 * (180 * den);
    lemma_fundamental_div_mod_converse(ticks, period, 983, ticks - 983 * period);
}

/// The pattern of `SERVO_MAX_ANGLE` encodes that many degrees.
pub proof fn lemma_max_angle_bits()
    ensures
        magnitude(MAX_ANGLE_BITS) == SERVO_MAX_ANGLE * unit(),
{
    lemma2_to64();
    lemma_pow2_adds(16, 133);
    assert(exponent_field(MAX_ANGLE_BITS) == 134);
    assert(significand(MAX_ANGLE_BITS) == SERVO_MAX_ANGLE * 0x1_0000);
    let w = pow2(133) as int;
    assert((SERVO_MAX_ANGLE * 0x1_0000) * w == SERVO_MAX_ANGLE * (0x1_0000 * w))
        by (nonlinear_arith);
}

/// The valid angles are the patterns from that of zero up to that of
/// `SERVO_MAX_ANGLE`, and the pattern of negative zero.
pub proof fn lemma_valid_angle_patterns(bits: u32)
    ensures
        valid_angle(bits) <==> (bits <= MAX_ANGLE_BITS || bits == SIGN_BIT),
{
    lemma_max_angle_bits();
    lemma_magnitude_zero(bits);
    if sign_bit(bits) {
        if bits == SIGN_BIT {
            assert(exponent_field(bits) == 0);
        }
    } else if bits < MAX_ANGLE_BITS {
        lemma_magnitude_strictly_increases(bits, MAX_ANGLE_BITS);
        assert(exponent_field(bits) <= 134);
    } else if bits > MAX_ANGLE_BITS {
        lemma_magnitude_strictly_increases(MAX_ANGLE_BITS, bits);
    } else {
        assert(exponent_field(MAX_ANGLE_BITS) == 134);
    }
}

/// A valid angle is its significand over a power of two, and its duty value
/// is that of this fraction. The significand is below `2^24`, the power of
/// two is at least `2^16`.
pub proof fn lemma_duty_of_bits_reduced(angle: u32)
    requires
        valid_angle(angle),
    ensures
        weight_log2(angle) <= 133,
        significand(angle) <= SERVO_MAX_ANGLE * pow2(shift_of(angle)),
        duty_of_bits(angle) == duty_of_angle(
            significand(angle) as int,
            pow2(shift_of(angle)) as int,
        ),
{
    lemma_valid_angle_patterns(angle);
    assert(exponent_field(angle) <= 134);
    let sig = significand(angle) as int;
    let den = pow2(shift_of(angle)) as int;
    let rest = pow2(weight_log2(angle)) as int;
    lemma_pow2_pos(shift_of(angle));
    lemma_pow2_pos(weight_log2(angle));
    lemma_pow2_adds(weight_log2(angle), shift_of(angle));
    assert(unit() == rest * den);
    assert(magnitude(angle) == rest * sig) by (nonlinear_arith)
        requires
            magnitude(angle) == sig * rest,
    ;
    lemma_duty_of_angle_scales(sig, den, rest);
    assert(sig <= SERVO_MAX_ANGLE * den) by (nonlinear_arith)
        requires
            rest * sig <= SERVO_MAX_ANGLE * (rest * den),
            rest > 0,
    ;
}

/// The pulse width of an angle from 0 to `SERVO_MAX_ANGLE` degrees is one
/// the servo accepts, so bounding it changes nothing.
pub proof fn lemma_pulse_within_limits(num: int, den: int)
    requires
        0 < den,
        0 <= num <= SERVO_MAX_ANGLE * den,
    ensures
        SERVO_MIN_PULSEWIDTH_US * pulse_den(den) <= pulse_num(num, den)
            <= SERVO_MAX_PULSEWIDTH_US * pulse_den(den),
        clamped(
            pulse_num(num, den),
            SERVO_MIN_PULSEWIDTH_US * pulse_den(den),
            SERVO_MAX_PULSEWIDTH_US * pulse_den(den),
        ) == pulse_num(num, den),
{
    lemma_linear_forms(num, den);
    assert(num <= 180 * den) by (nonlinear_arith)
        requires
            num <= SERVO_MAX_ANGLE * den,
    ;
    assert(SERVO_MIN_PULSEWIDTH_US * pulse_den(den) == 300 * pulse_den(den))
        by (nonlinear_arith);
    assert(SERVO_MAX_PULSEWIDTH_US * pulse_den(den) == 2200 * pulse_den(den))
        by (nonlinear_arith);
}

/// Every valid angle has a duty value between those of the shortest and the
/// longest pulse.
pub proof fn lemma_duty_within_limits(angle: u32)
    requires
        valid_angle(angle),
    ensures
        min_duty() <= duty_of_bits(angle) <= max_duty(),
{
    let num = magnitude(angle) as int;
    let den = unit() as int;
    lemma_pow2_pos(UNIT_LOG2 as nat);
    lemma_pulse_within_limits(num, den);
    lemma_linear_forms(num, den);
    lemma_duty_of_pulse_within_limits(pulse_num(num, den), pulse_den(den));
}

/// Of two valid angles, the larger never has the smaller duty value.
pub proof fn lemma_duty_monotonic(smaller: u32, larger: u32)
    requires
        valid_angle(smaller),
        valid_angle(larger),
        magnitude(smaller) <= magnitude(larger),
    ensures
        duty_of_bits(smaller) <= duty_of_bits(larger),
{
    let den = unit() as int;
    lemma_pow2_pos(UNIT_LOG2 as nat);
    assert(magnitude(smaller) * den <= magnitude(larger) * den) by (nonlinear_arith)
        requires
            magnitude(smaller) <= magnitude(larger),
            0 < den,
    ;
    lemma_duty_of_angle_monotonic(magnitude(smaller) as int, den, magnitude(larger) as int, den);
}

/// Two patterns of one angle have one duty value: the two zeros do.
pub proof fn lemma_duty_of_equal_angles(first: u32, second: u32)
    requires
        valid_angle(first),
        valid_angle(second),
        magnitude(first) == magnitude(second),
    ensures
        duty_of_bits(first) == duty_of_bits(second),
{
}

/// At 0 degrees the duty value is that of the shortest pulse, and at
/// `SERVO_MAX_ANGLE` that of the longest.
pub proof fn lemma_duty_at_end_stops()
    ensures
        valid_angle(0),
        valid_angle(MAX_ANGLE_BITS),
        duty_of_bits(0) == min_duty(),
        duty_of_bits(MAX_ANGLE_BITS) == max_duty(),
{
    let den = unit() as int;
    lemma_pow2_pos(UNIT_LOG2 as nat);
    lemma_valid_angle_patterns(0);
    lemma_valid_angle_patterns(MAX_ANGLE_BITS);
    lemma_magnitude_zero(0);
    lemma_max_angle_bits();
    // Zero degrees: the pulse is the shortest.
    lemma_linear_forms(0, den);
    lemma_duty_of_pulse_scales(SERVO_MIN_PULSEWIDTH_US as int, 1, 180 * den);
    // The largest angle: the pulse is the longest.
    assert(magnitude(MAX_ANGLE_BITS) == 180 * den) by (nonlinear_arith)
        requires
            magnitude(MAX_ANGLE_BITS) == SERVO_MAX_ANGLE * den,
    ;
    lemma_linear_forms(180 * den, den);
    lemma_duty_of_pulse_scales(SERVO_MAX_PULSEWIDTH_US as int, 1, 180 * den);
}

} // verus!
