//! From a commanded angle to the duty value of the PWM channel that drives
//! the servo.
//!
//! The angle is a binary32 pattern and is read as the exact number it
//! encodes. The pulse width is linear in the angle, from the shortest pulse
//! at 0 degrees to the longest at `SERVO_MAX_ANGLE`; the duty value is the
//! number of whole timer ticks in the pulse. All of it is rational
//! arithmetic: nothing is rounded but the final count of ticks, which is
//! rounded down.

use crate::binary32::{
    exponent, fraction, is_finite, is_negative, magnitude, sign_bit, unit, weight_log2,
    HIDDEN_BIT, SIGN_BIT, UNIT_LOG2,
};
use crate::bounds::{clamp_u64, clamped};
use crate::laws::{
    lemma_duty_limits, lemma_duty_of_bits_reduced, lemma_duty_of_pulse_within_limits,
    lemma_duty_of_small_angle, lemma_linear_forms, lemma_pulse_within_limits,
    lemma_valid_angle_patterns,
};
use vstd::arithmetic::power2::*;
use vstd::bits::*;
use vstd::prelude::*;

verus! {

/// Pulse width, in microseconds, that commands 0 degrees.
pub const SERVO_MIN_PULSEWIDTH_US: u32 = 300;

/// Pulse width, in microseconds, that commands `SERVO_MAX_ANGLE`.
pub const SERVO_MAX_PULSEWIDTH_US: u32 = 2200;

/// Largest angle the servo can be commanded to, in degrees.
pub const SERVO_MAX_ANGLE: u32 = 180;

/// Number of PWM periods per second.
pub const PWM_PERIOD: u32 = 50;

/// Number of timer ticks in one PWM period.
pub const TIMER_RESOLUTION: u32 = 65535;

/// Timer ticks per microsecond, as a fraction: this many ticks ...
pub const US_TO_DUTY_NUM: u32 = TIMER_RESOLUTION;

/// ... in this many microseconds, the length of one PWM period.
pub const US_TO_DUTY_DEN: u32 = 1000 / PWM_PERIOD * 1000;

/// The binary32 pattern of `SERVO_MAX_ANGLE`.
pub const MAX_ANGLE_BITS: u32 = 0x4334_0000;

/// An angle is its significand over `2^shift`. Up to this shift the pulse
/// width is worked out in full; beyond it the angle is below a sixty-fourth
/// of a degree, too small to reach the second tick.
pub const MAX_SHIFT: u32 = 29;

/// A pulse width in microseconds, as the fraction `num / den`.
#[derive(Clone, Copy, Debug, PartialEq, Eq)]
pub struct PulseWidth {
    pub num: u64,
    pub den: u64,
}

impl PulseWidth {
    /// Whether the pulse is one the servo accepts: neither shorter than
    /// `SERVO_MIN_PULSEWIDTH_US` nor longer than `SERVO_MAX_PULSEWIDTH_US`.
    pub open spec fn within_limits(self) -> bool {
        SERVO_MIN_PULSEWIDTH_US * self.den <= self.num <= SERVO_MAX_PULSEWIDTH_US * self.den
    }
}

/// Whether the pattern encodes an angle the servo can be commanded to: a
/// number from 0 to `SERVO_MAX_ANGLE` degrees. Negative zero is zero.
pub open spec fn valid_angle(bits: u32) -> bool {
    &&& is_finite(bits)
    &&& sign_bit(bits) ==> magnitude(bits) == 0
    &&& magnitude(bits) <= SERVO_MAX_ANGLE * unit()
}

/// Numerator of the pulse width for the angle `num / den` degrees, over the
/// denominator `pulse_den(den)`: the angle's share of the way from the
/// shortest pulse to the longest.
pub open spec fn pulse_num(num: int, den: int) -> int {
    num * (SERVO_MAX_PULSEWIDTH_US - SERVO_MIN_PULSEWIDTH_US) + SERVO_MIN_PULSEWIDTH_US
        * SERVO_MAX_ANGLE * den
}

/// Denominator of the pulse width for an angle with denominator `den`.
pub open spec fn pulse_den(den: int) -> int {
    SERVO_MAX_ANGLE * den
}

/// Whole timer ticks in a pulse of `num / den` microseconds.
pub open spec fn duty_of_pulse(num: int, den: int) -> int {
    (num * US_TO_DUTY_NUM) / (den * US_TO_DUTY_DEN)
}

/// The duty value for the angle `num / den` degrees.
pub open spec fn duty_of_angle(num: int, den: int) -> int {
    duty_of_pulse(pulse_num(num, den), pulse_den(den))
}

/// The duty value for the angle that a binary32 pattern encodes.
pub open spec fn duty_of_bits(bits: u32) -> int {
    duty_of_angle(magnitude(bits) as int, unit() as int)
}

/// The duty value of the shortest pulse.
pub open spec fn min_duty() -> int {
    duty_of_pulse(SERVO_MIN_PULSEWIDTH_US as int, 1)
}

/// The duty value of the longest pulse.
pub open spec fn max_duty() -> int {
    duty_of_pulse(SERVO_MAX_PULSEWIDTH_US as int, 1)
}

/// Binary logarithm of the denominator over which the significand of an
/// angle is a number of degrees; no angle up to `SERVO_MAX_ANGLE` needs a
/// numerator instead.
pub open spec fn shift_of(bits: u32) -> nat {
    if weight_log2(bits) <= UNIT_LOG2 {
        (UNIT_LOG2 - weight_log2(bits)) as nat
    } else {
        0
    }
}

/// Says whether the pattern encodes an angle the servo can be commanded to.
pub fn is_valid_angle(angle: u32) -> (valid: bool)
    ensures
        valid == valid_angle(angle),
{
    proof {
        lemma_valid_angle_patterns(angle);
    }
    if is_negative(angle) {
        angle == SIGN_BIT
    } else {
        angle <= MAX_ANGLE_BITS
    }
}

/// Bounds a pulse width to what the servo accepts: a shorter pulse becomes
/// the shortest, a longer one the longest.
pub fn clamp_pulse(pulse: PulseWidth) -> (bounded: PulseWidth)
    requires
        pulse.den * SERVO_MAX_PULSEWIDTH_US <= u64::MAX,
    ensures
        bounded.den == pulse.den,
        bounded.num == clamped(
            pulse.num as int,
            SERVO_MIN_PULSEWIDTH_US * pulse.den,
            SERVO_MAX_PULSEWIDTH_US * pulse.den,
        ),
{
    let shortest: u64 = SERVO_MIN_PULSEWIDTH_US as u64 * pulse.den;
    let longest: u64 = SERVO_MAX_PULSEWIDTH_US as u64 * pulse.den;
    PulseWidth { num: clamp_u64(pulse.num, shortest, longest), den: pulse.den }
}

/// The duty value of a pulse width that the servo accepts: the number of
/// whole timer ticks that the pulse lasts.
pub fn pulse_to_duty(pulse: PulseWidth) -> (duty: u32)
    requires
        pulse.den > 0,
        pulse.within_limits(),
        pulse.den * SERVO_MAX_PULSEWIDTH_US * US_TO_DUTY_NUM <= u64::MAX,
    ensures
        duty == duty_of_pulse(pulse.num as int, pulse.den as int),
        min_duty() <= duty <= max_duty(),
{
    proof {
        lemma_duty_of_pulse_within_limits(pulse.num as int, pulse.den as int);
        lemma_duty_limits();
        assert(pulse.num * US_TO_DUTY_NUM <= u64::MAX && pulse.den * US_TO_DUTY_DEN <= u64::MAX
            && pulse.den * US_TO_DUTY_DEN > 0) by (nonlinear_arith)
            requires
                pulse.den > 0,
                pulse.num <= SERVO_MAX_PULSEWIDTH_US * pulse.den,
                pulse.den * SERVO_MAX_PULSEWIDTH_US * US_TO_DUTY_NUM <= u64::MAX,
        ;
    }
    let ticks: u64 = pulse.num * US_TO_DUTY_NUM as u64;
    let period: u64 = pulse.den * US_TO_DUTY_DEN as u64;
    (ticks / period) as u32
}

/// The duty value that commands `angle`, a binary32 pattern of a number of
/// degrees from 0 to `SERVO_MAX_ANGLE`.
pub fn angle_to_duty(angle: u32) -> (duty: u32)
    requires
        valid_angle(angle),
    ensures
        duty == duty_of_bits(angle),
        min_duty() <= duty <= max_duty(),
{
    let exp = exponent(angle);
    let frac = fraction(angle);
    proof {
        lemma_duty_of_bits_reduced(angle);
        lemma2_to64();
    }
    // The angle is `sig / 2^shift` degrees.
    let sig: u32 = if exp == 0 {
        frac
    } else {
        frac + HIDDEN_BIT
    };
    let shift: u32 = if exp == 0 {
        UNIT_LOG2
    } else {
        UNIT_LOG2 + 1 - exp
    };
    let ghost den = pow2(shift as nat) as int;
    if shift > MAX_SHIFT {
        proof {
            if shift > 30 {
                lemma_pow2_strictly_increases(30, shift as nat);
            }
            lemma_duty_of_small_angle(sig as int, den);
        }
        return pulse_to_duty(PulseWidth { num: SERVO_MIN_PULSEWIDTH_US as u64, den: 1 });
    }
    proof {
        if shift < 29 {
            lemma_pow2_strictly_increases(shift as nat, 29);
        }
        lemma_u64_shl_is_mul(1, shift as u64);
        lemma_linear_forms(sig as int, den);
        lemma_pulse_within_limits(sig as int, den);
    }
    let angle_den: u64 = 1u64 << shift;
    let span: u64 = (SERVO_MAX_PULSEWIDTH_US - SERVO_MIN_PULSEWIDTH_US) as u64;
    let pulse = PulseWidth {
        num: sig as u64 * span + SERVO_MIN_PULSEWIDTH_US as u64 * SERVO_MAX_ANGLE as u64
            * angle_den,
        den: SERVO_MAX_ANGLE as u64 * angle_den,
    };
    let bounded = clamp_pulse(pulse);
    pulse_to_duty(bounded)
}

} // verus!
