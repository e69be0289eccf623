use servo_pwm::servo::{
    angle_to_duty, clamp_pulse, is_valid_angle, pulse_to_duty, PulseWidth, MAX_ANGLE_BITS,
    PWM_PERIOD, SERVO_MAX_ANGLE, SERVO_MAX_PULSEWIDTH_US, SERVO_MIN_PULSEWIDTH_US,
    TIMER_RESOLUTION, US_TO_DUTY_DEN, US_TO_DUTY_NUM,
};

/// The duty value as the single-precision formula gives it.
fn single_precision_duty(angle: f32) -> u32 {
    let scale = (TIMER_RESOLUTION as f32) / (1000.0 / (PWM_PERIOD as f32) * 1000.0);
    let span = (SERVO_MAX_PULSEWIDTH_US - SERVO_MIN_PULSEWIDTH_US) as f32;
    let pulse = angle / (SERVO_MAX_ANGLE as f32) * span + SERVO_MIN_PULSEWIDTH_US as f32;
    let pulse = pulse
        .max(SERVO_MIN_PULSEWIDTH_US as f32)
        .min(SERVO_MAX_PULSEWIDTH_US as f32);
    (pulse * scale) as u32
}

#[test]
fn scale_is_ticks_per_period() {
    assert_eq!(US_TO_DUTY_NUM, 65535);
    assert_eq!(US_TO_DUTY_DEN, 20000);
}

#[test]
fn max_angle_bits_is_the_pattern_of_the_max_angle() {
    assert_eq!(MAX_ANGLE_BITS, (SERVO_MAX_ANGLE as f32).to_bits());
    assert_eq!(MAX_ANGLE_BITS, 180.0f32.to_bits());
}

#[test]
fn zero_degrees_gives_the_shortest_pulse() {
    assert_eq!(angle_to_duty(0.0f32.to_bits()), 983);
}

#[test]
fn negative_zero_is_zero_degrees() {
    assert!(is_valid_angle((-0.0f32).to_bits()));
    assert_eq!(angle_to_duty((-0.0f32).to_bits()), 983);
}

#[test]
fn max_angle_gives_the_longest_pulse() {
    // 2200 us last 7208.85 ticks, and the count of whole ticks is 7208.
    assert_eq!(angle_to_duty(180.0f32.to_bits()), 7208);
}

#[test]
fn duty_is_linear_in_the_angle() {
    assert_eq!(angle_to_duty(90.0f32.to_bits()), 4095);
    assert_eq!(angle_to_duty(45.0f32.to_bits()), 2539);
    assert_eq!(angle_to_duty(135.0f32.to_bits()), 5652);
    assert_eq!(angle_to_duty(30.0f32.to_bits()), 2020);
    assert_eq!(angle_to_duty(60.0f32.to_bits()), 3058);
    assert_eq!(angle_to_duty(120.0f32.to_bits()), 5133);
    assert_eq!(angle_to_duty(1.0f32.to_bits()), 1017);
    assert_eq!(angle_to_duty(179.0f32.to_bits()), 7174);
}

#[test]
fn fractional_angles() {
    assert_eq!(angle_to_duty(0.5f32.to_bits()), 1000);
    assert_eq!(angle_to_duty(0.25f32.to_bits()), 991);
    assert_eq!(angle_to_duty(12.5f32.to_bits()), 1415);
}

#[test]
fn tiny_angles_stay_on_the_first_tick() {
    // The smallest subnormal, the largest subnormal, the smallest normal.
    assert_eq!(angle_to_duty(0x0000_0001), 983);
    assert_eq!(angle_to_duty(0x007f_ffff), 983);
    assert_eq!(angle_to_duty(0x0080_0000), 983);
    // Either side of one sixty-fourth of a degree.
    assert_eq!(angle_to_duty(0x3c7f_ffff), 983);
    assert_eq!(angle_to_duty(0x3c80_0000), 983);
    assert_eq!(angle_to_duty(0x3c80_0001), 983);
}

#[test]
fn tick_boundaries_are_exact() {
    // The second tick is reached at 0.975 / 34.58... degrees.
    assert_eq!(angle_to_duty(0x3ce6_ecb1), 983);
    assert_eq!(angle_to_duty(0x3ce6_ecb2), 984);
    // The last tick is reached shortly before the largest angle.
    assert_eq!(angle_to_duty(0x4333_f9b5), 7207);
    assert_eq!(angle_to_duty(0x4333_f9b6), 7208);
    assert_eq!(angle_to_duty(0x4333_ffff), 7208);
}

#[test]
fn exact_where_single_precision_rounds_up() {
    // At this angle the pulse lasts a little less than 5134 ticks; rounding
    // each step to single precision reaches 5134.
    let angle = f32::from_bits(0x42f0_064a);
    assert_eq!(angle_to_duty(angle.to_bits()), 5133);
    assert_eq!(single_precision_duty(angle), 5134);
}

#[test]
fn duty_stays_within_the_pulse_limits() {
    let mut bits: u32 = 0;
    while bits <= MAX_ANGLE_BITS {
        let duty = angle_to_duty(bits);
        assert!(983 <= duty && duty <= 7208, "pattern {:#x}", bits);
        bits += 997;
    }
}

#[test]
fn duty_never_decreases_with_the_angle() {
    let mut last = angle_to_duty(0);
    let mut bits: u32 = 0;
    while bits <= MAX_ANGLE_BITS {
        let duty = angle_to_duty(bits);
        assert!(last <= duty, "pattern {:#x}", bits);
        last = duty;
        bits += 1009;
    }
    assert!(last <= angle_to_duty(MAX_ANGLE_BITS));
}

#[test]
fn duty_never_decreases_between_neighbours() {
    // Every pattern of the binade from 64 to 128 degrees.
    let mut last = angle_to_duty(0x4280_0000);
    for bits in 0x4280_0000u32..0x4300_0000u32 {
        let duty = angle_to_duty(bits);
        assert!(last <= duty, "pattern {:#x}", bits);
        last = duty;
    }
}

#[test]
fn repeated_calls_agree() {
    for angle in [0.0f32, 0.1, 33.3, 90.0, 179.9, 180.0] {
        let first = angle_to_duty(angle.to_bits());
        for _ in 0..10 {
            assert_eq!(angle_to_duty(angle.to_bits()), first);
        }
    }
}

#[test]
fn single_precision_is_at_most_one_tick_above() {
    let mut bits: u32 = 0;
    while bits <= MAX_ANGLE_BITS {
        let exact = angle_to_duty(bits);
        let rounded = single_precision_duty(f32::from_bits(bits));
        assert!(rounded == exact || rounded == exact + 1, "pattern {:#x}", bits);
        bits += 4999;
    }
}

#[test]
fn angles_outside_the_range_are_not_valid() {
    assert!(!is_valid_angle((-1.0f32).to_bits()));
    assert!(!is_valid_angle(181.0f32.to_bits()));
    assert!(!is_valid_angle(f32::from_bits(MAX_ANGLE_BITS + 1).to_bits()));
    assert!(!is_valid_angle(f32::from_bits(0x8000_0001).to_bits()));
    assert!(!is_valid_angle(f32::MAX.to_bits()));
    assert!(!is_valid_angle(f32::MIN.to_bits()));
}

#[test]
fn infinities_and_nans_are_not_valid() {
    assert!(!is_valid_angle(f32::INFINITY.to_bits()));
    assert!(!is_valid_angle(f32::NEG_INFINITY.to_bits()));
    assert!(!is_valid_angle(f32::NAN.to_bits()));
    assert!(!is_valid_angle(0x7fc0_0001));
    assert!(!is_valid_angle(0xffc0_0000));
}

#[test]
fn angles_inside_the_range_are_valid() {
    assert!(is_valid_angle(0.0f32.to_bits()));
    assert!(is_valid_angle(180.0f32.to_bits()));
    assert!(is_valid_angle(90.0f32.to_bits()));
    assert!(is_valid_angle(f32::MIN_POSITIVE.to_bits()));
    assert!(is_valid_angle(0x0000_0001));
    assert!(is_valid_angle(0x4333_ffff));
}

#[test]
fn validity_agrees_with_the_comparison_of_numbers() {
    let mut bits: u32 = 0;
    loop {
        let angle = f32::from_bits(bits);
        assert_eq!(is_valid_angle(bits), (0.0..=180.0f32).contains(&angle), "pattern {:#x}", bits);
        match bits.checked_add(65521) {
            Some(next) => bits = next,
            None => break,
        }
    }
}

#[test]
fn clamp_pulse_raises_a_short_pulse() {
    let bounded = clamp_pulse(PulseWidth { num: 100, den: 1 });
    assert_eq!(bounded, PulseWidth { num: 300, den: 1 });
    let bounded = clamp_pulse(PulseWidth { num: 0, den: 7 });
    assert_eq!(bounded, PulseWidth { num: 2100, den: 7 });
}

#[test]
fn clamp_pulse_lowers_a_long_pulse() {
    let bounded = clamp_pulse(PulseWidth { num: 10_000, den: 2 });
    assert_eq!(bounded, PulseWidth { num: 4400, den: 2 });
    let bounded = clamp_pulse(PulseWidth { num: u64::MAX, den: 1 });
    assert_eq!(bounded, PulseWidth { num: 2200, den: 1 });
}

#[test]
fn clamp_pulse_keeps_an_accepted_pulse() {
    for num in [300u64, 301, 1250, 2199, 2200] {
        let pulse = PulseWidth { num, den: 1 };
        assert_eq!(clamp_pulse(pulse), pulse);
    }
    let pulse = PulseWidth { num: 2501, den: 2 };
    assert_eq!(clamp_pulse(pulse), pulse);
}

#[test]
fn pulse_to_duty_counts_whole_ticks() {
    assert_eq!(pulse_to_duty(PulseWidth { num: 300, den: 1 }), 983);
    assert_eq!(pulse_to_duty(PulseWidth { num: 2200, den: 1 }), 7208);
    assert_eq!(pulse_to_duty(PulseWidth { num: 1250, den: 1 }), 4095);
    assert_eq!(pulse_to_duty(PulseWidth { num: 2501, den: 2 }), 4097);
    assert_eq!(pulse_to_duty(PulseWidth { num: 1000, den: 3 }), 1092);
}

#[test]
fn pulse_to_duty_ignores_how_the_pulse_is_written() {
    let plain = pulse_to_duty(PulseWidth { num: 1250, den: 1 });
    assert_eq!(pulse_to_duty(PulseWidth { num: 2500, den: 2 }), plain);
    assert_eq!(pulse_to_duty(PulseWidth { num: 1250 << 30, den: 1 << 30 }), plain);
}

#[test]
fn pulse_to_duty_at_the_largest_denominator() {
    // The denominator that the smallest fully worked angles have.
    let den: u64 = 180 << 29;
    assert_eq!(pulse_to_duty(PulseWidth { num: 300 * den, den }), 983);
    assert_eq!(pulse_to_duty(PulseWidth { num: 2200 * den, den }), 7208);
}
