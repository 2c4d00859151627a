use linkage::binary32;
use linkage::protocol::LinkageToCarburetor;
use linkage::speed::{Direction, Speed};

#[test]
fn speed_new_succeeds_exactly_within_full_scale() {
    assert!(Speed::new(0).is_some());
    assert!(Speed::new(10000).is_some());
    assert!(Speed::new(-10000).is_some());
    // 1.2 of full power.
    assert!(Speed::new(12000).is_none());
    // -1.0001 of full power.
    assert!(Speed::new(-10001).is_none());
    assert!(Speed::new(10001).is_none());
}

#[test]
fn direction_follows_the_sign() {
    // -0.01 of full power.
    assert_eq!(Speed::new(-100).unwrap().direction(), Direction::Backward);
    assert_eq!(Speed::new(0).unwrap().direction(), Direction::Neutral);
    // 0.3 of full power.
    assert_eq!(Speed::new(3000).unwrap().direction(), Direction::Forward);
}

#[test]
fn pulse_widths_of_the_reference_speeds() {
    assert_eq!(Speed::neutral().pulse_micros(), 1500);
    assert_eq!(Speed::forward().pulse_micros(), 2000);
    assert_eq!(Speed::backward().pulse_micros(), 1000);
}

#[test]
fn pulse_width_rounds_to_the_nearest_microsecond() {
    // 0.5 of full power: 1500 + 250.
    assert_eq!(Speed::new(5000).unwrap().pulse_micros(), 1750);
    // 9 ten-thousandths: 0.45 extra microseconds round down.
    assert_eq!(Speed::new(9).unwrap().pulse_micros(), 1500);
    // 10 ten-thousandths: exactly half a microsecond rounds away from zero.
    assert_eq!(Speed::new(10).unwrap().pulse_micros(), 1501);
    assert_eq!(Speed::new(-10).unwrap().pulse_micros(), 1499);
}

#[test]
fn tiny_noise_registers_as_neutral() {
    // The rounding that absorbs floating-point noise: a value of about
    // -1.2e-10 must register as neutral, not as a decode failure.
    let noise = (-0.000_000_000_12_f32).to_be_bytes();
    let frame: [u8; 8] = [0x40, 0, 0, 0, noise[0], noise[1], noise[2], noise[3]];
    let message = LinkageToCarburetor::try_from_bytes(&frame).unwrap();
    match message {
        LinkageToCarburetor::MotorInstruction { channel, speed } => {
            assert_eq!(channel, 0);
            assert_eq!(speed, Speed::neutral());
            assert_eq!(speed.direction(), Direction::Neutral);
        }
    }
}

#[test]
fn speed_bits_match_the_hardware_float_encoding() {
    for tt in [-10000i32, -6942, -5000, -1, 0, 1, 2, 9, 4242, 9999, 10000] {
        let expected = (tt as f32 / 10000.0).to_bits();
        assert_eq!(binary32::bits_of_tt(tt), expected, "encoding {tt}");
    }
}

#[test]
fn speed_bits_decode_matches_the_hardware_float_decoding() {
    for bits in [
        0u32,
        0x8000_0000,          // negative zero
        0x3F80_0000,          // one
        0xBF80_0000,          // minus one
        0x3F31_B717,          // about 0.6942
        0x0000_0001,          // smallest subnormal
        0x3880_0000,          // about 6.1e-5, rounds to one ten-thousandth
        0x3F80_0001,          // barely above one, still rounds to full scale
    ] {
        let value = f32::from_bits(bits);
        let expected = (value * 10_000.0).round() as i32;
        assert_eq!(binary32::tt_of_bits(bits), Some(expected), "decoding {bits:#x}");
    }
}

#[test]
fn speed_bits_refuse_what_no_speed_can_carry() {
    assert_eq!(binary32::tt_of_bits(f32::NAN.to_bits()), None);
    assert_eq!(binary32::tt_of_bits(f32::INFINITY.to_bits()), None);
    assert_eq!(binary32::tt_of_bits(f32::NEG_INFINITY.to_bits()), None);
    // 1.2 of full power.
    assert_eq!(binary32::tt_of_bits(1.2f32.to_bits()), None);
    // Just over full scale once rounded.
    assert_eq!(binary32::tt_of_bits(1.00006f32.to_bits()), None);
    // Within half a count of full scale: rounds back in.
    assert_eq!(binary32::tt_of_bits(1.00004f32.to_bits()), Some(10000));
}

#[test]
fn exec_round_trip_over_every_count() {
    for tt in -10000i32..=10000 {
        let bits = binary32::bits_of_tt(tt);
        assert_eq!(binary32::tt_of_bits(bits), Some(tt), "round trip at {tt}");
        let expected = (tt as f32 / 10000.0).to_bits();
        assert_eq!(bits, expected, "encoding {tt}");
    }
}
