use fast_ciede2000::pow::{bucket_middle_bits, pow_2_4_parts, power_of_two_bits, PowParts};

fn parts(x: f32) -> Option<PowParts> {
    pow_2_4_parts(x.to_bits())
}

#[test]
fn one_has_exponent_zero_and_an_empty_mantissa() {
    assert_eq!(
        parts(1.0),
        Some(PowParts { exponent_slot: 4, mantissa_slot: 0, unit_bits: 1.0f32.to_bits() })
    );
}

#[test]
fn the_exponent_slot_is_the_binary_exponent_plus_four() {
    assert_eq!(parts(0.0625).unwrap().exponent_slot, 0);
    assert_eq!(parts(0.125).unwrap().exponent_slot, 1);
    assert_eq!(parts(0.25).unwrap().exponent_slot, 2);
    assert_eq!(parts(0.5).unwrap().exponent_slot, 3);
    assert_eq!(parts(1.5).unwrap().exponent_slot, 4);
    assert_eq!(parts(2.0).unwrap().exponent_slot, 5);
    assert_eq!(parts(7.9).unwrap().exponent_slot, 6);
    assert_eq!(parts(15.999).unwrap().exponent_slot, 7);
}

#[test]
fn the_mantissa_slot_is_the_eighth_in_which_the_mantissa_lies() {
    for slot in 0..8usize {
        let low = 1.0 + slot as f32 / 8.0;
        let high = f32::from_bits((1.0 + (slot + 1) as f32 / 8.0).to_bits() - 1);
        assert_eq!(parts(low).unwrap().mantissa_slot, slot);
        assert_eq!(parts(high).unwrap().mantissa_slot, slot);
        assert_eq!(parts(low / 4.0).unwrap().mantissa_slot, slot);
    }
}

#[test]
fn the_unit_pattern_is_the_value_with_its_exponent_removed() {
    for (x, unit) in [(0.75f32, 1.5f32), (3.5, 1.75), (0.1, 1.6), (12.0, 1.5), (1.25, 1.25)] {
        assert_eq!(f32::from_bits(parts(x).unwrap().unit_bits), unit);
    }
    let smallest = (10.0f32 / 255.0 + 0.055) / 1.055;
    let got = parts(smallest).unwrap();
    assert_eq!(got.exponent_slot, 0);
    assert_eq!(f32::from_bits(got.unit_bits), smallest * 16.0);
}

#[test]
fn the_parts_give_the_pattern_back() {
    for x in [0.0625f32, 0.0893, 0.3, 0.9999, 1.0, 2.2, 9.75, 15.999] {
        let bits = x.to_bits();
        let got = parts(x).unwrap();
        assert_eq!(((got.exponent_slot as u32 + 123) << 23) + (got.unit_bits - 0x3f80_0000), bits);
        assert_eq!((got.unit_bits - 0x3f80_0000) >> 20, got.mantissa_slot as u32);
    }
}

#[test]
fn values_outside_the_tables_have_no_parts() {
    assert_eq!(parts(0.0), None);
    assert_eq!(parts(0.0097), None);
    assert_eq!(parts(0.062499996), None);
    assert_eq!(parts(16.0), None);
    assert_eq!(parts(1.0e9), None);
    assert_eq!(parts(-1.0), None);
    assert_eq!(parts(-0.5), None);
    assert_eq!(parts(f32::INFINITY), None);
    assert_eq!(parts(f32::NAN), None);
    assert_eq!(pow_2_4_parts(u32::MAX), None);
}

#[test]
fn the_table_of_powers_runs_from_a_sixteenth_to_eight() {
    let powers: Vec<f32> = (0..8).map(|slot| f32::from_bits(power_of_two_bits(slot))).collect();
    assert_eq!(powers, vec![0.0625, 0.125, 0.25, 0.5, 1.0, 2.0, 4.0, 8.0]);
}

#[test]
fn the_tables_of_mantissas_hold_the_middle_of_each_eighth() {
    let middles: Vec<f32> = (0..8).map(|slot| f32::from_bits(bucket_middle_bits(slot))).collect();
    assert_eq!(middles, vec![1.0625, 1.1875, 1.3125, 1.4375, 1.5625, 1.6875, 1.8125, 1.9375]);
}

#[test]
fn every_value_is_within_a_sixteenth_of_the_middle_of_its_eighth() {
    let mut x = 0.0625f32;
    while x < 16.0 {
        let got = parts(x).unwrap();
        let unit = f32::from_bits(got.unit_bits);
        let middle = f32::from_bits(bucket_middle_bits(got.mantissa_slot));
        assert!((unit - middle).abs() <= 0.0625);
        assert_eq!(unit * f32::from_bits(power_of_two_bits(got.exponent_slot)), x);
        x *= 1.0173;
    }
}
