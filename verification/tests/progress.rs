use ani_l::player::progress::{bits_of_whole_number, WatchedFraction, POSITIVE_INFINITY_BITS};

#[test]
fn whole_number_bits_match_the_machine() {
    for n in 0..=255u8 {
        assert_eq!(bits_of_whole_number(n), f64::from(n).to_bits(), "n = {}", n);
    }
}

#[test]
fn infinity_bits_match_the_machine() {
    assert_eq!(POSITIVE_INFINITY_BITS, f64::INFINITY.to_bits());
}

#[test]
fn fraction_starts_at_zero() {
    assert_eq!(WatchedFraction::zero().to_bits(), 0);
    assert_eq!(f64::from_bits(WatchedFraction::zero().to_bits()), 0.0);
}

#[test]
fn observe_keeps_the_maximum_like_float_comparison() {
    let samples = [
        0.0,
        -0.0,
        1e-300,
        0.5,
        1.0,
        45.0,
        79.999,
        80.0,
        80.001,
        100.0,
        150.0,
        -1.0,
        -80.0,
        f64::INFINITY,
        f64::NEG_INFINITY,
        f64::NAN,
        f64::MIN_POSITIVE,
        f64::MAX,
    ];
    for first in samples {
        for second in samples {
            // What a plain float maximum tracker does.
            let mut expected = 0.0f64;
            if first > expected {
                expected = first;
            }
            if second > expected {
                expected = second;
            }
            let mut fraction = WatchedFraction::zero();
            fraction.observe(first.to_bits());
            fraction.observe(second.to_bits());
            assert_eq!(
                fraction.to_bits(),
                expected.to_bits(),
                "after {} and {}",
                first,
                second
            );
        }
    }
}

#[test]
fn reset_returns_to_zero() {
    let mut fraction = WatchedFraction::zero();
    fraction.observe(80.0f64.to_bits());
    assert_eq!(f64::from_bits(fraction.to_bits()), 80.0);
    fraction.reset();
    assert_eq!(fraction.to_bits(), 0);
}

#[test]
fn reaches_compares_like_floats() {
    let watched = [0.0, 0.4, 1.0, 84.0, 84.999, 85.0, 85.001, 99.0, 100.0, 254.9, 255.0, 300.0];
    for percent in watched {
        let mut fraction = WatchedFraction::zero();
        fraction.observe(f64::to_bits(percent));
        for threshold in [0u8, 1, 50, 84, 85, 86, 100, 200, 255] {
            assert_eq!(
                fraction.reaches(threshold),
                percent >= f64::from(threshold),
                "{} against {}",
                percent,
                threshold
            );
        }
    }
}
