use weather_store::reading::Reading;
use weather_store::record::{
    Location, WeatherRecord, PRESSURE_MAX, PRESSURE_MAX_BITS, PRESSURE_MIN, PRESSURE_MIN_BITS, TEMPERATURE_MAX,
    TEMPERATURE_MAX_BITS, TEMPERATURE_MIN, TEMPERATURE_MIN_BITS, WIND_SPEED_MIN, WIND_SPEED_MIN_BITS,
};

fn reading(value: f64) -> Reading {
    Reading::from_bits(value.to_bits())
}

fn with(temperature: f64, pressure: f64, wind_speed: f64) -> WeatherRecord {
    WeatherRecord {
        timestamp: 0,
        temperature: reading(temperature),
        pressure: reading(pressure),
        wind_speed: reading(wind_speed),
        location: Location { city: String::new(), country: String::new(), subdivision: String::new() },
    }
}

fn next_up(value: f64) -> f64 {
    let bits = value.to_bits();
    if value > 0.0 {
        f64::from_bits(bits + 1)
    } else if value < 0.0 {
        f64::from_bits(bits - 1)
    } else {
        f64::from_bits(1)
    }
}

fn next_down(value: f64) -> f64 {
    -next_up(-value)
}

fn probes() -> Vec<f64> {
    vec![
        f64::NEG_INFINITY,
        f64::MIN,
        -1.0e300,
        -1080.0,
        -100.0,
        -1.5,
        -1.0,
        -f64::MIN_POSITIVE,
        -f64::from_bits(1),
        -0.0,
        0.0,
        f64::from_bits(1),
        f64::from_bits(0x000F_FFFF_FFFF_FFFF),
        f64::MIN_POSITIVE,
        0.1,
        0.5,
        1.0,
        1.0 + f64::EPSILON,
        2.0,
        3.0,
        59.999,
        60.0,
        900.0,
        1013.25,
        1080.0,
        1.0e300,
        f64::MAX,
        f64::INFINITY,
        f64::NAN,
        -f64::NAN,
        f64::from_bits(0x7FF0_0000_0000_0001),
        f64::from_bits(0xFFFF_FFFF_FFFF_FFFF),
    ]
}

#[test]
fn bits_round_trip() {
    for bits in [0_u64, 1, 0x4034_0000_0000_0000, 0x8000_0000_0000_0000, u64::MAX] {
        assert_eq!(Reading::from_bits(bits).to_bits(), bits);
        assert_eq!(Reading::from_bits(bits).bits, bits);
    }
    assert_eq!(reading(20.0).to_bits(), 0x4034_0000_0000_0000);
}

#[test]
fn is_nan_agrees_with_the_numbers() {
    for value in probes() {
        assert_eq!(reading(value).is_nan(), value.is_nan(), "{value}");
    }
}

#[test]
fn le_agrees_with_the_numbers() {
    for a in probes() {
        for b in probes() {
            assert_eq!(reading(a).le(&reading(b)), a <= b, "{a} <= {b}");
        }
    }
}

#[test]
fn le_on_both_zeros() {
    assert!(reading(0.0).le(&reading(-0.0)));
    assert!(reading(-0.0).le(&reading(0.0)));
    assert!(!reading(f64::from_bits(1)).le(&reading(-0.0)));
}

#[test]
fn within_agrees_with_the_numbers() {
    for x in probes() {
        for low in probes() {
            for high in probes() {
                let expected = low <= x && x <= high;
                assert_eq!(reading(x).within(&reading(low), &reading(high)), expected, "{low} <= {x} <= {high}");
            }
        }
    }
}

#[test]
fn bounds_are_the_numbers_they_are_named_after() {
    assert_eq!(f64::from_bits(TEMPERATURE_MIN_BITS), -100.0);
    assert_eq!(f64::from_bits(TEMPERATURE_MAX_BITS), 60.0);
    assert_eq!(f64::from_bits(PRESSURE_MIN_BITS), 900.0);
    assert_eq!(f64::from_bits(PRESSURE_MAX_BITS), 1080.0);
    assert_eq!(f64::from_bits(WIND_SPEED_MIN_BITS), 0.0);
    assert_eq!(TEMPERATURE_MIN, -100);
    assert_eq!(TEMPERATURE_MAX, 60);
    assert_eq!(PRESSURE_MIN, 900);
    assert_eq!(PRESSURE_MAX, 1080);
    assert_eq!(WIND_SPEED_MIN, 0);
}

#[test]
fn readings_in_range_are_valid() {
    assert!(with(20.0, 1000.0, 3.0).is_valid());
    assert!(with(-100.0, 900.0, 0.0).is_valid());
    assert!(with(60.0, 1080.0, 0.0).is_valid());
    assert!(with(0.0, 1013.25, 250.0).is_valid());
    assert!(with(-0.0, 1013.25, -0.0).is_valid());
    assert!(with(20.0, 1000.0, f64::MAX).is_valid());
    assert!(with(20.0, 1000.0, f64::INFINITY).is_valid());
}

#[test]
fn temperature_out_of_range_is_invalid() {
    assert!(!with(next_down(-100.0), 1000.0, 3.0).is_valid());
    assert!(with(next_up(-100.0), 1000.0, 3.0).is_valid());
    assert!(!with(next_up(60.0), 1000.0, 3.0).is_valid());
    assert!(with(next_down(60.0), 1000.0, 3.0).is_valid());
    assert!(!with(-100.5, 1000.0, 3.0).is_valid());
    assert!(!with(61.0, 1000.0, 3.0).is_valid());
    assert!(!with(f64::INFINITY, 1000.0, 3.0).is_valid());
    assert!(!with(f64::NEG_INFINITY, 1000.0, 3.0).is_valid());
}

#[test]
fn pressure_out_of_range_is_invalid() {
    assert!(!with(20.0, 1200.0, 3.0).is_valid());
    assert!(!with(20.0, next_down(900.0), 3.0).is_valid());
    assert!(with(20.0, next_up(900.0), 3.0).is_valid());
    assert!(!with(20.0, next_up(1080.0), 3.0).is_valid());
    assert!(with(20.0, next_down(1080.0), 3.0).is_valid());
    assert!(!with(20.0, 0.0, 3.0).is_valid());
    assert!(!with(20.0, -1000.0, 3.0).is_valid());
    assert!(!with(20.0, f64::INFINITY, 3.0).is_valid());
}

#[test]
fn wind_speed_below_zero_is_invalid() {
    assert!(!with(20.0, 1000.0, -1.0).is_valid());
    assert!(!with(20.0, 1000.0, -f64::from_bits(1)).is_valid());
    assert!(with(20.0, 1000.0, f64::from_bits(1)).is_valid());
    assert!(!with(20.0, 1000.0, f64::NEG_INFINITY).is_valid());
}

#[test]
fn a_reading_that_is_no_number_is_invalid() {
    assert!(!with(f64::NAN, 1000.0, 3.0).is_valid());
    assert!(!with(20.0, f64::NAN, 3.0).is_valid());
    assert!(!with(20.0, 1000.0, f64::NAN).is_valid());
    assert!(!with(20.0, 1000.0, -f64::NAN).is_valid());
}

#[test]
fn validity_agrees_with_the_numbers() {
    for t in probes() {
        for p in probes() {
            for w in probes() {
                let expected = -100.0 <= t && t <= 60.0 && 900.0 <= p && p <= 1080.0 && 0.0 <= w;
                assert_eq!(with(t, p, w).is_valid(), expected, "{t} {p} {w}");
            }
        }
    }
}
