//! One weather sample and the ranges its readings must lie in.

use vstd::prelude::*;
use vstd::arithmetic::power2::{lemma2_to64, lemma2_to64_rest};
use crate::reading::{lemma_scale_of_whole, Reading, SIGN_BIT};

verus! {

/// The lowest temperature a record may carry.
pub const TEMPERATURE_MIN: i64 = -100;

/// The highest temperature a record may carry.
pub const TEMPERATURE_MAX: i64 = 60;

/// The lowest pressure a record may carry.
pub const PRESSURE_MIN: i64 = 900;

/// The highest pressure a record may carry.
pub const PRESSURE_MAX: i64 = 1080;

/// The lowest wind speed a record may carry.
pub const WIND_SPEED_MIN: i64 = 0;

/// The bit pattern of the number -100.
pub const TEMPERATURE_MIN_BITS: u64 = 0xC059_0000_0000_0000;

/// The bit pattern of the number 60.
pub const TEMPERATURE_MAX_BITS: u64 = 0x404E_0000_0000_0000;

/// The bit pattern of the number 900.
pub const PRESSURE_MIN_BITS: u64 = 0x408C_2000_0000_0000;

/// The bit pattern of the number 1080.
pub const PRESSURE_MAX_BITS: u64 = 0x4090_E000_0000_0000;

/// The bit pattern of the number 0.
pub const WIND_SPEED_MIN_BITS: u64 = 0;

/// Where a sample was taken. The three names are kept as they came.
#[derive(Debug, PartialEq, Eq)]
pub struct Location {
    pub city: String,
    pub country: String,
    pub subdivision: String,
}

/// A location as three sequences of characters.
pub ghost struct LocationView {
    pub city: Seq<char>,
    pub country: Seq<char>,
    pub subdivision: Seq<char>,
}

impl View for Location {
    type V = LocationView;

    open spec fn view(&self) -> LocationView {
        LocationView { city: self.city@, country: self.country@, subdivision: self.subdivision@ }
    }
}

impl Clone for Location {
    fn clone(&self) -> (copy: Location)
        ensures
            copy == *self,
    {
        Location {
            city: self.city.clone(),
            country: self.country.clone(),
            subdivision: self.subdivision.clone(),
        }
    }
}

/// One weather sample, keyed by its timestamp.
#[derive(Debug, PartialEq, Eq)]
pub struct WeatherRecord {
    pub timestamp: i64,
    pub temperature: Reading,
    pub pressure: Reading,
    pub wind_speed: Reading,
    pub location: Location,
}

/// A record as plain values.
pub ghost struct RecordView {
    pub timestamp: i64,
    pub temperature: Reading,
    pub pressure: Reading,
    pub wind_speed: Reading,
    pub location: LocationView,
}

impl RecordView {
    /// Whether the three readings lie in their ranges: the temperature
    /// from -100 to 60, the pressure from 900 to 1080, the wind speed at
    /// least 0.
    pub open spec fn valid(self) -> bool {
        &&& self.temperature.between(TEMPERATURE_MIN as int, TEMPERATURE_MAX as int)
        &&& self.pressure.between(PRESSURE_MIN as int, PRESSURE_MAX as int)
        &&& self.wind_speed.at_least(WIND_SPEED_MIN as int)
    }
}

impl View for WeatherRecord {
    type V = RecordView;

    open spec fn view(&self) -> RecordView {
        RecordView {
            timestamp: self.timestamp,
            temperature: self.temperature,
            pressure: self.pressure,
            wind_speed: self.wind_speed,
            location: self.location@,
        }
    }
}

impl Clone for WeatherRecord {
    fn clone(&self) -> (copy: WeatherRecord)
        ensures
            copy == *self,
    {
        WeatherRecord {
            timestamp: self.timestamp,
            temperature: self.temperature,
            pressure: self.pressure,
            wind_speed: self.wind_speed,
            location: self.location.clone(),
        }
    }
}

impl WeatherRecord {
    /// Whether the three readings lie in their ranges.
    pub fn is_valid(&self) -> (r: bool)
        ensures
            r == self@.valid(),
    {
        proof {
            lemma_bounds_are_whole();
        }
        let temperature_min = Reading::from_bits(TEMPERATURE_MIN_BITS);
        let temperature_max = Reading::from_bits(TEMPERATURE_MAX_BITS);
        let pressure_min = Reading::from_bits(PRESSURE_MIN_BITS);
        let pressure_max = Reading::from_bits(PRESSURE_MAX_BITS);
        let wind_speed_min = Reading::from_bits(WIND_SPEED_MIN_BITS);
        self.temperature.within(&temperature_min, &temperature_max) && self.pressure.within(
            &pressure_min,
            &pressure_max,
        ) && wind_speed_min.le(&self.wind_speed)
    }
}

/// Each bound's bit pattern stands for the whole number it is named
/// after.
pub proof fn lemma_bounds_are_whole()
    ensures
        (Reading { bits: TEMPERATURE_MIN_BITS }).between(TEMPERATURE_MIN as int, TEMPERATURE_MIN as int),
        (Reading { bits: TEMPERATURE_MAX_BITS }).between(TEMPERATURE_MAX as int, TEMPERATURE_MAX as int),
        (Reading { bits: PRESSURE_MIN_BITS }).between(PRESSURE_MIN as int, PRESSURE_MIN as int),
        (Reading { bits: PRESSURE_MAX_BITS }).between(PRESSURE_MAX as int, PRESSURE_MAX as int),
        (Reading { bits: WIND_SPEED_MIN_BITS }).between(WIND_SPEED_MIN as int, WIND_SPEED_MIN as int),
{
    lemma2_to64();
    lemma2_to64_rest();
    lemma_scale_of_whole(TEMPERATURE_MIN_BITS - SIGN_BIT, -(TEMPERATURE_MIN as int));
    lemma_scale_of_whole(TEMPERATURE_MAX_BITS as int, TEMPERATURE_MAX as int);
    lemma_scale_of_whole(PRESSURE_MIN_BITS as int, PRESSURE_MIN as int);
    lemma_scale_of_whole(PRESSURE_MAX_BITS as int, PRESSURE_MAX as int);
}

} // verus!
