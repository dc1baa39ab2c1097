//! The pictures that stand for weather conditions, and how one is chosen.

use vstd::prelude::*;
use crate::api::JsonNumber;

verus! {

/// The pictures that stand for a weather condition.
#[derive(Debug, Clone, Copy, PartialEq, Eq, Structural)]
pub enum WeatherImage {
    Sun,
    Moon,
    Rain,
    Cloud,
}

impl WeatherImage {
    pub open spec fn path_of(self) -> Seq<char> {
        match self {
            WeatherImage::Sun => "/home/jasper/res/sun.png"@,
            WeatherImage::Moon => "/home/jasper/res/moon.png"@,
            WeatherImage::Rain => "/home/jasper/res/rain.png"@,
            WeatherImage::Cloud => "/home/jasper/res/cloudy.png"@,
        }
    }

    /// The file of this picture.
    pub fn to_path(&self) -> (r: &'static str)
        ensures
            r@ == self.path_of(),
    {
        match self {
            WeatherImage::Sun => "/home/jasper/res/sun.png",
            WeatherImage::Moon => "/home/jasper/res/moon.png",
            WeatherImage::Rain => "/home/jasper/res/rain.png",
            WeatherImage::Cloud => "/home/jasper/res/cloudy.png",
        }
    }
}

/// Bit pattern of binary64 positive infinity; larger patterns with a clear sign
/// bit are NaNs.
pub const POSITIVE_INFINITY_BITS: u64 = 0x7ff0_0000_0000_0000;

/// Bit pattern of the binary64 value 3600, an hour in seconds.
pub const HOUR_SECONDS_BITS: u64 = 0x40ac_2000_0000_0000;

/// Whether a number is greater than a non-negative threshold given both as a
/// whole number and as its binary64 bit pattern. For non-negative binary64
/// values the order of the bit patterns is the order of the values; negative
/// values, negative zero and NaNs are never greater.
pub open spec fn exceeds(n: JsonNumber, whole: u64, bits: u64) -> bool {
    match n {
        JsonNumber::PosInt(u) => u > whole,
        JsonNumber::NegInt(_) => false,
        JsonNumber::Float(b) => bits < b && b <= POSITIVE_INFINITY_BITS,
    }
}

fn number_exceeds(n: JsonNumber, whole: u64, bits: u64) -> (r: bool)
    ensures
        r == exceeds(n, whole, bits),
{
    match n {
        JsonNumber::PosInt(u) => u > whole,
        JsonNumber::NegInt(_) => false,
        JsonNumber::Float(b) => bits < b && b <= POSITIVE_INFINITY_BITS,
    }
}

/// The picture for a condition: the moon at night, rain when any falls, clouds
/// above half cover, the sun after more than an hour of sunshine, else clouds.
pub open spec fn image_for(rain: JsonNumber, cloud: Option<i64>, sun: Option<JsonNumber>, is_day: Option<bool>) -> WeatherImage {
    if is_day == Some(false) {
        WeatherImage::Moon
    } else if exceeds(rain, 0, 0) {
        WeatherImage::Rain
    } else if cloud matches Some(c) && c > 50 {
        WeatherImage::Cloud
    } else if sun matches Some(s) && exceeds(s, 3600, HOUR_SECONDS_BITS) {
        WeatherImage::Sun
    } else {
        WeatherImage::Cloud
    }
}

/// Chooses the picture for a condition; each source passes what it knows.
pub fn select_image_for_params(rain: JsonNumber, cloud: Option<i64>, sun: Option<JsonNumber>, is_day: Option<bool>) -> (r: WeatherImage)
    ensures
        r == image_for(rain, cloud, sun, is_day),
{
    if is_day == Some(false) {
        return WeatherImage::Moon;
    }
    if number_exceeds(rain, 0, 0) {
        return WeatherImage::Rain;
    }
    match (cloud, sun) {
        (Some(c), _) if c > 50 => WeatherImage::Cloud,
        (_, Some(s)) if number_exceeds(s, 3600, HOUR_SECONDS_BITS) => WeatherImage::Sun,
        _ => WeatherImage::Cloud,
    }
}

} // verus!
