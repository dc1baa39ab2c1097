use unyo::api::JsonNumber;
use unyo::weather_widget::{select_image_for_params, WeatherImage};

fn reference(rain: f64, cloud: Option<i64>, sun: Option<f64>, is_day: Option<bool>) -> WeatherImage {
    if is_day.is_some_and(|t| !t) {
        return WeatherImage::Moon;
    }
    if rain > 0.0 {
        return WeatherImage::Rain;
    }
    match (cloud, sun) {
        (Some(c), _) if c > 50 => WeatherImage::Cloud,
        (_, Some(s)) if s > 3600.0 => WeatherImage::Sun,
        _ => WeatherImage::Cloud,
    }
}

fn fl(x: f64) -> JsonNumber {
    JsonNumber::Float(x.to_bits())
}

#[test]
fn image_choice_matches_float_comparisons() {
    let values = [0.0, -0.0, 0.1, -1.0, f64::NAN, f64::INFINITY, f64::NEG_INFINITY, 3600.0, 3600.5, 3599.9, 1e10, 5e-324];
    for &rain in &values {
        for &sun in &values {
            for cloud in [None, Some(50), Some(51)] {
                for day in [None, Some(true), Some(false)] {
                    assert_eq!(
                        select_image_for_params(fl(rain), cloud, Some(fl(sun)), day),
                        reference(rain, cloud, Some(sun), day),
                        "rain {rain} sun {sun} cloud {cloud:?} day {day:?}"
                    );
                }
            }
        }
    }
}

#[test]
fn image_choice_on_whole_numbers() {
    assert_eq!(select_image_for_params(JsonNumber::PosInt(0), None, Some(JsonNumber::PosInt(3601)), None), WeatherImage::Sun);
    assert_eq!(select_image_for_params(JsonNumber::PosInt(0), None, Some(JsonNumber::PosInt(3600)), None), WeatherImage::Cloud);
    assert_eq!(select_image_for_params(JsonNumber::PosInt(1), None, None, Some(true)), WeatherImage::Rain);
    assert_eq!(select_image_for_params(JsonNumber::NegInt(-1), Some(80), None, None), WeatherImage::Cloud);
    assert_eq!(select_image_for_params(JsonNumber::PosInt(3), Some(80), None, Some(false)), WeatherImage::Moon);
}
