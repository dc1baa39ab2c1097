use unyo::api::{
    apply_weather_fetch, forecast_hours, forecast_url, hour_label, time_with_hour_offset, weather_from_text,
    JsonNumber, JsonValue, WeatherInfo,
};
use unyo::errors::UnyoError;

fn num(x: f64) -> JsonValue {
    JsonValue::Number(JsonNumber::Float(x.to_bits()))
}

fn whole(x: u64) -> JsonValue {
    JsonValue::Number(JsonNumber::PosInt(x))
}

fn obj(fields: Vec<(&str, JsonValue)>) -> JsonValue {
    JsonValue::Object(fields.into_iter().map(|(k, v)| (k.to_string(), v)).collect())
}

fn floats(n: usize, base: f64) -> JsonValue {
    JsonValue::Array((0..n).map(|i| num(base + i as f64 * 0.5)).collect())
}

fn ints(n: usize, base: u64) -> JsonValue {
    JsonValue::Array((0..n).map(|i| whole(base + i as u64)).collect())
}

fn payload(hours: usize, days: usize) -> JsonValue {
    obj(vec![
        (
            "current",
            obj(vec![
                ("temperature_2m", num(12.3)),
                ("rain", num(0.0)),
                ("cloud_cover", whole(40)),
                ("is_day", whole(1)),
            ]),
        ),
        (
            "hourly",
            obj(vec![
                ("temperature_2m", floats(hours, 10.0)),
                ("rain", floats(hours, 0.1)),
                ("cloud_cover", ints(hours, 5)),
            ]),
        ),
        (
            "daily",
            obj(vec![
                ("temperature_2m_mean", floats(days, 15.0)),
                ("uv_index_max", floats(days, 3.25)),
                ("rain_sum", floats(days, 1.0)),
                ("sunshine_duration", floats(days, 3600.5)),
            ]),
        ),
    ])
}

fn hours() -> Vec<u32> {
    (0..24u32).map(|i| (i + 22) % 24).collect()
}

fn f(n: JsonNumber) -> f64 {
    match n {
        JsonNumber::Float(b) => f64::from_bits(b),
        JsonNumber::PosInt(u) => u as f64,
        JsonNumber::NegInt(i) => i as f64,
    }
}

#[test]
fn decodes_full_payload() {
    let w = WeatherInfo::from_json(&payload(24, 7), &"\"Berlin\"".to_string(), &hours()).expect("decodes");
    assert_eq!(w.city, "Berlin");
    assert!(w.is_day);
    assert_eq!(f(w.current.0), 12.3);
    assert_eq!(f(w.current.1), 0.0);
    assert_eq!(w.current.2, 40);
    assert_eq!(w.hourly.len(), 24);
    assert_eq!(w.daily.len(), 7);
    assert_eq!(f(w.hourly[3].0), 11.5);
    assert_eq!(w.hourly[3].2, 8);
    assert_eq!(w.hourly[0].3, "22:00");
    assert_eq!(w.hourly[2].3, "0:00");
    assert_eq!(f(w.daily[6].3), 3603.5);
    assert_eq!(f(w.daily[1].1), 3.75);
}

#[test]
fn round_trip_passthrough_numbers() {
    let p = payload(24, 7);
    let w = WeatherInfo::from_json(&p, &"\"X\"".to_string(), &hours()).expect("decodes");
    let series = |group: &str, name: &str| -> Vec<JsonNumber> {
        let JsonValue::Object(top) = &p else { panic!() };
        let (_, JsonValue::Object(g)) = top.iter().find(|(k, _)| k == group).unwrap() else { panic!() };
        let (_, JsonValue::Array(a)) = g.iter().find(|(k, _)| k == name).unwrap() else { panic!() };
        a.iter().map(|v| match v { JsonValue::Number(n) => *n, _ => panic!() }).collect()
    };
    assert_eq!(w.hourly.iter().map(|h| h.0).collect::<Vec<_>>(), series("hourly", "temperature_2m"));
    assert_eq!(w.hourly.iter().map(|h| h.1).collect::<Vec<_>>(), series("hourly", "rain"));
    assert_eq!(w.daily.iter().map(|d| d.0).collect::<Vec<_>>(), series("daily", "temperature_2m_mean"));
    assert_eq!(w.daily.iter().map(|d| d.3).collect::<Vec<_>>(), series("daily", "sunshine_duration"));
}

#[test]
fn short_series_is_a_format_error() {
    let r = WeatherInfo::from_json(&payload(23, 7), &"\"X\"".to_string(), &hours());
    assert!(matches!(r, Err(UnyoError::ApiWeatherFmt)));
    let r = WeatherInfo::from_json(&payload(24, 6), &"\"X\"".to_string(), &hours());
    assert!(matches!(r, Err(UnyoError::ApiWeatherFmt)));
    let r = WeatherInfo::from_json(&JsonValue::Null, &"\"X\"".to_string(), &hours());
    assert!(matches!(r, Err(UnyoError::ApiWeatherFmt)));
}

#[test]
fn float_cloud_cover_is_a_format_error() {
    let p = obj(vec![(
        "current",
        obj(vec![("temperature_2m", num(1.0)), ("rain", num(0.0)), ("cloud_cover", num(40.0)), ("is_day", whole(0))]),
    )]);
    let r = WeatherInfo::from_json(&p, &"\"X\"".to_string(), &hours());
    assert!(matches!(r, Err(UnyoError::ApiWeatherFmt)));
}

#[test]
fn weather_text_is_parsed() {
    let mut text = String::from("{\"current\":{\"temperature_2m\":-3.5,\"rain\":0.2,\"cloud_cover\":80,\"is_day\":0},");
    let h: Vec<String> = (0..24).map(|i| format!("{}.5", i)).collect();
    let c: Vec<String> = (0..24).map(|i| format!("{}", i * 4)).collect();
    text.push_str(&format!(
        "\"hourly\":{{\"temperature_2m\":[{}],\"rain\":[{}],\"cloud_cover\":[{}]}},",
        h.join(","),
        h.join(","),
        c.join(",")
    ));
    let d: Vec<String> = (0..7).map(|i| format!("{}", i)).collect();
    text.push_str(&format!(
        "\"daily\":{{\"temperature_2m_mean\":[{}],\"uv_index_max\":[{}],\"rain_sum\":[{}],\"sunshine_duration\":[{}]}}}}",
        d.join(","),
        d.join(","),
        d.join(","),
        d.join(",")
    ));
    let w = weather_from_text(&text, "u", &"\"Bonn\"".to_string(), &hours()).expect("decodes");
    assert_eq!(w.city, "Bonn");
    assert!(!w.is_day);
    assert_eq!(f(w.current.0), -3.5);
    assert_eq!(w.current.2, 80);
    assert_eq!(f(w.hourly[23].0), 23.5);
    assert_eq!(w.hourly[5].2, 20);
    assert_eq!(w.daily[4].2, JsonNumber::PosInt(4));
}

#[test]
fn weather_text_errors() {
    let r = weather_from_text("{not json", "https://x", &"\"Bonn\"".to_string(), &hours());
    match r {
        Err(UnyoError::ApiReqFmt(_, uri)) => assert_eq!(uri, "https://x"),
        other => panic!("unexpected {:?}", other),
    }
    let r = weather_from_text("{\"current\":{}}", "https://x", &"\"Bonn\"".to_string(), &hours());
    assert!(matches!(r, Err(UnyoError::ApiWeatherFmt)));
}

#[test]
fn failed_fetch_keeps_weather() {
    let w = WeatherInfo::from_json(&payload(24, 7), &"\"Old\"".to_string(), &hours()).expect("decodes");
    let kept = apply_weather_fetch(Some(w), Err(UnyoError::ApiWeatherFmt)).expect("kept");
    assert_eq!(kept.city, "Old");
    let new = WeatherInfo::from_json(&payload(24, 7), &"\"New\"".to_string(), &hours()).expect("decodes");
    let replaced = apply_weather_fetch(Some(kept), Ok(new)).expect("replaced");
    assert_eq!(replaced.city, "New");
    assert!(apply_weather_fetch(None, Err(UnyoError::ApiReq("down".to_string(), "u".to_string()))).is_none());
}

#[test]
fn hour_labels() {
    assert_eq!(hour_label(0), "0:00");
    assert_eq!(hour_label(7), "7:00");
    assert_eq!(hour_label(13), "13:00");
    assert_eq!(hour_label(4294967295), "4294967295:00");
}

#[test]
fn clock_hours() {
    let v = forecast_hours().expect("clock in range");
    assert_eq!(v.len(), 24);
    for i in 0..24 {
        assert!(v[i] < 24);
    }
    let label = time_with_hour_offset(0).expect("clock in range");
    assert!(label.ends_with(":00"));
    assert!(time_with_hour_offset(i64::MAX).is_none());
    for offset in [30i64, 100, -5] {
        let label = time_with_hour_offset(offset).expect("clock in range");
        let hour: u32 = label.trim_end_matches(":00").parse().expect("an hour");
        assert!(hour < 24);
    }
}

#[test]
fn forecast_address() {
    let u = forecast_url("52.5", "13.4");
    assert!(u.starts_with("https://api.open-meteo.com/v1/forecast?latitude=52.5&longitude=13.4&daily="));
    assert!(u.ends_with("&timezone=auto&forecast_hours=24"));
}
