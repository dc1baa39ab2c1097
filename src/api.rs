//! The weather source: the library's JSON model, the all-or-nothing decoder of
//! forecast payloads, hour labels, the forecast address, and the weather slot's
//! fail-soft rule.

use vstd::prelude::*;
use crate::errors::UnyoError;
use serde_json::Value;

verus! {

/// A JSON number as the parser read it: a non-negative integer, a negative
/// integer, or a binary64 float kept as its IEEE-754 bit pattern, so that a
/// value passes through the library unchanged.
#[derive(Debug, Clone, Copy, PartialEq, Eq, Structural)]
pub enum JsonNumber {
    PosInt(u64),
    NegInt(i64),
    Float(u64),
}

/// A parsed JSON document. The members of an object keep the parser's order.
#[derive(Debug)]
pub enum JsonValue {
    Null,
    Bool(bool),
    Number(JsonNumber),
    Str(String),
    Array(Vec<JsonValue>),
    Object(Vec<(String, JsonValue)>),
}

/// The value of the first member named `key` at or after index `i`.
pub open spec fn member_from(fields: Seq<(String, JsonValue)>, key: Seq<char>, i: int) -> Option<JsonValue>
    decreases fields.len() - i,
{
    if i < 0 || i >= fields.len() {
        None
    } else if fields[i].0@ == key {
        Some(fields[i].1)
    } else {
        member_from(fields, key, i + 1)
    }
}

/// The member `key` of an object; nothing for any other value.
pub open spec fn member(v: JsonValue, key: Seq<char>) -> Option<JsonValue> {
    match v {
        JsonValue::Object(fields) => member_from(fields@, key, 0),
        _ => None,
    }
}

pub open spec fn opt_member(v: Option<JsonValue>, key: Seq<char>) -> Option<JsonValue> {
    match v {
        Some(x) => member(x, key),
        None => None,
    }
}

/// A value read as a number of any kind.
pub open spec fn number_of(v: Option<JsonValue>) -> Option<JsonNumber> {
    match v {
        Some(JsonValue::Number(n)) => Some(n),
        _ => None,
    }
}

/// A value read as an `i64`: an integer that fits; never a float.
pub open spec fn int_of(v: Option<JsonValue>) -> Option<i64> {
    match v {
        Some(JsonValue::Number(JsonNumber::PosInt(n))) => if n <= i64::MAX {
            Some(n as i64)
        } else {
            None
        },
        Some(JsonValue::Number(JsonNumber::NegInt(n))) => Some(n),
        _ => None,
    }
}

/// A value read as an array.
pub open spec fn array_of(v: Option<JsonValue>) -> Option<Seq<JsonValue>> {
    match v {
        Some(JsonValue::Array(a)) => Some(a@),
        _ => None,
    }
}

pub open spec fn elem(a: Seq<JsonValue>, i: int) -> Option<JsonValue> {
    if 0 <= i < a.len() {
        Some(a[i])
    } else {
        None
    }
}

/// The array `name` of the group `group` of a payload; empty when there is none.
pub open spec fn series(v: JsonValue, group: Seq<char>, name: Seq<char>) -> Seq<JsonValue> {
    match array_of(opt_member(member(v, group), name)) {
        Some(a) => a,
        None => Seq::empty(),
    }
}

pub open spec fn digit_char(d: nat) -> char {
    if d == 0 { '0' } else if d == 1 { '1' } else if d == 2 { '2' } else if d == 3 { '3' }
    else if d == 4 { '4' } else if d == 5 { '5' } else if d == 6 { '6' } else if d == 7 { '7' }
    else if d == 8 { '8' } else { '9' }
}

/// The decimal digits of `n`, without leading zeros.
pub open spec fn decimal_text(n: nat) -> Seq<char>
    decreases n,
{
    if n < 10 {
        seq![digit_char(n)]
    } else {
        decimal_text(n / 10) + seq![digit_char(n % 10)]
    }
}

/// The label of an hour of the day, such as "7:00" or "13:00".
pub open spec fn hour_text(hour: u32) -> Seq<char> {
    decimal_text(hour as nat) + seq![':', '0', '0']
}

/// An hourly point: temperature, rain, cloud cover (%), hour label.
pub type HourlyView = (JsonNumber, JsonNumber, i64, Seq<char>);

/// A daily point: mean temperature, maximal UV index, rain sum, sunshine duration.
pub type DailyPoint = (JsonNumber, JsonNumber, JsonNumber, JsonNumber);

/// The current conditions of a payload (temperature, rain, cloud cover) and
/// whether it is day, when all of them are present with the right types.
pub open spec fn current_of(v: JsonValue) -> Option<((JsonNumber, JsonNumber, i64), bool)> {
    let c = member(v, "current"@);
    match (
        number_of(opt_member(c, "temperature_2m"@)),
        number_of(opt_member(c, "rain"@)),
        int_of(opt_member(c, "cloud_cover"@)),
        int_of(opt_member(c, "is_day"@)),
    ) {
        (Some(t), Some(r), Some(cc), Some(d)) => Some(((t, r, cc), d == 1)),
        _ => None,
    }
}

pub open spec fn hour_ok(t: Seq<JsonValue>, r: Seq<JsonValue>, c: Seq<JsonValue>, i: int) -> bool {
    &&& number_of(elem(t, i)) is Some
    &&& number_of(elem(r, i)) is Some
    &&& int_of(elem(c, i)) is Some
}

pub open spec fn hour_point(t: Seq<JsonValue>, r: Seq<JsonValue>, c: Seq<JsonValue>, i: int, hour: u32) -> HourlyView {
    (number_of(elem(t, i))->0, number_of(elem(r, i))->0, int_of(elem(c, i))->0, hour_text(hour))
}

/// The hourly points of a payload, labelled with the given hours of the day.
pub open spec fn hourly_of(v: JsonValue, hours: Seq<u32>) -> Option<Seq<HourlyView>> {
    let h = member(v, "hourly"@);
    match (
        array_of(opt_member(h, "temperature_2m"@)),
        array_of(opt_member(h, "rain"@)),
        array_of(opt_member(h, "cloud_cover"@)),
    ) {
        (Some(t), Some(r), Some(c)) => if forall|i: int| 0 <= i < 24 ==> #[trigger] hour_ok(t, r, c, i) {
            Some(Seq::new(24, |i: int| hour_point(t, r, c, i, hours[i])))
        } else {
            None
        },
        _ => None,
    }
}

pub open spec fn day_ok(m: Seq<JsonValue>, u: Seq<JsonValue>, r: Seq<JsonValue>, s: Seq<JsonValue>, i: int) -> bool {
    &&& number_of(elem(m, i)) is Some
    &&& number_of(elem(u, i)) is Some
    &&& number_of(elem(r, i)) is Some
    &&& number_of(elem(s, i)) is Some
}

pub open spec fn day_point(m: Seq<JsonValue>, u: Seq<JsonValue>, r: Seq<JsonValue>, s: Seq<JsonValue>, i: int) -> DailyPoint {
    (number_of(elem(m, i))->0, number_of(elem(u, i))->0, number_of(elem(r, i))->0, number_of(elem(s, i))->0)
}

/// The daily points of a payload.
pub open spec fn daily_of(v: JsonValue) -> Option<Seq<DailyPoint>> {
    let d = member(v, "daily"@);
    match (
        array_of(opt_member(d, "temperature_2m_mean"@)),
        array_of(opt_member(d, "uv_index_max"@)),
        array_of(opt_member(d, "rain_sum"@)),
        array_of(opt_member(d, "sunshine_duration"@)),
    ) {
        (Some(m), Some(u), Some(r), Some(s)) => if forall|i: int| 0 <= i < 7 ==> #[trigger] day_ok(m, u, r, s, i) {
            Some(Seq::new(7, |i: int| day_point(m, u, r, s, i)))
        } else {
            None
        },
        _ => None,
    }
}

/// The abstract content of a weather snapshot.
pub struct WeatherView {
    pub city: Seq<char>,
    pub is_day: bool,
    pub current: (JsonNumber, JsonNumber, i64),
    pub daily: Seq<DailyPoint>,
    pub hourly: Seq<HourlyView>,
}

/// What a payload decodes to, all or nothing. The city comes quoted from the
/// geolocation lookup and is published without its first and last character.
pub open spec fn decoded_weather(v: JsonValue, city: Seq<char>, hours: Seq<u32>) -> Option<WeatherView> {
    match (current_of(v), hourly_of(v, hours), daily_of(v)) {
        (Some(c), Some(h), Some(d)) => Some(
            WeatherView {
                city: city.subrange(1, city.len() - 1),
                is_day: c.1,
                current: c.0,
                daily: d,
                hourly: h,
            },
        ),
        _ => None,
    }
}

pub open spec fn deref_json(v: Option<&JsonValue>) -> Option<JsonValue> {
    match v {
        Some(x) => Some(*x),
        None => None,
    }
}

/// The member `key` of an object.
pub fn json_member<'a>(v: Option<&'a JsonValue>, key: &String) -> (r: Option<&'a JsonValue>)
    ensures
        deref_json(r) == opt_member(deref_json(v), key@),
{
    let fields = match v {
        Some(JsonValue::Object(fields)) => fields,
        _ => return None,
    };
    let mut i: usize = 0;
    while i < fields.len()
        invariant
            i <= fields.len(),
            opt_member(deref_json(v), key@) == member_from(fields@, key@, 0),
            member_from(fields@, key@, 0) == member_from(fields@, key@, i as int),
        decreases fields.len() - i,
    {
        if fields[i].0 == *key {
            return Some(&fields[i].1);
        }
        i = i + 1;
    }
    None
}

/// A value read as a number of any kind.
pub fn json_number(v: Option<&JsonValue>) -> (r: Option<JsonNumber>)
    ensures
        r == number_of(deref_json(v)),
{
    match v {
        Some(JsonValue::Number(n)) => Some(*n),
        _ => None,
    }
}

/// A value read as an `i64`.
pub fn json_int(v: Option<&JsonValue>) -> (r: Option<i64>)
    ensures
        r == int_of(deref_json(v)),
{
    match v {
        Some(JsonValue::Number(JsonNumber::PosInt(n))) => if *n <= 0x7fff_ffff_ffff_ffff {
            Some(*n as i64)
        } else {
            None
        },
        Some(JsonValue::Number(JsonNumber::NegInt(n))) => Some(*n),
        _ => None,
    }
}

/// A value read as an array.
pub fn json_array(v: Option<&JsonValue>) -> (r: Option<&Vec<JsonValue>>)
    ensures
        match r {
            Some(a) => array_of(deref_json(v)) == Some(a@),
            None => array_of(deref_json(v)) is None,
        },
{
    match v {
        Some(JsonValue::Array(a)) => Some(a),
        _ => None,
    }
}

fn json_elem(a: &Vec<JsonValue>, i: usize) -> (r: Option<&JsonValue>)
    ensures
        deref_json(r) == elem(a@, i as int),
{
    if i < a.len() {
        Some(&a[i])
    } else {
        None
    }
}

pub(crate) fn digit_str(d: u32) -> (r: &'static str)
    requires
        d < 10,
    ensures
        r@ == seq![digit_char(d as nat)],
{
    proof {
        reveal_strlit("0");
        reveal_strlit("1");
        reveal_strlit("2");
        reveal_strlit("3");
        reveal_strlit("4");
        reveal_strlit("5");
        reveal_strlit("6");
        reveal_strlit("7");
        reveal_strlit("8");
        reveal_strlit("9");
    }
    let r = if d == 0 { "0" } else if d == 1 { "1" } else if d == 2 { "2" } else if d == 3 { "3" }
    else if d == 4 { "4" } else if d == 5 { "5" } else if d == 6 { "6" } else if d == 7 { "7" }
    else if d == 8 { "8" } else { "9" };
    assert(r@ =~= seq![digit_char(d as nat)]);
    r
}

pub(crate) fn append_decimal(out: &mut String, n: u32)
    ensures
        final(out)@ == old(out)@ + decimal_text(n as nat),
    decreases n,
{
    if n >= 10 {
        append_decimal(out, n / 10);
    }
    out.append(digit_str(n % 10));
    proof {
        assert(final(out)@ =~= old(out)@ + decimal_text(n as nat));
    }
}

/// The label of an hour of the day: its decimal digits followed by ":00".
pub fn hour_label(hour: u32) -> (r: String)
    ensures
        r@ == hour_text(hour),
{
    let mut r = String::new();
    append_decimal(&mut r, hour);
    r.append(":00");
    proof {
        reveal_strlit(":00");
        assert(r@ =~= hour_text(hour));
    }
    r
}

/// A decoded forecast: the city, whether it is day, the current temperature,
/// rain and cloud cover, 7 daily points and 24 hourly points.
#[derive(Debug)]
pub struct WeatherInfo {
    pub city: String,
    pub is_day: bool,
    pub current: (JsonNumber, JsonNumber, i64),
    pub daily: Vec<DailyPoint>,
    pub hourly: Vec<(JsonNumber, JsonNumber, i64, String)>,
}

pub open spec fn hourly_view(h: (JsonNumber, JsonNumber, i64, String)) -> HourlyView {
    (h.0, h.1, h.2, h.3@)
}

impl View for WeatherInfo {
    type V = WeatherView;

    open spec fn view(&self) -> WeatherView {
        WeatherView {
            city: self.city@,
            is_day: self.is_day,
            current: self.current,
            daily: self.daily@,
            hourly: self.hourly@.map_values(|h: (JsonNumber, JsonNumber, i64, String)| hourly_view(h)),
        }
    }
}

fn decode_hourly(v: &JsonValue, hours: &Vec<u32>) -> (r: Option<Vec<(JsonNumber, JsonNumber, i64, String)>>)
    requires
        hours@.len() == 24,
    ensures
        match r {
            Some(h) => hourly_of(*v, hours@) == Some(h@.map_values(|x: (JsonNumber, JsonNumber, i64, String)| hourly_view(x))),
            None => hourly_of(*v, hours@) is None,
        },
{
    let group = json_member(Some(v), &String::from_str("hourly"));
    let t = match json_array(json_member(group, &String::from_str("temperature_2m"))) {
        Some(a) => a,
        None => return None,
    };
    let r = match json_array(json_member(group, &String::from_str("rain"))) {
        Some(a) => a,
        None => return None,
    };
    let c = match json_array(json_member(group, &String::from_str("cloud_cover"))) {
        Some(a) => a,
        None => return None,
    };
    let mut out: Vec<(JsonNumber, JsonNumber, i64, String)> = Vec::new();
    let mut i: usize = 0;
    while i < 24
        invariant
            i <= 24,
            hours@.len() == 24,
            out@.len() == i,
            array_of(opt_member(member(*v, "hourly"@), "temperature_2m"@)) == Some(t@),
            array_of(opt_member(member(*v, "hourly"@), "rain"@)) == Some(r@),
            array_of(opt_member(member(*v, "hourly"@), "cloud_cover"@)) == Some(c@),
            forall|j: int| 0 <= j < i ==> #[trigger] hour_ok(t@, r@, c@, j),
            forall|j: int| 0 <= j < i ==> hourly_view(#[trigger] out@[j]) == hour_point(t@, r@, c@, j, hours@[j]),
        decreases 24 - i,
    {
        let (tn, rn, cn) = match (json_number(json_elem(t, i)), json_number(json_elem(r, i)), json_int(json_elem(c, i))) {
            (Some(x), Some(y), Some(z)) => (x, y, z),
            _ => {
                assert(!hour_ok(t@, r@, c@, i as int));
                return None;
            },
        };
        let label = hour_label(hours[i]);
        out.push((tn, rn, cn, label));
        i = i + 1;
    }
    proof {
        let mapped = out@.map_values(|x: (JsonNumber, JsonNumber, i64, String)| hourly_view(x));
        assert(mapped =~= Seq::new(24, |j: int| hour_point(t@, r@, c@, j, hours@[j])));
    }
    Some(out)
}

fn decode_daily(v: &JsonValue) -> (r: Option<Vec<DailyPoint>>)
    ensures
        match r {
            Some(d) => daily_of(*v) == Some(d@),
            None => daily_of(*v) is None,
        },
{
    let group = json_member(Some(v), &String::from_str("daily"));
    let m = match json_array(json_member(group, &String::from_str("temperature_2m_mean"))) {
        Some(a) => a,
        None => return None,
    };
    let u = match json_array(json_member(group, &String::from_str("uv_index_max"))) {
        Some(a) => a,
        None => return None,
    };
    let r = match json_array(json_member(group, &String::from_str("rain_sum"))) {
        Some(a) => a,
        None => return None,
    };
    let s = match json_array(json_member(group, &String::from_str("sunshine_duration"))) {
        Some(a) => a,
        None => return None,
    };
    let mut out: Vec<DailyPoint> = Vec::new();
    let mut i: usize = 0;
    while i < 7
        invariant
            i <= 7,
            out@.len() == i,
            array_of(opt_member(member(*v, "daily"@), "temperature_2m_mean"@)) == Some(m@),
            array_of(opt_member(member(*v, "daily"@), "uv_index_max"@)) == Some(u@),
            array_of(opt_member(member(*v, "daily"@), "rain_sum"@)) == Some(r@),
            array_of(opt_member(member(*v, "daily"@), "sunshine_duration"@)) == Some(s@),
            forall|j: int| 0 <= j < i ==> #[trigger] day_ok(m@, u@, r@, s@, j),
            forall|j: int| 0 <= j < i ==> #[trigger] out@[j] == day_point(m@, u@, r@, s@, j),
        decreases 7 - i,
    {
        let (mn, un, rn, sn) = match (
            json_number(json_elem(m, i)),
            json_number(json_elem(u, i)),
            json_number(json_elem(r, i)),
            json_number(json_elem(s, i)),
        ) {
            (Some(a), Some(b), Some(x), Some(y)) => (a, b, x, y),
            _ => {
                assert(!day_ok(m@, u@, r@, s@, i as int));
                return None;
            },
        };
        out.push((mn, un, rn, sn));
        i = i + 1;
    }
    assert(out@ =~= Seq::new(7, |j: int| day_point(m@, u@, r@, s@, j)));
    Some(out)
}

impl WeatherInfo {
    /// Decodes a forecast payload, all or nothing. `city` is the quoted city
    /// name of the geolocation lookup; `hours[i]` is the hour of the day `i`
    /// hours from now, which labels the hourly point `i`.
    pub fn from_json(value: &JsonValue, city: &String, hours: &Vec<u32>) -> (r: Result<WeatherInfo, UnyoError>)
        requires
            city@.len() >= 2,
            hours@.len() == 24,
        ensures
            match r {
                Ok(w) => decoded_weather(*value, city@, hours@) == Some(w@),
                Err(e) => decoded_weather(*value, city@, hours@) is None && e == UnyoError::ApiWeatherFmt,
            },
    {
        let n = city.as_str().unicode_len();
        let city_name = String::from_str(city.as_str().substring_char(1, n - 1));
        let group = json_member(Some(value), &String::from_str("current"));
        let temp = json_number(json_member(group, &String::from_str("temperature_2m")));
        let rain = json_number(json_member(group, &String::from_str("rain")));
        let cloud = json_int(json_member(group, &String::from_str("cloud_cover")));
        let day = json_int(json_member(group, &String::from_str("is_day")));
        let (current, is_day) = match (temp, rain, cloud, day) {
            (Some(t), Some(r), Some(c), Some(d)) => ((t, r, c), d == 1),
            _ => return Err(UnyoError::ApiWeatherFmt),
        };
        let hourly = match decode_hourly(value, hours) {
            Some(h) => h,
            None => return Err(UnyoError::ApiWeatherFmt),
        };
        let daily = match decode_daily(value) {
            Some(d) => d,
            None => return Err(UnyoError::ApiWeatherFmt),
        };
        Ok(WeatherInfo { city: city_name, is_day, current, daily, hourly })
    }
}

pub open spec fn forecast_url_of(lat: Seq<char>, lon: Seq<char>) -> Seq<char> {
    "https://api.open-meteo.com/v1/forecast?latitude="@ + lat + "&longitude="@ + lon
        + "&daily=sunshine_duration,temperature_2m_max,temperature_2m_min,uv_index_max,temperature_2m_mean,rain_sum&hourly=temperature_2m,cloud_cover,rain&current=temperature_2m,rain,cloud_cover,is_day&timezone=auto&forecast_hours=24"@
}

/// The address of the forecast for a latitude and a longitude, written as the
/// geolocation lookup gives them.
pub fn forecast_url(lat: &str, lon: &str) -> (r: String)
    ensures
        r@ == forecast_url_of(lat@, lon@),
{
    let mut r = String::from_str("https://api.open-meteo.com/v1/forecast?latitude=");
    r.append(lat);
    r.append("&longitude=");
    r.append(lon);
    r.append(
        "&daily=sunshine_duration,temperature_2m_max,temperature_2m_min,uv_index_max,temperature_2m_mean,rain_sum&hourly=temperature_2m,cloud_cover,rain&current=temperature_2m,rain,cloud_cover,is_day&timezone=auto&forecast_hours=24",
    );
    r
}

/// The snapshot that the weather slot holds after a fetch: the fetched one on
/// success, the previous one (or none) on failure.
pub open spec fn weather_after(prev: Option<WeatherInfo>, fetched: Result<WeatherInfo, UnyoError>) -> Option<WeatherInfo> {
    match fetched {
        Ok(w) => Some(w),
        Err(_) => prev,
    }
}

/// Applies the outcome of a fetch to the weather slot.
pub fn apply_weather_fetch(prev: Option<WeatherInfo>, fetched: Result<WeatherInfo, UnyoError>) -> (r: Option<WeatherInfo>)
    ensures
        r == weather_after(prev, fetched),
{
    match fetched {
        Ok(w) => Some(w),
        Err(_) => prev,
    }
}

/// A failed fetch leaves the published forecast as it was, and a successful one
/// replaces it whole: nothing of the previous forecast is kept.
pub proof fn lemma_failed_fetch_keeps_weather(prev: Option<WeatherInfo>, fetched: Result<WeatherInfo, UnyoError>)
    ensures
        fetched is Err ==> weather_after(prev, fetched) == prev,
        fetched matches Ok(w) ==> weather_after(prev, fetched) == Some(w)
            && weather_after(prev, fetched)->0@ == w@,
{
}

/// Re-encoding the passthrough numbers of a decoded forecast gives back the
/// payload's own values: 24 hourly and 7 daily points, each equal to the entry
/// at its place in the payload's series (a series of exactly that length comes
/// back whole), and the current temperature and rain as they were.
pub proof fn lemma_weather_round_trip(v: JsonValue, city: Seq<char>, hours: Seq<u32>)
    requires
        decoded_weather(v, city, hours) is Some,
    ensures
        ({
            let w = decoded_weather(v, city, hours)->0;
            &&& w.hourly.len() == 24
            &&& w.daily.len() == 7
            &&& Seq::new(24, |i: int| JsonValue::Number(w.hourly[i].0)) == series(v, "hourly"@, "temperature_2m"@).take(24)
            &&& Seq::new(24, |i: int| JsonValue::Number(w.hourly[i].1)) == series(v, "hourly"@, "rain"@).take(24)
            &&& Seq::new(7, |i: int| JsonValue::Number(w.daily[i].0)) == series(v, "daily"@, "temperature_2m_mean"@).take(7)
            &&& Seq::new(7, |i: int| JsonValue::Number(w.daily[i].1)) == series(v, "daily"@, "uv_index_max"@).take(7)
            &&& Seq::new(7, |i: int| JsonValue::Number(w.daily[i].2)) == series(v, "daily"@, "rain_sum"@).take(7)
            &&& Seq::new(7, |i: int| JsonValue::Number(w.daily[i].3)) == series(v, "daily"@, "sunshine_duration"@).take(7)
            &&& Some(JsonValue::Number(w.current.0)) == opt_member(member(v, "current"@), "temperature_2m"@)
            &&& Some(JsonValue::Number(w.current.1)) == opt_member(member(v, "current"@), "rain"@)
        }),
{
    let w = decoded_weather(v, city, hours)->0;
    let t = series(v, "hourly"@, "temperature_2m"@);
    let r = series(v, "hourly"@, "rain"@);
    let c = series(v, "hourly"@, "cloud_cover"@);
    assert(hour_ok(t, r, c, 23));
    assert(Seq::new(24, |i: int| JsonValue::Number(w.hourly[i].0)) =~= t.take(24)) by {
        assert forall|i: int| 0 <= i < 24 implies JsonValue::Number(w.hourly[i].0) == t[i] by {
            assert(hour_ok(t, r, c, i));
        }
    }
    assert(Seq::new(24, |i: int| JsonValue::Number(w.hourly[i].1)) =~= r.take(24)) by {
        assert forall|i: int| 0 <= i < 24 implies JsonValue::Number(w.hourly[i].1) == r[i] by {
            assert(hour_ok(t, r, c, i));
        }
    }
    let m = series(v, "daily"@, "temperature_2m_mean"@);
    let u = series(v, "daily"@, "uv_index_max"@);
    let rs = series(v, "daily"@, "rain_sum"@);
    let sd = series(v, "daily"@, "sunshine_duration"@);
    assert(day_ok(m, u, rs, sd, 6));
    assert(Seq::new(7, |i: int| JsonValue::Number(w.daily[i].0)) =~= m.take(7)) by {
        assert forall|i: int| 0 <= i < 7 implies JsonValue::Number(w.daily[i].0) == m[i] by {
            assert(day_ok(m, u, rs, sd, i));
        }
    }
    assert(Seq::new(7, |i: int| JsonValue::Number(w.daily[i].1)) =~= u.take(7)) by {
        assert forall|i: int| 0 <= i < 7 implies JsonValue::Number(w.daily[i].1) == u[i] by {
            assert(day_ok(m, u, rs, sd, i));
        }
    }
    assert(Seq::new(7, |i: int| JsonValue::Number(w.daily[i].2)) =~= rs.take(7)) by {
        assert forall|i: int| 0 <= i < 7 implies JsonValue::Number(w.daily[i].2) == rs[i] by {
            assert(day_ok(m, u, rs, sd, i));
        }
    }
    assert(Seq::new(7, |i: int| JsonValue::Number(w.daily[i].3)) =~= sd.take(7)) by {
        assert forall|i: int| 0 <= i < 7 implies JsonValue::Number(w.daily[i].3) == sd[i] by {
            assert(day_ok(m, u, rs, sd, i));
        }
    }
}

#[verifier::external_type_specification]
#[verifier::external_body]
pub struct ExSerdeValue(serde_json::Value);

/// Moves a serde_json document into the library's JSON model, value for value:
/// members in the document's order, floats by their bit pattern. Relies on
/// serde_json::Number's as_u64, as_i64 and as_f64 to tell a non-negative
/// integer, a negative integer and a float apart.
#[verifier::external_body]
fn json_from_serde(v: Value) -> JsonValue {
    match v {
        Value::Null => JsonValue::Null,
        Value::Bool(b) => JsonValue::Bool(b),
        Value::Number(n) => JsonValue::Number(match (n.as_u64(), n.as_i64()) {
            (Some(u), _) => JsonNumber::PosInt(u),
            (None, Some(i)) => JsonNumber::NegInt(i),
            _ => JsonNumber::Float(n.as_f64().map_or(0, |x| x.to_bits())),
        }),
        Value::String(s) => JsonValue::Str(s),
        Value::Array(a) => JsonValue::Array(a.into_iter().map(json_from_serde).collect()),
        Value::Object(o) => JsonValue::Object(o.into_iter().map(|(k, x)| (k, json_from_serde(x))).collect()),
    }
}

/// The document that a JSON text parses to, or nothing when it is not valid JSON.
pub uninterp spec fn parsed_json(text: Seq<char>) -> Option<JsonValue>;

/// Relies on serde_json::from_str (into serde_json::Value): the document depends
/// on the text alone; a text that is not JSON gives the parser's message.
#[verifier::external_body]
fn parse_json(text: &str) -> (r: Result<JsonValue, String>)
    ensures
        match r {
            Ok(j) => parsed_json(text@) == Some(j),
            Err(_) => parsed_json(text@) is None,
        },
{
    serde_json::from_str::<serde_json::Value>(text).map(json_from_serde).map_err(|e| e.to_string())
}

/// Decodes the text of a forecast response fetched from `uri`: a text that is
/// not JSON fails with the parser's message and the address, a document that
/// lacks a field fails as `from_json` does.
pub fn weather_from_text(text: &str, uri: &str, city: &String, hours: &Vec<u32>) -> (r: Result<WeatherInfo, UnyoError>)
    requires
        city@.len() >= 2,
        hours@.len() == 24,
    ensures
        match parsed_json(text@) {
            None => r matches Err(UnyoError::ApiReqFmt(_, u)) && u@ == uri@,
            Some(j) => match r {
                Ok(w) => decoded_weather(j, city@, hours@) == Some(w@),
                Err(e) => decoded_weather(j, city@, hours@) is None && e == UnyoError::ApiWeatherFmt,
            },
        },
{
    match parse_json(text) {
        Ok(j) => WeatherInfo::from_json(&j, city, hours),
        Err(msg) => Err(UnyoError::ApiReqFmt(msg, String::from_str(uri))),
    }
}

/// Relies on chrono: the hour of the day (0 to 23) of the local wall-clock time
/// `hours_offset` hours from now, or nothing when that time is out of chrono's range.
#[verifier::external_body]
fn local_hour_after(hours_offset: i64) -> (r: Option<u32>)
    ensures
        r matches Some(h) ==> h < 24,
{
    let delta = chrono::TimeDelta::try_hours(hours_offset)?;
    let t = chrono::Local::now().naive_local().checked_add_signed(delta)?;
    Some(chrono::Timelike::hour(&t))
}

/// The label of the hour of the day `hours_offset` hours from now, such as "14:00".
pub fn time_with_hour_offset(hours_offset: i64) -> (r: Option<String>)
    ensures
        r matches Some(s) ==> exists|h: u32| h < 24 && s@ == hour_text(h),
{
    match local_hour_after(hours_offset) {
        Some(h) => Some(hour_label(h)),
        None => None,
    }
}

/// The hours of the day of the next 24 hours, starting with the current one,
/// which label the hourly points of a forecast.
pub fn forecast_hours() -> (r: Option<Vec<u32>>)
    ensures
        r matches Some(v) ==> v@.len() == 24 && forall|i: int| 0 <= i < 24 ==> #[trigger] v@[i] < 24,
{
    let mut v: Vec<u32> = Vec::new();
    let mut i: usize = 0;
    while i < 24
        invariant
            i <= 24,
            v@.len() == i,
            forall|j: int| 0 <= j < i ==> #[trigger] v@[j] < 24,
        decreases 24 - i,
    {
        match local_hour_after(i as i64) {
            Some(h) => v.push(h),
            None => return None,
        }
        i = i + 1;
    }
    Some(v)
}

} // verus!
