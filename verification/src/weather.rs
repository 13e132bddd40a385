//! The measurement value model: each physical quantity is a distinct
//! unit-tagged scalar held as a fixed-point integer, with pure conversion
//! and rendering rules, plus the forecast snapshot structs composed of them.
//!
//! Fixed-point scales: temperatures, wind speeds, distances, UV index and
//! precipitation volumes are held in hundredths of their unit; latitudes and
//! longitudes in millionths of a degree; probabilities and moon phases in
//! ten-thousandths of one (basis points). Rendering rounds ties away from
//! zero.

use vstd::prelude::*;
use vstd::string::StringExecFns;

use crate::calendar::{format_day_date, format_time_12h, spec_day_date, spec_time_12h};
use crate::render::{
    push_sdec, push_tenths, push_udec, round_centi_to_tenths, round_centi_to_unit, round_div,
    spec_sdec, spec_tenths, spec_udec,
};

verus! {

/// Seconds since the Unix epoch, as reported by the upstream provider.
#[derive(Clone, Copy)]
pub struct UnixTimestamp(i64);

/// A temperature in hundredths of a kelvin.
#[derive(Clone, Copy)]
pub struct Kelvin(i64);

/// A temperature in hundredths of a degree Celsius.
#[derive(Clone, Copy)]
pub struct Celsius(i64);

/// A temperature in hundredths of a degree Fahrenheit.
#[derive(Clone, Copy)]
pub struct Fahrenheit(i64);

/// An atmospheric pressure in hectopascals.
#[derive(Clone, Copy)]
pub struct HPa(i32);

/// A percentage, zero to one hundred.
#[derive(Clone, Copy)]
pub struct Percent(u8);

/// A UV index in hundredths.
#[derive(Clone, Copy)]
pub struct UVIndex(i64);

/// A distance in hundredths of a metre.
#[derive(Clone, Copy)]
pub struct Metres(i64);

/// A speed in hundredths of a metre per second.
#[derive(Clone, Copy)]
pub struct MetresPerSecond(i64);

/// An upstream weather icon identifier.
pub struct Icon(String);

/// An upstream weather condition code.
#[derive(Clone, Copy)]
pub struct WeatherConditionId(u16);

/// A wind direction in meteorological degrees.
#[derive(Clone, Copy)]
pub struct Degrees(u16);

/// A probability in ten-thousandths of one (basis points).
#[derive(Clone, Copy)]
pub struct Probability(u32);

/// A moon phase between new moon and new moon, in ten-thousandths of one.
#[derive(Clone, Copy)]
pub struct MoonPhase(u32);

/// A latitude in millionths of a degree.
#[derive(Clone, Copy)]
pub struct Latitude(i64);

/// A longitude in millionths of a degree.
#[derive(Clone, Copy)]
pub struct Longitude(i64);

/// A timezone's offset from UTC in seconds.
#[derive(Clone, Copy)]
pub struct TimezoneOffset(i32);

/// A precipitation volume in hundredths of a millimetre.
#[derive(Clone, Copy)]
pub struct Millimetres(i64);

impl View for UnixTimestamp {
    type V = int;

    closed spec fn view(&self) -> int {
        self.0 as int
    }
}

impl UnixTimestamp {
    pub fn new(secs: i64) -> (r: Self)
        ensures
            r@ == secs,
    {
        UnixTimestamp(secs)
    }

    pub fn value(&self) -> (v: i64)
        ensures
            v == self@,
    {
        self.0
    }
}

impl View for Kelvin {
    type V = int;

    closed spec fn view(&self) -> int {
        self.0 as int
    }
}

impl Kelvin {
    pub fn new(centi_kelvin: i64) -> (r: Self)
        ensures
            r@ == centi_kelvin,
    {
        Kelvin(centi_kelvin)
    }

    pub fn value(&self) -> (v: i64)
        ensures
            v == self@,
    {
        self.0
    }
}

impl View for Celsius {
    type V = int;

    closed spec fn view(&self) -> int {
        self.0 as int
    }
}

impl View for Fahrenheit {
    type V = int;

    closed spec fn view(&self) -> int {
        self.0 as int
    }
}

impl View for HPa {
    type V = int;

    closed spec fn view(&self) -> int {
        self.0 as int
    }
}

impl HPa {
    pub fn new(hectopascals: i32) -> (r: Self)
        ensures
            r@ == hectopascals,
    {
        HPa(hectopascals)
    }

    pub fn value(&self) -> (v: i32)
        ensures
            v == self@,
    {
        self.0
    }
}

impl View for Percent {
    type V = int;

    closed spec fn view(&self) -> int {
        self.0 as int
    }
}

impl Percent {
    pub fn new(percent: u8) -> (r: Self)
        ensures
            r@ == percent,
    {
        Percent(percent)
    }

    pub fn value(&self) -> (v: u8)
        ensures
            v == self@,
    {
        self.0
    }
}

impl View for UVIndex {
    type V = int;

    closed spec fn view(&self) -> int {
        self.0 as int
    }
}

impl UVIndex {
    pub fn new(centi_index: i64) -> (r: Self)
        ensures
            r@ == centi_index,
    {
        UVIndex(centi_index)
    }

    pub fn value(&self) -> (v: i64)
        ensures
            v == self@,
    {
        self.0
    }
}

impl View for Metres {
    type V = int;

    closed spec fn view(&self) -> int {
        self.0 as int
    }
}

impl Metres {
    pub fn new(centi_metres: i64) -> (r: Self)
        ensures
            r@ == centi_metres,
    {
        Metres(centi_metres)
    }

    pub fn value(&self) -> (v: i64)
        ensures
            v == self@,
    {
        self.0
    }
}

impl View for MetresPerSecond {
    type V = int;

    closed spec fn view(&self) -> int {
        self.0 as int
    }
}

impl MetresPerSecond {
    pub fn new(centi_mps: i64) -> (r: Self)
        ensures
            r@ == centi_mps,
    {
        MetresPerSecond(centi_mps)
    }

    pub fn value(&self) -> (v: i64)
        ensures
            v == self@,
    {
        self.0
    }
}

impl View for Icon {
    type V = Seq<char>;

    closed spec fn view(&self) -> Seq<char> {
        self.0@
    }
}

impl Icon {
    pub fn new(name: String) -> (r: Self)
        ensures
            r@ == name@,
    {
        Icon(name)
    }

    pub fn as_str(&self) -> (v: &str)
        ensures
            v@ == self@,
    {
        self.0.as_str()
    }

    pub fn duplicate(&self) -> (r: Self)
        ensures
            r@ == self@,
    {
        Icon(self.0.clone())
    }
}

impl View for WeatherConditionId {
    type V = int;

    closed spec fn view(&self) -> int {
        self.0 as int
    }
}

impl WeatherConditionId {
    pub fn new(id: u16) -> (r: Self)
        ensures
            r@ == id,
    {
        WeatherConditionId(id)
    }

    pub fn value(&self) -> (v: u16)
        ensures
            v == self@,
    {
        self.0
    }
}

impl View for Degrees {
    type V = int;

    closed spec fn view(&self) -> int {
        self.0 as int
    }
}

impl Degrees {
    pub fn new(degrees: u16) -> (r: Self)
        ensures
            r@ == degrees,
    {
        Degrees(degrees)
    }

    pub fn value(&self) -> (v: u16)
        ensures
            v == self@,
    {
        self.0
    }
}

impl View for Probability {
    type V = int;

    closed spec fn view(&self) -> int {
        self.0 as int
    }
}

impl Probability {
    pub fn new(basis_points: u32) -> (r: Self)
        ensures
            r@ == basis_points,
    {
        Probability(basis_points)
    }

    pub fn value(&self) -> (v: u32)
        ensures
            v == self@,
    {
        self.0
    }
}

impl View for MoonPhase {
    type V = int;

    closed spec fn view(&self) -> int {
        self.0 as int
    }
}

impl MoonPhase {
    pub fn new(basis_points: u32) -> (r: Self)
        ensures
            r@ == basis_points,
    {
        MoonPhase(basis_points)
    }

    pub fn value(&self) -> (v: u32)
        ensures
            v == self@,
    {
        self.0
    }
}

impl View for Latitude {
    type V = int;

    closed spec fn view(&self) -> int {
        self.0 as int
    }
}

impl Latitude {
    pub fn new(micro_degrees: i64) -> (r: Self)
        ensures
            r@ == micro_degrees,
    {
        Latitude(micro_degrees)
    }

    pub fn value(&self) -> (v: i64)
        ensures
            v == self@,
    {
        self.0
    }
}

impl View for Longitude {
    type V = int;

    closed spec fn view(&self) -> int {
        self.0 as int
    }
}

impl Longitude {
    pub fn new(micro_degrees: i64) -> (r: Self)
        ensures
            r@ == micro_degrees,
    {
        Longitude(micro_degrees)
    }

    pub fn value(&self) -> (v: i64)
        ensures
            v == self@,
    {
        self.0
    }
}

impl View for TimezoneOffset {
    type V = int;

    closed spec fn view(&self) -> int {
        self.0 as int
    }
}

impl TimezoneOffset {
    pub fn new(seconds: i32) -> (r: Self)
        ensures
            r@ == seconds,
    {
        TimezoneOffset(seconds)
    }

    pub fn value(&self) -> (v: i32)
        ensures
            v == self@,
    {
        self.0
    }
}

impl View for Millimetres {
    type V = int;

    closed spec fn view(&self) -> int {
        self.0 as int
    }
}

impl Millimetres {
    pub fn new(centi_millimetres: i64) -> (r: Self)
        ensures
            r@ == centi_millimetres,
    {
        Millimetres(centi_millimetres)
    }

    pub fn value(&self) -> (v: i64)
        ensures
            v == self@,
    {
        self.0
    }
}

/// Hundredths of a degree Celsius for a temperature in hundredths of a
/// kelvin: `celsius = kelvin - 273.15`.
pub open spec fn celsius_of_kelvin(k: int) -> int {
    k - 27315
}

/// Hundredths of a degree Fahrenheit for a temperature in hundredths of a
/// degree Celsius: `fahrenheit = celsius * 1.8 + 32`, rounded to the
/// nearest hundredth, ties away from zero.
pub open spec fn fahrenheit_of_celsius(c: int) -> int {
    round_div(9 * c, 5) + 3200
}

/// Whether converting this kelvin value to Celsius stays within `i64`.
pub open spec fn celsius_fits(k: int) -> bool {
    i64::MIN <= celsius_of_kelvin(k)
}

/// Whether converting this kelvin value to Fahrenheit stays within `i64`.
pub open spec fn fahrenheit_fits(k: int) -> bool {
    i64::MIN <= fahrenheit_of_celsius(celsius_of_kelvin(k)) <= i64::MAX
}

impl Kelvin {
    pub fn to_celcius(self) -> (c: Celsius)
        requires
            celsius_fits(self@),
        ensures
            c@ == celsius_of_kelvin(self@),
    {
        Celsius(self.0 - 27315)
    }

    pub fn to_fahrenheit(self) -> (f: Fahrenheit)
        requires
            fahrenheit_fits(self@),
        ensures
            f@ == fahrenheit_of_celsius(celsius_of_kelvin(self@)),
    {
        let c: i128 = self.0 as i128 - 27315;
        let n: i128 = 9 * c;
        let rounded: i128 = if n >= 0 {
            (n + 2) / 5
        } else {
            -((-n + 2) / 5)
        };
        Fahrenheit((rounded + 3200) as i64)
    }
}

/// One decimal place and the Celsius glyph: `2685` is `"26.9°C"`.
pub open spec fn spec_celsius_display(c: int) -> Seq<char> {
    spec_tenths(round_div(c, 10)) + "°C"@
}

impl Celsius {
    /// The displayed temperature: one decimal place plus the unit glyph.
    pub fn display(&self) -> (r: String)
        ensures
            r@ == spec_celsius_display(self@),
    {
        let mut s = String::new();
        push_tenths(&mut s, round_centi_to_tenths(self.0));
        s.append("°C");
        s
    }
}

/// One decimal place and the Fahrenheit glyph: `8033` is `"80.3°F"`.
pub open spec fn spec_fahrenheit_display(f: int) -> Seq<char> {
    spec_tenths(round_div(f, 10)) + "°F"@
}

impl Fahrenheit {
    /// The displayed temperature: one decimal place plus the unit glyph.
    pub fn display(&self) -> (r: String)
        ensures
            r@ == spec_fahrenheit_display(self@),
    {
        let mut s = String::new();
        push_tenths(&mut s, round_centi_to_tenths(self.0));
        s.append("°F");
        s
    }
}

/// An integer and a percent sign: `38` is `"38%"`.
pub open spec fn spec_percent_display(p: int) -> Seq<char> {
    spec_udec(p) + "%"@
}

impl Percent {
    /// The displayed percentage: the integer value plus a percent sign.
    pub fn display(&self) -> (r: String)
        ensures
            r@ == spec_percent_display(self@),
    {
        let mut s = String::new();
        push_udec(&mut s, self.0 as u64);
        s.append("%");
        s
    }
}

/// One decimal place, no unit: `565` is `"5.7"`.
pub open spec fn spec_uvindex_display(u: int) -> Seq<char> {
    spec_tenths(round_div(u, 10))
}

impl UVIndex {
    /// The displayed UV index: one decimal place, no unit.
    pub fn display(&self) -> (r: String)
        ensures
            r@ == spec_uvindex_display(self@),
    {
        let mut s = String::new();
        push_tenths(&mut s, round_centi_to_tenths(self.0));
        s
    }
}

/// The whole-millimetre rendering: the volume rounded to the nearest
/// millimetre, ties away from zero, plus `"mm"`.
pub open spec fn spec_millimetres_display(mm: int) -> Seq<char> {
    spec_sdec(round_div(mm, 100)) + "mm"@
}

impl Millimetres {
    /// The displayed volume: rounded to whole millimetres plus the unit.
    pub fn display(&self) -> (r: String)
        ensures
            r@ == spec_millimetres_display(self@),
    {
        let mut s = String::new();
        push_sdec(&mut s, round_centi_to_unit(self.0));
        s.append("mm");
        s
    }
}

/// The probability as a whole percentage, rounded to nearest, plus a
/// percent sign: `3849` basis points is `"38%"`.
pub open spec fn spec_probability_display(bp: int) -> Seq<char> {
    spec_udec((bp + 50) / 100) + "%"@
}

impl Probability {
    /// The displayed probability: value times one hundred, rounded to the
    /// nearest integer, plus a percent sign.
    pub fn display(&self) -> (r: String)
        ensures
            r@ == spec_probability_display(self@),
    {
        let mut s = String::new();
        push_udec(&mut s, ((self.0 as u64) + 50) / 100);
        s.append("%");
        s
    }
}

/// One weather condition reported for a snapshot or a day.
pub struct Condition {
    pub id: WeatherConditionId,
    pub main: String,
    pub description: String,
    pub icon: Icon,
}

/// The ghost value of a `Condition`.
pub struct ConditionV {
    pub id: WeatherConditionId,
    pub main: Seq<char>,
    pub description: Seq<char>,
    pub icon: Seq<char>,
}

impl View for Condition {
    type V = ConditionV;

    open spec fn view(&self) -> ConditionV {
        ConditionV {
            id: self.id,
            main: self.main@,
            description: self.description@,
            icon: self.icon@,
        }
    }
}

impl Condition {
    /// A value-equal copy of this condition.
    pub fn duplicate(&self) -> (r: Self)
        ensures
            r@ == self@,
    {
        Condition {
            id: self.id,
            main: self.main.clone(),
            description: self.description.clone(),
            icon: self.icon.duplicate(),
        }
    }
}

/// The ghost values of a sequence of conditions.
pub open spec fn conditions_view(s: Seq<Condition>) -> Seq<ConditionV> {
    s.map_values(|c: Condition| c@)
}

fn duplicate_conditions(v: &Vec<Condition>) -> (r: Vec<Condition>)
    ensures
        conditions_view(r@) == conditions_view(v@),
{
    let mut out: Vec<Condition> = Vec::new();
    let mut i: usize = 0;
    while i < v.len()
        invariant
            i <= v.len(),
            out@.len() == i,
            forall|j: int| 0 <= j < i ==> out@[j]@ == v@[j]@,
        decreases v.len() - i,
    {
        out.push(v[i].duplicate());
        i = i + 1;
    }
    proof {
        assert(conditions_view(out@) =~= conditions_view(v@));
    }
    out
}

/// The day's temperatures at six reference points.
#[derive(Clone, Copy)]
pub struct DayTemp {
    pub day: Kelvin,
    pub min: Kelvin,
    pub max: Kelvin,
    pub night: Kelvin,
    pub eve: Kelvin,
    pub morn: Kelvin,
}

/// The day's felt temperatures at four reference points.
#[derive(Clone, Copy)]
pub struct FeelsLike {
    pub day: Kelvin,
    pub night: Kelvin,
    pub eve: Kelvin,
    pub morn: Kelvin,
}

/// Current conditions as reported by the upstream provider; `dt` is the
/// provider's own observation time, from which cache freshness is derived.
pub struct CurrentWeather {
    pub dt: UnixTimestamp,
    pub sunrise: UnixTimestamp,
    pub sunset: UnixTimestamp,
    pub temp: Kelvin,
    pub feels_like: Kelvin,
    pub pressure: HPa,
    pub humidity: Percent,
    pub dew_point: Kelvin,
    pub uvi: UVIndex,
    pub clouds: Percent,
    pub visibility: Metres,
    pub wind_speed: MetresPerSecond,
    pub wind_deg: Degrees,
    pub weather: Vec<Condition>,
}

/// The ghost value of a `CurrentWeather`.
pub struct CurrentWeatherV {
    pub dt: UnixTimestamp,
    pub sunrise: UnixTimestamp,
    pub sunset: UnixTimestamp,
    pub temp: Kelvin,
    pub feels_like: Kelvin,
    pub pressure: HPa,
    pub humidity: Percent,
    pub dew_point: Kelvin,
    pub uvi: UVIndex,
    pub clouds: Percent,
    pub visibility: Metres,
    pub wind_speed: MetresPerSecond,
    pub wind_deg: Degrees,
    pub weather: Seq<ConditionV>,
}

impl View for CurrentWeather {
    type V = CurrentWeatherV;

    open spec fn view(&self) -> CurrentWeatherV {
        CurrentWeatherV {
            dt: self.dt,
            sunrise: self.sunrise,
            sunset: self.sunset,
            temp: self.temp,
            feels_like: self.feels_like,
            pressure: self.pressure,
            humidity: self.humidity,
            dew_point: self.dew_point,
            uvi: self.uvi,
            clouds: self.clouds,
            visibility: self.visibility,
            wind_speed: self.wind_speed,
            wind_deg: self.wind_deg,
            weather: conditions_view(self.weather@),
        }
    }
}

impl CurrentWeather {
    /// A value-equal copy of the current conditions.
    pub fn duplicate(&self) -> (r: Self)
        ensures
            r@ == self@,
    {
        CurrentWeather {
            dt: self.dt,
            sunrise: self.sunrise,
            sunset: self.sunset,
            temp: self.temp,
            feels_like: self.feels_like,
            pressure: self.pressure,
            humidity: self.humidity,
            dew_point: self.dew_point,
            uvi: self.uvi,
            clouds: self.clouds,
            visibility: self.visibility,
            wind_speed: self.wind_speed,
            wind_deg: self.wind_deg,
            weather: duplicate_conditions(&self.weather),
        }
    }
}

/// One day's forecast record.
pub struct DailyForecast {
    pub dt: UnixTimestamp,
    pub sunrise: UnixTimestamp,
    pub sunset: UnixTimestamp,
    pub moonrise: UnixTimestamp,
    pub moonset: UnixTimestamp,
    pub moon_phase: MoonPhase,
    pub temp: DayTemp,
    pub feels_like: FeelsLike,
    pub pressure: HPa,
    pub humidity: Percent,
    pub dew_point: Kelvin,
    pub wind_speed: MetresPerSecond,
    pub wind_deg: Degrees,
    pub wind_gust: MetresPerSecond,
    pub weather: Vec<Condition>,
    pub clouds: Percent,
    pub uvi: UVIndex,
    pub pop: Probability,
    pub rain: Option<Millimetres>,
    pub snow: Option<Millimetres>,
}

/// The ghost value of a `DailyForecast`.
pub struct DailyForecastV {
    pub dt: UnixTimestamp,
    pub sunrise: UnixTimestamp,
    pub sunset: UnixTimestamp,
    pub moonrise: UnixTimestamp,
    pub moonset: UnixTimestamp,
    pub moon_phase: MoonPhase,
    pub temp: DayTemp,
    pub feels_like: FeelsLike,
    pub pressure: HPa,
    pub humidity: Percent,
    pub dew_point: Kelvin,
    pub wind_speed: MetresPerSecond,
    pub wind_deg: Degrees,
    pub wind_gust: MetresPerSecond,
    pub weather: Seq<ConditionV>,
    pub clouds: Percent,
    pub uvi: UVIndex,
    pub pop: Probability,
    pub rain: Option<Millimetres>,
    pub snow: Option<Millimetres>,
}

impl View for DailyForecast {
    type V = DailyForecastV;

    open spec fn view(&self) -> DailyForecastV {
        DailyForecastV {
            dt: self.dt,
            sunrise: self.sunrise,
            sunset: self.sunset,
            moonrise: self.moonrise,
            moonset: self.moonset,
            moon_phase: self.moon_phase,
            temp: self.temp,
            feels_like: self.feels_like,
            pressure: self.pressure,
            humidity: self.humidity,
            dew_point: self.dew_point,
            wind_speed: self.wind_speed,
            wind_deg: self.wind_deg,
            wind_gust: self.wind_gust,
            weather: conditions_view(self.weather@),
            clouds: self.clouds,
            uvi: self.uvi,
            pop: self.pop,
            rain: self.rain,
            snow: self.snow,
        }
    }
}

impl DailyForecast {
    /// A value-equal copy of this day's record.
    pub fn duplicate(&self) -> (r: Self)
        ensures
            r@ == self@,
    {
        DailyForecast {
            dt: self.dt,
            sunrise: self.sunrise,
            sunset: self.sunset,
            moonrise: self.moonrise,
            moonset: self.moonset,
            moon_phase: self.moon_phase,
            temp: self.temp,
            feels_like: self.feels_like,
            pressure: self.pressure,
            humidity: self.humidity,
            dew_point: self.dew_point,
            wind_speed: self.wind_speed,
            wind_deg: self.wind_deg,
            wind_gust: self.wind_gust,
            weather: duplicate_conditions(&self.weather),
            clouds: self.clouds,
            uvi: self.uvi,
            pop: self.pop,
            rain: self.rain,
            snow: self.snow,
        }
    }
}

/// The ghost values of a sequence of daily forecasts.
pub open spec fn daily_view(s: Seq<DailyForecast>) -> Seq<DailyForecastV> {
    s.map_values(|d: DailyForecast| d@)
}

fn duplicate_daily(v: &Vec<DailyForecast>) -> (r: Vec<DailyForecast>)
    ensures
        daily_view(r@) == daily_view(v@),
{
    let mut out: Vec<DailyForecast> = Vec::new();
    let mut i: usize = 0;
    while i < v.len()
        invariant
            i <= v.len(),
            out@.len() == i,
            forall|j: int| 0 <= j < i ==> out@[j]@ == v@[j]@,
        decreases v.len() - i,
    {
        out.push(v[i].duplicate());
        i = i + 1;
    }
    proof {
        assert(daily_view(out@) =~= daily_view(v@));
    }
    out
}

/// One fetched forecast: location, timezone, current conditions and the
/// ordered daily records.
pub struct OneCall {
    pub lat: Latitude,
    pub lon: Longitude,
    pub timezone: String,
    pub timezone_offset: TimezoneOffset,
    pub current: CurrentWeather,
    pub daily: Vec<DailyForecast>,
}

/// The ghost value of a `OneCall` snapshot.
pub struct OneCallV {
    pub lat: Latitude,
    pub lon: Longitude,
    pub timezone: Seq<char>,
    pub timezone_offset: TimezoneOffset,
    pub current: CurrentWeatherV,
    pub daily: Seq<DailyForecastV>,
}

impl View for OneCall {
    type V = OneCallV;

    open spec fn view(&self) -> OneCallV {
        OneCallV {
            lat: self.lat,
            lon: self.lon,
            timezone: self.timezone@,
            timezone_offset: self.timezone_offset,
            current: self.current@,
            daily: daily_view(self.daily@),
        }
    }
}

impl OneCall {
    /// A value-equal copy of the whole snapshot.
    pub fn duplicate(&self) -> (r: Self)
        ensures
            r@ == self@,
    {
        OneCall {
            lat: self.lat,
            lon: self.lon,
            timezone: self.timezone.clone(),
            timezone_offset: self.timezone_offset,
            current: self.current.duplicate(),
            daily: duplicate_daily(&self.daily),
        }
    }
}

/// The display unit for temperatures, chosen by the caller from the
/// visitor's country.
#[derive(Clone, Copy, Debug, PartialEq, Eq, Structural)]
pub enum TemperatureUnit {
    Celsius,
    Fahrenheit,
}

/// The display unit for an uppercase ISO 3166-1 alpha-2 country code:
/// Fahrenheit for the few countries that use it, Celsius everywhere else.
pub open spec fn spec_unit_for_country(code: Seq<char>) -> TemperatureUnit {
    if code == "BS"@ || code == "FM"@ || code == "KY"@ || code == "LR"@ || code == "MH"@ || code
        == "PW"@ || code == "US"@ {
        TemperatureUnit::Fahrenheit
    } else {
        TemperatureUnit::Celsius
    }
}

impl TemperatureUnit {
    /// The display unit for an uppercase ISO 3166-1 alpha-2 country code.
    pub fn for_country_code(code: &String) -> (u: TemperatureUnit)
        ensures
            u == spec_unit_for_country(code@),
    {
        if *code == "BS".to_owned() || *code == "FM".to_owned() || *code == "KY".to_owned()
            || *code == "LR".to_owned() || *code == "MH".to_owned() || *code == "PW".to_owned()
            || *code == "US".to_owned() {
            TemperatureUnit::Fahrenheit
        } else {
            TemperatureUnit::Celsius
        }
    }
}

/// Whether a kelvin value can be converted for display in the given unit
/// without leaving `i64`.
pub open spec fn spec_kelvin_display_fits(k: int, unit: TemperatureUnit) -> bool {
    match unit {
        TemperatureUnit::Celsius => celsius_fits(k),
        TemperatureUnit::Fahrenheit => fahrenheit_fits(k),
    }
}

/// The displayed temperature string for a kelvin value in the given unit.
pub open spec fn spec_temp_display(k: int, unit: TemperatureUnit) -> Seq<char> {
    match unit {
        TemperatureUnit::Celsius => spec_celsius_display(celsius_of_kelvin(k)),
        TemperatureUnit::Fahrenheit => spec_fahrenheit_display(
            fahrenheit_of_celsius(celsius_of_kelvin(k)),
        ),
    }
}

/// Rain or snow expected on a day, with its volume.
#[derive(Clone, Copy)]
pub enum RainOrSnow {
    Rain(Millimetres),
    Snow(Millimetres),
}

/// Precipitation expected on a day: rain or snow, and its probability.
pub struct Precipitation {
    rain_or_snow: RainOrSnow,
    pub probability: Probability,
}

impl Precipitation {
    /// Whether this precipitation is rain or snow, with its volume.
    pub closed spec fn spec_kind(&self) -> RainOrSnow {
        self.rain_or_snow
    }

    /// The probability attached to this precipitation.
    pub closed spec fn spec_probability(&self) -> Probability {
        self.probability
    }

    /// The display name of the precipitation kind.
    pub fn name(&self) -> (r: &'static str)
        ensures
            r@ == (match self.spec_kind() {
                RainOrSnow::Rain(_) => "Rain"@,
                RainOrSnow::Snow(_) => "Snow"@,
            }),
    {
        match self.rain_or_snow {
            RainOrSnow::Rain(_) => "Rain",
            RainOrSnow::Snow(_) => "Snow",
        }
    }

    /// The emoji for the precipitation kind.
    pub fn emoji(&self) -> (r: &'static str)
        ensures
            r@ == (match self.spec_kind() {
                RainOrSnow::Rain(_) => "🌧️"@,
                RainOrSnow::Snow(_) => "🌨️"@,
            }),
    {
        match self.rain_or_snow {
            RainOrSnow::Rain(_) => "🌧️",
            RainOrSnow::Snow(_) => "🌨️",
        }
    }

    /// The expected volume, whichever kind it is.
    pub fn volume(&self) -> (r: Millimetres)
        ensures
            r == (match self.spec_kind() {
                RainOrSnow::Rain(mm) => mm,
                RainOrSnow::Snow(mm) => mm,
            }),
    {
        match self.rain_or_snow {
            RainOrSnow::Rain(mm) => mm,
            RainOrSnow::Snow(mm) => mm,
        }
    }

    /// The probability of the precipitation.
    pub fn probability(&self) -> (r: Probability)
        ensures
            r == self.spec_probability(),
    {
        self.probability
    }
}

impl OneCall {
    /// The sunrise time of the current conditions, as a 12-hour clock line
    /// in the snapshot's own timezone.
    pub fn sunrise(&self) -> (r: String)
        requires
            0 <= self.current.sunrise@ + self.timezone_offset@,
        ensures
            r@ == spec_time_12h(self.current.sunrise@ + self.timezone_offset@),
    {
        self.current.sunrise.time_12h(&self.timezone_offset)
    }

    /// The sunset time of the current conditions, as a 12-hour clock line
    /// in the snapshot's own timezone.
    pub fn sunset(&self) -> (r: String)
        requires
            0 <= self.current.sunset@ + self.timezone_offset@,
        ensures
            r@ == spec_time_12h(self.current.sunset@ + self.timezone_offset@),
    {
        self.current.sunset.time_12h(&self.timezone_offset)
    }

    /// The current temperature rendered in the requested unit.
    pub fn current_temp(&self, unit: &TemperatureUnit) -> (r: String)
        requires
            spec_kelvin_display_fits(self.current.temp@, *unit),
        ensures
            r@ == spec_temp_display(self.current.temp@, *unit),
    {
        match unit {
            TemperatureUnit::Celsius => self.current.temp.to_celcius().display(),
            TemperatureUnit::Fahrenheit => self.current.temp.to_fahrenheit().display(),
        }
    }

    /// The current felt temperature rendered in the requested unit.
    pub fn feels_like(&self, unit: &TemperatureUnit) -> (r: String)
        requires
            spec_kelvin_display_fits(self.current.feels_like@, *unit),
        ensures
            r@ == spec_temp_display(self.current.feels_like@, *unit),
    {
        match unit {
            TemperatureUnit::Celsius => self.current.feels_like.to_celcius().display(),
            TemperatureUnit::Fahrenheit => self.current.feels_like.to_fahrenheit().display(),
        }
    }

    /// The current dew point rendered in the requested unit.
    pub fn dew_point(&self, unit: &TemperatureUnit) -> (r: String)
        requires
            spec_kelvin_display_fits(self.current.dew_point@, *unit),
        ensures
            r@ == spec_temp_display(self.current.dew_point@, *unit),
    {
        match unit {
            TemperatureUnit::Celsius => self.current.dew_point.to_celcius().display(),
            TemperatureUnit::Fahrenheit => self.current.dew_point.to_fahrenheit().display(),
        }
    }
}

impl DailyForecast {
    /// The day's dew point rendered in the requested unit.
    pub fn dew_point(&self, unit: &TemperatureUnit) -> (r: String)
        requires
            spec_kelvin_display_fits(self.dew_point@, *unit),
        ensures
            r@ == spec_temp_display(self.dew_point@, *unit),
    {
        match unit {
            TemperatureUnit::Celsius => self.dew_point.to_celcius().display(),
            TemperatureUnit::Fahrenheit => self.dew_point.to_fahrenheit().display(),
        }
    }

    /// The day's maximum temperature rendered in the requested unit.
    pub fn max(&self, unit: &TemperatureUnit) -> (r: String)
        requires
            spec_kelvin_display_fits(self.temp.max@, *unit),
        ensures
            r@ == spec_temp_display(self.temp.max@, *unit),
    {
        match unit {
            TemperatureUnit::Celsius => self.temp.max.to_celcius().display(),
            TemperatureUnit::Fahrenheit => self.temp.max.to_fahrenheit().display(),
        }
    }

    /// The day's sunrise as a 12-hour clock line in the given timezone.
    pub fn sunrise(&self, timezone_offset: &TimezoneOffset) -> (r: String)
        requires
            0 <= self.sunrise@ + timezone_offset@,
        ensures
            r@ == spec_time_12h(self.sunrise@ + timezone_offset@),
    {
        self.sunrise.time_12h(timezone_offset)
    }

    /// The day's sunset as a 12-hour clock line in the given timezone.
    pub fn sunset(&self, timezone_offset: &TimezoneOffset) -> (r: String)
        requires
            0 <= self.sunset@ + timezone_offset@,
        ensures
            r@ == spec_time_12h(self.sunset@ + timezone_offset@),
    {
        self.sunset.time_12h(timezone_offset)
    }

    /// The day's expected precipitation: rain if a rain volume is present,
    /// else snow if a snow volume is present, else none.
    pub fn precipitation(&self) -> (r: Option<Precipitation>)
        ensures
            match r {
                Some(p) => {
                    &&& p.spec_kind() == (match self.rain {
                        Some(mm) => RainOrSnow::Rain(mm),
                        None => RainOrSnow::Snow(self.snow->Some_0),
                    })
                    &&& self.rain is None ==> self.snow is Some
                    &&& p.spec_probability() == self.pop
                },
                None => self.rain is None && self.snow is None,
            },
    {
        if let Some(rain) = self.rain {
            Some(Precipitation { rain_or_snow: RainOrSnow::Rain(rain), probability: self.pop })
        } else if let Some(snow) = self.snow {
            Some(Precipitation { rain_or_snow: RainOrSnow::Snow(snow), probability: self.pop })
        } else {
            None
        }
    }
}

impl UnixTimestamp {
    /// The weekday/date line of this timestamp in the given timezone:
    /// full weekday name, comma, unpadded day of month, full month name.
    pub fn day_date(self, tz_offset: &TimezoneOffset) -> (r: String)
        requires
            0 <= self@ + tz_offset@,
        ensures
            r@ == spec_day_date(self@ + tz_offset@),
    {
        let local: i128 = self.0 as i128 + tz_offset.0 as i128;
        format_day_date(local as u64)
    }

    /// The 12-hour clock line of this timestamp in the given timezone:
    /// zero-padded hour and minute, and "AM" or "PM".
    pub fn time_12h(self, tz_offset: &TimezoneOffset) -> (r: String)
        requires
            0 <= self@ + tz_offset@,
        ensures
            r@ == spec_time_12h(self@ + tz_offset@),
    {
        let local: i128 = self.0 as i128 + tz_offset.0 as i128;
        format_time_12h(local as u64)
    }
}

} // verus!
