//! Tests of the measurement value model: conversions, display formats,
//! precipitation, and the temperature-unit policy.

use dewpoint::weather::{
    Condition, CurrentWeather, DailyForecast, DayTemp, Degrees, FeelsLike, HPa, Icon, Kelvin,
    Latitude, Longitude, Metres, MetresPerSecond, Millimetres, MoonPhase, OneCall, Percent,
    Probability, TemperatureUnit, TimezoneOffset, UVIndex, UnixTimestamp, WeatherConditionId,
};

fn one_call(temp_centi_kelvin: i64) -> OneCall {
    OneCall {
        lat: Latitude::new(51_507_000),
        lon: Longitude::new(-127_000),
        timezone: String::from("Europe/London"),
        timezone_offset: TimezoneOffset::new(3_600),
        current: CurrentWeather {
            dt: UnixTimestamp::new(1_625_443_200),
            sunrise: UnixTimestamp::new(1_625_443_200 + 11_040),
            sunset: UnixTimestamp::new(1_625_443_200 + 54_240),
            temp: Kelvin::new(temp_centi_kelvin),
            feels_like: Kelvin::new(temp_centi_kelvin - 150),
            pressure: HPa::new(1013),
            humidity: Percent::new(62),
            dew_point: Kelvin::new(28_500),
            uvi: UVIndex::new(565),
            clouds: Percent::new(40),
            visibility: Metres::new(1_000_000),
            wind_speed: MetresPerSecond::new(350),
            wind_deg: Degrees::new(180),
            weather: vec![Condition {
                id: WeatherConditionId::new(800),
                main: String::from("Clear"),
                description: String::from("clear sky"),
                icon: Icon::new(String::from("01d")),
            }],
        },
        daily: Vec::new(),
    }
}

fn daily(rain: Option<i64>, snow: Option<i64>) -> DailyForecast {
    DailyForecast {
        dt: UnixTimestamp::new(1_625_443_200),
        sunrise: UnixTimestamp::new(1_625_443_200 + 11_040),
        sunset: UnixTimestamp::new(1_625_443_200 + 54_240),
        moonrise: UnixTimestamp::new(1_625_443_200 + 20_000),
        moonset: UnixTimestamp::new(1_625_443_200 + 60_000),
        moon_phase: MoonPhase::new(5_000),
        temp: DayTemp {
            day: Kelvin::new(30_000),
            min: Kelvin::new(28_500),
            max: Kelvin::new(30_315),
            night: Kelvin::new(29_000),
            eve: Kelvin::new(29_500),
            morn: Kelvin::new(28_800),
        },
        feels_like: FeelsLike {
            day: Kelvin::new(29_900),
            night: Kelvin::new(28_900),
            eve: Kelvin::new(29_400),
            morn: Kelvin::new(28_700),
        },
        pressure: HPa::new(1010),
        humidity: Percent::new(70),
        dew_point: Kelvin::new(28_500),
        wind_speed: MetresPerSecond::new(420),
        wind_deg: Degrees::new(90),
        wind_gust: MetresPerSecond::new(800),
        weather: Vec::new(),
        clouds: Percent::new(75),
        uvi: UVIndex::new(700),
        pop: Probability::new(3_849),
        rain: rain.map(Millimetres::new),
        snow: snow.map(Millimetres::new),
    }
}

#[test]
fn scenario_e_kelvin_300_formats_in_both_units() {
    let k = Kelvin::new(30_000);
    assert_eq!(k.to_celcius().display(), "26.9°C");
    assert_eq!(k.to_fahrenheit().display(), "80.3°F");
}

#[test]
fn freezing_point_converts_exactly() {
    let k = Kelvin::new(27_315);
    assert_eq!(k.to_celcius().display(), "0.0°C");
    assert_eq!(k.to_fahrenheit().display(), "32.0°F");
}

#[test]
fn negative_temperatures_format_with_sign() {
    assert_eq!(Kelvin::new(26_815).to_celcius().display(), "-5.0°C");
    assert_eq!(Kelvin::new(27_285).to_celcius().display(), "-0.3°C");
    // -40 is where the scales meet.
    assert_eq!(Kelvin::new(23_315).to_celcius().display(), "-40.0°C");
    assert_eq!(Kelvin::new(23_315).to_fahrenheit().display(), "-40.0°F");
}

#[test]
fn percent_formats_as_integer_with_percent_sign() {
    assert_eq!(Percent::new(62).display(), "62%");
    assert_eq!(Percent::new(0).display(), "0%");
    assert_eq!(Percent::new(100).display(), "100%");
}

#[test]
fn probability_formats_as_rounded_percentage() {
    assert_eq!(Probability::new(3_849).display(), "38%");
    assert_eq!(Probability::new(3_850).display(), "39%");
    assert_eq!(Probability::new(0).display(), "0%");
    assert_eq!(Probability::new(10_000).display(), "100%");
}

#[test]
fn millimetres_format_rounded_to_whole_units() {
    assert_eq!(Millimetres::new(350).display(), "4mm");
    assert_eq!(Millimetres::new(349).display(), "3mm");
    assert_eq!(Millimetres::new(0).display(), "0mm");
    assert_eq!(Millimetres::new(1_275).display(), "13mm");
}

#[test]
fn uv_index_formats_with_one_decimal_and_no_unit() {
    assert_eq!(UVIndex::new(565).display(), "5.7");
    assert_eq!(UVIndex::new(4).display(), "0.0");
    assert_eq!(UVIndex::new(1_000).display(), "10.0");
}

#[test]
fn current_readings_render_in_the_requested_unit() {
    let snap = one_call(30_000);
    assert_eq!(snap.current_temp(&TemperatureUnit::Celsius), "26.9°C");
    assert_eq!(snap.current_temp(&TemperatureUnit::Fahrenheit), "80.3°F");
    assert_eq!(snap.feels_like(&TemperatureUnit::Celsius), "25.4°C");
    assert_eq!(snap.dew_point(&TemperatureUnit::Celsius), "11.9°C");
}

#[test]
fn daily_readings_render_in_the_requested_unit() {
    let day = daily(None, None);
    assert_eq!(day.max(&TemperatureUnit::Celsius), "30.0°C");
    assert_eq!(day.max(&TemperatureUnit::Fahrenheit), "86.0°F");
    assert_eq!(day.dew_point(&TemperatureUnit::Celsius), "11.9°C");
}

#[test]
fn snapshot_sun_times_use_its_own_timezone() {
    let snap = one_call(30_000);
    // 1625443200 is 2021-07-05 00:00 UTC; offset +1h.
    assert_eq!(snap.sunrise(), "04:04 AM");
    assert_eq!(snap.sunset(), "04:04 PM");
}

#[test]
fn daily_sun_times_use_the_supplied_timezone() {
    let day = daily(None, None);
    let tz = TimezoneOffset::new(0);
    assert_eq!(day.sunrise(&tz), "03:04 AM");
    assert_eq!(day.sunset(&tz), "03:04 PM");
}

#[test]
fn rain_precipitation_reports_name_emoji_volume_probability() {
    let day = daily(Some(350), None);
    let p = day.precipitation().expect("rain volume gives precipitation");
    assert_eq!(p.name(), "Rain");
    assert_eq!(p.emoji(), "🌧️");
    assert_eq!(p.volume().display(), "4mm");
    assert_eq!(p.probability().display(), "38%");
}

#[test]
fn snow_precipitation_reports_name_emoji_volume() {
    let day = daily(None, Some(1_275));
    let p = day.precipitation().expect("snow volume gives precipitation");
    assert_eq!(p.name(), "Snow");
    assert_eq!(p.emoji(), "🌨️");
    assert_eq!(p.volume().display(), "13mm");
}

#[test]
fn no_volume_means_no_precipitation() {
    assert!(daily(None, None).precipitation().is_none());
}

#[test]
fn rain_takes_precedence_when_both_volumes_are_present() {
    let day = daily(Some(100), Some(200));
    let p = day.precipitation().expect("a volume gives precipitation");
    assert_eq!(p.name(), "Rain");
    assert_eq!(p.volume().value(), 100);
}

#[test]
fn fahrenheit_countries_get_fahrenheit() {
    for code in ["BS", "FM", "KY", "LR", "MH", "PW", "US"] {
        assert_eq!(
            TemperatureUnit::for_country_code(&String::from(code)),
            TemperatureUnit::Fahrenheit,
            "{code} uses Fahrenheit"
        );
    }
}

#[test]
fn other_countries_get_celsius() {
    for code in ["AU", "GB", "DE", "JP", "CA", "U", "USA", ""] {
        assert_eq!(
            TemperatureUnit::for_country_code(&String::from(code)),
            TemperatureUnit::Celsius,
            "{code} uses Celsius"
        );
    }
}

#[test]
fn duplicate_preserves_every_field() {
    let snap = one_call(30_000);
    let copy = snap.duplicate();
    assert_eq!(copy.lat.value(), snap.lat.value());
    assert_eq!(copy.lon.value(), snap.lon.value());
    assert_eq!(copy.timezone, snap.timezone);
    assert_eq!(copy.timezone_offset.value(), snap.timezone_offset.value());
    assert_eq!(copy.current.dt.value(), snap.current.dt.value());
    assert_eq!(copy.current.temp.value(), snap.current.temp.value());
    assert_eq!(copy.current.weather.len(), 1);
    assert_eq!(copy.current.weather[0].main, "Clear");
    assert_eq!(copy.current.weather[0].icon.as_str(), "01d");
}
