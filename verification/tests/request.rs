//! Tests of the upstream request URLs, including the one-call URL that
//! doubles as the cache key.

use dewpoint::request::{geocoding_url, onecall_url};
use dewpoint::weather::{Latitude, Longitude};

#[test]
fn onecall_url_renders_coordinates_and_key() {
    let url = onecall_url(
        &Latitude::new(-26_861_000),
        &Longitude::new(152_957_000),
        &String::from("SECRET-REDACTED"),
    );
    assert_eq!(
        url,
        "https://api.openweathermap.org/data/2.5/onecall?lat=-26.861&lon=152.957&exclude=minutely,hourly,alerts&appid=SECRET-REDACTED"
    );
}

#[test]
fn onecall_url_is_deterministic_per_key() {
    let a = onecall_url(&Latitude::new(51_507_000), &Longitude::new(-127_000), &String::from("k"));
    let b = onecall_url(&Latitude::new(51_507_000), &Longitude::new(-127_000), &String::from("k"));
    assert_eq!(a, b, "equal requests must produce byte-identical keys");
}

#[test]
fn whole_degree_coordinates_render_without_a_fraction() {
    let url = onecall_url(&Latitude::new(10_000_000), &Longitude::new(0), &String::from("k"));
    assert_eq!(
        url,
        "https://api.openweathermap.org/data/2.5/onecall?lat=10&lon=0&exclude=minutely,hourly,alerts&appid=k"
    );
}

#[test]
fn fractions_trim_trailing_zeros_but_keep_inner_ones() {
    let url = onecall_url(
        &Latitude::new(10_500_000),
        &Longitude::new(1_000_001),
        &String::from("k"),
    );
    assert_eq!(
        url,
        "https://api.openweathermap.org/data/2.5/onecall?lat=10.5&lon=1.000001&exclude=minutely,hourly,alerts&appid=k"
    );
}

#[test]
fn small_negative_coordinates_keep_their_sign() {
    let url = onecall_url(&Latitude::new(-500_000), &Longitude::new(-1), &String::from("k"));
    assert_eq!(
        url,
        "https://api.openweathermap.org/data/2.5/onecall?lat=-0.5&lon=-0.000001&exclude=minutely,hourly,alerts&appid=k"
    );
}

#[test]
fn geocoding_url_renders_locality_country_and_key() {
    let url = geocoding_url(
        &String::from("Brisbane"),
        &String::from("AU"),
        &String::from("SECRET-REDACTED"),
    );
    assert_eq!(
        url,
        "http://api.openweathermap.org/geo/1.0/direct?q=Brisbane,AU&limit=3&appid=SECRET-REDACTED"
    );
}
