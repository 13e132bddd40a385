//! The upstream request URLs.
//!
//! The one-call URL doubles as the cache key, so its rendering must be
//! deterministic: two requests for the same coordinates and API key produce
//! the byte-identical string. Coordinates held in millionths of a degree are
//! rendered as plain decimals with trailing fractional zeros trimmed.

use vstd::prelude::*;
use vstd::string::StringExecFns;

use crate::render::{abs_u64, digit_char, digit_str, push_udec, spec_udec};
use crate::weather::{Latitude, Longitude};

verus! {

/// Ten to the power `w` (one for `w <= 0`).
pub open spec fn pow10(w: int) -> int
    decreases w,
{
    if w <= 0 {
        1
    } else {
        10 * pow10(w - 1)
    }
}

/// The lowest `width` decimal digits of `f`, zero-padded on the left.
pub open spec fn spec_pad_digits(f: int, width: int) -> Seq<char>
    decreases width,
{
    if width <= 0 {
        Seq::empty()
    } else {
        spec_pad_digits(f / 10, width - 1) + seq![digit_char(f % 10)]
    }
}

/// The lowest `width` decimal digits of `f` with trailing zeros trimmed:
/// empty exactly when `f` is zero (for `f` below ten to the `width`).
pub open spec fn spec_trimmed_frac(f: int, width: int) -> Seq<char>
    decreases width,
{
    if width <= 0 {
        Seq::empty()
    } else if f % 10 == 0 {
        spec_trimmed_frac(f / 10, width - 1)
    } else {
        spec_pad_digits(f, width)
    }
}

proof fn lemma_pad_digits_len(f: int, width: int)
    requires
        width >= 0,
    ensures
        spec_pad_digits(f, width).len() == width,
    decreases width,
{
    if width > 0 {
        lemma_pad_digits_len(f / 10, width - 1);
    }
}

proof fn lemma_trimmed_frac_zero(width: int)
    ensures
        spec_trimmed_frac(0, width).len() == 0,
    decreases width,
{
    if width > 0 {
        lemma_trimmed_frac_zero(width - 1);
    }
}

proof fn lemma_trimmed_frac_nonzero(f: int, width: int)
    requires
        0 < f < pow10(width),
    ensures
        spec_trimmed_frac(f, width).len() > 0,
    decreases width,
{
    if width <= 0 {
        assert(false);
    } else if f % 10 == 0 {
        assert(f / 10 > 0);
        assert(f / 10 < pow10(width - 1));
        lemma_trimmed_frac_nonzero(f / 10, width - 1);
    } else {
        lemma_pad_digits_len(f, width);
    }
}

/// A coordinate in millionths of a degree rendered as a decimal number:
/// sign, whole degrees, and the fraction with trailing zeros trimmed
/// (omitted entirely when zero). `-26861000` is `"-26.861"`.
pub open spec fn spec_degrees(v: int) -> Seq<char> {
    let a = if v < 0 {
        -v
    } else {
        v
    };
    let whole = spec_udec(a / 1000000);
    let frac = spec_trimmed_frac(a % 1000000, 6);
    let base = if frac.len() == 0 {
        whole
    } else {
        whole + seq!['.'] + frac
    };
    if v < 0 {
        seq!['-'] + base
    } else {
        base
    }
}

fn push_pad_digits(s: &mut String, f: u64, width: u64)
    ensures
        final(s)@ == old(s)@ + spec_pad_digits(f as int, width as int),
    decreases width,
{
    if width > 0 {
        push_pad_digits(s, f / 10, width - 1);
        s.append(digit_str(f % 10));
        proof {
            assert(s@ =~= old(s)@ + spec_pad_digits(f as int, width as int));
        }
    } else {
        proof {
            assert(s@ =~= old(s)@ + spec_pad_digits(f as int, width as int));
        }
    }
}

fn push_trimmed_frac(s: &mut String, f: u64, width: u64)
    ensures
        final(s)@ == old(s)@ + spec_trimmed_frac(f as int, width as int),
    decreases width,
{
    if width == 0 {
        proof {
            assert(s@ =~= old(s)@ + spec_trimmed_frac(f as int, width as int));
        }
    } else if f % 10 == 0 {
        push_trimmed_frac(s, f / 10, width - 1);
    } else {
        push_pad_digits(s, f, width);
    }
}

/// Appends a coordinate in millionths of a degree as a decimal number.
pub fn push_degrees(s: &mut String, v: i64)
    ensures
        final(s)@ == old(s)@ + spec_degrees(v as int),
{
    proof {
        reveal_strlit("-");
        reveal_strlit(".");
    }
    let a: u64 = abs_u64(v);
    if v < 0 {
        s.append("-");
    }
    push_udec(s, a / 1000000);
    let frac: u64 = a % 1000000;
    if frac != 0 {
        s.append(".");
        push_trimmed_frac(s, frac, 6);
        proof {
            reveal_with_fuel(pow10, 7);
            lemma_trimmed_frac_nonzero(frac as int, 6);
            assert(s@ =~= old(s)@ + spec_degrees(v as int));
        }
    } else {
        proof {
            lemma_trimmed_frac_zero(6);
            assert(s@ =~= old(s)@ + spec_degrees(v as int));
        }
    }
}

/// The one-call request URL for a location and API key.
pub open spec fn spec_onecall_url(lat: int, lon: int, key: Seq<char>) -> Seq<char> {
    "https://api.openweathermap.org/data/2.5/onecall?lat="@ + spec_degrees(lat) + "&lon="@
        + spec_degrees(lon) + "&exclude=minutely,hourly,alerts&appid="@ + key
}

/// The upstream one-call request URL for a location. It doubles as the
/// cache key: equal coordinates and key render to the byte-identical URL.
pub fn onecall_url(lat: &Latitude, lon: &Longitude, api_key: &String) -> (r: String)
    ensures
        r@ == spec_onecall_url(lat@, lon@, api_key@),
{
    let mut s = String::new();
    s.append("https://api.openweathermap.org/data/2.5/onecall?lat=");
    push_degrees(&mut s, lat.value());
    s.append("&lon=");
    push_degrees(&mut s, lon.value());
    s.append("&exclude=minutely,hourly,alerts&appid=");
    s.append(api_key.as_str());
    proof {
        assert(s@ =~= spec_onecall_url(lat@, lon@, api_key@));
    }
    s
}

/// The geocoding request URL for a locality and country code.
pub open spec fn spec_geocoding_url(city: Seq<char>, country: Seq<char>, key: Seq<char>) -> Seq<
    char,
> {
    "http://api.openweathermap.org/geo/1.0/direct?q="@ + city + ","@ + country + "&limit=3&appid="@
        + key
}

/// The upstream geocoding request URL for a locality (already trimmed by
/// the caller) and an uppercase country code.
pub fn geocoding_url(city: &String, country: &String, api_key: &String) -> (r: String)
    ensures
        r@ == spec_geocoding_url(city@, country@, api_key@),
{
    let mut s = String::new();
    s.append("http://api.openweathermap.org/geo/1.0/direct?q=");
    s.append(city.as_str());
    s.append(",");
    s.append(country.as_str());
    s.append("&limit=3&appid=");
    s.append(api_key.as_str());
    proof {
        assert(s@ =~= spec_geocoding_url(city@, country@, api_key@));
    }
    s
}

} // verus!
