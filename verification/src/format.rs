//! The weather report formatter: a pure function from the normalized payload
//! to the fixed multi-line text report, with an exact contract.
//!
//! Sunrise and sunset are rendered by shifting the Unix UTC timestamp by the
//! payload's UTC offset and formatting the shifted instant as
//! `YYYY-MM-DD HH:MM:SS`; the calendar rendering itself is done by `chrono`
//! behind a trusted wrapper.

use vstd::prelude::*;
use crate::types::NormalizedWeather;
use crate::types::NormalizedWeatherView;
use crate::numfmt::{dec_str_of, int_str_of, u64_to_string, u32_to_string, i32_to_string};

verus! {

/// The timestamps (in seconds) this crate renders as calendar dates.  The
/// range is far wider than any plausible observation time and lies safely
/// inside the range `chrono` supports.
pub open spec fn timestamp_renderable(secs: int) -> bool {
    -8_000_000_000_000 <= secs <= 8_000_000_000_000
}

/// The `YYYY-MM-DD HH:MM:SS` rendering of a Unix timestamp, as the proleptic
/// Gregorian calendar of the UTC timeline gives it.
pub uninterp spec fn utc_datetime_text(secs: int) -> Seq<char>;

/// Relies on chrono: for seconds within [`timestamp_renderable`],
/// `Utc.timestamp_opt(secs, 0)` is a single valid instant (chrono supports a
/// far wider range), and formatting it with `"%Y-%m-%d %H:%M:%S"` renders
/// that instant as calendar text.  The result depends on the seconds alone.
#[verifier::external_body]
fn format_utc_datetime(secs: i64) -> (r: String)
    requires
        timestamp_renderable(secs as int),
    ensures
        r@ == utc_datetime_text(secs as int),
{
    let dt = chrono::TimeZone::timestamp_opt(&chrono::Utc, secs, 0).unwrap();
    format!("{}", dt.format("%Y-%m-%d %H:%M:%S"))
}

/// The gust fragment of the wind line: empty when the provider reported no
/// gust.
pub open spec fn gust_text(g: Option<Seq<char>>) -> Seq<char> {
    match g {
        Some(s) => ", Gust "@ + s + " m/s"@,
        None => Seq::empty(),
    }
}

/// The rain note of the report's last line.
pub open spec fn rain_note(r: Option<Seq<char>>) -> Seq<char> {
    match r {
        Some(s) => "(Rain: "@ + s + " mm/h)"@,
        None => "(No rain information)"@,
    }
}

/// The snow note of the report's last line.
pub open spec fn snow_note(s: Option<Seq<char>>) -> Seq<char> {
    match s {
        Some(t) => "(Snow: "@ + t + " mm/h)"@,
        None => "(No snow information)"@,
    }
}

/// Everything of the report before the precipitation notes.
pub open spec fn report_head(w: NormalizedWeatherView) -> Seq<char>
    recommends
        w.weather.len() >= 1,
{
    "Current Location: "@ + w.name + " (Country: "@ + w.sys.country + ", Latitude: "@
        + w.coord.lat + ", Longitude: "@ + w.coord.lon + ", Timezone Offset: "@ + int_str_of(
        w.timezone as int,
    ) + " seconds).\nWeather Condition: "@ + w.weather[0].main + ".\nTemperature: "@ + w.main.temp
        + "°C (Feels like: "@ + w.main.feels_like + "°C, Min: "@ + w.main.temp_min + "°C, Max: "@
        + w.main.temp_max + "°C).\nAtmosphere: Pressure "@ + dec_str_of(w.main.pressure as int)
        + " hPa (Sea Level: "@ + dec_str_of(w.main.sea_level as int) + " hPa, Ground Level: "@
        + dec_str_of(w.main.grnd_level as int) + " hPa), Humidity "@ + dec_str_of(
        w.main.humidity as int,
    ) + "%.\nWind: Speed "@ + w.wind.speed + " m/s, Direction "@ + dec_str_of(w.wind.deg as int)
        + "°"@ + gust_text(w.wind.gust) + ".\nClouds: Cloudiness "@ + dec_str_of(
        w.clouds_all as int,
    ) + "%.\nVisibility: "@ + dec_str_of(w.visibility as int)
        + " meters.\nOther: Data Calculation Time (Unix UTC): "@ + dec_str_of(w.dt as int)
        + ", Sunrise: "@ + utc_datetime_text(w.sys.sunrise as int + w.timezone as int)
        + ", Sunset: "@ + utc_datetime_text(w.sys.sunset as int + w.timezone as int) + ".\n"@
}

/// The full report: the head followed by the rain note and the snow note.
pub open spec fn report_of(w: NormalizedWeatherView) -> Seq<char>
    recommends
        w.weather.len() >= 1,
{
    report_head(w) + rain_note(w.rain) + snow_note(w.snow)
}

/// Shifts an observation timestamp by the payload's UTC offset.
fn shifted_secs(ts: u64, offset: i32) -> (r: i64)
    requires
        timestamp_renderable(ts as int + offset as int),
    ensures
        r as int == ts as int + offset as int,
{
    (ts as i64) + (offset as i64)
}

/// Renders the normalized weather payload as the report text.
///
/// Pure and deterministic: the result is exactly [`report_of`] of the
/// payload's value.  The caller establishes that the condition list is
/// non-empty and that the offset-shifted sun times are renderable.
pub fn format_weather_info(w: &NormalizedWeather) -> (r: String)
    requires
        w@.weather.len() >= 1,
        timestamp_renderable(w@.sys.sunrise as int + w@.timezone as int),
        timestamp_renderable(w@.sys.sunset as int + w@.timezone as int),
    ensures
        r@ == report_of(w@),
{
    let sunrise_local = format_utc_datetime(shifted_secs(w.sys.sunrise, w.timezone));
    let sunset_local = format_utc_datetime(shifted_secs(w.sys.sunset, w.timezone));
    let timezone_text = i32_to_string(w.timezone);
    let pressure_text = u32_to_string(w.main.pressure);
    let sea_level_text = u32_to_string(w.main.sea_level);
    let grnd_level_text = u32_to_string(w.main.grnd_level);
    let humidity_text = u32_to_string(w.main.humidity);
    let deg_text = u32_to_string(w.wind.deg);
    let clouds_text = u32_to_string(w.clouds.all);
    let visibility_text = u32_to_string(w.visibility);
    let dt_text = u64_to_string(w.dt);

    let mut s = String::from_str("Current Location: ");
    s.append(w.name.as_str());
    s.append(" (Country: ");
    s.append(w.sys.country.as_str());
    s.append(", Latitude: ");
    s.append(w.coord.lat.as_str());
    s.append(", Longitude: ");
    s.append(w.coord.lon.as_str());
    s.append(", Timezone Offset: ");
    s.append(timezone_text.as_str());
    s.append(" seconds).\nWeather Condition: ");
    s.append(w.weather[0].main.as_str());
    s.append(".\nTemperature: ");
    s.append(w.main.temp.as_str());
    s.append("°C (Feels like: ");
    s.append(w.main.feels_like.as_str());
    s.append("°C, Min: ");
    s.append(w.main.temp_min.as_str());
    s.append("°C, Max: ");
    s.append(w.main.temp_max.as_str());
    s.append("°C).\nAtmosphere: Pressure ");
    s.append(pressure_text.as_str());
    s.append(" hPa (Sea Level: ");
    s.append(sea_level_text.as_str());
    s.append(" hPa, Ground Level: ");
    s.append(grnd_level_text.as_str());
    s.append(" hPa), Humidity ");
    s.append(humidity_text.as_str());
    s.append("%.\nWind: Speed ");
    s.append(w.wind.speed.as_str());
    s.append(" m/s, Direction ");
    s.append(deg_text.as_str());
    s.append("°");
    match &w.wind.gust {
        Some(g) => {
            s.append(", Gust ");
            s.append(g.as_str());
            s.append(" m/s");
        },
        None => {},
    }
    s.append(".\nClouds: Cloudiness ");
    s.append(clouds_text.as_str());
    s.append("%.\nVisibility: ");
    s.append(visibility_text.as_str());
    s.append(" meters.\nOther: Data Calculation Time (Unix UTC): ");
    s.append(dt_text.as_str());
    s.append(", Sunrise: ");
    s.append(sunrise_local.as_str());
    s.append(", Sunset: ");
    s.append(sunset_local.as_str());
    s.append(".\n");
    match &w.rain {
        Some(r) => {
            s.append("(Rain: ");
            s.append(r.one_hour.as_str());
            s.append(" mm/h)");
        },
        None => {
            s.append("(No rain information)");
        },
    }
    match &w.snow {
        Some(sn) => {
            s.append("(Snow: ");
            s.append(sn.one_hour.as_str());
            s.append(" mm/h)");
        },
        None => {
            s.append("(No snow information)");
        },
    }
    proof {
        assert(s@ =~= report_of(w@));
    }
    s
}

/// Whether `needle` occurs as a contiguous run inside `hay`.
pub open spec fn contains_seq(hay: Seq<char>, needle: Seq<char>) -> bool {
    exists|i: int|
        0 <= i && i + needle.len() <= hay.len() && #[trigger] hay.subrange(i, i + needle.len())
            == needle
}

/// Law: the report carries the precipitation note that matches the payload.
/// When rain data is present the report holds its rain note and when it is
/// absent the report holds the literal "(No rain information)"; the same
/// holds of snow.
pub proof fn report_carries_precipitation_notes(w: NormalizedWeatherView)
    requires
        w.weather.len() >= 1,
    ensures
        contains_seq(report_of(w), rain_note(w.rain)),
        contains_seq(report_of(w), snow_note(w.snow)),
        w.rain is None ==> contains_seq(report_of(w), "(No rain information)"@),
        w.rain matches Some(r) ==> contains_seq(report_of(w), "(Rain: "@ + r + " mm/h)"@),
        w.snow is None ==> contains_seq(report_of(w), "(No snow information)"@),
        w.snow matches Some(s) ==> contains_seq(report_of(w), "(Snow: "@ + s + " mm/h)"@),
{
    let hay = report_of(w);
    let head = report_head(w);
    let rn = rain_note(w.rain);
    let sn = snow_note(w.snow);
    let i = head.len() as int;
    let j = head.len() as int + rn.len() as int;
    assert(hay.subrange(i, i + rn.len() as int) =~= rn);
    assert(hay.subrange(j, j + sn.len() as int) =~= sn);
}

} // verus!
