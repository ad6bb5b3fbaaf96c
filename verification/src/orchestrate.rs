//! The weather query orchestrator: every decision of the two-stage pipeline,
//! as verified functions from plain values to plain values.
//!
//! The surrounding program performs the two HTTP GETs; this module builds
//! each URL, classifies every failure mode, validates the payloads, and
//! renders the report.  A query runs in strict sequence: [`WeatherQuery::start`]
//! either rejects the invocation (missing API key — no call is to be made) or
//! yields the geocoding URL; [`WeatherQuery::weather_url`] turns the geocoding
//! outcome into the weather URL or a classified error (on which no weather
//! call is to be made); [`build_report`] turns the weather outcome into the
//! final report or a classified error.

use vstd::prelude::*;
use crate::types::{
    GetWeatherRequest,
    GetWeatherResponse,
    TemperatureUnit,
    NormalizedWeatherView,
    GeocodeResultView,
    effective_unit_code,
};
use crate::json::json_of_text;
use crate::json::json_parse;
use crate::validate::{weather_of_json, geocode_of_json, validate_weather, extract_geocode};
use crate::format::{
    format_weather_info,
    report_of,
    timestamp_renderable,
    contains_seq,
};

verus! {

/// The uniform error taxonomy of the pipeline.
#[derive(Clone, Copy, Debug, PartialEq, Eq, Structural)]
pub enum ErrorKind {
    /// The provider API key is missing; detected before any outbound call.
    Configuration,
    /// A transport-level failure on an outbound call.
    UpstreamUnavailable,
    /// A non-JSON body, a malformed payload, or an empty geocoding result.
    UpstreamProtocol,
    /// The weather-condition list was empty after validation.
    FormattingInvariantViolation,
}

/// A classified error with a short diagnostic message.
#[derive(Debug, Clone, PartialEq)]
pub struct WeatherError {
    pub kind: ErrorKind,
    pub message: String,
}

/// What one outbound HTTP GET came to: the response body text, or a
/// transport-level failure with the transport's diagnostic.
#[derive(Debug, Clone, PartialEq)]
pub enum FetchOutcome {
    Body(String),
    TransportError(String),
}

/// The geocoding URL for a location, key and unit-system code.
pub open spec fn geocode_url_of(location: Seq<char>, key: Seq<char>, unit: Seq<char>) -> Seq<
    char,
> {
    "http://api.openweathermap.org/geo/1.0/direct?q="@ + location + "&appid="@ + key
        + "&limit=1&units="@ + unit
}

/// The weather URL for coordinates, key and unit-system code.
pub open spec fn weather_url_of(
    lat: Seq<char>,
    lon: Seq<char>,
    key: Seq<char>,
    unit: Seq<char>,
) -> Seq<char> {
    "http://api.openweathermap.org/data/2.5/weather?lat="@ + lat + "&lon="@ + lon + "&appid="@
        + key + "&units="@ + unit
}

/// The geocoding coordinates a response body yields, when it is well-formed
/// JSON that carries a usable first result.
pub open spec fn geocode_of_body(b: Seq<char>) -> Option<GeocodeResultView> {
    match json_of_text(b) {
        Some(m) => geocode_of_json(m),
        None => None,
    }
}

/// The normalized weather a response body yields, when it is well-formed
/// JSON that passes strict validation.
pub open spec fn weather_of_body(b: Seq<char>) -> Option<NormalizedWeatherView> {
    match json_of_text(b) {
        Some(m) => weather_of_json(m),
        None => None,
    }
}

/// Whether the payload's offset-shifted sun times are renderable as
/// calendar dates.
pub open spec fn report_renderable(w: NormalizedWeatherView) -> bool {
    timestamp_renderable(w.sys.sunrise as int + w.timezone as int) && timestamp_renderable(
        w.sys.sunset as int + w.timezone as int,
    )
}

/// One weather query in flight: the credentials and the unit-system code it
/// resolved once at the start.
#[derive(Debug, Clone)]
pub struct WeatherQuery {
    pub api_key: String,
    pub unit_code: String,
}

impl WeatherQuery {
    /// Starts a query: rejects a missing API key before any outbound call,
    /// otherwise resolves the unit-system code once and yields the geocoding
    /// URL to fetch.
    pub fn start(req: &GetWeatherRequest, api_key: Option<String>) -> (r: Result<
        (WeatherQuery, String),
        WeatherError,
    >)
        ensures
            (r is Err) == (api_key is None),
            r matches Err(we) ==> we.kind == ErrorKind::Configuration && we.message@
                == "No API key provided. Please set the `OPENWEATHERMAP_API_KEY` environment variable."@,
            r matches Ok(p) ==> {
                &&& p.0.api_key@ == api_key.unwrap()@
                &&& p.0.unit_code@ == effective_unit_code(req.unit)
                &&& p.1@ == geocode_url_of(
                    req.location@,
                    api_key.unwrap()@,
                    effective_unit_code(req.unit),
                )
            },
    {
        let key = match api_key {
            Some(k) => k,
            None => {
                return Err(
                    WeatherError {
                        kind: ErrorKind::Configuration,
                        message: String::from_str(
                            "No API key provided. Please set the `OPENWEATHERMAP_API_KEY` environment variable.",
                        ),
                    },
                );
            },
        };
        let unit = match req.unit {
            Some(u) => u,
            None => TemperatureUnit::Celsius,
        };
        let unit_code = unit.to_openweathermap_unit();
        let mut url = String::from_str("http://api.openweathermap.org/geo/1.0/direct?q=");
        url.append(req.location.as_str());
        url.append("&appid=");
        url.append(key.as_str());
        url.append("&limit=1&units=");
        url.append(unit_code.as_str());
        proof {
            assert(url@ =~= geocode_url_of(req.location@, key@, effective_unit_code(req.unit)));
        }
        Ok((WeatherQuery { api_key: key, unit_code }, url))
    }

    /// Turns the geocoding outcome into the weather URL to fetch, or a
    /// classified error: a transport failure is `UpstreamUnavailable`; a
    /// non-JSON body, an empty result array or non-numeric coordinates are
    /// `UpstreamProtocol`, and then no weather call is to be made.
    pub fn weather_url(&self, geocode: &FetchOutcome) -> (r: Result<String, WeatherError>)
        ensures
            match geocode {
                FetchOutcome::TransportError(e) => r matches Err(we) && we.kind
                    == ErrorKind::UpstreamUnavailable && we.message@ == "Failed to get geocode: "@
                    + e@,
                FetchOutcome::Body(b) => match geocode_of_body(b@) {
                    Some(g) => r matches Ok(u) && u@ == weather_url_of(
                        g.lat,
                        g.lon,
                        self.api_key@,
                        self.unit_code@,
                    ),
                    None => r matches Err(we) && we.kind == ErrorKind::UpstreamProtocol && (
                    json_of_text(b@) is None ==> we.message@
                        == "Failed to parse geocode response"@),
                },
            },
    {
        let body = match geocode {
            FetchOutcome::TransportError(e) => {
                return Err(
                    WeatherError {
                        kind: ErrorKind::UpstreamUnavailable,
                        message: String::from_str("Failed to get geocode: ").concat(e.as_str()),
                    },
                );
            },
            FetchOutcome::Body(b) => b,
        };
        let doc = match json_parse(body.as_str()) {
            Some(d) => d,
            None => {
                return Err(
                    WeatherError {
                        kind: ErrorKind::UpstreamProtocol,
                        message: String::from_str("Failed to parse geocode response"),
                    },
                );
            },
        };
        let geo = match extract_geocode(&doc) {
            Ok(g) => g,
            Err(m) => {
                return Err(
                    WeatherError {
                        kind: ErrorKind::UpstreamProtocol,
                        message: String::from_str("Failed to parse geocode response: ").concat(
                            m.as_str(),
                        ),
                    },
                );
            },
        };
        let mut url = String::from_str("http://api.openweathermap.org/data/2.5/weather?lat=");
        url.append(geo.lat.as_str());
        url.append("&lon=");
        url.append(geo.lon.as_str());
        url.append("&appid=");
        url.append(self.api_key.as_str());
        url.append("&units=");
        url.append(self.unit_code.as_str());
        proof {
            assert(url@ =~= weather_url_of(geo@.lat, geo@.lon, self.api_key@, self.unit_code@));
        }
        Ok(url)
    }
}

/// Turns the weather outcome into the final report, or a classified error:
/// a transport failure is `UpstreamUnavailable`; a non-JSON body or a payload
/// that fails strict validation is `UpstreamProtocol`, as are sun times no
/// calendar rendering exists for; a validated payload with an empty
/// weather-condition list is `FormattingInvariantViolation` rather than an
/// out-of-bounds read.
pub fn build_report(weather: &FetchOutcome) -> (r: Result<GetWeatherResponse, WeatherError>)
    ensures
        match weather {
            FetchOutcome::TransportError(e) => r matches Err(we) && we.kind
                == ErrorKind::UpstreamUnavailable && we.message@ == "Failed to get weather: "@
                + e@,
            FetchOutcome::Body(b) => match weather_of_body(b@) {
                Some(w) => {
                    if w.weather.len() == 0 {
                        r matches Err(we) && we.kind == ErrorKind::FormattingInvariantViolation
                            && we.message@ == "the weather payload held no weather condition entry"@
                    } else if !report_renderable(w) {
                        r matches Err(we) && we.kind == ErrorKind::UpstreamProtocol && we.message@
                            == "sunrise or sunset is outside the renderable range"@
                    } else {
                        r matches Ok(resp) && resp.weather@ == report_of(w)
                    }
                },
                None => r matches Err(we) && we.kind == ErrorKind::UpstreamProtocol && (
                json_of_text(b@) is None ==> we.message@ == "Failed to parse weather response"@),
            },
        },
{
    let body = match weather {
        FetchOutcome::TransportError(e) => {
            return Err(
                WeatherError {
                    kind: ErrorKind::UpstreamUnavailable,
                    message: String::from_str("Failed to get weather: ").concat(e.as_str()),
                },
            );
        },
        FetchOutcome::Body(b) => b,
    };
    let doc = match json_parse(body.as_str()) {
        Some(d) => d,
        None => {
            return Err(
                WeatherError {
                    kind: ErrorKind::UpstreamProtocol,
                    message: String::from_str("Failed to parse weather response"),
                },
            );
        },
    };
    let w = match validate_weather(&doc) {
        Ok(w) => w,
        Err(m) => {
            return Err(
                WeatherError {
                    kind: ErrorKind::UpstreamProtocol,
                    message: String::from_str("Failed to parse weather response: ").concat(
                        m.as_str(),
                    ),
                },
            );
        },
    };
    if w.weather.len() == 0 {
        return Err(
            WeatherError {
                kind: ErrorKind::FormattingInvariantViolation,
                message: String::from_str("the weather payload held no weather condition entry"),
            },
        );
    }
    let sunrise_shifted: i128 = (w.sys.sunrise as i128) + (w.timezone as i128);
    let sunset_shifted: i128 = (w.sys.sunset as i128) + (w.timezone as i128);
    if sunrise_shifted < -8_000_000_000_000i128 || sunrise_shifted > 8_000_000_000_000i128
        || sunset_shifted < -8_000_000_000_000i128 || sunset_shifted > 8_000_000_000_000i128 {
        return Err(
            WeatherError {
                kind: ErrorKind::UpstreamProtocol,
                message: String::from_str("sunrise or sunset is outside the renderable range"),
            },
        );
    }
    let text = format_weather_info(&w);
    Ok(GetWeatherResponse { weather: text })
}

/// Law: the unit-system code sent outbound is "imperial" exactly for a
/// Fahrenheit request, and "metric" for a Celsius or unset one.
pub proof fn unit_code_selection()
    ensures
        effective_unit_code(Some(TemperatureUnit::Fahrenheit)) == "imperial"@,
        effective_unit_code(Some(TemperatureUnit::Celsius)) == "metric"@,
        effective_unit_code(None::<TemperatureUnit>) == "metric"@,
{
}

/// Law: both outbound URLs carry the request's unit-system code: each ends
/// with the code that [`effective_unit_code`] resolves for the request.
pub proof fn urls_carry_unit_code(
    location: Seq<char>,
    key: Seq<char>,
    lat: Seq<char>,
    lon: Seq<char>,
    u: Option<TemperatureUnit>,
)
    ensures
        contains_seq(geocode_url_of(location, key, effective_unit_code(u)), effective_unit_code(u)),
        contains_seq(weather_url_of(lat, lon, key, effective_unit_code(u)), effective_unit_code(u)),
{
    let code = effective_unit_code(u);
    let gu = geocode_url_of(location, key, code);
    let wu = weather_url_of(lat, lon, key, code);
    let gi = gu.len() - code.len();
    let wi = wu.len() - code.len();
    assert(gu.subrange(gi, gi + code.len() as int) =~= code);
    assert(wu.subrange(wi, wi + code.len() as int) =~= code);
}

} // verus!
