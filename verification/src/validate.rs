//! Strict validation of the provider's JSON payloads.
//!
//! Every function here is verified against a spec-level reading of the
//! document model: the geocoding response must be a non-empty array whose
//! first element carries numeric `lat`/`lon`, and the weather payload must
//! carry the exact field set of [`crate::types::NormalizedWeather`].  A
//! missing required field, a type mismatch, or a malformed structure is an
//! error; unknown extra fields are ignored, as the schema's deserializer
//! would.

use vstd::prelude::*;
use crate::numfmt::{dec_str_of, int_str_of};
use crate::json::{
    JsonNum,
    JsonModel,
    json_model_of,
    json_parse,
    json_get,
    json_index,
    json_array_len,
    json_as_string,
    json_as_u64,
    json_as_i64,
    json_as_decimal,
    json_is_null,
};
use crate::types::{
    Coord,
    CoordView,
    Weather,
    WeatherCondView,
    Main,
    MainView,
    Wind,
    WindView,
    Rain,
    Snow,
    Clouds,
    Sys,
    SysView,
    NormalizedWeather,
    NormalizedWeatherView,
    GeocodeResult,
    GeocodeResultView,
};

verus! {

/// The document under a key of a JSON object; `None` on any other document
/// or an absent key.
pub open spec fn field_of(m: JsonModel, key: Seq<char>) -> Option<JsonModel> {
    match m {
        JsonModel::Obj(o) => if o.contains_key(key) {
            Some(o[key])
        } else {
            None
        },
        _ => None,
    }
}

/// A required string field.
pub open spec fn str_field(m: JsonModel, key: Seq<char>) -> Option<Seq<char>> {
    match field_of(m, key) {
        Some(JsonModel::Str(s)) => Some(s),
        _ => None,
    }
}

/// A required unsigned-integer field.
pub open spec fn u64_field(m: JsonModel, key: Seq<char>) -> Option<u64> {
    match field_of(m, key) {
        Some(JsonModel::Num(n)) => n.int_val,
        _ => None,
    }
}

/// A required unsigned-integer field that must fit in 32 bits.
pub open spec fn u32_field(m: JsonModel, key: Seq<char>) -> Option<u32> {
    match u64_field(m, key) {
        Some(n) => if n <= u32::MAX {
            Some(n as u32)
        } else {
            None
        },
        None => None,
    }
}

/// A required signed-integer field that must fit in 32 bits.
pub open spec fn i32_field(m: JsonModel, key: Seq<char>) -> Option<i32> {
    match field_of(m, key) {
        Some(JsonModel::Num(n)) => match n.sint_val {
            Some(v) => if i32::MIN <= v <= i32::MAX {
                Some(v as i32)
            } else {
                None
            },
            None => None,
        },
        _ => None,
    }
}

/// A required numeric field, read as its decimal text.
pub open spec fn dec_field(m: JsonModel, key: Seq<char>) -> Option<Seq<char>> {
    match field_of(m, key) {
        Some(JsonModel::Num(n)) => Some(n.dec),
        _ => None,
    }
}

/// An optional 32-bit unsigned field: absent or null is an accepted absence,
/// a present value of any other shape than an unsigned integer in range is
/// a validation failure.
pub open spec fn opt_u32_field(m: JsonModel, key: Seq<char>) -> Option<Option<u32>> {
    match field_of(m, key) {
        None => Some(None),
        Some(JsonModel::Null) => Some(None),
        Some(JsonModel::Num(n)) => match n.int_val {
            Some(v) => if v <= u32::MAX {
                Some(Some(v as u32))
            } else {
                None
            },
            None => None,
        },
        Some(_) => None,
    }
}

/// An optional numeric field, read as its decimal text: absent or null is an
/// accepted absence, a present non-number is a validation failure.
pub open spec fn opt_dec_field(m: JsonModel, key: Seq<char>) -> Option<Option<Seq<char>>> {
    match field_of(m, key) {
        None => Some(None),
        Some(JsonModel::Null) => Some(None),
        Some(JsonModel::Num(n)) => Some(Some(n.dec)),
        Some(_) => None,
    }
}

/// An optional precipitation block: absent or null is an accepted absence;
/// a present block must carry a numeric `1h` last-hour volume.
pub open spec fn precip_field(m: JsonModel, key: Seq<char>) -> Option<Option<Seq<char>>> {
    match field_of(m, key) {
        None => Some(None),
        Some(JsonModel::Null) => Some(None),
        Some(sub) => match dec_field(sub, "1h"@) {
            Some(d) => Some(Some(d)),
            None => None,
        },
    }
}

/// The coordinates block of the weather payload.
pub open spec fn coord_of_json(m: JsonModel) -> Option<CoordView> {
    match (dec_field(m, "lon"@), dec_field(m, "lat"@)) {
        (Some(lon), Some(lat)) => Some(CoordView { lon, lat }),
        _ => None,
    }
}

/// One weather-condition descriptor.
pub open spec fn condition_of_json(m: JsonModel) -> Option<WeatherCondView> {
    match (
        u32_field(m, "id"@),
        str_field(m, "main"@),
        str_field(m, "description"@),
        str_field(m, "icon"@),
    ) {
        (Some(id), Some(main), Some(description), Some(icon)) => Some(
            WeatherCondView { id, main, description, icon },
        ),
        _ => None,
    }
}

/// The weather-condition list: an array each of whose elements is a valid
/// condition descriptor.
pub open spec fn conditions_of_json(m: JsonModel) -> Option<Seq<WeatherCondView>> {
    match m {
        JsonModel::Arr(a) => if forall|i: int|
            0 <= i < a.len() ==> (#[trigger] condition_of_json(a[i])) is Some {
            Some(Seq::new(a.len(), |i: int| condition_of_json(a[i]).unwrap()))
        } else {
            None
        },
        _ => None,
    }
}

/// The main atmospheric metrics block.
pub open spec fn main_of_json(m: JsonModel) -> Option<MainView> {
    match (
        dec_field(m, "temp"@),
        dec_field(m, "feels_like"@),
        dec_field(m, "temp_min"@),
        dec_field(m, "temp_max"@),
        u32_field(m, "pressure"@),
        u32_field(m, "humidity"@),
        u32_field(m, "sea_level"@),
        u32_field(m, "grnd_level"@),
    ) {
        (
            Some(temp),
            Some(feels_like),
            Some(temp_min),
            Some(temp_max),
            Some(pressure),
            Some(humidity),
            Some(sea_level),
            Some(grnd_level),
        ) => Some(
            MainView {
                temp,
                feels_like,
                temp_min,
                temp_max,
                pressure,
                humidity,
                sea_level,
                grnd_level,
            },
        ),
        _ => None,
    }
}

/// The wind block; the gust is optional.
pub open spec fn wind_of_json(m: JsonModel) -> Option<WindView> {
    match (dec_field(m, "speed"@), u32_field(m, "deg"@), opt_dec_field(m, "gust"@)) {
        (Some(speed), Some(deg), Some(gust)) => Some(WindView { speed, deg, gust }),
        _ => None,
    }
}

/// The system block; `type` and `id` are optional.
pub open spec fn sys_of_json(m: JsonModel) -> Option<SysView> {
    match (
        opt_u32_field(m, "type"@),
        opt_u32_field(m, "id"@),
        str_field(m, "country"@),
        u64_field(m, "sunrise"@),
        u64_field(m, "sunset"@),
    ) {
        (Some(sys_type), Some(id), Some(country), Some(sunrise), Some(sunset)) => Some(
            SysView { sys_type, id, country, sunrise, sunset },
        ),
        _ => None,
    }
}

/// The validated reading of a whole weather payload: `Some` exactly when
/// every required field is present with the right type, and then the
/// strongly-typed projection of the document.
pub open spec fn weather_of_json(m: JsonModel) -> Option<NormalizedWeatherView> {
    let coord = match field_of(m, "coord"@) {
        Some(c) => coord_of_json(c),
        None => None,
    };
    let conds = match field_of(m, "weather"@) {
        Some(c) => conditions_of_json(c),
        None => None,
    };
    let base = str_field(m, "base"@);
    let metrics = match field_of(m, "main"@) {
        Some(c) => main_of_json(c),
        None => None,
    };
    let visibility = u32_field(m, "visibility"@);
    let wind = match field_of(m, "wind"@) {
        Some(c) => wind_of_json(c),
        None => None,
    };
    let rain = precip_field(m, "rain"@);
    let snow = precip_field(m, "snow"@);
    let clouds = match field_of(m, "clouds"@) {
        Some(c) => u32_field(c, "all"@),
        None => None,
    };
    let dt = u64_field(m, "dt"@);
    let sys = match field_of(m, "sys"@) {
        Some(c) => sys_of_json(c),
        None => None,
    };
    let timezone = i32_field(m, "timezone"@);
    let city_id = u64_field(m, "id"@);
    let name = str_field(m, "name"@);
    let cod = u32_field(m, "cod"@);
    if coord is Some && conds is Some && base is Some && metrics is Some && visibility is Some
        && wind is Some && rain is Some && snow is Some && clouds is Some && dt is Some
        && sys is Some && timezone is Some && city_id is Some && name is Some && cod is Some {
        Some(
            NormalizedWeatherView {
                coord: coord.unwrap(),
                weather: conds.unwrap(),
                base: base.unwrap(),
                main: metrics.unwrap(),
                visibility: visibility.unwrap(),
                wind: wind.unwrap(),
                rain: rain.unwrap(),
                snow: snow.unwrap(),
                clouds_all: clouds.unwrap(),
                dt: dt.unwrap(),
                sys: sys.unwrap(),
                timezone: timezone.unwrap(),
                id: city_id.unwrap(),
                name: name.unwrap(),
                cod: cod.unwrap(),
            },
        )
    } else {
        None
    }
}

/// The validated reading of a geocoding response: a non-empty array whose
/// first element carries numeric `lat` and `lon`.
pub open spec fn geocode_of_json(m: JsonModel) -> Option<GeocodeResultView> {
    match m {
        JsonModel::Arr(a) => if a.len() >= 1 {
            match (dec_field(a[0], "lat"@), dec_field(a[0], "lon"@)) {
                (Some(lat), Some(lon)) => Some(GeocodeResultView { lat, lon }),
                _ => None,
            }
        } else {
            None
        },
        _ => None,
    }
}

/// A short diagnostic naming the field on which validation failed.
fn field_error(key: &str) -> String {
    let s = String::from_str("missing or malformed field `");
    s.concat(key).concat("`")
}

/// Reads a required string field.
fn req_string(v: &serde_json::Value, key: &str) -> (r: Result<String, String>)
    ensures
        (r is Ok) == (str_field(json_model_of(*v), key@) is Some),
        r matches Ok(s) ==> s@ == str_field(json_model_of(*v), key@).unwrap(),
{
    match json_get(v, key) {
        Some(f) => match json_as_string(f) {
            Some(s) => Ok(s),
            None => Err(field_error(key)),
        },
        None => Err(field_error(key)),
    }
}

/// Reads a required unsigned 64-bit integer field.
fn req_u64(v: &serde_json::Value, key: &str) -> (r: Result<u64, String>)
    ensures
        (r is Ok) == (u64_field(json_model_of(*v), key@) is Some),
        r matches Ok(n) ==> n == u64_field(json_model_of(*v), key@).unwrap(),
{
    match json_get(v, key) {
        Some(f) => match json_as_u64(f) {
            Some(n) => Ok(n),
            None => Err(field_error(key)),
        },
        None => Err(field_error(key)),
    }
}

/// Reads a required unsigned 32-bit integer field.
fn req_u32(v: &serde_json::Value, key: &str) -> (r: Result<u32, String>)
    ensures
        (r is Ok) == (u32_field(json_model_of(*v), key@) is Some),
        r matches Ok(n) ==> n == u32_field(json_model_of(*v), key@).unwrap(),
{
    match req_u64(v, key) {
        Ok(n) => if n <= 0xffff_ffff {
            Ok(n as u32)
        } else {
            Err(field_error(key))
        },
        Err(e) => Err(e),
    }
}

/// Reads a required signed 32-bit integer field.
fn req_i32(v: &serde_json::Value, key: &str) -> (r: Result<i32, String>)
    ensures
        (r is Ok) == (i32_field(json_model_of(*v), key@) is Some),
        r matches Ok(n) ==> n == i32_field(json_model_of(*v), key@).unwrap(),
{
    match json_get(v, key) {
        Some(f) => match json_as_i64(f) {
            Some(n) => if -0x8000_0000i64 <= n && n <= 0x7fff_ffffi64 {
                Ok(n as i32)
            } else {
                Err(field_error(key))
            },
            None => Err(field_error(key)),
        },
        None => Err(field_error(key)),
    }
}

/// Reads a required numeric field as its decimal text.
fn req_dec(v: &serde_json::Value, key: &str) -> (r: Result<String, String>)
    ensures
        (r is Ok) == (dec_field(json_model_of(*v), key@) is Some),
        r matches Ok(d) ==> d@ == dec_field(json_model_of(*v), key@).unwrap(),
{
    match json_get(v, key) {
        Some(f) => match json_as_decimal(f) {
            Some(d) => Ok(d),
            None => Err(field_error(key)),
        },
        None => Err(field_error(key)),
    }
}

/// Reads an optional unsigned 32-bit integer field.
fn opt_u32(v: &serde_json::Value, key: &str) -> (r: Result<Option<u32>, String>)
    ensures
        (r is Ok) == (opt_u32_field(json_model_of(*v), key@) is Some),
        r matches Ok(o) ==> o == opt_u32_field(json_model_of(*v), key@).unwrap(),
{
    match json_get(v, key) {
        None => Ok(None),
        Some(f) => if json_is_null(f) {
            Ok(None)
        } else {
            match json_as_u64(f) {
                Some(n) => if n <= 0xffff_ffff {
                    Ok(Some(n as u32))
                } else {
                    Err(field_error(key))
                },
                None => Err(field_error(key)),
            }
        },
    }
}

/// Reads an optional numeric field as its decimal text.
fn opt_dec(v: &serde_json::Value, key: &str) -> (r: Result<Option<String>, String>)
    ensures
        (r is Ok) == (opt_dec_field(json_model_of(*v), key@) is Some),
        r matches Ok(o) ==> match o {
            Some(d) => opt_dec_field(json_model_of(*v), key@).unwrap() matches Some(s) && d@ == s,
            None => opt_dec_field(json_model_of(*v), key@).unwrap() is None,
        },
{
    match json_get(v, key) {
        None => Ok(None),
        Some(f) => if json_is_null(f) {
            Ok(None)
        } else {
            match json_as_decimal(f) {
                Some(d) => Ok(Some(d)),
                None => Err(field_error(key)),
            }
        },
    }
}

/// Reads an optional precipitation block as its last-hour volume.
fn precip(v: &serde_json::Value, key: &str) -> (r: Result<Option<String>, String>)
    ensures
        (r is Ok) == (precip_field(json_model_of(*v), key@) is Some),
        r matches Ok(o) ==> match o {
            Some(d) => precip_field(json_model_of(*v), key@).unwrap() matches Some(s) && d@ == s,
            None => precip_field(json_model_of(*v), key@).unwrap() is None,
        },
{
    match json_get(v, key) {
        None => Ok(None),
        Some(sub) => if json_is_null(sub) {
            Ok(None)
        } else {
            match req_dec(sub, "1h") {
                Ok(d) => Ok(Some(d)),
                Err(e) => Err(e),
            }
        },
    }
}

/// Validates the coordinates block.
fn validate_coord(v: &serde_json::Value) -> (r: Result<Coord, String>)
    ensures
        (r is Ok) == (coord_of_json(json_model_of(*v)) is Some),
        r matches Ok(c) ==> c@ == coord_of_json(json_model_of(*v)).unwrap(),
{
    let lon = match req_dec(v, "lon") {
        Ok(d) => d,
        Err(e) => {
            return Err(e);
        },
    };
    let lat = match req_dec(v, "lat") {
        Ok(d) => d,
        Err(e) => {
            return Err(e);
        },
    };
    Ok(Coord { lon, lat })
}

/// Validates one weather-condition descriptor.
fn validate_condition(v: &serde_json::Value) -> (r: Result<Weather, String>)
    ensures
        (r is Ok) == (condition_of_json(json_model_of(*v)) is Some),
        r matches Ok(c) ==> c@ == condition_of_json(json_model_of(*v)).unwrap(),
{
    let id = match req_u32(v, "id") {
        Ok(n) => n,
        Err(e) => {
            return Err(e);
        },
    };
    let main = match req_string(v, "main") {
        Ok(s) => s,
        Err(e) => {
            return Err(e);
        },
    };
    let description = match req_string(v, "description") {
        Ok(s) => s,
        Err(e) => {
            return Err(e);
        },
    };
    let icon = match req_string(v, "icon") {
        Ok(s) => s,
        Err(e) => {
            return Err(e);
        },
    };
    Ok(Weather { id, main, description, icon })
}

/// Validates the weather-condition list.
fn validate_conditions(v: &serde_json::Value) -> (r: Result<Vec<Weather>, String>)
    ensures
        (r is Ok) == (conditions_of_json(json_model_of(*v)) is Some),
        r matches Ok(ws) ==> ws@.map_values(|c: Weather| c@) == conditions_of_json(
            json_model_of(*v),
        ).unwrap(),
{
    let n = match json_array_len(v) {
        Some(n) => n,
        None => {
            return Err(field_error("weather"));
        },
    };
    let mut out: Vec<Weather> = Vec::new();
    let mut i: usize = 0;
    while i < n
        invariant
            i <= n,
            out.len() == i,
            json_model_of(*v) matches JsonModel::Arr(a) && a.len() == n,
            forall|j: int|
                0 <= j < i ==> (#[trigger] condition_of_json(
                    json_model_of(*v)->Arr_0[j],
                )) is Some,
            forall|j: int|
                0 <= j < i ==> (#[trigger] out@[j])@ == condition_of_json(
                    json_model_of(*v)->Arr_0[j],
                ).unwrap(),
        decreases n - i,
    {
        let elem = match json_index(v, i) {
            Some(e) => e,
            None => {
                return Err(field_error("weather"));
            },
        };
        match validate_condition(elem) {
            Ok(c) => {
                out.push(c);
            },
            Err(e) => {
                return Err(e);
            },
        }
        i += 1;
    }
    proof {
        let a = json_model_of(*v)->Arr_0;
        assert(conditions_of_json(json_model_of(*v)) is Some);
        assert(out@.map_values(|c: Weather| c@) =~= conditions_of_json(
            json_model_of(*v),
        ).unwrap());
    }
    Ok(out)
}

/// Validates the main atmospheric metrics block.
fn validate_main(v: &serde_json::Value) -> (r: Result<Main, String>)
    ensures
        (r is Ok) == (main_of_json(json_model_of(*v)) is Some),
        r matches Ok(m) ==> m@ == main_of_json(json_model_of(*v)).unwrap(),
{
    let temp = match req_dec(v, "temp") {
        Ok(d) => d,
        Err(e) => {
            return Err(e);
        },
    };
    let feels_like = match req_dec(v, "feels_like") {
        Ok(d) => d,
        Err(e) => {
            return Err(e);
        },
    };
    let temp_min = match req_dec(v, "temp_min") {
        Ok(d) => d,
        Err(e) => {
            return Err(e);
        },
    };
    let temp_max = match req_dec(v, "temp_max") {
        Ok(d) => d,
        Err(e) => {
            return Err(e);
        },
    };
    let pressure = match req_u32(v, "pressure") {
        Ok(n) => n,
        Err(e) => {
            return Err(e);
        },
    };
    let humidity = match req_u32(v, "humidity") {
        Ok(n) => n,
        Err(e) => {
            return Err(e);
        },
    };
    let sea_level = match req_u32(v, "sea_level") {
        Ok(n) => n,
        Err(e) => {
            return Err(e);
        },
    };
    let grnd_level = match req_u32(v, "grnd_level") {
        Ok(n) => n,
        Err(e) => {
            return Err(e);
        },
    };
    Ok(Main { temp, feels_like, temp_min, temp_max, pressure, humidity, sea_level, grnd_level })
}

/// Validates the wind block.
fn validate_wind(v: &serde_json::Value) -> (r: Result<Wind, String>)
    ensures
        (r is Ok) == (wind_of_json(json_model_of(*v)) is Some),
        r matches Ok(w) ==> w@ == wind_of_json(json_model_of(*v)).unwrap(),
{
    let speed = match req_dec(v, "speed") {
        Ok(d) => d,
        Err(e) => {
            return Err(e);
        },
    };
    let deg = match req_u32(v, "deg") {
        Ok(n) => n,
        Err(e) => {
            return Err(e);
        },
    };
    let gust = match opt_dec(v, "gust") {
        Ok(o) => o,
        Err(e) => {
            return Err(e);
        },
    };
    Ok(Wind { speed, deg, gust })
}

/// Validates the system block.
fn validate_sys(v: &serde_json::Value) -> (r: Result<Sys, String>)
    ensures
        (r is Ok) == (sys_of_json(json_model_of(*v)) is Some),
        r matches Ok(s) ==> s@ == sys_of_json(json_model_of(*v)).unwrap(),
{
    let sys_type = match opt_u32(v, "type") {
        Ok(o) => o,
        Err(e) => {
            return Err(e);
        },
    };
    let id = match opt_u32(v, "id") {
        Ok(o) => o,
        Err(e) => {
            return Err(e);
        },
    };
    let country = match req_string(v, "country") {
        Ok(s) => s,
        Err(e) => {
            return Err(e);
        },
    };
    let sunrise = match req_u64(v, "sunrise") {
        Ok(n) => n,
        Err(e) => {
            return Err(e);
        },
    };
    let sunset = match req_u64(v, "sunset") {
        Ok(n) => n,
        Err(e) => {
            return Err(e);
        },
    };
    Ok(Sys { sys_type, id, country, sunrise, sunset })
}

/// Strictly validates a parsed weather payload into the normalized schema.
///
/// Succeeds exactly when the document satisfies [`weather_of_json`], and then
/// returns exactly that projection; on failure the diagnostic names the
/// offending field.
pub fn validate_weather(v: &serde_json::Value) -> (r: Result<NormalizedWeather, String>)
    ensures
        (r is Ok) == (weather_of_json(json_model_of(*v)) is Some),
        r matches Ok(w) ==> w@ == weather_of_json(json_model_of(*v)).unwrap(),
{
    let coord = match json_get(v, "coord") {
        Some(sub) => match validate_coord(sub) {
            Ok(c) => c,
            Err(e) => {
                return Err(e);
            },
        },
        None => {
            return Err(field_error("coord"));
        },
    };
    let weather = match json_get(v, "weather") {
        Some(sub) => match validate_conditions(sub) {
            Ok(w) => w,
            Err(e) => {
                return Err(e);
            },
        },
        None => {
            return Err(field_error("weather"));
        },
    };
    let base = match req_string(v, "base") {
        Ok(s) => s,
        Err(e) => {
            return Err(e);
        },
    };
    let main = match json_get(v, "main") {
        Some(sub) => match validate_main(sub) {
            Ok(m) => m,
            Err(e) => {
                return Err(e);
            },
        },
        None => {
            return Err(field_error("main"));
        },
    };
    let visibility = match req_u32(v, "visibility") {
        Ok(n) => n,
        Err(e) => {
            return Err(e);
        },
    };
    let wind = match json_get(v, "wind") {
        Some(sub) => match validate_wind(sub) {
            Ok(w) => w,
            Err(e) => {
                return Err(e);
            },
        },
        None => {
            return Err(field_error("wind"));
        },
    };
    let rain = match precip(v, "rain") {
        Ok(Some(d)) => Some(Rain { one_hour: d }),
        Ok(None) => None,
        Err(e) => {
            return Err(e);
        },
    };
    let snow = match precip(v, "snow") {
        Ok(Some(d)) => Some(Snow { one_hour: d }),
        Ok(None) => None,
        Err(e) => {
            return Err(e);
        },
    };
    let clouds_all = match json_get(v, "clouds") {
        Some(sub) => match req_u32(sub, "all") {
            Ok(n) => n,
            Err(e) => {
                return Err(e);
            },
        },
        None => {
            return Err(field_error("clouds"));
        },
    };
    let dt = match req_u64(v, "dt") {
        Ok(n) => n,
        Err(e) => {
            return Err(e);
        },
    };
    let sys = match json_get(v, "sys") {
        Some(sub) => match validate_sys(sub) {
            Ok(s) => s,
            Err(e) => {
                return Err(e);
            },
        },
        None => {
            return Err(field_error("sys"));
        },
    };
    let timezone = match req_i32(v, "timezone") {
        Ok(n) => n,
        Err(e) => {
            return Err(e);
        },
    };
    let id = match req_u64(v, "id") {
        Ok(n) => n,
        Err(e) => {
            return Err(e);
        },
    };
    let name = match req_string(v, "name") {
        Ok(s) => s,
        Err(e) => {
            return Err(e);
        },
    };
    let cod = match req_u32(v, "cod") {
        Ok(n) => n,
        Err(e) => {
            return Err(e);
        },
    };
    let w = NormalizedWeather {
        coord,
        weather,
        base,
        main,
        visibility,
        wind,
        rain,
        snow,
        clouds: Clouds { all: clouds_all },
        dt,
        sys,
        timezone,
        id,
        name,
        cod,
    };
    proof {
        assert(w@ =~= weather_of_json(json_model_of(*v)).unwrap());
    }
    Ok(w)
}

/// Extracts the coordinates of the first geocoding result.
///
/// Succeeds exactly when the document satisfies [`geocode_of_json`]; an empty
/// result array, a non-array document, or non-numeric coordinate fields are
/// failures, and the diagnostic says which.
pub fn extract_geocode(v: &serde_json::Value) -> (r: Result<GeocodeResult, String>)
    ensures
        (r is Ok) == (geocode_of_json(json_model_of(*v)) is Some),
        r matches Ok(g) ==> g@ == geocode_of_json(json_model_of(*v)).unwrap(),
{
    let first = match json_index(v, 0) {
        Some(e) => e,
        None => {
            return Err(String::from_str("the geocoding response held no result"));
        },
    };
    let lat = match req_dec(first, "lat") {
        Ok(d) => d,
        Err(e) => {
            return Err(e);
        },
    };
    let lon = match req_dec(first, "lon") {
        Ok(d) => d,
        Err(e) => {
            return Err(e);
        },
    };
    Ok(GeocodeResult { lat, lon })
}

// ---------------------------------------------------------------------------
// Schema fidelity: writing a normalized payload back into the document model
// and validating it yields the same payload, field for field.
// ---------------------------------------------------------------------------

/// The document model of an unsigned 32-bit integer field.
pub open spec fn num_of_u32(v: u32) -> JsonModel {
    JsonModel::Num(
        JsonNum { int_val: Some(v as u64), sint_val: Some(v as i64), dec: dec_str_of(v as int) },
    )
}

/// The document model of an unsigned 64-bit integer field.
pub open spec fn num_of_u64(v: u64) -> JsonModel {
    JsonModel::Num(
        JsonNum {
            int_val: Some(v),
            sint_val: if v <= i64::MAX {
                Some(v as i64)
            } else {
                None
            },
            dec: dec_str_of(v as int),
        },
    )
}

/// The document model of a signed 32-bit integer field.
pub open spec fn num_of_i32(v: i32) -> JsonModel {
    JsonModel::Num(
        JsonNum {
            int_val: if v >= 0 {
                Some(v as u64)
            } else {
                None
            },
            sint_val: Some(v as i64),
            dec: int_str_of(v as int),
        },
    )
}

/// The document model of a numeric field carried as decimal text.
pub open spec fn num_of_dec(d: Seq<char>) -> JsonModel {
    JsonModel::Num(JsonNum { int_val: None, sint_val: None, dec: d })
}

/// The document model of the coordinates block.
pub open spec fn model_of_coord(c: CoordView) -> JsonModel {
    JsonModel::Obj(
        Map::empty().insert("lon"@, num_of_dec(c.lon)).insert("lat"@, num_of_dec(c.lat)),
    )
}

/// The document model of one weather-condition descriptor.
pub open spec fn model_of_condition(c: WeatherCondView) -> JsonModel {
    JsonModel::Obj(
        Map::empty().insert("id"@, num_of_u32(c.id)).insert("main"@, JsonModel::Str(c.main)).insert(
            "description"@,
            JsonModel::Str(c.description),
        ).insert("icon"@, JsonModel::Str(c.icon)),
    )
}

/// The document model of the main atmospheric metrics block.
pub open spec fn model_of_main(m: MainView) -> JsonModel {
    JsonModel::Obj(
        Map::empty().insert("temp"@, num_of_dec(m.temp)).insert(
            "feels_like"@,
            num_of_dec(m.feels_like),
        ).insert("temp_min"@, num_of_dec(m.temp_min)).insert(
            "temp_max"@,
            num_of_dec(m.temp_max),
        ).insert("pressure"@, num_of_u32(m.pressure)).insert(
            "humidity"@,
            num_of_u32(m.humidity),
        ).insert("sea_level"@, num_of_u32(m.sea_level)).insert(
            "grnd_level"@,
            num_of_u32(m.grnd_level),
        ),
    )
}

/// The document model of the wind block; an absent gust stays absent.
pub open spec fn model_of_wind(w: WindView) -> JsonModel {
    let base = Map::empty().insert("speed"@, num_of_dec(w.speed)).insert(
        "deg"@,
        num_of_u32(w.deg),
    );
    JsonModel::Obj(
        match w.gust {
            Some(g) => base.insert("gust"@, num_of_dec(g)),
            None => base,
        },
    )
}

/// The document model of the system block; absent optional fields stay
/// absent.
pub open spec fn model_of_sys(s: SysView) -> JsonModel {
    let base = Map::empty().insert("country"@, JsonModel::Str(s.country)).insert(
        "sunrise"@,
        num_of_u64(s.sunrise),
    ).insert("sunset"@, num_of_u64(s.sunset));
    let with_type = match s.sys_type {
        Some(t) => base.insert("type"@, num_of_u32(t)),
        None => base,
    };
    JsonModel::Obj(
        match s.id {
            Some(i) => with_type.insert("id"@, num_of_u32(i)),
            None => with_type,
        },
    )
}

/// The document model of a precipitation block.
pub open spec fn model_of_precip(d: Seq<char>) -> JsonModel {
    JsonModel::Obj(Map::empty().insert("1h"@, num_of_dec(d)))
}

/// The document model a normalized payload writes back to.
pub open spec fn model_of_weather(w: NormalizedWeatherView) -> JsonModel {
    let base = Map::empty().insert("coord"@, model_of_coord(w.coord)).insert(
        "weather"@,
        JsonModel::Arr(Seq::new(w.weather.len(), |i: int| model_of_condition(w.weather[i]))),
    ).insert("base"@, JsonModel::Str(w.base)).insert("main"@, model_of_main(w.main)).insert(
        "visibility"@,
        num_of_u32(w.visibility),
    ).insert("wind"@, model_of_wind(w.wind)).insert(
        "clouds"@,
        JsonModel::Obj(Map::empty().insert("all"@, num_of_u32(w.clouds_all))),
    ).insert("dt"@, num_of_u64(w.dt)).insert("sys"@, model_of_sys(w.sys)).insert(
        "timezone"@,
        num_of_i32(w.timezone),
    ).insert("id"@, num_of_u64(w.id)).insert("name"@, JsonModel::Str(w.name)).insert(
        "cod"@,
        num_of_u32(w.cod),
    );
    let with_rain = match w.rain {
        Some(d) => base.insert("rain"@, model_of_precip(d)),
        None => base,
    };
    JsonModel::Obj(
        match w.snow {
            Some(d) => with_rain.insert("snow"@, model_of_precip(d)),
            None => with_rain,
        },
    )
}

/// Law: validating the document model a coordinates block writes back to
/// yields the block again.
pub proof fn coord_round_trip(c: CoordView)
    ensures
        coord_of_json(model_of_coord(c)) == Some(c),
{
    reveal_strlit("lon");
    reveal_strlit("lat");
    assert("lon"@ != "lat"@) by {
        assert("lon"@[1] == 'o');
        assert("lat"@[1] == 'a');
    }
    assert(coord_of_json(model_of_coord(c)).unwrap() =~= c);
}

/// Law: validating the document model a condition descriptor writes back to
/// yields the descriptor again.
pub proof fn condition_round_trip(c: WeatherCondView)
    ensures
        condition_of_json(model_of_condition(c)) == Some(c),
{
    reveal_strlit("id");
    reveal_strlit("main");
    reveal_strlit("description");
    reveal_strlit("icon");
    assert("id"@.len() == 2 && "id"@[0] == 'i');
    assert("main"@.len() == 4 && "main"@[0] == 'm');
    assert("description"@.len() == 11 && "description"@[0] == 'd');
    assert("icon"@.len() == 4 && "icon"@[0] == 'i');
    assert(condition_of_json(model_of_condition(c)).unwrap() =~= c);
}

/// Law: validating the document model the main metrics block writes back to
/// yields the block again.
pub proof fn main_round_trip(m: MainView)
    ensures
        main_of_json(model_of_main(m)) == Some(m),
{
    reveal_strlit("temp");
    reveal_strlit("feels_like");
    reveal_strlit("temp_min");
    reveal_strlit("temp_max");
    reveal_strlit("pressure");
    reveal_strlit("humidity");
    reveal_strlit("sea_level");
    reveal_strlit("grnd_level");
    assert("temp"@.len() == 4 && "temp"@[0] == 't');
    assert("feels_like"@.len() == 10 && "feels_like"@[0] == 'f');
    assert("temp_min"@.len() == 8 && "temp_min"@[0] == 't' && "temp_min"@[6] == 'i');
    assert("temp_max"@.len() == 8 && "temp_max"@[0] == 't' && "temp_max"@[6] == 'a');
    assert("pressure"@.len() == 8 && "pressure"@[0] == 'p');
    assert("humidity"@.len() == 8 && "humidity"@[0] == 'h');
    assert("sea_level"@.len() == 9 && "sea_level"@[0] == 's');
    assert("grnd_level"@.len() == 10 && "grnd_level"@[0] == 'g');
    assert(main_of_json(model_of_main(m)).unwrap() =~= m);
}

/// Law: validating the document model the wind block writes back to yields
/// the block again, gust presence included.
pub proof fn wind_round_trip(w: WindView)
    ensures
        wind_of_json(model_of_wind(w)) == Some(w),
{
    reveal_strlit("speed");
    reveal_strlit("deg");
    reveal_strlit("gust");
    assert("speed"@.len() == 5);
    assert("deg"@.len() == 3);
    assert("gust"@.len() == 4);
    assert(wind_of_json(model_of_wind(w)).unwrap() =~= w);
}

/// Law: validating the document model the system block writes back to yields
/// the block again, optional fields included.
pub proof fn sys_round_trip(s: SysView)
    ensures
        sys_of_json(model_of_sys(s)) == Some(s),
{
    reveal_strlit("type");
    reveal_strlit("id");
    reveal_strlit("country");
    reveal_strlit("sunrise");
    reveal_strlit("sunset");
    assert("type"@.len() == 4);
    assert("id"@.len() == 2);
    assert("country"@.len() == 7 && "country"@[0] == 'c');
    assert("sunrise"@.len() == 7 && "sunrise"@[0] == 's');
    assert("sunset"@.len() == 6);
    assert(sys_of_json(model_of_sys(s)).unwrap() =~= s);
}

/// Law (schema fidelity): writing a normalized payload back into the
/// document model and strictly validating that document yields the payload
/// again, field for field — no field is lost, renamed or altered by a pass
/// through the schema.
pub proof fn weather_schema_round_trip(w: NormalizedWeatherView)
    ensures
        weather_of_json(model_of_weather(w)) == Some(w),
{
    reveal_strlit("coord");
    reveal_strlit("weather");
    reveal_strlit("base");
    reveal_strlit("main");
    reveal_strlit("visibility");
    reveal_strlit("wind");
    reveal_strlit("rain");
    reveal_strlit("snow");
    reveal_strlit("clouds");
    reveal_strlit("all");
    reveal_strlit("dt");
    reveal_strlit("sys");
    reveal_strlit("timezone");
    reveal_strlit("id");
    reveal_strlit("name");
    reveal_strlit("cod");
    reveal_strlit("1h");
    assert("coord"@.len() == 5);
    assert("weather"@.len() == 7);
    assert("base"@.len() == 4 && "base"@[0] == 'b');
    assert("main"@.len() == 4 && "main"@[0] == 'm');
    assert("visibility"@.len() == 10);
    assert("wind"@.len() == 4 && "wind"@[0] == 'w');
    assert("clouds"@.len() == 6);
    assert("dt"@.len() == 2 && "dt"@[0] == 'd');
    assert("sys"@.len() == 3 && "sys"@[0] == 's');
    assert("timezone"@.len() == 8);
    assert("id"@.len() == 2 && "id"@[0] == 'i');
    assert("name"@.len() == 4 && "name"@[0] == 'n');
    assert("cod"@.len() == 3 && "cod"@[0] == 'c');
    assert("rain"@.len() == 4 && "rain"@[0] == 'r');
    assert("snow"@.len() == 4 && "snow"@[0] == 's');
    assert("all"@.len() == 3 && "all"@[0] == 'a');
    assert("1h"@.len() == 2 && "1h"@[0] == '1');
    let m = model_of_weather(w);
    coord_round_trip(w.coord);
    main_round_trip(w.main);
    wind_round_trip(w.wind);
    sys_round_trip(w.sys);
    let a = Seq::new(w.weather.len(), |i: int| model_of_condition(w.weather[i]));
    assert forall|i: int| 0 <= i < a.len() implies (#[trigger] condition_of_json(
        a[i],
    )) is Some by {
        condition_round_trip(w.weather[i]);
    }
    assert(conditions_of_json(JsonModel::Arr(a)) is Some);
    assert forall|i: int|
        0 <= i < a.len() implies #[trigger] conditions_of_json(JsonModel::Arr(a)).unwrap()[i]
        == w.weather[i] by {
        condition_round_trip(w.weather[i]);
    }
    assert(conditions_of_json(JsonModel::Arr(a)).unwrap() =~= w.weather);
    assert(weather_of_json(m).unwrap() =~= w);
}

} // verus!
