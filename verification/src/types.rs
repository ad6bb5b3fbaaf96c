//! Request, response and schema types for the weather pipeline.
//!
//! The provider reports the fractional quantities of its payload (coordinates,
//! temperatures, wind speeds, precipitation volumes) as JSON numbers; this
//! crate carries each of them as the decimal text the provider's number
//! renders to, which is exactly what the report and the outbound URLs need.

use vstd::prelude::*;

verus! {

/// The unit system a caller may ask for.  Temperatures default to Celsius
/// when the request leaves the unit unset.
#[derive(Clone, Copy, Debug, PartialEq, Eq, Structural)]
pub enum TemperatureUnit {
    Celsius,
    Fahrenheit,
}

/// The unit-system code the provider expects for a chosen unit.
pub open spec fn unit_code(u: TemperatureUnit) -> Seq<char> {
    match u {
        TemperatureUnit::Celsius => "metric"@,
        TemperatureUnit::Fahrenheit => "imperial"@,
    }
}

/// The unit-system code for a request's (possibly unset) unit choice:
/// an unset unit means Celsius.
pub open spec fn effective_unit_code(u: Option<TemperatureUnit>) -> Seq<char> {
    match u {
        Some(unit) => unit_code(unit),
        None => unit_code(TemperatureUnit::Celsius),
    }
}

impl TemperatureUnit {
    /// The provider-specific unit-system code for this unit.
    pub fn to_openweathermap_unit(&self) -> (r: String)
        ensures
            r@ == unit_code(*self),
    {
        match self {
            TemperatureUnit::Celsius => String::from_str("metric"),
            TemperatureUnit::Fahrenheit => String::from_str("imperial"),
        }
    }
}

/// One incoming tool invocation: a free-text city name and an optional unit.
#[derive(Debug)]
pub struct GetWeatherRequest {
    /// The city to get the weather for, e.g. 'Beijing', 'New York', 'Tokyo'.
    pub location: String,
    /// The unit to use for the temperature; Celsius when unset.
    pub unit: Option<TemperatureUnit>,
}

/// The outward result payload: the finished weather report.
#[derive(Debug, Clone, PartialEq)]
pub struct GetWeatherResponse {
    /// The weather information, as a fixed multi-line text report.
    pub weather: String,
}

/// Coordinates of the first geocoding result for the requested city.
/// Each coordinate is carried as the decimal text of the provider's number.
#[derive(Debug, Clone, PartialEq)]
pub struct GeocodeResult {
    /// Latitude of the location.
    pub lat: String,
    /// Longitude of the location.
    pub lon: String,
}

/// Mathematical value of a [`GeocodeResult`].
pub struct GeocodeResultView {
    pub lat: Seq<char>,
    pub lon: Seq<char>,
}

impl View for GeocodeResult {
    type V = GeocodeResultView;

    open spec fn view(&self) -> GeocodeResultView {
        GeocodeResultView { lat: self.lat@, lon: self.lon@ }
    }
}

/// Geographic coordinates of the location, from the weather payload.
#[derive(Debug, Clone, PartialEq)]
pub struct Coord {
    /// Longitude of the location.
    pub lon: String,
    /// Latitude of the location.
    pub lat: String,
}

/// Mathematical value of a [`Coord`].
#[verifier::ext_equal]
pub struct CoordView {
    pub lon: Seq<char>,
    pub lat: Seq<char>,
}

impl View for Coord {
    type V = CoordView;

    open spec fn view(&self) -> CoordView {
        CoordView { lon: self.lon@, lat: self.lat@ }
    }
}

/// One weather-condition descriptor.
#[derive(Debug, Clone, PartialEq)]
pub struct Weather {
    /// Weather condition ID.
    pub id: u32,
    /// Group of weather parameters (e.g. Rain, Snow, Clouds).
    pub main: String,
    /// Description of the weather condition.
    pub description: String,
    /// Weather icon ID.
    pub icon: String,
}

/// Mathematical value of a [`Weather`].
#[verifier::ext_equal]
pub struct WeatherCondView {
    pub id: u32,
    pub main: Seq<char>,
    pub description: Seq<char>,
    pub icon: Seq<char>,
}

impl View for Weather {
    type V = WeatherCondView;

    open spec fn view(&self) -> WeatherCondView {
        WeatherCondView {
            id: self.id,
            main: self.main@,
            description: self.description@,
            icon: self.icon@,
        }
    }
}

/// Main atmospheric metrics.
#[derive(Debug, Clone, PartialEq)]
pub struct Main {
    /// Temperature, in the requested unit system.
    pub temp: String,
    /// Temperature accounting for human perception.
    pub feels_like: String,
    /// Minimum temperature observed.
    pub temp_min: String,
    /// Maximum temperature observed.
    pub temp_max: String,
    /// Atmospheric pressure in hPa.
    pub pressure: u32,
    /// Humidity percentage.
    pub humidity: u32,
    /// Atmospheric pressure at sea level in hPa.
    pub sea_level: u32,
    /// Atmospheric pressure at ground level in hPa.
    pub grnd_level: u32,
}

/// Mathematical value of a [`Main`].
#[verifier::ext_equal]
pub struct MainView {
    pub temp: Seq<char>,
    pub feels_like: Seq<char>,
    pub temp_min: Seq<char>,
    pub temp_max: Seq<char>,
    pub pressure: u32,
    pub humidity: u32,
    pub sea_level: u32,
    pub grnd_level: u32,
}

impl View for Main {
    type V = MainView;

    open spec fn view(&self) -> MainView {
        MainView {
            temp: self.temp@,
            feels_like: self.feels_like@,
            temp_min: self.temp_min@,
            temp_max: self.temp_max@,
            pressure: self.pressure,
            humidity: self.humidity,
            sea_level: self.sea_level,
            grnd_level: self.grnd_level,
        }
    }
}

/// Wind information.
#[derive(Debug, Clone, PartialEq)]
pub struct Wind {
    /// Wind speed in meter/sec.
    pub speed: String,
    /// Wind direction in degrees (meteorological).
    pub deg: u32,
    /// Wind gust in meter/sec, when the provider reports one.
    pub gust: Option<String>,
}

/// Mathematical value of a [`Wind`].
#[verifier::ext_equal]
pub struct WindView {
    pub speed: Seq<char>,
    pub deg: u32,
    pub gust: Option<Seq<char>>,
}

impl View for Wind {
    type V = WindView;

    open spec fn view(&self) -> WindView {
        WindView {
            speed: self.speed@,
            deg: self.deg,
            gust: match self.gust {
                Some(ref g) => Some(g@),
                None => None,
            },
        }
    }
}

/// Rain precipitation information.
#[derive(Debug, Clone, PartialEq)]
pub struct Rain {
    /// Precipitation volume for the last hour in mm/h.
    pub one_hour: String,
}

/// Snow precipitation information.
#[derive(Debug, Clone, PartialEq)]
pub struct Snow {
    /// Precipitation volume for the last hour in mm/h.
    pub one_hour: String,
}

/// Cloudiness information.
#[derive(Debug, Clone, PartialEq)]
pub struct Clouds {
    /// Cloudiness percentage.
    pub all: u32,
}

/// System information related to the location.
#[derive(Debug, Clone, PartialEq)]
pub struct Sys {
    /// Internal parameter (type of the system).
    pub sys_type: Option<u32>,
    /// Internal parameter (system ID).
    pub id: Option<u32>,
    /// Country code (e.g. GB, JP, CN).
    pub country: String,
    /// Sunrise time as a Unix UTC timestamp.
    pub sunrise: u64,
    /// Sunset time as a Unix UTC timestamp.
    pub sunset: u64,
}

/// Mathematical value of a [`Sys`].
#[verifier::ext_equal]
pub struct SysView {
    pub sys_type: Option<u32>,
    pub id: Option<u32>,
    pub country: Seq<char>,
    pub sunrise: u64,
    pub sunset: u64,
}

impl View for Sys {
    type V = SysView;

    open spec fn view(&self) -> SysView {
        SysView {
            sys_type: self.sys_type,
            id: self.id,
            country: self.country@,
            sunrise: self.sunrise,
            sunset: self.sunset,
        }
    }
}

/// The validated, strongly-typed projection of the provider's weather payload.
///
/// Invariant of interest to the formatter: the `weather` condition list must
/// hold at least one entry; the orchestrator checks this after validation and
/// classifies an empty list as an error instead of formatting.
#[derive(Debug, Clone, PartialEq)]
pub struct NormalizedWeather {
    /// Geographic coordinates of the location.
    pub coord: Coord,
    /// List of weather conditions (e.g. rain, clear sky).
    pub weather: Vec<Weather>,
    /// Internal parameter indicating the data source.
    pub base: String,
    /// Main weather parameters like temperature and pressure.
    pub main: Main,
    /// Visibility in meters.
    pub visibility: u32,
    /// Wind information including speed and direction.
    pub wind: Wind,
    /// Precipitation information for rain (if available).
    pub rain: Option<Rain>,
    /// Precipitation information for snow (if available).
    pub snow: Option<Snow>,
    /// Cloudiness information.
    pub clouds: Clouds,
    /// Time of data calculation as a Unix UTC timestamp.
    pub dt: u64,
    /// System information including country and sunrise/sunset times.
    pub sys: Sys,
    /// Shift in seconds from UTC for the location's timezone.
    pub timezone: i32,
    /// City ID.
    pub id: u64,
    /// City name.
    pub name: String,
    /// Internal parameter indicating the response code.
    pub cod: u32,
}

/// Mathematical value of a [`NormalizedWeather`].  Optional precipitation is
/// carried directly as the decimal text of the last-hour volume.
#[verifier::ext_equal]
pub struct NormalizedWeatherView {
    pub coord: CoordView,
    pub weather: Seq<WeatherCondView>,
    pub base: Seq<char>,
    pub main: MainView,
    pub visibility: u32,
    pub wind: WindView,
    pub rain: Option<Seq<char>>,
    pub snow: Option<Seq<char>>,
    pub clouds_all: u32,
    pub dt: u64,
    pub sys: SysView,
    pub timezone: i32,
    pub id: u64,
    pub name: Seq<char>,
    pub cod: u32,
}

impl View for NormalizedWeather {
    type V = NormalizedWeatherView;

    open spec fn view(&self) -> NormalizedWeatherView {
        NormalizedWeatherView {
            coord: self.coord@,
            weather: self.weather@.map_values(|c: Weather| c@),
            base: self.base@,
            main: self.main@,
            visibility: self.visibility,
            wind: self.wind@,
            rain: match self.rain {
                Some(ref r) => Some(r.one_hour@),
                None => None,
            },
            snow: match self.snow {
                Some(ref s) => Some(s.one_hour@),
                None => None,
            },
            clouds_all: self.clouds.all,
            dt: self.dt,
            sys: self.sys@,
            timezone: self.timezone,
            id: self.id,
            name: self.name@,
            cod: self.cod,
        }
    }
}

} // verus!
