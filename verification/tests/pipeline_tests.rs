use cardea_weather::format::format_weather_info;
use cardea_weather::numfmt::{i32_to_string, u32_to_string, u64_to_string};
use cardea_weather::orchestrate::{build_report, ErrorKind, FetchOutcome, WeatherQuery};
use cardea_weather::types::{
    Clouds, Coord, GetWeatherRequest, Main, NormalizedWeather, Rain, Snow, Sys, TemperatureUnit,
    Weather, Wind,
};
use cardea_weather::validate::validate_weather;

fn request(location: &str, unit: Option<TemperatureUnit>) -> GetWeatherRequest {
    GetWeatherRequest {
        location: String::from(location),
        unit,
    }
}

fn tokyo_weather_body() -> String {
    String::from(
        "{\"coord\":{\"lon\":139.69,\"lat\":35.68},\
         \"weather\":[{\"id\":800,\"main\":\"Clear\",\"description\":\"clear sky\",\"icon\":\"01d\"}],\
         \"base\":\"stations\",\
         \"main\":{\"temp\":25.5,\"feels_like\":26.1,\"temp_min\":24.0,\"temp_max\":27.2,\
         \"pressure\":1013,\"humidity\":60,\"sea_level\":1013,\"grnd_level\":1009},\
         \"visibility\":10000,\
         \"wind\":{\"speed\":3.6,\"deg\":160},\
         \"clouds\":{\"all\":0},\
         \"dt\":1700000000,\
         \"sys\":{\"type\":2,\"id\":268395,\"country\":\"JP\",\"sunrise\":1700000000,\"sunset\":1700020000},\
         \"timezone\":3600,\"id\":1850144,\"name\":\"Tokyo\",\"cod\":200}",
    )
}

fn expected_tokyo_weather() -> NormalizedWeather {
    NormalizedWeather {
        coord: Coord {
            lon: String::from("139.69"),
            lat: String::from("35.68"),
        },
        weather: vec![Weather {
            id: 800,
            main: String::from("Clear"),
            description: String::from("clear sky"),
            icon: String::from("01d"),
        }],
        base: String::from("stations"),
        main: Main {
            temp: String::from("25.5"),
            feels_like: String::from("26.1"),
            temp_min: String::from("24"),
            temp_max: String::from("27.2"),
            pressure: 1013,
            humidity: 60,
            sea_level: 1013,
            grnd_level: 1009,
        },
        visibility: 10000,
        wind: Wind {
            speed: String::from("3.6"),
            deg: 160,
            gust: None,
        },
        rain: None,
        snow: None,
        clouds: Clouds { all: 0 },
        dt: 1700000000,
        sys: Sys {
            sys_type: Some(2),
            id: Some(268395),
            country: String::from("JP"),
            sunrise: 1700000000,
            sunset: 1700020000,
        },
        timezone: 3600,
        id: 1850144,
        name: String::from("Tokyo"),
        cod: 200,
    }
}

#[test]
fn unit_code_fahrenheit_is_imperial() {
    assert_eq!(
        TemperatureUnit::Fahrenheit.to_openweathermap_unit(),
        "imperial"
    );
}

#[test]
fn unit_code_celsius_is_metric() {
    assert_eq!(TemperatureUnit::Celsius.to_openweathermap_unit(), "metric");
}

#[test]
fn start_builds_geocode_url_with_metric_for_unset_unit() {
    let req = request("Tokyo", None);
    let (query, url) = WeatherQuery::start(&req, Some(String::from("KEY"))).unwrap();
    assert_eq!(
        url,
        "http://api.openweathermap.org/geo/1.0/direct?q=Tokyo&appid=KEY&limit=1&units=metric"
    );
    assert_eq!(query.unit_code, "metric");
}

#[test]
fn start_builds_geocode_url_with_imperial_for_fahrenheit() {
    let req = request("New York", Some(TemperatureUnit::Fahrenheit));
    let (query, url) = WeatherQuery::start(&req, Some(String::from("KEY"))).unwrap();
    assert_eq!(
        url,
        "http://api.openweathermap.org/geo/1.0/direct?q=New York&appid=KEY&limit=1&units=imperial"
    );
    assert_eq!(query.unit_code, "imperial");
}

#[test]
fn both_urls_carry_the_same_unit_code() {
    let req = request("Paris", Some(TemperatureUnit::Fahrenheit));
    let (query, geocode_url) = WeatherQuery::start(&req, Some(String::from("KEY"))).unwrap();
    let outcome = FetchOutcome::Body(String::from("[{\"lat\":48.85,\"lon\":2.35}]"));
    let weather_url = query.weather_url(&outcome).unwrap();
    assert!(geocode_url.ends_with("&limit=1&units=imperial"));
    assert!(weather_url.ends_with("&units=imperial"));
}

#[test]
fn missing_api_key_is_a_configuration_error() {
    let req = request("Tokyo", None);
    let err = WeatherQuery::start(&req, None).unwrap_err();
    assert_eq!(err.kind, ErrorKind::Configuration);
    assert_eq!(
        err.message,
        "No API key provided. Please set the `OPENWEATHERMAP_API_KEY` environment variable."
    );
}

#[test]
fn geocode_transport_failure_is_upstream_unavailable() {
    let req = request("Tokyo", None);
    let (query, _) = WeatherQuery::start(&req, Some(String::from("KEY"))).unwrap();
    let outcome = FetchOutcome::TransportError(String::from("connection refused"));
    let err = query.weather_url(&outcome).unwrap_err();
    assert_eq!(err.kind, ErrorKind::UpstreamUnavailable);
    assert_eq!(err.message, "Failed to get geocode: connection refused");
}

#[test]
fn empty_geocode_array_is_upstream_protocol_and_yields_no_weather_url() {
    let req = request("Nowhereville", None);
    let (query, _) = WeatherQuery::start(&req, Some(String::from("KEY"))).unwrap();
    let outcome = FetchOutcome::Body(String::from("[]"));
    let err = query.weather_url(&outcome).unwrap_err();
    assert_eq!(err.kind, ErrorKind::UpstreamProtocol);
    assert!(err.message.contains("geocod"));
}

#[test]
fn non_json_geocode_body_is_upstream_protocol() {
    let req = request("Tokyo", None);
    let (query, _) = WeatherQuery::start(&req, Some(String::from("KEY"))).unwrap();
    let outcome = FetchOutcome::Body(String::from("<html>not json</html>"));
    let err = query.weather_url(&outcome).unwrap_err();
    assert_eq!(err.kind, ErrorKind::UpstreamProtocol);
    assert_eq!(err.message, "Failed to parse geocode response");
}

#[test]
fn geocode_success_builds_the_weather_url() {
    let req = request("Tokyo", None);
    let (query, _) = WeatherQuery::start(&req, Some(String::from("KEY"))).unwrap();
    let outcome = FetchOutcome::Body(String::from("[{\"lat\":35.68,\"lon\":139.69}]"));
    let url = query.weather_url(&outcome).unwrap();
    assert_eq!(
        url,
        "http://api.openweathermap.org/data/2.5/weather?lat=35.68&lon=139.69&appid=KEY&units=metric"
    );
}

#[test]
fn weather_transport_failure_is_upstream_unavailable() {
    let outcome = FetchOutcome::TransportError(String::from("timed out"));
    let err = build_report(&outcome).unwrap_err();
    assert_eq!(err.kind, ErrorKind::UpstreamUnavailable);
    assert_eq!(err.message, "Failed to get weather: timed out");
}

#[test]
fn non_json_weather_body_is_upstream_protocol() {
    let outcome = FetchOutcome::Body(String::from("oops"));
    let err = build_report(&outcome).unwrap_err();
    assert_eq!(err.kind, ErrorKind::UpstreamProtocol);
    assert_eq!(err.message, "Failed to parse weather response");
}

#[test]
fn weather_body_missing_a_field_is_upstream_protocol() {
    let body = tokyo_weather_body().replace("\"visibility\":10000,", "");
    let err = build_report(&FetchOutcome::Body(body)).unwrap_err();
    assert_eq!(err.kind, ErrorKind::UpstreamProtocol);
    assert!(err.message.contains("visibility"));
}

#[test]
fn weather_body_with_mistyped_field_is_upstream_protocol() {
    let body = tokyo_weather_body().replace("\"name\":\"Tokyo\"", "\"name\":42");
    let err = build_report(&FetchOutcome::Body(body)).unwrap_err();
    assert_eq!(err.kind, ErrorKind::UpstreamProtocol);
    assert!(err.message.contains("name"));
}

#[test]
fn empty_condition_list_is_a_formatting_invariant_violation() {
    let body = tokyo_weather_body().replace(
        "[{\"id\":800,\"main\":\"Clear\",\"description\":\"clear sky\",\"icon\":\"01d\"}]",
        "[]",
    );
    let err = build_report(&FetchOutcome::Body(body)).unwrap_err();
    assert_eq!(err.kind, ErrorKind::FormattingInvariantViolation);
    assert_eq!(
        err.message,
        "the weather payload held no weather condition entry"
    );
}

#[test]
fn end_to_end_tokyo_report() {
    let req = request("Tokyo", None);
    let (query, geocode_url) = WeatherQuery::start(&req, Some(String::from("KEY"))).unwrap();
    assert_eq!(
        geocode_url,
        "http://api.openweathermap.org/geo/1.0/direct?q=Tokyo&appid=KEY&limit=1&units=metric"
    );
    let geocode_outcome = FetchOutcome::Body(String::from("[{\"lat\":35.68,\"lon\":139.69}]"));
    let weather_url = query.weather_url(&geocode_outcome).unwrap();
    assert_eq!(
        weather_url,
        "http://api.openweathermap.org/data/2.5/weather?lat=35.68&lon=139.69&appid=KEY&units=metric"
    );
    let response = build_report(&FetchOutcome::Body(tokyo_weather_body())).unwrap();
    assert!(response.weather.contains("Weather Condition: Clear."));
    assert!(response.weather.contains("(No rain information)"));
    assert!(response.weather.contains("(No snow information)"));
}

#[test]
fn validated_payload_matches_the_schema_field_for_field() {
    let doc: serde_json::Value = serde_json::from_str(&tokyo_weather_body()).unwrap();
    let validated = validate_weather(&doc).unwrap();
    assert_eq!(validated, expected_tokyo_weather());
}

#[test]
fn report_renders_the_exact_template() {
    let report = format_weather_info(&expected_tokyo_weather());
    assert_eq!(
        report,
        "Current Location: Tokyo (Country: JP, Latitude: 35.68, Longitude: 139.69, Timezone Offset: 3600 seconds).\n\
         Weather Condition: Clear.\n\
         Temperature: 25.5°C (Feels like: 26.1°C, Min: 24°C, Max: 27.2°C).\n\
         Atmosphere: Pressure 1013 hPa (Sea Level: 1013 hPa, Ground Level: 1009 hPa), Humidity 60%.\n\
         Wind: Speed 3.6 m/s, Direction 160°.\n\
         Clouds: Cloudiness 0%.\n\
         Visibility: 10000 meters.\n\
         Other: Data Calculation Time (Unix UTC): 1700000000, Sunrise: 2023-11-14 23:13:20, Sunset: 2023-11-15 04:46:40.\n\
         (No rain information)(No snow information)"
    );
}

#[test]
fn sun_times_are_shifted_by_the_fixed_offset() {
    let report = format_weather_info(&expected_tokyo_weather());
    assert!(report.contains("Sunrise: 2023-11-14 23:13:20"));
    assert!(report.contains("Sunset: 2023-11-15 04:46:40"));
}

#[test]
fn rain_snow_and_gust_render_when_present() {
    let mut weather = expected_tokyo_weather();
    weather.rain = Some(Rain {
        one_hour: String::from("0.5"),
    });
    weather.snow = Some(Snow {
        one_hour: String::from("1.2"),
    });
    weather.wind.gust = Some(String::from("7.9"));
    let report = format_weather_info(&weather);
    assert!(report.contains("Wind: Speed 3.6 m/s, Direction 160°, Gust 7.9 m/s.\n"));
    assert_eq!(report.matches("(Rain: 0.5 mm/h)").count(), 1);
    assert_eq!(report.matches("(Snow: 1.2 mm/h)").count(), 1);
    assert_eq!(report.matches("No rain information").count(), 0);
    assert_eq!(report.matches("No snow information").count(), 0);
}

#[test]
fn precipitation_notes_appear_exactly_once_when_absent() {
    let report = format_weather_info(&expected_tokyo_weather());
    assert_eq!(report.matches("(No rain information)").count(), 1);
    assert_eq!(report.matches("(No snow information)").count(), 1);
    assert_eq!(report.matches("Rain").count(), 0);
    assert_eq!(report.matches("Snow").count(), 0);
}

#[test]
fn decimal_renderings_are_exact() {
    assert_eq!(u64_to_string(0), "0");
    assert_eq!(u64_to_string(1234567890), "1234567890");
    assert_eq!(u64_to_string(u64::MAX), "18446744073709551615");
    assert_eq!(u32_to_string(42), "42");
    assert_eq!(i32_to_string(-3600), "-3600");
    assert_eq!(i32_to_string(0), "0");
    assert_eq!(i32_to_string(i32::MIN), "-2147483648");
    assert_eq!(i32_to_string(32400), "32400");
}

#[test]
fn optional_gust_and_precipitation_survive_validation() {
    let body = tokyo_weather_body()
        .replace(
            "\"wind\":{\"speed\":3.6,\"deg\":160}",
            "\"wind\":{\"speed\":3.6,\"deg\":160,\"gust\":7.9}",
        )
        .replace("\"clouds\"", "\"rain\":{\"1h\":0.5},\"clouds\"");
    let doc: serde_json::Value = serde_json::from_str(&body).unwrap();
    let validated = validate_weather(&doc).unwrap();
    assert_eq!(validated.wind.gust, Some(String::from("7.9")));
    assert_eq!(
        validated.rain,
        Some(Rain {
            one_hour: String::from("0.5")
        })
    );
    assert_eq!(validated.snow, None);
}

#[test]
fn null_optional_fields_count_as_absent() {
    let body = tokyo_weather_body().replace("\"type\":2,", "\"type\":null,");
    let doc: serde_json::Value = serde_json::from_str(&body).unwrap();
    let validated = validate_weather(&doc).unwrap();
    assert_eq!(validated.sys.sys_type, None);
}

#[test]
fn malformed_precipitation_block_is_rejected() {
    let body = tokyo_weather_body().replace("\"clouds\"", "\"rain\":{},\"clouds\"");
    let err = build_report(&FetchOutcome::Body(body)).unwrap_err();
    assert_eq!(err.kind, ErrorKind::UpstreamProtocol);
}

#[test]
fn negative_timezone_offset_renders_with_a_minus_sign() {
    let body = tokyo_weather_body().replace("\"timezone\":3600", "\"timezone\":-10800");
    let response = build_report(&FetchOutcome::Body(body)).unwrap();
    assert!(response
        .weather
        .contains("Timezone Offset: -10800 seconds"));
    assert!(response.weather.contains("Sunrise: 2023-11-14 19:13:20"));
}

#[test]
fn out_of_range_u32_field_is_rejected() {
    let body = tokyo_weather_body().replace("\"cod\":200", "\"cod\":4294967296");
    let err = build_report(&FetchOutcome::Body(body)).unwrap_err();
    assert_eq!(err.kind, ErrorKind::UpstreamProtocol);
    assert!(err.message.contains("cod"));
}
