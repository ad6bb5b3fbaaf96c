//! Core of a weather-report service: turning a free-text city name into a
//! deterministic, timezone-corrected text summary of the current weather.
//!
//! The pipeline is: resolve the city to coordinates through a geocoding
//! endpoint, fetch the current weather for those coordinates, validate the
//! provider's JSON payload into a strict schema, and render the result as a
//! fixed multi-line report.  The HTTP calls themselves are performed by the
//! surrounding program; this crate holds every decision the pipeline makes
//! (URL construction, error classification, validation, formatting), each
//! with a proved contract.

pub mod types;
pub mod numfmt;
pub mod json;
pub mod validate;
pub mod format;
pub mod orchestrate;
