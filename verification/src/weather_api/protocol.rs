//! The answers of the WeatherAPI service. Numbers with a fraction are held
//! in thousandths; temperatures are in thousandths of a degree Celsius.

use vstd::prelude::*;

verus! {

/// The current weather.
#[derive(Debug)]
pub struct CurrentResponse {
    pub location: Location,
    pub current: Current,
}

/// The place that an answer is about; its position in thousandths of a
/// degree.
#[derive(Debug)]
pub struct Location {
    pub name: String,
    pub region: String,
    pub country: String,
    pub lat: i64,
    pub lon: i64,
}

/// The weather now.
#[derive(Debug)]
pub struct Current {
    pub last_updated: String,
    pub temp_c: i64,
    pub condition: Condition,
}

/// A weather condition.
#[derive(Debug)]
pub struct Condition {
    pub text: String,
    pub icon: String,
    pub code: i64,
}

/// Past weather.
#[derive(Debug)]
pub struct HistoryResponse {
    pub location: Location,
    pub forecast: Forecast,
}

/// The forecast for the days ahead.
#[derive(Debug)]
pub struct ForecastResponse {
    pub location: Location,
    pub forecast: Forecast,
}

/// A list of days.
#[derive(Debug)]
pub struct Forecast {
    pub forecastday: Vec<ForecastDay>,
}

/// One day of the list.
#[derive(Debug)]
pub struct ForecastDay {
    pub date: Option<String>,
    pub date_epoch: Option<i32>,
    pub day: Day,
}

/// The weather of a day.
#[derive(Debug)]
pub struct Day {
    pub avgtemp_c: i64,
    pub condition: Condition,
}

/// The forecast for a day further ahead.
#[derive(Debug)]
pub struct FutureResponse {
    pub location: Location,
    pub forecast: Forecast,
}

/// The body of an answer that reports an error.
#[derive(Debug)]
pub struct ErrorResponse {
    pub error: ErrorBody,
}

/// The error in an [`ErrorResponse`].
#[derive(Debug)]
pub struct ErrorBody {
    pub code: i32,
    pub message: String,
}

} // verus!
