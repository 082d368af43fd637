//! The answers of the OpenWeatherMap service. Numbers with a fraction are
//! held in thousandths; temperatures are in thousandths of a kelvin.

use vstd::prelude::*;

verus! {

/// The body of an answer that reports an error.
#[derive(Debug)]
pub struct ErrorResponse {
    pub cod: i32,
    pub message: String,
}

/// The current weather.
#[derive(Debug)]
pub struct TodayResponse {
    pub coord: Coord,
    pub weather: Vec<TheWeather>,
    pub base: String,
    pub main: Main,
    pub visibility: i64,
    pub wind: Wind,
    pub clouds: Clouds,
    pub dt: i64,
    pub sys: Option<Sys>,
    pub timezone: i64,
    pub id: i64,
    pub name: String,
    pub cod: i64,
}

/// A place, in thousandths of a degree.
#[derive(Debug)]
pub struct Coord {
    pub lon: i64,
    pub lat: i64,
}

/// A weather condition.
#[derive(Debug)]
pub struct TheWeather {
    pub id: i64,
    pub main: String,
    pub description: String,
    pub icon: String,
}

/// The main measurements.
#[derive(Debug)]
pub struct Main {
    pub temp: i64,
    pub feels_like: i64,
    pub temp_min: i64,
    pub temp_max: i64,
    pub pressure: i64,
    pub humidity: i64,
}

/// The wind: its speed in thousandths and its direction in degrees.
#[derive(Debug)]
pub struct Wind {
    pub speed: i64,
    pub deg: i64,
}

/// The cloud cover in percent.
#[derive(Debug)]
pub struct Clouds {
    pub all: i64,
}

/// Data of the service about the place.
#[derive(Debug)]
pub struct Sys {
    pub type_field: Option<i64>,
    pub id: Option<i64>,
    pub country: String,
    pub sunrise: i64,
    pub sunset: i64,
}

/// Past weather.
#[derive(Debug)]
pub struct HistoryResponse {
    pub cnt: i8,
    pub list: Vec<HistoryTs>,
}

/// The weather at one past moment.
#[derive(Debug)]
pub struct HistoryTs {
    pub main: Main,
    pub wind: Wind,
    pub clouds: Clouds,
    pub weather: Vec<TheWeather>,
    pub dt: i64,
}

/// The forecast for one day.
#[derive(Debug)]
pub struct List {
    pub dt: i64,
    pub sunrise: i64,
    pub sunset: i64,
    pub temp: Temp,
    pub feels_like: FeelsLike,
    pub pressure: i64,
    pub humidity: i64,
    pub weather: Vec<TheWeather>,
    pub speed: i64,
    pub deg: i64,
    pub gust: i64,
    pub clouds: i64,
    pub pop: i64,
    pub rain: i64,
}

/// The temperatures of a day.
#[derive(Debug)]
pub struct Temp {
    pub day: i64,
    pub min: i64,
    pub max: i64,
    pub night: i64,
    pub eve: i64,
    pub morn: i64,
}

/// The felt temperatures of a day.
#[derive(Debug)]
pub struct FeelsLike {
    pub day: i64,
    pub night: i64,
    pub eve: i64,
    pub morn: i64,
}

/// A daily forecast.
#[derive(Debug)]
pub struct ForecastResponse {
    pub cnt: i8,
    pub list: Vec<List>,
}

} // verus!
