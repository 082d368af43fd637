//! Errors of the WeatherAPI provider.

use vstd::prelude::*;
use crate::date::Date;
use crate::models::{TemperatureError, Weather, WeatherView};

verus! {

/// `reqwest_middleware::Error`, the error of the HTTP client with its
/// middleware. The library carries it to the caller and looks at nothing in
/// it.
#[verifier::external_type_specification]
#[verifier::external_body]
pub struct ExMiddlewareError(reqwest_middleware::Error);

/// What can go wrong between a request for weather and its answer.
#[derive(Debug)]
pub enum WeatherApiError {
    /// The service reported a temperature below absolute zero.
    Temperature(TemperatureError),
    /// The exchange with the service failed, or its body could not be read.
    HttpClient(reqwest_middleware::Error),
    /// The service answered with an error: its message and its code.
    Api(String, u16),
    /// The service answered with success, but the named section of the
    /// answer from the named endpoint is empty.
    JSON(String, String),
    /// The provider has no data for this date.
    UnsupportedDate(Date),
    /// A key is missing from the configuration of a provider.
    MissingConf(String, String),
    /// A configured value could not be parsed: the key, the value and the
    /// parser's message.
    Parse(String, String, String),
}

/// A [`WeatherApiError`] with its texts as sequences of characters and its
/// date as a day count.
pub enum WeatherApiErrorView {
    Temperature(TemperatureError),
    HttpClient(reqwest_middleware::Error),
    Api(Seq<char>, u16),
    JSON(Seq<char>, Seq<char>),
    UnsupportedDate(int),
    MissingConf(Seq<char>, Seq<char>),
    Parse(Seq<char>, Seq<char>, Seq<char>),
}

impl View for WeatherApiError {
    type V = WeatherApiErrorView;

    open spec fn view(&self) -> WeatherApiErrorView {
        match *self {
            WeatherApiError::Temperature(e) => WeatherApiErrorView::Temperature(e),
            WeatherApiError::HttpClient(e) => WeatherApiErrorView::HttpClient(e),
            WeatherApiError::Api(message, code) => WeatherApiErrorView::Api(message@, code),
            WeatherApiError::JSON(endpoint, section) => WeatherApiErrorView::JSON(
                endpoint@,
                section@,
            ),
            WeatherApiError::UnsupportedDate(date) => WeatherApiErrorView::UnsupportedDate(date@),
            WeatherApiError::MissingConf(key, provider) => WeatherApiErrorView::MissingConf(
                key@,
                provider@,
            ),
            WeatherApiError::Parse(key, value, message) => WeatherApiErrorView::Parse(
                key@,
                value@,
                message@,
            ),
        }
    }
}

/// The view of the outcome of a request for weather.
pub open spec fn outcome_view(r: Result<Weather, WeatherApiError>) -> Result<
    WeatherView,
    WeatherApiErrorView,
> {
    match r {
        Ok(weather) => Ok(weather@),
        Err(error) => Err(error@),
    }
}

} // verus!
