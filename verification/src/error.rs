//! Errors of the providers and of the registry.

use vstd::prelude::*;
use crate::date::Date;
use crate::models::{TemperatureError, Weather, WeatherView};

verus! {

/// `reqwest::Error`, the error of the HTTP client. The library carries it
/// from the transport to the caller and looks at nothing in it.
#[verifier::external_type_specification]
#[verifier::external_body]
pub struct ExReqwestError(reqwest::Error);

/// What can go wrong between a request for weather and its answer.
#[derive(Debug)]
pub enum ProviderError {
    /// The exchange with the service failed, or its body could not be read.
    HttpClient(reqwest::Error),
    /// The service answered with an error: its message and its code.
    Api(String, u16),
    /// The service answered with success, but the named section of the
    /// answer from the named endpoint is empty.
    JSON(String, String),
    /// The service reported a temperature below absolute zero.
    Temperature(TemperatureError),
    /// The provider has no data for this date.
    UnsupportedDate(Date),
    /// A configured value could not be parsed: the key, the value and the
    /// parser's message.
    Parse(String, String, String),
    /// A key is missing from the configuration of a provider.
    MissingConf(String, String),
}

/// A [`ProviderError`] with its texts as sequences of characters and its
/// date as a day count.
pub enum ProviderErrorView {
    HttpClient(reqwest::Error),
    Api(Seq<char>, u16),
    JSON(Seq<char>, Seq<char>),
    Temperature(TemperatureError),
    UnsupportedDate(int),
    Parse(Seq<char>, Seq<char>, Seq<char>),
    MissingConf(Seq<char>, Seq<char>),
}

impl View for ProviderError {
    type V = ProviderErrorView;

    open spec fn view(&self) -> ProviderErrorView {
        match *self {
            ProviderError::HttpClient(e) => ProviderErrorView::HttpClient(e),
            ProviderError::Api(message, code) => ProviderErrorView::Api(message@, code),
            ProviderError::JSON(endpoint, section) => ProviderErrorView::JSON(endpoint@, section@),
            ProviderError::Temperature(e) => ProviderErrorView::Temperature(e),
            ProviderError::UnsupportedDate(date) => ProviderErrorView::UnsupportedDate(date@),
            ProviderError::Parse(key, value, message) => ProviderErrorView::Parse(
                key@,
                value@,
                message@,
            ),
            ProviderError::MissingConf(key, provider) => ProviderErrorView::MissingConf(
                key@,
                provider@,
            ),
        }
    }
}

/// The view of the outcome of a request for weather.
pub open spec fn outcome_view(r: Result<Weather, ProviderError>) -> Result<
    WeatherView,
    ProviderErrorView,
> {
    match r {
        Ok(weather) => Ok(weather@),
        Err(error) => Err(error@),
    }
}

/// Errors of the provider registry.
#[derive(Debug)]
pub enum ManagerError<E> {
    /// The builder of the named provider failed.
    Build(String, E),
    /// No provider is registered under the name.
    NotSupport(String),
}

} // verus!
