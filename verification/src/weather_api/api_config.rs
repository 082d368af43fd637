//! Configuration of the WeatherAPI provider and the endpoints that follow
//! from it.

use vstd::prelude::*;
use vstd::string::*;
use crate::utils::{
    build_endpoint, endpoint_at, setting_name, setting_path, url_parse_error, BaseUrl, Endpoint,
    EndpointView, MAX_URL_PART,
};
use crate::weather_api::error::{WeatherApiError, WeatherApiErrorView};

verus! {

/// The name of the provider, which is also the name of its section in the
/// configuration.
pub const PROVIDER_NAME: &'static str = "weather-api";

/// The address of the service where the configuration names none.
pub fn base_url() -> (s: String)
    ensures
        s@ == "http://api.weatherapi.com"@,
{
    "http://api.weatherapi.com".to_owned()
}

/// The path of the current weather where the configuration names none.
pub fn current_path() -> (s: String)
    ensures
        s@ == "/v1/current.json"@,
{
    "/v1/current.json".to_owned()
}

/// The path of past weather where the configuration names none.
pub fn history_path() -> (s: String)
    ensures
        s@ == "/v1/history.json"@,
{
    "/v1/history.json".to_owned()
}

/// The path of the forecast where the configuration names none.
pub fn forecast_path() -> (s: String)
    ensures
        s@ == "/v1/forecast.json"@,
{
    "/v1/forecast.json".to_owned()
}

/// The path of the long-range forecast where the configuration names none.
pub fn future_path() -> (s: String)
    ensures
        s@ == "/v1/future.json"@,
{
    "/v1/future.json".to_owned()
}

/// The provider's section of the configuration.
#[derive(Debug)]
pub struct ApiConfig {
    pub api_key: Option<String>,
    pub base_url: String,
    pub current_path: String,
    pub history_path: String,
    pub forecast_path: String,
    pub future_path: String,
}

/// The resolved addresses of the four calls.
#[derive(Debug)]
pub struct Endpoints {
    pub current: Endpoint,
    pub history: Endpoint,
    pub forecast: Endpoint,
    pub future: Endpoint,
}

/// The four endpoints as sequences of characters: of each the address and
/// its path.
pub struct EndpointsView {
    pub current: EndpointView,
    pub history: EndpointView,
    pub forecast: EndpointView,
    pub future: EndpointView,
}

impl View for Endpoints {
    type V = EndpointsView;

    open spec fn view(&self) -> EndpointsView {
        EndpointsView {
            current: self.current@,
            history: self.history@,
            forecast: self.forecast@,
            future: self.future@,
        }
    }
}

impl ApiConfig {
    /// No address or path is longer than an endpoint can take.
    pub open spec fn fits(&self) -> bool {
        &&& self.base_url@.len() <= MAX_URL_PART
        &&& self.current_path@.len() <= MAX_URL_PART
        &&& self.history_path@.len() <= MAX_URL_PART
        &&& self.forecast_path@.len() <= MAX_URL_PART
        &&& self.future_path@.len() <= MAX_URL_PART
    }

    /// The endpoints that the section describes, or the error that says
    /// that the base address does not parse.
    pub open spec fn endpoints(&self) -> Result<EndpointsView, WeatherApiErrorView> {
        match url_parse_error(self.base_url@) {
            Some(message) => Err(
                WeatherApiErrorView::Parse(
                    setting_path(PROVIDER_NAME@, "baseUrl"@),
                    self.base_url@,
                    message,
                ),
            ),
            None => Ok(
                EndpointsView {
                    current: endpoint_at(self.base_url@, self.current_path@),
                    history: endpoint_at(self.base_url@, self.history_path@),
                    forecast: endpoint_at(self.base_url@, self.forecast_path@),
                    future: endpoint_at(self.base_url@, self.future_path@),
                },
            ),
        }
    }
}

impl Endpoints {
    /// Resolves the endpoints of a configuration section whose addresses and
    /// paths are at most [`MAX_URL_PART`] characters long.
    pub fn try_from(value: ApiConfig) -> (r: Result<Endpoints, WeatherApiError>)
        requires
            value.fits(),
        ensures
            match r {
                Ok(e) => value.endpoints() == Ok::<EndpointsView, WeatherApiErrorView>(e@),
                Err(error) => value.endpoints() == Err::<EndpointsView, WeatherApiErrorView>(
                    error@,
                ),
            },
    {
        let base_url = match BaseUrl::parse(value.base_url.as_str()) {
            Ok(base) => base,
            Err(message) => {
                return Err(
                    WeatherApiError::Parse(
                        setting_name(PROVIDER_NAME, "baseUrl"),
                        value.base_url.clone(),
                        message,
                    ),
                );
            },
        };
        Ok(
            Endpoints {
                current: build_endpoint(&base_url, value.current_path.as_str()),
                history: build_endpoint(&base_url, value.history_path.as_str()),
                forecast: build_endpoint(&base_url, value.forecast_path.as_str()),
                future: build_endpoint(&base_url, value.future_path.as_str()),
            },
        )
    }
}

} // verus!
