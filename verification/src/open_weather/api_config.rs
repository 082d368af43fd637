//! Configuration of the OpenWeatherMap provider and the endpoints that follow
//! from it.

use vstd::prelude::*;
use vstd::string::*;
use crate::error::{ProviderError, ProviderErrorView};
use crate::utils::{
    build_endpoint, endpoint_at, setting_name, setting_path, url_parse_error, BaseUrl, Endpoint,
    EndpointView, MAX_URL_PART,
};

verus! {

/// The name of the provider, which is also the name of its section in the
/// configuration.
pub const PROVIDER_NAME: &'static str = "open-weather";

/// The address of the service where the configuration names none.
pub fn base_url() -> (s: String)
    ensures
        s@ == "https://api.openweathermap.org"@,
{
    "https://api.openweathermap.org".to_owned()
}

/// The address of the history service where the configuration names none.
pub fn history_base_url() -> (s: String)
    ensures
        s@ == "https://history.api.openweathermap.org"@,
{
    "https://history.api.openweathermap.org".to_owned()
}

/// The path of the current weather where the configuration names none.
pub fn weather_path() -> (s: String)
    ensures
        s@ == "/data/2.5/weather"@,
{
    "/data/2.5/weather".to_owned()
}

/// The path of past weather where the configuration names none.
pub fn history_path() -> (s: String)
    ensures
        s@ == "/data/2.5/history/city"@,
{
    "/data/2.5/history/city".to_owned()
}

/// The path of the daily forecast where the configuration names none.
pub fn forecast_path() -> (s: String)
    ensures
        s@ == "/data/2.5/forecast/daily"@,
{
    "/data/2.5/forecast/daily".to_owned()
}

/// The provider's section of the configuration.
#[derive(Debug)]
pub struct ApiConfig {
    pub api_key: Option<String>,
    pub base_url: String,
    pub history_base_url: String,
    pub weather_path: String,
    pub history_path: String,
    pub forecast_path: String,
}

/// The resolved addresses of the three calls.
#[derive(Debug)]
pub struct Endpoints {
    pub weather: Endpoint,
    pub history: Endpoint,
    pub forecast: Endpoint,
}

/// The three endpoints as sequences of characters: of each the address and
/// its path.
pub struct EndpointsView {
    pub weather: EndpointView,
    pub history: EndpointView,
    pub forecast: EndpointView,
}

impl View for Endpoints {
    type V = EndpointsView;

    open spec fn view(&self) -> EndpointsView {
        EndpointsView { weather: self.weather@, history: self.history@, forecast: self.forecast@ }
    }
}

impl ApiConfig {
    /// No address or path is longer than an endpoint can take.
    pub open spec fn fits(&self) -> bool {
        &&& self.base_url@.len() <= MAX_URL_PART
        &&& self.history_base_url@.len() <= MAX_URL_PART
        &&& self.weather_path@.len() <= MAX_URL_PART
        &&& self.history_path@.len() <= MAX_URL_PART
        &&& self.forecast_path@.len() <= MAX_URL_PART
    }

    /// The endpoints that the section describes, or the error that says
    /// which address does not parse. An error in the history address is
    /// reported with the value of the base address.
    pub open spec fn endpoints(&self) -> Result<EndpointsView, ProviderErrorView> {
        match url_parse_error(self.base_url@) {
            Some(message) => Err(
                ProviderErrorView::Parse(
                    setting_path(PROVIDER_NAME@, "baseUrl"@),
                    self.base_url@,
                    message,
                ),
            ),
            None => match url_parse_error(self.history_base_url@) {
                Some(message) => Err(
                    ProviderErrorView::Parse(
                        setting_path(PROVIDER_NAME@, "historyBaseUrl"@),
                        self.base_url@,
                        message,
                    ),
                ),
                None => Ok(
                    EndpointsView {
                        weather: endpoint_at(self.base_url@, self.weather_path@),
                        history: endpoint_at(self.history_base_url@, self.history_path@),
                        forecast: endpoint_at(self.base_url@, self.forecast_path@),
                    },
                ),
            },
        }
    }
}

impl Endpoints {
    /// Resolves the endpoints of a configuration section whose addresses and
    /// paths are at most [`MAX_URL_PART`] characters long.
    pub fn try_from(value: ApiConfig) -> (r: Result<Endpoints, ProviderError>)
        requires
            value.fits(),
        ensures
            match r {
                Ok(e) => value.endpoints() == Ok::<EndpointsView, ProviderErrorView>(e@),
                Err(error) => value.endpoints() == Err::<EndpointsView, ProviderErrorView>(error@),
            },
    {
        let base_url = match BaseUrl::parse(value.base_url.as_str()) {
            Ok(base) => base,
            Err(message) => {
                return Err(
                    ProviderError::Parse(
                        setting_name(PROVIDER_NAME, "baseUrl"),
                        value.base_url.clone(),
                        message,
                    ),
                );
            },
        };
        let history_base_url = match BaseUrl::parse(value.history_base_url.as_str()) {
            Ok(base) => base,
            Err(message) => {
                return Err(
                    ProviderError::Parse(
                        setting_name(PROVIDER_NAME, "historyBaseUrl"),
                        value.base_url.clone(),
                        message,
                    ),
                );
            },
        };
        Ok(
            Endpoints {
                weather: build_endpoint(&base_url, value.weather_path.as_str()),
                history: build_endpoint(&history_base_url, value.history_path.as_str()),
                forecast: build_endpoint(&base_url, value.forecast_path.as_str()),
            },
        )
    }
}

} // verus!
