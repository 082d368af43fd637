//! Construction of the WeatherAPI provider from its configuration.

use vstd::prelude::*;
use vstd::string::*;
use crate::weather_api::api_config::{ApiConfig, Endpoints, EndpointsView, PROVIDER_NAME};
use crate::weather_api::error::{WeatherApiError, WeatherApiErrorView};
use crate::weather_api::WeatherApi;

verus! {

/// Builds [`WeatherApi`] providers.
#[derive(Debug)]
pub struct WeatherApiBuilder;

impl WeatherApiBuilder {
    /// The provider that a configuration section describes. The key must
    /// be there and the base address must parse.
    pub fn build(api_conf: ApiConfig) -> (r: Result<WeatherApi, WeatherApiError>)
        requires
            api_conf.fits(),
        ensures
            match r {
                Ok(provider) => api_conf.api_key is Some && provider@.api_key
                    == api_conf.api_key->Some_0@ && api_conf.endpoints() == Ok::<
                    EndpointsView,
                    WeatherApiErrorView,
                >(provider@.endpoints),
                Err(error) => if api_conf.api_key is None {
                    error@ == WeatherApiErrorView::MissingConf("apiKey"@, PROVIDER_NAME@)
                } else {
                    api_conf.endpoints() == Err::<EndpointsView, WeatherApiErrorView>(error@)
                },
            },
    {
        let api_key = match &api_conf.api_key {
            Some(key) => key.clone(),
            None => {
                return Err(
                    WeatherApiError::MissingConf("apiKey".to_owned(), PROVIDER_NAME.to_owned()),
                );
            },
        };
        let endpoints = Endpoints::try_from(api_conf)?;
        Ok(WeatherApi::new(api_key, endpoints))
    }
}

} // verus!
