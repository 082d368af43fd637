//! The OpenWeatherMap provider: which of its calls serves a date, the
//! request for each call, and the weather in each answer.

pub mod api_config;
pub mod protocol;

use vstd::prelude::*;
use vstd::string::*;
use crate::date::{day_of, is_calendar_day, Date, SECONDS_PER_DAY};
use crate::decimal::{push_signed_decimal, signed_decimal};
use crate::error::{outcome_view, ProviderError, ProviderErrorView};
use crate::models::{Temperature, TemperatureError, Weather, WeatherKind, WeatherView, MIN_KELVIN};
use crate::provider::WeatherProvider;
use crate::request::{Plan, PlanView, Request, RequestView};
use crate::utils::Endpoint;
use self::api_config::{ApiConfig, Endpoints, EndpointsView, PROVIDER_NAME};
use self::protocol::{ErrorResponse, ForecastResponse, HistoryResponse, TodayResponse};

verus! {

/// The nearest day ahead for which there is a forecast.
pub const MIN_FORECAST_DAYS: i64 = 1;

/// The farthest day ahead for which there is a forecast.
pub const MAX_FORECAST_DAYS: i64 = 16;

/// 1979-01-01 as a day count from 1970-01-01. Past weather is on record for
/// the days after it.
pub const MIN_DATE: i32 = 3_287;

/// The calls of the service.
#[derive(Debug, Clone, Copy, PartialEq, Eq, Structural)]
pub enum Call {
    /// The weather now.
    Today,
    /// The daily forecast.
    Forecast,
    /// Past weather.
    History,
}

/// The OpenWeatherMap provider: an API key and the resolved endpoints.
#[derive(Debug)]
pub struct OpenWeatherMap {
    api_key: String,
    endpoints: Endpoints,
}

/// What an [`OpenWeatherMap`] holds: the key and the endpoints.
pub struct OpenWeatherMapView {
    pub api_key: Seq<char>,
    pub endpoints: EndpointsView,
}

impl View for OpenWeatherMap {
    type V = OpenWeatherMapView;

    closed spec fn view(&self) -> OpenWeatherMapView {
        OpenWeatherMapView { api_key: self.api_key@, endpoints: self.endpoints@ }
    }
}

/// `date` is one to sixteen days after `today`.
pub open spec fn in_forecast_window(today: int, date: int) -> bool {
    MIN_FORECAST_DAYS <= date - today <= MAX_FORECAST_DAYS
}

/// `date` is before `today` and after 1979-01-01.
pub open spec fn in_history_window(today: int, date: int) -> bool {
    MIN_DATE < date < today
}

/// The call that serves a lookup on the day `today`: the current weather
/// where no date is asked for, else the forecast or past weather where the
/// date falls in their window, else none.
pub open spec fn call_for(today: int, date: Option<int>) -> Option<Call> {
    match date {
        None => Some(Call::Today),
        Some(d) => if in_forecast_window(today, d) {
            Some(Call::Forecast)
        } else if in_history_window(today, d) {
            Some(Call::History)
        } else {
            None
        },
    }
}

/// The parameters of every request: the address asked about and the key.
pub open spec fn default_query(api_key: Seq<char>, address: Seq<char>) -> Seq<
    (Seq<char>, Seq<char>),
> {
    seq![("q"@, address), ("appid"@, api_key)]
}

/// The parameters that ask for one day starting at `date`: the second at
/// which the day begins, and a count of one.
pub open spec fn day_query(date: int) -> Seq<(Seq<char>, Seq<char>)> {
    seq![("start"@, signed_decimal(date * SECONDS_PER_DAY)), ("cnt"@, "1"@)]
}

/// The request that makes `call` for `address`, and for the day `date` where
/// the call takes one.
pub open spec fn request_for(
    provider: OpenWeatherMapView,
    call: Call,
    address: Seq<char>,
    date: int,
) -> RequestView {
    match call {
        Call::Today => RequestView {
            url: provider.endpoints.weather.url,
            query: default_query(provider.api_key, address),
        },
        Call::History => RequestView {
            url: provider.endpoints.history.url,
            query: default_query(provider.api_key, address) + day_query(date),
        },
        Call::Forecast => RequestView {
            url: provider.endpoints.forecast.url,
            query: default_query(provider.api_key, address) + day_query(date),
        },
    }
}

/// The plan of a lookup made on the day `today`: the call that serves the
/// date with its request, or the refusal of the date where no call does.
pub open spec fn plan_for(
    provider: OpenWeatherMapView,
    address: Seq<char>,
    today: int,
    date: Option<int>,
) -> Result<PlanView<Call>, ProviderErrorView> {
    match date {
        None => Ok(
            PlanView { call: Call::Today, request: request_for(provider, Call::Today, address, 0) },
        ),
        Some(d) => match call_for(today, date) {
            Some(call) => Ok(PlanView { call, request: request_for(provider, call, address, d) }),
            None => Err(ProviderErrorView::UnsupportedDate(d)),
        },
    }
}

/// The view of the outcome of planning.
pub open spec fn plan_view(r: Result<Plan<Call>, ProviderError>) -> Result<
    PlanView<Call>,
    ProviderErrorView,
> {
    match r {
        Ok(plan) => Ok(plan@),
        Err(error) => Err(error@),
    }
}

/// The weather in an answer to [`Call::Today`]: the first condition and the
/// temperature. An answer without a condition is malformed.
pub open spec fn today_outcome(provider: OpenWeatherMapView, resp: TodayResponse) -> Result<
    WeatherView,
    ProviderErrorView,
> {
    if resp.weather@.len() == 0 {
        Err(ProviderErrorView::JSON(provider.endpoints.weather.url, "weather"@))
    } else if resp.main.temp < MIN_KELVIN {
        Err(ProviderErrorView::Temperature(TemperatureError::Kelvin(resp.main.temp)))
    } else {
        Ok(
            WeatherView {
                kind: WeatherKind::Current,
                temp: Temperature::Kelvin(resp.main.temp),
                condition: resp.weather@[0].main@,
            },
        )
    }
}

/// The weather in an answer to [`Call::History`]: the last entry of the
/// list, its first condition and its temperature. An answer without an
/// entry, or an entry without a condition, is malformed.
pub open spec fn history_outcome(provider: OpenWeatherMapView, resp: HistoryResponse) -> Result<
    WeatherView,
    ProviderErrorView,
> {
    if resp.list@.len() == 0 {
        Err(ProviderErrorView::JSON(provider.endpoints.history.url, "./list"@))
    } else {
        let entry = resp.list@.last();
        if entry.weather@.len() == 0 {
            Err(ProviderErrorView::JSON(provider.endpoints.history.url, "./list/[0]/weather"@))
        } else if entry.main.temp < MIN_KELVIN {
            Err(ProviderErrorView::Temperature(TemperatureError::Kelvin(entry.main.temp)))
        } else {
            Ok(
                WeatherView {
                    kind: WeatherKind::History,
                    temp: Temperature::Kelvin(entry.main.temp),
                    condition: entry.weather@[0].main@,
                },
            )
        }
    }
}

/// The weather in an answer to [`Call::Forecast`]: the last day of the
/// list, its day temperature and its first condition. An answer without a
/// day, or a day without a condition, is malformed; the temperature is
/// looked at before the condition.
pub open spec fn forecast_outcome(provider: OpenWeatherMapView, resp: ForecastResponse) -> Result<
    WeatherView,
    ProviderErrorView,
> {
    if resp.list@.len() == 0 {
        Err(ProviderErrorView::JSON(provider.endpoints.forecast.url, "./list"@))
    } else {
        let day = resp.list@.last();
        if day.temp.day < MIN_KELVIN {
            Err(ProviderErrorView::Temperature(TemperatureError::Kelvin(day.temp.day)))
        } else if day.weather@.len() == 0 {
            Err(ProviderErrorView::JSON(provider.endpoints.forecast.url, "./list/[0]/weather"@))
        } else {
            Ok(
                WeatherView {
                    kind: WeatherKind::Forecast,
                    temp: Temperature::Kelvin(day.temp.day),
                    condition: day.weather@[0].main@,
                },
            )
        }
    }
}

/// The windows do not overlap, and every date falls to exactly one outcome:
/// the forecast, past weather, or none. A date that is given never leads to
/// the current weather.
pub proof fn lemma_routing_is_a_partition(today: int, date: int)
    ensures
        !(in_forecast_window(today, date) && in_history_window(today, date)),
        call_for(today, Some(date)) == Some(Call::Forecast) <==> in_forecast_window(today, date),
        call_for(today, Some(date)) == Some(Call::History) <==> in_history_window(today, date),
        call_for(today, Some(date)) is None <==> !in_forecast_window(today, date)
            && !in_history_window(today, date),
        call_for(today, Some(date)) != Some(Call::Today),
        call_for(today, None) == Some(Call::Today),
{
}

/// Which call serves a lookup made on the day `today`.
pub fn route(today: Date, date: Option<Date>) -> (r: Result<Call, ProviderError>)
    ensures
        match date {
            None => r == Ok::<Call, ProviderError>(Call::Today),
            Some(d) => match call_for(today@, Some(d@)) {
                Some(call) => r == Ok::<Call, ProviderError>(call),
                None => r is Err && r->Err_0@ == ProviderErrorView::UnsupportedDate(d@),
            },
        },
{
    match date {
        None => Ok(Call::Today),
        Some(date) => {
            let diff_days = date.days_since(&today);
            if MIN_FORECAST_DAYS <= diff_days && diff_days <= MAX_FORECAST_DAYS {
                Ok(Call::Forecast)
            } else if date.to_epoch_days() < today.to_epoch_days() && date.to_epoch_days()
                > MIN_DATE {
                Ok(Call::History)
            } else {
                Err(ProviderError::UnsupportedDate(date))
            }
        },
    }
}

/// The error for an empty section of an answer from `endpoint`.
fn json_error(endpoint: &Endpoint, path: &str) -> (e: ProviderError)
    ensures
        e@ == ProviderErrorView::JSON(endpoint.url@, path@),
{
    ProviderError::JSON(endpoint.url.clone(), path.to_owned())
}

/// Reads what the transport made of an answer: the body read as `T` after a
/// status of success, the body read as an error after any other status, or
/// the failure to read it.
pub fn parse<T>(decoded: Result<Result<T, ErrorResponse>, reqwest::Error>) -> (r: Result<
    T,
    ProviderError,
>)
    ensures
        match decoded {
            Ok(Ok(body)) => r == Ok::<T, ProviderError>(body),
            Ok(Err(e)) => r is Err && r->Err_0@ == ProviderErrorView::Api(
                e.message@,
                e.cod as u16,
            ),
            Err(e) => r is Err && r->Err_0@ == ProviderErrorView::HttpClient(e),
        },
{
    match decoded {
        Ok(Ok(body)) => Ok(body),
        Ok(Err(e)) => Err(ProviderError::Api(e.message, #[verifier::truncate] (e.cod as u16))),
        Err(e) => Err(ProviderError::HttpClient(e)),
    }
}

impl OpenWeatherMap {
    /// The provider that a configuration section describes. The key must
    /// be there and the addresses must parse.
    pub fn new(api_conf: ApiConfig) -> (r: Result<OpenWeatherMap, ProviderError>)
        requires
            api_conf.fits(),
        ensures
            match r {
                Ok(provider) => api_conf.api_key is Some && provider@.api_key
                    == api_conf.api_key->Some_0@ && api_conf.endpoints() == Ok::<
                    EndpointsView,
                    ProviderErrorView,
                >(provider@.endpoints),
                Err(error) => if api_conf.api_key is None {
                    error@ == ProviderErrorView::MissingConf("apiKey"@, PROVIDER_NAME@)
                } else {
                    api_conf.endpoints() == Err::<EndpointsView, ProviderErrorView>(error@)
                },
            },
    {
        let api_key = match &api_conf.api_key {
            Some(key) => key.clone(),
            None => {
                return Err(
                    ProviderError::MissingConf("apiKey".to_owned(), PROVIDER_NAME.to_owned()),
                );
            },
        };
        let endpoints = Endpoints::try_from(api_conf)?;
        Ok(OpenWeatherMap { api_key, endpoints })
    }

    /// The request that every call starts from: the endpoint's address, the
    /// address asked about and the key.
    fn default_request_builder(&self, endpoint: &Endpoint, address: &str) -> (request: Request)
        ensures
            request@ == (RequestView {
                url: endpoint.url@,
                query: default_query(self.api_key@, address@),
            }),
    {
        let mut request = Request::new(endpoint.url.clone());
        request.param("q", address);
        request.param("appid", self.api_key.as_str());
        assert(request@.query =~= default_query(self.api_key@, address@));
        request
    }

    /// The request for one day starting at `date`, to `endpoint`.
    fn day_request(&self, endpoint: &Endpoint, address: &str, date: Date) -> (request: Request)
        ensures
            request@ == (RequestView {
                url: endpoint.url@,
                query: default_query(self.api_key@, address@) + day_query(date@),
            }),
    {
        let ts = date.timestamp();
        let mut start = String::new();
        push_signed_decimal(&mut start, ts as i128);
        let mut request = self.default_request_builder(endpoint, address);
        request.param("start", start.as_str());
        request.param("cnt", "1");
        assert(start@ =~= signed_decimal(date@ * SECONDS_PER_DAY));
        assert(request@.query =~= default_query(self.api_key@, address@) + day_query(date@));
        request
    }

    /// The call and the request that serve a lookup made on the day `today`.
    pub fn plan(&self, address: &str, today: Date, date: Option<Date>) -> (r: Result<
        Plan<Call>,
        ProviderError,
    >)
        ensures
            plan_view(r) == plan_for(self@, address@, today@, day_of(date)),
    {
        let call = route(today, date)?;
        let request = match (call, date) {
            (Call::Forecast, Some(date)) => self.day_request(
                &self.endpoints.forecast,
                address,
                date,
            ),
            (Call::History, Some(date)) => self.day_request(
                &self.endpoints.history,
                address,
                date,
            ),
            _ => self.default_request_builder(&self.endpoints.weather, address),
        };
        Ok(Plan { call, request })
    }

    /// The call and the request that serve a lookup made now: [`Self::plan`]
    /// with today's date by the system clock, in UTC.
    pub fn get_weather(&self, address: &str, date: Option<Date>) -> (r: Result<
        Plan<Call>,
        ProviderError,
    >)
        ensures
            exists|today: int|
                is_calendar_day(today) && plan_view(r) == plan_for(
                    self@,
                    address@,
                    today,
                    day_of(date),
                ),
    {
        let today = Date::today();
        let day = today.to_epoch_days();
        let r = self.plan(address, today, date);
        assert(is_calendar_day(day as int) && plan_view(r) == plan_for(
            self@,
            address@,
            day as int,
            day_of(date),
        ));
        r
    }

    /// The current weather in an answer to [`Call::Today`].
    pub fn today(&self, resp: TodayResponse) -> (r: Result<Weather, ProviderError>)
        ensures
            outcome_view(r) == today_outcome(self@, resp),
    {
        let TodayResponse { weather, main, .. } = resp;
        let mut conditions = weather;
        if conditions.len() == 0 {
            return Err(json_error(&self.endpoints.weather, "weather"));
        }
        let first = conditions.remove(0);
        let temp = match Temperature::from_k(main.temp) {
            Ok(temp) => temp,
            Err(e) => {
                return Err(ProviderError::Temperature(e));
            },
        };
        Ok(Weather::current(temp, first.main))
    }

    /// The past weather in an answer to [`Call::History`].
    pub fn history(&self, resp: HistoryResponse) -> (r: Result<Weather, ProviderError>)
        ensures
            outcome_view(r) == history_outcome(self@, resp),
    {
        let mut list = resp.list;
        let entry = match list.pop() {
            Some(entry) => entry,
            None => {
                return Err(json_error(&self.endpoints.history, "./list"));
            },
        };
        let mut conditions = entry.weather;
        if conditions.len() == 0 {
            return Err(json_error(&self.endpoints.history, "./list/[0]/weather"));
        }
        let first = conditions.remove(0);
        let temp = match Temperature::from_k(entry.main.temp) {
            Ok(temp) => temp,
            Err(e) => {
                return Err(ProviderError::Temperature(e));
            },
        };
        Ok(Weather::history(temp, first.main))
    }

    /// The forecast in an answer to [`Call::Forecast`].
    pub fn forecast(&self, resp: ForecastResponse) -> (r: Result<Weather, ProviderError>)
        ensures
            outcome_view(r) == forecast_outcome(self@, resp),
    {
        let mut list = resp.list;
        let day = match list.pop() {
            Some(day) => day,
            None => {
                return Err(json_error(&self.endpoints.forecast, "./list"));
            },
        };
        let temp = match Temperature::from_k(day.temp.day) {
            Ok(temp) => temp,
            Err(e) => {
                return Err(ProviderError::Temperature(e));
            },
        };
        let mut conditions = day.weather;
        if conditions.len() == 0 {
            return Err(json_error(&self.endpoints.forecast, "./list/[0]/weather"));
        }
        let first = conditions.remove(0);
        Ok(Weather::forecast(temp, first.main))
    }
}

impl WeatherProvider for OpenWeatherMap {
    type Call = Call;

    type Error = ProviderError;

    open spec fn current() -> Call {
        Call::Today
    }

    fn get_weather(&self, address: &str, date: Option<Date>) -> (r: Result<
        Plan<Call>,
        ProviderError,
    >) {
        OpenWeatherMap::get_weather(self, address, date)
    }
}

} // verus!
