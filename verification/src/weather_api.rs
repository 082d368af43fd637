//! The WeatherAPI provider: which of its calls serves a date, the request
//! for each call, and the weather in each answer.

pub mod api_config;
pub mod builder;
pub mod error;
pub mod protocol;

use vstd::prelude::*;
use vstd::string::*;
use crate::date::{day_of, is_calendar_day, iso_date, Date};
use crate::decimal::{push_signed_decimal, signed_decimal};
use crate::models::{Temperature, TemperatureError, Weather, WeatherKind, WeatherView, MIN_CELSIUS};
use crate::provider::WeatherProvider;
use crate::request::{Plan, PlanView, Request, RequestView};
use crate::utils::Endpoint;
use self::api_config::{Endpoints, EndpointsView};
use self::error::{outcome_view, WeatherApiError, WeatherApiErrorView};
use self::protocol::{
    CurrentResponse, ErrorResponse, Forecast, ForecastResponse, FutureResponse, HistoryResponse,
};

verus! {

/// The nearest day ahead for which there is a forecast.
pub const MIN_FORECAST_DAYS: i64 = 1;

/// The farthest day ahead for which there is a forecast.
pub const MAX_FORECAST_DAYS: i64 = 14;

/// The nearest day ahead for which there is a long-range forecast.
pub const MIN_FUTURE_DAYS: i64 = 15;

/// The farthest day ahead for which there is a long-range forecast.
pub const MAX_FUTURE_DAYS: i64 = 300;

/// 2010-01-01 as a day count from 1970-01-01. Past weather is on record for
/// the days after it.
pub const MIN_DATE: i32 = 14_610;

/// The calls of the service.
#[derive(Debug, Clone, Copy, PartialEq, Eq, Structural)]
pub enum Call {
    /// The weather now.
    Current,
    /// The forecast for the days ahead.
    Forecast,
    /// The long-range forecast.
    Future,
    /// Past weather.
    History,
}

/// The WeatherAPI provider: an API key and the resolved endpoints.
#[derive(Debug)]
pub struct WeatherApi {
    api_key: String,
    endpoints: Endpoints,
}

/// What a [`WeatherApi`] holds: the key and the endpoints.
pub struct WeatherApiView {
    pub api_key: Seq<char>,
    pub endpoints: EndpointsView,
}

impl View for WeatherApi {
    type V = WeatherApiView;

    closed spec fn view(&self) -> WeatherApiView {
        WeatherApiView { api_key: self.api_key@, endpoints: self.endpoints@ }
    }
}

/// `date` is `today`.
pub open spec fn is_today(today: int, date: int) -> bool {
    date == today
}

/// `date` is one to fourteen days after `today`.
pub open spec fn in_forecast_window(today: int, date: int) -> bool {
    MIN_FORECAST_DAYS <= date - today <= MAX_FORECAST_DAYS
}

/// `date` is fifteen to three hundred days after `today`.
pub open spec fn in_future_window(today: int, date: int) -> bool {
    MIN_FUTURE_DAYS <= date - today <= MAX_FUTURE_DAYS
}

/// `date` is before `today` and after 2010-01-01.
pub open spec fn in_history_window(today: int, date: int) -> bool {
    MIN_DATE < date < today
}

/// The call that serves a lookup on the day `today`: the current weather
/// where no date or today's is asked for, else the call in whose window the
/// date falls, else none.
pub open spec fn call_for(today: int, date: Option<int>) -> Option<Call> {
    match date {
        None => Some(Call::Current),
        Some(d) => if is_today(today, d) {
            Some(Call::Current)
        } else if in_forecast_window(today, d) {
            Some(Call::Forecast)
        } else if in_future_window(today, d) {
            Some(Call::Future)
        } else if in_history_window(today, d) {
            Some(Call::History)
        } else {
            None
        },
    }
}

/// The parameters of every request: the address asked about and the key.
pub open spec fn default_query(api_key: Seq<char>, address: Seq<char>) -> Seq<
    (Seq<char>, Seq<char>),
> {
    seq![("q"@, address), ("key"@, api_key)]
}

/// The parameter that names a date.
pub open spec fn date_query(date: int) -> Seq<(Seq<char>, Seq<char>)> {
    seq![("dt"@, iso_date(date))]
}

/// The parameters of a forecast that reaches `days` days ahead, without
/// air quality and alerts.
pub open spec fn forecast_query(days: int) -> Seq<(Seq<char>, Seq<char>)> {
    seq![("days"@, signed_decimal(days)), ("aqi"@, "no"@), ("alerts"@, "no"@)]
}

/// The request that makes `call` for `address` on the day `today`, and for
/// the day `date` where the call takes one.
pub open spec fn request_for(
    provider: WeatherApiView,
    call: Call,
    address: Seq<char>,
    today: int,
    date: int,
) -> RequestView {
    match call {
        Call::Current => RequestView {
            url: provider.endpoints.current.url,
            query: default_query(provider.api_key, address),
        },
        Call::Forecast => RequestView {
            url: provider.endpoints.forecast.url,
            query: default_query(provider.api_key, address) + forecast_query(date - today),
        },
        Call::Future => RequestView {
            url: provider.endpoints.future.url,
            query: default_query(provider.api_key, address) + date_query(date),
        },
        Call::History => RequestView {
            url: provider.endpoints.history.url,
            query: default_query(provider.api_key, address) + date_query(date),
        },
    }
}

/// The plan of a lookup made on the day `today`: the call that serves the
/// date with its request, or the refusal of the date where no call does.
pub open spec fn plan_for(
    provider: WeatherApiView,
    address: Seq<char>,
    today: int,
    date: Option<int>,
) -> Result<PlanView<Call>, WeatherApiErrorView> {
    match date {
        None => Ok(
            PlanView {
                call: Call::Current,
                request: request_for(provider, Call::Current, address, today, today),
            },
        ),
        Some(d) => match call_for(today, date) {
            Some(call) => Ok(
                PlanView { call, request: request_for(provider, call, address, today, d) },
            ),
            None => Err(WeatherApiErrorView::UnsupportedDate(d)),
        },
    }
}

/// The view of the outcome of planning.
pub open spec fn plan_view(r: Result<Plan<Call>, WeatherApiError>) -> Result<
    PlanView<Call>,
    WeatherApiErrorView,
> {
    match r {
        Ok(plan) => Ok(plan@),
        Err(error) => Err(error@),
    }
}

/// The weather in an answer to [`Call::Current`].
pub open spec fn current_outcome(resp: CurrentResponse) -> Result<
    WeatherView,
    WeatherApiErrorView,
> {
    if resp.current.temp_c < MIN_CELSIUS {
        Err(WeatherApiErrorView::Temperature(TemperatureError::Celsius(resp.current.temp_c)))
    } else {
        Ok(
            WeatherView {
                kind: WeatherKind::Current,
                temp: Temperature::Celsius(resp.current.temp_c),
                condition: resp.current.condition.text@,
            },
        )
    }
}

/// The weather of the first day of a list, reported as `kind`. A list
/// without a day is malformed; `path` names the endpoint it came from.
pub open spec fn first_day_outcome(path: Seq<char>, kind: WeatherKind, forecast: Forecast) -> Result<
    WeatherView,
    WeatherApiErrorView,
> {
    if forecast.forecastday@.len() == 0 {
        Err(WeatherApiErrorView::JSON(path, "./forecast.forecastday"@))
    } else {
        let day = forecast.forecastday@[0].day;
        if day.avgtemp_c < MIN_CELSIUS {
            Err(WeatherApiErrorView::Temperature(TemperatureError::Celsius(day.avgtemp_c)))
        } else {
            Ok(
                WeatherView {
                    kind,
                    temp: Temperature::Celsius(day.avgtemp_c),
                    condition: day.condition.text@,
                },
            )
        }
    }
}

/// No two windows overlap, and every date falls to exactly one outcome: the
/// current weather, the forecast, the long-range forecast, past weather, or
/// none.
pub proof fn lemma_routing_is_a_partition(today: int, date: int)
    ensures
        !(is_today(today, date) && in_forecast_window(today, date)),
        !(is_today(today, date) && in_future_window(today, date)),
        !(is_today(today, date) && in_history_window(today, date)),
        !(in_forecast_window(today, date) && in_future_window(today, date)),
        !(in_forecast_window(today, date) && in_history_window(today, date)),
        !(in_future_window(today, date) && in_history_window(today, date)),
        call_for(today, Some(date)) == Some(Call::Current) <==> is_today(today, date),
        call_for(today, Some(date)) == Some(Call::Forecast) <==> in_forecast_window(today, date),
        call_for(today, Some(date)) == Some(Call::Future) <==> in_future_window(today, date),
        call_for(today, Some(date)) == Some(Call::History) <==> in_history_window(today, date),
        call_for(today, Some(date)) is None <==> !is_today(today, date) && !in_forecast_window(
            today,
            date,
        ) && !in_future_window(today, date) && !in_history_window(today, date),
        call_for(today, None) == Some(Call::Current),
{
}

/// Which call serves a lookup made on the day `today`.
pub fn route(today: Date, date: Option<Date>) -> (r: Result<Call, WeatherApiError>)
    ensures
        match date {
            None => r == Ok::<Call, WeatherApiError>(Call::Current),
            Some(d) => match call_for(today@, Some(d@)) {
                Some(call) => r == Ok::<Call, WeatherApiError>(call),
                None => r is Err && r->Err_0@ == WeatherApiErrorView::UnsupportedDate(d@),
            },
        },
{
    match date {
        None => Ok(Call::Current),
        Some(date) => {
            let dif_days = date.days_since(&today);
            if dif_days == 0 {
                Ok(Call::Current)
            } else if MIN_FORECAST_DAYS <= dif_days && dif_days <= MAX_FORECAST_DAYS {
                Ok(Call::Forecast)
            } else if MIN_FUTURE_DAYS <= dif_days && dif_days <= MAX_FUTURE_DAYS {
                Ok(Call::Future)
            } else if date.to_epoch_days() < today.to_epoch_days() && date.to_epoch_days()
                > MIN_DATE {
                Ok(Call::History)
            } else {
                Err(WeatherApiError::UnsupportedDate(date))
            }
        },
    }
}

/// Wraps the error of the HTTP client as `reqwest_middleware::Error::Reqwest`
/// does. The contract claims nothing of the result.
#[verifier::external_body]
fn middleware_error(e: reqwest::Error) -> reqwest_middleware::Error {
    reqwest_middleware::Error::Reqwest(e)
}

/// Reads what the transport made of an answer: the body read as `T` after a
/// status of success, the body read as an error after any other status, or
/// the failure to read it.
pub fn parse<T>(decoded: Result<Result<T, ErrorResponse>, reqwest::Error>) -> (r: Result<
    T,
    WeatherApiError,
>)
    ensures
        match decoded {
            Ok(Ok(body)) => r == Ok::<T, WeatherApiError>(body),
            Ok(Err(e)) => r is Err && r->Err_0@ == WeatherApiErrorView::Api(
                e.error.message@,
                e.error.code as u16,
            ),
            Err(_) => r is Err && r->Err_0 is HttpClient,
        },
{
    match decoded {
        Ok(Ok(body)) => Ok(body),
        Ok(Err(e)) => Err(
            WeatherApiError::Api(e.error.message, #[verifier::truncate] (e.error.code as u16)),
        ),
        Err(e) => Err(WeatherApiError::HttpClient(middleware_error(e))),
    }
}

/// The weather of the first day of `forecast`, reported as `kind`.
fn first_day(endpoint: &Endpoint, kind: WeatherKind, forecast: Forecast) -> (r: Result<
    Weather,
    WeatherApiError,
>)
    ensures
        outcome_view(r) == first_day_outcome(endpoint.path@, kind, forecast),
{
    let mut days = forecast.forecastday;
    if days.len() == 0 {
        return Err(
            WeatherApiError::JSON(endpoint.path.clone(), "./forecast.forecastday".to_owned()),
        );
    }
    let first = days.remove(0);
    let temp = match Temperature::from_c(first.day.avgtemp_c) {
        Ok(temp) => temp,
        Err(e) => {
            return Err(WeatherApiError::Temperature(e));
        },
    };
    Ok(Weather { kind, temp, condition: first.day.condition.text })
}

impl WeatherApi {
    /// A provider with the given key and endpoints.
    pub(crate) fn new(api_key: String, endpoints: Endpoints) -> (provider: WeatherApi)
        ensures
            provider@ == (WeatherApiView { api_key: api_key@, endpoints: endpoints@ }),
    {
        WeatherApi { api_key, endpoints }
    }

    /// The request that every call starts from: the endpoint's address, the
    /// address asked about and the key.
    fn default_request_builder(&self, endpoint: &Endpoint, address: &str) -> (request: Request)
        ensures
            request@ == (RequestView {
                url: endpoint.url@,
                query: default_query(self.api_key@, address@),
            }),
    {
        let mut request = Request::new(endpoint.url.clone());
        request.param("q", address);
        request.param("key", self.api_key.as_str());
        assert(request@.query =~= default_query(self.api_key@, address@));
        request
    }

    /// The request to `endpoint` about the day `date`.
    fn date_request(&self, endpoint: &Endpoint, address: &str, date: Date) -> (request: Request)
        ensures
            request@ == (RequestView {
                url: endpoint.url@,
                query: default_query(self.api_key@, address@) + date_query(date@),
            }),
    {
        let dt = date.to_iso();
        let mut request = self.default_request_builder(endpoint, address);
        request.param("dt", dt.as_str());
        assert(request@.query =~= default_query(self.api_key@, address@) + date_query(date@));
        request
    }

    /// The request for a forecast that reaches `day` days ahead.
    fn forecast_request(&self, address: &str, day: i64) -> (request: Request)
        ensures
            request@ == (RequestView {
                url: self.endpoints.forecast.url@,
                query: default_query(self.api_key@, address@) + forecast_query(day as int),
            }),
    {
        let mut days = String::new();
        push_signed_decimal(&mut days, day as i128);
        let mut request = self.default_request_builder(&self.endpoints.forecast, address);
        request.param("days", days.as_str());
        request.param("aqi", "no");
        request.param("alerts", "no");
        assert(days@ =~= signed_decimal(day as int));
        assert(request@.query =~= default_query(self.api_key@, address@) + forecast_query(
            day as int,
        ));
        request
    }

    /// The call and the request that serve a lookup made on the day `today`.
    pub fn plan(&self, address: &str, today: Date, date: Option<Date>) -> (r: Result<
        Plan<Call>,
        WeatherApiError,
    >)
        ensures
            plan_view(r) == plan_for(self@, address@, today@, day_of(date)),
    {
        let call = route(today, date)?;
        let request = match (call, date) {
            (Call::Forecast, Some(date)) => self.forecast_request(
                address,
                date.days_since(&today),
            ),
            (Call::Future, Some(date)) => self.date_request(&self.endpoints.future, address, date),
            (Call::History, Some(date)) => self.date_request(
                &self.endpoints.history,
                address,
                date,
            ),
            _ => self.default_request_builder(&self.endpoints.current, address),
        };
        Ok(Plan { call, request })
    }

    /// The call and the request that serve a lookup made now: [`Self::plan`]
    /// with today's date by the system clock, in UTC.
    pub fn get_weather(&self, address: &str, date: Option<Date>) -> (r: Result<
        Plan<Call>,
        WeatherApiError,
    >)
        ensures
            exists|today: int|
                is_calendar_day(today) && plan_view(r) == plan_for(
                    self@,
                    address@,
                    today,
                    day_of(date),
                ),
    {
        let today = Date::today();
        let day = today.to_epoch_days();
        let r = self.plan(address, today, date);
        assert(is_calendar_day(day as int) && plan_view(r) == plan_for(
            self@,
            address@,
            day as int,
            day_of(date),
        ));
        r
    }

    /// The current weather in an answer to [`Call::Current`].
    pub fn current(&self, resp: CurrentResponse) -> (r: Result<Weather, WeatherApiError>)
        ensures
            outcome_view(r) == current_outcome(resp),
    {
        let temp = match Temperature::from_c(resp.current.temp_c) {
            Ok(temp) => temp,
            Err(e) => {
                return Err(WeatherApiError::Temperature(e));
            },
        };
        Ok(Weather::current(temp, resp.current.condition.text))
    }

    /// The past weather in an answer to [`Call::History`].
    pub fn history(&self, resp: HistoryResponse) -> (r: Result<Weather, WeatherApiError>)
        ensures
            outcome_view(r) == first_day_outcome(
                self@.endpoints.history.path,
                WeatherKind::History,
                resp.forecast,
            ),
    {
        first_day(&self.endpoints.history, WeatherKind::History, resp.forecast)
    }

    /// The forecast in an answer to [`Call::Forecast`].
    pub fn forecast(&self, resp: ForecastResponse) -> (r: Result<Weather, WeatherApiError>)
        ensures
            outcome_view(r) == first_day_outcome(
                self@.endpoints.forecast.path,
                WeatherKind::Forecast,
                resp.forecast,
            ),
    {
        first_day(&self.endpoints.forecast, WeatherKind::Forecast, resp.forecast)
    }

    /// The forecast in an answer to [`Call::Future`].
    pub fn future(&self, resp: FutureResponse) -> (r: Result<Weather, WeatherApiError>)
        ensures
            outcome_view(r) == first_day_outcome(
                self@.endpoints.future.path,
                WeatherKind::Forecast,
                resp.forecast,
            ),
    {
        first_day(&self.endpoints.future, WeatherKind::Forecast, resp.forecast)
    }
}

impl WeatherProvider for WeatherApi {
    type Call = Call;

    type Error = WeatherApiError;

    open spec fn current() -> Call {
        Call::Current
    }

    fn get_weather(&self, address: &str, date: Option<Date>) -> (r: Result<
        Plan<Call>,
        WeatherApiError,
    >) {
        WeatherApi::get_weather(self, address, date)
    }
}

} // verus!
