use weather_provider::date::Date;
use weather_provider::models::{Temperature, TemperatureError, WeatherKind};
use weather_provider::request::Request;
use weather_provider::utils::is_success;
use weather_provider::weather_api::api_config::{
    current_path, forecast_path, future_path, history_path, ApiConfig,
};
use weather_provider::weather_api::builder::WeatherApiBuilder;
use weather_provider::weather_api::error::WeatherApiError;
use weather_provider::weather_api::protocol::{
    Condition, Current, CurrentResponse, Day, ErrorBody, ErrorResponse, Forecast, ForecastDay,
    ForecastResponse, FutureResponse, HistoryResponse, Location,
};
use weather_provider::weather_api::{parse, route, Call, WeatherApi};

fn conf() -> ApiConfig {
    ApiConfig {
        api_key: Some("some-api-key".to_string()),
        base_url: "http://127.0.0.1:8080".to_string(),
        current_path: current_path(),
        history_path: history_path(),
        forecast_path: forecast_path(),
        future_path: future_path(),
    }
}

fn provider() -> WeatherApi {
    WeatherApiBuilder::build(conf()).expect("WeatherApi created")
}

fn date(year: i32, month: u32, day: u32) -> Date {
    Date::from_ymd(year, month, day).expect("a date")
}

fn plus_days(today: Date, days: i32) -> Date {
    Date::from_epoch_days(today.to_epoch_days() + days).expect("a date")
}

fn pairs(request: &Request) -> Vec<(String, String)> {
    request.query.iter().map(|p| (p.key.clone(), p.value.clone())).collect()
}

fn pair(key: &str, value: &str) -> (String, String) {
    (key.to_string(), value.to_string())
}

fn location(name: &str, region: &str, country: &str, lat: i64, lon: i64) -> Location {
    Location {
        name: name.to_string(),
        region: region.to_string(),
        country: country.to_string(),
        lat,
        lon,
    }
}

fn day(date: &str, date_epoch: i32, avgtemp_c: i64, text: &str, code: i64) -> ForecastDay {
    ForecastDay {
        date: Some(date.to_string()),
        date_epoch: Some(date_epoch),
        day: Day {
            avgtemp_c,
            condition: Condition {
                text: text.to_string(),
                icon: "https://www.example.com/icon.png".to_string(),
                code,
            },
        },
    }
}

fn forecast_3c_rainy() -> ForecastResponse {
    ForecastResponse {
        location: location("Kyiv", "Kyiv", "Ukraine", 50_450, 30_520),
        forecast: Forecast { forecastday: vec![day("2023-03-05", 1615180800, 3_000, "Rainy", 1063)] },
    }
}

fn history_m_1c_snow() -> HistoryResponse {
    HistoryResponse {
        location: location("New York", "New York", "United States", 40_710, -74_010),
        forecast: Forecast { forecastday: vec![day("2012-01-01", 1325376000, -1_000, "Snow", 1066)] },
    }
}

fn current_8c_clear() -> CurrentResponse {
    CurrentResponse {
        location: location(
            "London",
            "City of London, Greater London",
            "United Kingdom",
            51_520,
            -110,
        ),
        current: Current {
            last_updated: "2023-02-06 17:30".to_string(),
            temp_c: 8_000,
            condition: Condition {
                text: "Clear".to_string(),
                icon: "//cdn.weatherapi.com/weather/64x64/night/113.png".to_string(),
                code: 1000,
            },
        },
    }
}

fn future_12c_partly_cloudy() -> FutureResponse {
    FutureResponse {
        location: location("New York", "New York", "United States", 40_710, -74_010),
        forecast: Forecast {
            forecastday: vec![
                day("2023-02-08", 1612585600, 10_000, "Sunny", 1000),
                day("2023-02-09", 1612672000, 12_000, "Partly cloudy", 1003),
            ],
        },
    }
}

fn error_1008() -> ErrorResponse {
    ErrorResponse {
        error: ErrorBody {
            code: 1008,
            message: "API key is limited to get history data. Please check our pricing page and upgrade to higher plan.".to_string(),
        },
    }
}

#[test]
fn lib_get_weather_success() {
    let client = provider();
    let today = date(2023, 2, 6);

    let plan = client.plan("Any address", today, Some(plus_days(today, 10))).expect("a plan");
    assert_eq!(plan.call, Call::Forecast);
    assert_eq!(plan.request.url, "http://127.0.0.1:8080/v1/forecast.json");
    let weather = client.forecast(forecast_3c_rainy()).expect("weather result should be ok");
    assert_eq!(weather.temp, Temperature::from_c(3_000).unwrap());
    assert_eq!(weather.condition, "Rainy");
    assert_eq!(weather.kind, WeatherKind::Forecast);

    let plan = client.plan("Any address", today, Some(date(2012, 1, 1))).expect("a plan");
    assert_eq!(plan.call, Call::History);
    assert_eq!(plan.request.url, "http://127.0.0.1:8080/v1/history.json");
    let weather = client.history(history_m_1c_snow()).expect("weather result should be ok");
    assert_eq!(weather.temp, Temperature::from_c(-1_000).unwrap());
    assert_eq!(weather.condition, "Snow");
    assert_eq!(weather.kind, WeatherKind::History);

    let plan = client.plan("Any address", today, Some(plus_days(today, 31))).expect("a plan");
    assert_eq!(plan.call, Call::Future);
    assert_eq!(plan.request.url, "http://127.0.0.1:8080/v1/future.json");
    let weather = client.future(future_12c_partly_cloudy()).expect("weather result should be ok");
    assert_eq!(weather.temp, Temperature::from_c(10_000).unwrap());
    assert_eq!(weather.condition, "Sunny");
    assert_eq!(weather.kind, WeatherKind::Forecast);

    let plan = client.plan("Any address", today, None).expect("a plan");
    assert_eq!(plan.call, Call::Current);
    assert_eq!(plan.request.url, "http://127.0.0.1:8080/v1/current.json");
    let weather = client.current(current_8c_clear()).expect("weather result should be ok");
    assert_eq!(weather.temp, Temperature::from_c(8_000).unwrap());
    assert_eq!(weather.condition, "Clear");
    assert_eq!(weather.kind, WeatherKind::Current);
}

#[test]
fn get_weather_current_http_clien_deserialize_err() {
    // what a transport hands over for an empty object with status 200
    assert!(is_success(200));
    let failure = reqwest::Client::new().get("no address").build().unwrap_err();
    let decoded: Result<Result<CurrentResponse, ErrorResponse>, reqwest::Error> = Err(failure);
    let error = match parse(decoded) {
        Err(error) => error,
        Ok(_) => panic!("weather result should be err"),
    };
    assert!(matches!(error, WeatherApiError::HttpClient(reqwest_middleware::Error::Reqwest(_))));
}

#[test]
fn get_weather_current_api_err_from_server() {
    // what a transport hands over for the error body with status 400
    assert!(!is_success(400));
    let decoded: Result<Result<CurrentResponse, ErrorResponse>, reqwest::Error> =
        Ok(Err(error_1008()));
    match parse(decoded) {
        Err(WeatherApiError::Api(message, code)) => {
            assert_eq!(
                message,
                "API key is limited to get history data. Please check our pricing page and upgrade to higher plan."
            );
            assert_eq!(code, 1008);
        }
        other => panic!("unexpected {:?}", other.map(|_| ())),
    }
}

#[test]
fn weather_api_unsupported_dates() {
    let client = provider();
    let today = Date::today();
    let dates = [
        plus_days(today, 1095),
        plus_days(today, 365),
        plus_days(today, 302),
        date(2009, 12, 31),
        date(1970, 1, 1),
    ];
    for date in dates {
        match client.get_weather("Lviv", Some(date)) {
            Err(WeatherApiError::UnsupportedDate(refused)) => assert_eq!(refused, date),
            other => panic!("unexpected {:?}", other),
        }
    }
}

#[test]
fn windows_of_forecast_and_future() {
    let today = date(2023, 2, 6);
    assert_eq!(route(today, None).unwrap(), Call::Current);
    assert_eq!(route(today, Some(today)).unwrap(), Call::Current);
    assert_eq!(route(today, Some(plus_days(today, 1))).unwrap(), Call::Forecast);
    assert_eq!(route(today, Some(plus_days(today, 14))).unwrap(), Call::Forecast);
    assert_eq!(route(today, Some(plus_days(today, 15))).unwrap(), Call::Future);
    assert_eq!(route(today, Some(plus_days(today, 300))).unwrap(), Call::Future);
    match route(today, Some(plus_days(today, 301))) {
        Err(WeatherApiError::UnsupportedDate(refused)) => {
            assert_eq!(refused, plus_days(today, 301))
        }
        other => panic!("unexpected {:?}", other),
    }
}

#[test]
fn weather_api_history_window_is_open_at_both_ends() {
    let today = date(2023, 2, 6);
    assert_eq!(route(today, Some(plus_days(today, -1))).unwrap(), Call::History);
    assert_eq!(route(today, Some(date(2010, 1, 2))).unwrap(), Call::History);
    assert!(matches!(
        route(today, Some(date(2010, 1, 1))),
        Err(WeatherApiError::UnsupportedDate(_))
    ));
    assert!(matches!(
        route(today, Some(date(2009, 12, 31))),
        Err(WeatherApiError::UnsupportedDate(_))
    ));
}

#[test]
fn weather_api_every_date_has_one_outcome() {
    let today = date(2023, 2, 6);
    for offset in -6_000..=1_000 {
        let day = plus_days(today, offset);
        let expected = if offset == 0 {
            Some(Call::Current)
        } else if (1..=14).contains(&offset) {
            Some(Call::Forecast)
        } else if (15..=300).contains(&offset) {
            Some(Call::Future)
        } else if offset < 0 && day.to_epoch_days() > 14_610 {
            Some(Call::History)
        } else {
            None
        };
        assert_eq!(route(today, Some(day)).ok(), expected);
    }
}

#[test]
fn weather_api_requests() {
    let client = provider();
    let today = date(2023, 2, 6);

    let plan = client.plan("London", today, None).unwrap();
    assert_eq!(pairs(&plan.request), vec![pair("q", "London"), pair("key", "some-api-key")]);
    let plan = client.plan("London", today, Some(today)).unwrap();
    assert_eq!(plan.call, Call::Current);
    assert_eq!(pairs(&plan.request), vec![pair("q", "London"), pair("key", "some-api-key")]);

    let plan = client.plan("London", today, Some(date(2023, 2, 16))).unwrap();
    assert_eq!(plan.call, Call::Forecast);
    assert_eq!(
        pairs(&plan.request),
        vec![
            pair("q", "London"),
            pair("key", "some-api-key"),
            pair("days", "10"),
            pair("aqi", "no"),
            pair("alerts", "no"),
        ]
    );

    let plan = client.plan("London", today, Some(date(2023, 3, 9))).unwrap();
    assert_eq!(plan.call, Call::Future);
    assert_eq!(
        pairs(&plan.request),
        vec![pair("q", "London"), pair("key", "some-api-key"), pair("dt", "2023-03-09")]
    );

    let plan = client.plan("London", today, Some(date(2012, 1, 1))).unwrap();
    assert_eq!(plan.call, Call::History);
    assert_eq!(plan.request.url, "http://127.0.0.1:8080/v1/history.json");
    assert_eq!(
        pairs(&plan.request),
        vec![pair("q", "London"), pair("key", "some-api-key"), pair("dt", "2012-01-01")]
    );
}

#[test]
fn weather_api_get_weather_plans_for_the_day_of_the_clock() {
    let client = provider();
    assert_eq!(client.get_weather("London", None).unwrap().call, Call::Current);
    let today = Date::today();
    let plan = client.get_weather("London", Some(plus_days(today, 100))).unwrap();
    assert_eq!(plan.call, Call::Future);
    let plan = client.get_weather("London", Some(plus_days(today, -100))).unwrap();
    assert_eq!(plan.call, Call::History);
}

#[test]
fn the_first_day_of_the_list_counts() {
    let client = provider();
    let place = || location("New York", "New York", "United States", 40_710, -74_010);
    let days = || Forecast {
        forecastday: vec![
            day("2023-02-08", 1612585600, 10_000, "Sunny", 1000),
            day("2023-02-09", 1612672000, 12_000, "Partly cloudy", 1003),
            day("2023-02-10", 1612758400, -3_000, "Snow", 1066),
        ],
    };
    let weather = client.future(FutureResponse { location: place(), forecast: days() }).unwrap();
    assert_eq!(weather.kind, WeatherKind::Forecast);
    assert_eq!(weather.temp, Temperature::Celsius(10_000));
    assert_eq!(weather.condition, "Sunny");
    let weather =
        client.forecast(ForecastResponse { location: place(), forecast: days() }).unwrap();
    assert_eq!(weather.kind, WeatherKind::Forecast);
    assert_eq!(weather.temp, Temperature::Celsius(10_000));
    assert_eq!(weather.condition, "Sunny");
    let weather = client.history(HistoryResponse { location: place(), forecast: days() }).unwrap();
    assert_eq!(weather.kind, WeatherKind::History);
    assert_eq!(weather.temp, Temperature::Celsius(10_000));
    assert_eq!(weather.condition, "Sunny");

    // a later day below absolute zero is not looked at; the first one is
    let mut late = days();
    late.forecastday[2].day.avgtemp_c = -300_000;
    assert!(client.future(FutureResponse { location: place(), forecast: late }).is_ok());
    let mut early = days();
    early.forecastday[0].day.avgtemp_c = -300_000;
    assert!(matches!(
        client.future(FutureResponse { location: place(), forecast: early }),
        Err(WeatherApiError::Temperature(TemperatureError::Celsius(-300_000)))
    ));
}

#[test]
fn an_empty_list_of_days_is_a_json_error() {
    let client = provider();
    let empty = || Forecast { forecastday: vec![] };
    let place = || location("Kyiv", "Kyiv", "Ukraine", 50_450, 30_520);
    match client.history(HistoryResponse { location: place(), forecast: empty() }) {
        Err(WeatherApiError::JSON(endpoint, section)) => {
            assert_eq!(endpoint, "/v1/history.json");
            assert_eq!(section, "./forecast.forecastday");
        }
        other => panic!("unexpected {:?}", other),
    }
    match client.forecast(ForecastResponse { location: place(), forecast: empty() }) {
        Err(WeatherApiError::JSON(endpoint, section)) => {
            assert_eq!(endpoint, "/v1/forecast.json");
            assert_eq!(section, "./forecast.forecastday");
        }
        other => panic!("unexpected {:?}", other),
    }
    match client.future(FutureResponse { location: place(), forecast: empty() }) {
        Err(WeatherApiError::JSON(endpoint, section)) => {
            assert_eq!(endpoint, "/v1/future.json");
            assert_eq!(section, "./forecast.forecastday");
        }
        other => panic!("unexpected {:?}", other),
    }
}

#[test]
fn temperatures_below_absolute_zero_are_refused() {
    let client = provider();
    let mut resp = current_8c_clear();
    resp.current.temp_c = -273_151;
    assert!(matches!(
        client.current(resp),
        Err(WeatherApiError::Temperature(TemperatureError::Celsius(-273_151)))
    ));
    let mut resp = current_8c_clear();
    resp.current.temp_c = -273_150;
    assert_eq!(client.current(resp).unwrap().temp, Temperature::Celsius(-273_150));
    let mut resp = forecast_3c_rainy();
    resp.forecast.forecastday[0].day.avgtemp_c = -300_000;
    assert!(matches!(
        client.forecast(resp),
        Err(WeatherApiError::Temperature(TemperatureError::Celsius(-300_000)))
    ));
}

#[test]
fn weather_api_codes_keep_their_low_sixteen_bits() {
    let body = |code: i32| ErrorResponse { error: ErrorBody { code, message: "m".to_string() } };
    let decoded: Result<Result<CurrentResponse, ErrorResponse>, reqwest::Error> =
        Ok(Err(body(2006)));
    assert!(matches!(parse(decoded), Err(WeatherApiError::Api(_, 2006))));
    let decoded: Result<Result<CurrentResponse, ErrorResponse>, reqwest::Error> =
        Ok(Err(body(65_536 + 7)));
    assert!(matches!(parse(decoded), Err(WeatherApiError::Api(_, 7))));
    let decoded: Result<Result<CurrentResponse, ErrorResponse>, reqwest::Error> =
        Ok(Ok(current_8c_clear()));
    assert_eq!(parse(decoded).unwrap().current.temp_c, 8_000);
}

#[test]
fn weather_api_needs_its_key() {
    let mut conf = conf();
    conf.api_key = None;
    match WeatherApiBuilder::build(conf) {
        Err(WeatherApiError::MissingConf(key, provider)) => {
            assert_eq!(key, "apiKey");
            assert_eq!(provider, "weather-api");
        }
        other => panic!("unexpected {:?}", other),
    }
    let mut conf = self::conf();
    conf.base_url = "nothing".to_string();
    assert!(matches!(WeatherApiBuilder::build(conf), Err(WeatherApiError::Parse(_, _, _))));
}
