use std::cell::RefCell;

use rte_api::consumption::{ConsumptionForecast, ShortTermForecastType};
use rte_api::error::{ApiError, StatusError};
use rte_api::generation::{GenerationForecast, ProductionType};
use rte_api::time::{DateRange, Timestamp};
use rte_api::{ApiClient, HttpResponse};

/// Stub capability: answers every GET with a fixed status and body, and
/// records the path and query of each call.
struct StubClient {
    status: u16,
    body: String,
    calls: RefCell<Vec<(String, Vec<(String, String)>)>>,
}

impl StubClient {
    fn new(status: u16, body: &str) -> Self {
        StubClient { status, body: body.to_string(), calls: RefCell::new(Vec::new()) }
    }
}

impl ApiClient for StubClient {
    fn http_get(&self, path: &str, query: &[(String, String)]) -> Result<HttpResponse, String> {
        self.calls.borrow_mut().push((path.to_string(), query.to_vec()));
        Ok(HttpResponse { status: self.status, body: self.body.clone() })
    }
}

/// Stub capability: every GET fails before a status is obtained.
struct FailingClient;

impl ApiClient for FailingClient {
    fn http_get(&self, _path: &str, _query: &[(String, String)]) -> Result<HttpResponse, String> {
        Err("connection refused".to_string())
    }
}

fn utc(year: u32, month: u32, day: u32, hour: u32, minute: u32, second: u32) -> Timestamp {
    Timestamp { year, month, day, hour, minute, second, offset_minutes: 0 }
}

#[test]
fn status_401_fails_with_invalid_credentials_without_decoding() {
    // The body would decode fine; the call must still fail on the status.
    let stub = StubClient::new(401, r#"{"forecasts": []}"#);
    let api = GenerationForecast::new(&stub);
    let r = api.short_term(None, None, None);
    assert!(matches!(r, Err(ApiError::Status(StatusError::InvalidCredentials))));
}

#[test]
fn status_429_fails_with_rate_limited() {
    let stub = StubClient::new(429, "");
    let api = ConsumptionForecast::new(&stub);
    let r = api.weekly_forecast(None);
    assert!(matches!(r, Err(ApiError::Status(StatusError::RateLimited))));
}

#[test]
fn status_403_fails_with_application_not_registered() {
    let stub = StubClient::new(403, "");
    let api = ConsumptionForecast::new(&stub);
    let r = api.short_term(ShortTermForecastType::Realised, None);
    assert!(matches!(r, Err(ApiError::Status(StatusError::ApplicationNotRegistered))));
}

#[test]
fn other_status_fails_with_unknown_code() {
    let stub = StubClient::new(500, "");
    let api = GenerationForecast::new(&stub);
    let r = api.short_term(None, None, None);
    assert!(matches!(r, Err(ApiError::Status(StatusError::Unknown(500)))));
}

#[test]
fn transport_failure_is_propagated() {
    let api = GenerationForecast::new(&FailingClient);
    let r = api.short_term(None, None, None);
    match r {
        Err(ApiError::Transport(msg)) => assert_eq!(msg, "connection refused"),
        other => panic!("expected a transport failure, got {:?}", other),
    }
}

#[test]
fn undecodable_success_body_fails_with_path_and_raw_body() {
    let stub = StubClient::new(200, "not json");
    let api = GenerationForecast::new(&stub);
    let r = api.short_term(None, None, None);
    match r {
        Err(ApiError::DecodeFailed { context, raw_body }) => {
            assert_eq!(context, "/open_api/generation_forecast/v2/forecasts");
            assert_eq!(raw_body, "not json");
        },
        other => panic!("expected a decode failure, got {:?}", other),
    }
}

#[test]
fn consumption_short_term_sends_type_then_window() {
    let stub = StubClient::new(200, r#"{"short_term": []}"#);
    let api = ConsumptionForecast::new(&stub);
    let window = DateRange { start: utc(2023, 6, 1, 0, 0, 0), end: utc(2023, 6, 2, 0, 0, 0) };
    let r = api.short_term(ShortTermForecastType::Tomorrow, Some(window));
    assert!(r.is_ok());
    let calls = stub.calls.borrow();
    assert_eq!(calls.len(), 1);
    assert_eq!(calls[0].0, "/open_api/consumption/v1/short_term");
    let q = &calls[0].1;
    assert_eq!(q.len(), 3);
    assert_eq!(q[0], ("type".to_string(), "D-1".to_string()));
    assert_eq!(q[1], ("start_date".to_string(), "2023-06-01T00:00:00+00:00".to_string()));
    assert_eq!(q[2], ("end_date".to_string(), "2023-06-02T00:00:00+00:00".to_string()));
}

#[test]
fn absent_options_are_omitted_from_the_query() {
    let stub = StubClient::new(200, r#"{"forecasts": []}"#);
    let api = GenerationForecast::new(&stub);
    let r = api.short_term(None, None, None);
    assert!(r.is_ok());
    let calls = stub.calls.borrow();
    assert_eq!(calls[0].1.len(), 0);
}

#[test]
fn generation_end_to_end_solar_day() {
    // One series of 23 hourly buckets.
    let mut buckets = String::new();
    for h in 0..23 {
        if h > 0 {
            buckets.push(',');
        }
        buckets.push_str(&format!(
            r#"{{"start_date": "2023-06-01T{:02}:00:00+00:00",
                "end_date": "2023-06-01T{:02}:00:00+00:00",
                "updated_date": "2023-05-31T18:00:00+00:00",
                "value": {}}}"#,
            h,
            h + 1,
            100 * h
        ));
    }
    let body = format!(
        r#"{{"forecasts": [{{
            "type": "D-1",
            "production_type": "SOLAR",
            "start_date": "2023-06-01T00:00:00+00:00",
            "end_date": "2023-06-01T23:00:00+00:00",
            "values": [{}]
        }}]}}"#,
        buckets
    );
    let stub = StubClient::new(200, &body);
    let api = GenerationForecast::new(&stub);
    let window = DateRange { start: utc(2023, 6, 1, 0, 0, 0), end: utc(2023, 6, 1, 23, 0, 0) };
    let r = api.short_term(Some(ProductionType::Solar), None, Some(window)).unwrap();

    let calls = stub.calls.borrow();
    let q = &calls[0].1;
    assert_eq!(q.len(), 3);
    assert_eq!(q[0], ("production_type".to_string(), "SOLAR".to_string()));
    assert_eq!(q[1], ("start_date".to_string(), "2023-06-01T00:00:00+00:00".to_string()));
    assert_eq!(q[2], ("end_date".to_string(), "2023-06-01T23:00:00+00:00".to_string()));

    assert_eq!(r.forecasts.len(), 1);
    let rows = r.forecasts[0].as_table().unwrap();
    assert_eq!(rows.len(), 23);
    assert_eq!(rows[7].value, "700");
    assert_eq!(rows[7].start_date.hour, 7);
}
