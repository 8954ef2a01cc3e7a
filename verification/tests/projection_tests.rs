use rte_api::consumption::{
    decode_short_term_body, decode_weekly_body, PeakForecast, ShortTerm, ShortTermResponse,
    WeeklyForecast, WeeklyForecastResponse, WeeklyForecastValue,
};
use rte_api::error::ProjectionError;
use rte_api::generation::{Forecast, ProductionTypeResponse};
use rte_api::time::Timestamp;

fn utc(year: u32, month: u32, day: u32, hour: u32, minute: u32, second: u32) -> Timestamp {
    Timestamp { year, month, day, hour, minute, second, offset_minutes: 0 }
}

fn weekly_day(
    day: u32,
    temperature: &str,
    deviation: &str,
    bucket_values: &[&str],
) -> WeeklyForecast {
    WeeklyForecast {
        start_date: utc(2023, 1, day, 0, 0, 0),
        end_date: utc(2023, 1, day + 1, 0, 0, 0),
        updated_date: utc(2023, 1, 6, 12, 0, 0),
        peak: PeakForecast {
            peak_hour: utc(2023, 1, day, 19, 0, 0),
            value: "71000".to_string(),
            temperature: temperature.to_string(),
            temperature_deviation: deviation.to_string(),
        },
        values: bucket_values
            .iter()
            .enumerate()
            .map(|(h, v)| WeeklyForecastValue {
                start_date: utc(2023, 1, day, h as u32, 0, 0),
                end_date: utc(2023, 1, day, h as u32 + 1, 0, 0),
                value: v.to_string(),
            })
            .collect(),
    }
}

#[test]
fn weekly_projection_emits_one_row_per_bucket_with_peak_broadcast() {
    let resp = WeeklyForecastResponse {
        weekly_forecasts: vec![
            weekly_day(9, "7.5", "-1.2", &["61000", "62000", "63000"]),
            weekly_day(10, "3.0", "0.4", &["64000", "65000"]),
        ],
    };
    let rows = resp.as_table().unwrap();
    assert_eq!(rows.len(), 5);
    for row in &rows[0..3] {
        assert_eq!(row.peak_temperature, "7.5");
        assert_eq!(row.peak_temperature_deviation, "-1.2");
    }
    for row in &rows[3..5] {
        assert_eq!(row.peak_temperature, "3.0");
        assert_eq!(row.peak_temperature_deviation, "0.4");
    }
    assert_eq!(rows[0].value, "61000");
    assert_eq!(rows[4].value, "65000");
    // Rows carry the day-level update timestamp.
    assert_eq!(rows[2].updated_date, utc(2023, 1, 6, 12, 0, 0));
    // Rows keep each bucket's own window.
    assert_eq!(rows[4].start_date, utc(2023, 1, 10, 1, 0, 0));
}

#[test]
fn weekly_projection_of_no_buckets_is_an_error() {
    let empty = WeeklyForecastResponse { weekly_forecasts: vec![] };
    assert_eq!(empty.as_table().unwrap_err(), ProjectionError::EmptySeries);
    let no_buckets = WeeklyForecastResponse { weekly_forecasts: vec![weekly_day(9, "1", "2", &[])] };
    assert_eq!(no_buckets.as_table().unwrap_err(), ProjectionError::EmptySeries);
}

#[test]
fn short_term_projection_takes_the_first_series_only() {
    let body = r#"{
        "short_term": [
            {"type": "REALISED",
             "start_date": "2023-06-01T00:00:00+00:00",
             "end_date": "2023-06-01T02:00:00+00:00",
             "values": [
                {"start_date": "2023-06-01T00:00:00+00:00",
                 "end_date": "2023-06-01T01:00:00+00:00",
                 "updated_date": "2023-06-01T01:10:00+00:00",
                 "value": 53000},
                {"start_date": "2023-06-01T01:00:00+00:00",
                 "end_date": "2023-06-01T02:00:00+00:00",
                 "updated_date": "2023-06-01T02:10:00+00:00",
                 "value": 51000}
             ]},
            {"type": "ID",
             "start_date": "2023-06-01T00:00:00+00:00",
             "end_date": "2023-06-01T01:00:00+00:00",
             "values": [
                {"start_date": "2023-06-01T00:00:00+00:00",
                 "end_date": "2023-06-01T01:00:00+00:00",
                 "updated_date": "2023-06-01T00:10:00+00:00",
                 "value": 99999}
             ]}
        ]
    }"#;
    let resp = decode_short_term_body(body).unwrap();
    let rows = resp.as_table().unwrap();
    assert_eq!(rows.len(), 2);
    assert_eq!(rows[0].value, "53000");
    assert_eq!(rows[1].value, "51000");
}

#[test]
fn short_term_projection_of_no_buckets_is_an_error() {
    let empty = ShortTermResponse { short_term: vec![] };
    assert_eq!(empty.as_table().unwrap_err(), ProjectionError::EmptySeries);
    let no_buckets = ShortTermResponse {
        short_term: vec![ShortTerm {
            ty: "REALISED".to_string(),
            start_date: utc(2023, 6, 1, 0, 0, 0),
            end_date: utc(2023, 6, 1, 1, 0, 0),
            values: vec![],
        }],
    };
    assert_eq!(no_buckets.as_table().unwrap_err(), ProjectionError::EmptySeries);
}

#[test]
fn generation_projection_keeps_absent_load_factor_absent() {
    let body = r#"{
        "forecasts": [{
            "type": "D-1",
            "production_type": "WIND_OFFSHORE",
            "start_date": "2023-06-01T00:00:00+00:00",
            "end_date": "2023-06-01T02:00:00+00:00",
            "values": [
                {"start_date": "2023-06-01T00:00:00+00:00",
                 "end_date": "2023-06-01T01:00:00+00:00",
                 "updated_date": "2023-05-31T18:00:00+00:00",
                 "value": 800,
                 "load_factor": 0.4},
                {"start_date": "2023-06-01T01:00:00+00:00",
                 "end_date": "2023-06-01T02:00:00+00:00",
                 "updated_date": "2023-05-31T18:00:00+00:00",
                 "value": 900}
            ]
        }]
    }"#;
    let resp = rte_api::generation::decode_generation_body(body).unwrap();
    let rows = resp.forecasts[0].as_table().unwrap();
    assert_eq!(rows.len(), 2);
    assert_eq!(rows[0].load_factor.as_deref(), Some("0.4"));
    assert_eq!(rows[1].load_factor, None);
}

#[test]
fn generation_projection_of_no_buckets_is_an_error() {
    let f = Forecast {
        ty: "D-1".to_string(),
        sub_type: None,
        production_type: ProductionTypeResponse::Solar,
        start_date: utc(2023, 6, 1, 0, 0, 0),
        end_date: utc(2023, 6, 1, 1, 0, 0),
        values: vec![],
    };
    assert_eq!(f.as_table().unwrap_err(), ProjectionError::EmptySeries);
}

#[test]
fn decoded_weekly_body_projects_with_day_level_update() {
    let body = r#"{
        "weekly_forecasts": [{
            "start_date": "2023-01-09T00:00:00+00:00",
            "end_date": "2023-01-10T00:00:00+00:00",
            "updated_date": "2023-01-06T12:00:00+00:00",
            "peak": {
                "peak_hour": "2023-01-09T19:00:00+00:00",
                "value": 71000,
                "temperature": 7.5,
                "temperature_deviation": -1.2
            },
            "values": [
                {"start_date": "2023-01-09T00:00:00+00:00",
                 "end_date": "2023-01-09T01:00:00+00:00",
                 "value": 61000},
                {"start_date": "2023-01-09T01:00:00+00:00",
                 "end_date": "2023-01-09T02:00:00+00:00",
                 "value": 60500}
            ]
        }]
    }"#;
    let resp = decode_weekly_body(body).unwrap();
    let rows = resp.as_table().unwrap();
    assert_eq!(rows.len(), 2);
    assert_eq!(rows[0].updated_date, utc(2023, 1, 6, 12, 0, 0));
    assert_eq!(rows[1].peak_temperature, "7.5");
    assert_eq!(rows[1].value, "60500");
}
