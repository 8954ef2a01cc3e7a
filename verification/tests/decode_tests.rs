use rte_api::consumption::{decode_short_term_body, decode_weekly_body};
use rte_api::generation::{decode_generation_body, ProductionTypeResponse};
use rte_api::time::Timestamp;

fn utc(year: u32, month: u32, day: u32, hour: u32, minute: u32, second: u32) -> Timestamp {
    Timestamp { year, month, day, hour, minute, second, offset_minutes: 0 }
}

fn cet(year: u32, month: u32, day: u32, hour: u32, minute: u32, second: u32) -> Timestamp {
    Timestamp { year, month, day, hour, minute, second, offset_minutes: 120 }
}

#[test]
fn decodes_short_term_payload_exactly() {
    let body = r#"{
        "short_term": [{
            "type": "REALISED",
            "start_date": "2023-06-01T00:00:00+00:00",
            "end_date": "2023-06-01T02:00:00+00:00",
            "values": [
                {"start_date": "2023-06-01T00:00:00+00:00",
                 "end_date": "2023-06-01T01:00:00+00:00",
                 "updated_date": "2023-06-01T01:10:00+00:00",
                 "value": 53000},
                {"start_date": "2023-06-01T01:00:00+00:00",
                 "end_date": "2023-06-01T02:00:00+00:00",
                 "updated_date": "2023-06-01T02:10:00+00:00",
                 "value": 51234.5}
            ]
        }]
    }"#;
    let resp = decode_short_term_body(body).unwrap();
    assert_eq!(resp.short_term.len(), 1);
    let st = &resp.short_term[0];
    assert_eq!(st.ty, "REALISED");
    assert_eq!(st.start_date, utc(2023, 6, 1, 0, 0, 0));
    assert_eq!(st.end_date, utc(2023, 6, 1, 2, 0, 0));
    assert_eq!(st.values.len(), 2);
    assert_eq!(st.values[0].value, "53000");
    assert_eq!(st.values[0].updated_date, utc(2023, 6, 1, 1, 10, 0));
    assert_eq!(st.values[1].value, "51234.5");
    assert_eq!(st.values[1].start_date, utc(2023, 6, 1, 1, 0, 0));
}

#[test]
fn decodes_weekly_payload_exactly() {
    let body = r#"{
        "weekly_forecasts": [{
            "start_date": "2023-01-09T00:00:00+01:00",
            "end_date": "2023-01-10T00:00:00+01:00",
            "updated_date": "2023-01-06T12:00:00+01:00",
            "peak": {
                "peak_hour": "2023-01-09T19:00:00+01:00",
                "value": 71000,
                "temperature": 7.5,
                "temperature_deviation": -1.2
            },
            "values": [
                {"start_date": "2023-01-09T00:00:00+01:00",
                 "end_date": "2023-01-09T01:00:00+01:00",
                 "value": 61000}
            ]
        }]
    }"#;
    let resp = decode_weekly_body(body).unwrap();
    assert_eq!(resp.weekly_forecasts.len(), 1);
    let day = &resp.weekly_forecasts[0];
    assert_eq!(day.updated_date.offset_minutes, 60);
    assert_eq!(day.updated_date.hour, 12);
    assert_eq!(day.peak.peak_hour.hour, 19);
    assert_eq!(day.peak.value, "71000");
    assert_eq!(day.peak.temperature, "7.5");
    assert_eq!(day.peak.temperature_deviation, "-1.2");
    assert_eq!(day.values.len(), 1);
    assert_eq!(day.values[0].value, "61000");
}

#[test]
fn decodes_generation_payload_exactly() {
    let body = r#"{
        "forecasts": [{
            "type": "D-1",
            "production_type": "WIND_ONSHORE",
            "start_date": "2023-06-01T00:00:00+02:00",
            "end_date": "2023-06-01T02:00:00+02:00",
            "values": [
                {"start_date": "2023-06-01T00:00:00+02:00",
                 "end_date": "2023-06-01T01:00:00+02:00",
                 "updated_date": "2023-05-31T18:00:00+02:00",
                 "value": 1234.5,
                 "load_factor": 0.35}
            ]
        }]
    }"#;
    let resp = decode_generation_body(body).unwrap();
    assert_eq!(resp.forecasts.len(), 1);
    let f = &resp.forecasts[0];
    assert_eq!(f.ty, "D-1");
    assert_eq!(f.sub_type, None);
    assert_eq!(f.production_type, ProductionTypeResponse::WindOnshore);
    assert_eq!(f.start_date, cet(2023, 6, 1, 0, 0, 0));
    assert_eq!(f.values.len(), 1);
    assert_eq!(f.values[0].value, "1234.5");
    assert_eq!(f.values[0].load_factor.as_deref(), Some("0.35"));
}

#[test]
fn missing_load_factor_decodes_to_absent_not_zero() {
    let body = r#"{
        "forecasts": [{
            "type": "D-1",
            "production_type": "SOLAR",
            "start_date": "2023-06-01T00:00:00+02:00",
            "end_date": "2023-06-01T01:00:00+02:00",
            "values": [
                {"start_date": "2023-06-01T00:00:00+02:00",
                 "end_date": "2023-06-01T01:00:00+02:00",
                 "updated_date": "2023-05-31T18:00:00+02:00",
                 "value": 0}
            ]
        }]
    }"#;
    let resp = decode_generation_body(body).unwrap();
    assert_eq!(resp.forecasts[0].values[0].load_factor, None);
    assert_eq!(resp.forecasts[0].values[0].value, "0");
}

#[test]
fn null_load_factor_decodes_to_absent() {
    let body = r#"{
        "forecasts": [{
            "type": "D-1",
            "production_type": "SOLAR",
            "sub_type": null,
            "start_date": "2023-06-01T00:00:00+02:00",
            "end_date": "2023-06-01T01:00:00+02:00",
            "values": [
                {"start_date": "2023-06-01T00:00:00+02:00",
                 "end_date": "2023-06-01T01:00:00+02:00",
                 "updated_date": "2023-05-31T18:00:00+02:00",
                 "value": 12,
                 "load_factor": null}
            ]
        }]
    }"#;
    let resp = decode_generation_body(body).unwrap();
    assert_eq!(resp.forecasts[0].sub_type, None);
    assert_eq!(resp.forecasts[0].values[0].load_factor, None);
}

#[test]
fn empty_series_array_decodes_without_failing() {
    assert!(decode_generation_body(r#"{"forecasts": []}"#).is_some());
    assert!(decode_short_term_body(r#"{"short_term": []}"#).is_some());
    assert!(decode_weekly_body(r#"{"weekly_forecasts": []}"#).is_some());
}

#[test]
fn unrecognized_production_token_fails_decode() {
    let body = r#"{
        "forecasts": [{
            "type": "D-1",
            "production_type": "TIDAL",
            "start_date": "2023-06-01T00:00:00+02:00",
            "end_date": "2023-06-01T01:00:00+02:00",
            "values": []
        }]
    }"#;
    assert!(decode_generation_body(body).is_none());
}

#[test]
fn malformed_timestamp_fails_decode() {
    let body = r#"{
        "short_term": [{
            "type": "REALISED",
            "start_date": "yesterday",
            "end_date": "2023-06-01T02:00:00+00:00",
            "values": []
        }]
    }"#;
    assert!(decode_short_term_body(body).is_none());
}

#[test]
fn ill_formed_json_fails_decode() {
    assert!(decode_generation_body("{").is_none());
    assert!(decode_short_term_body("").is_none());
    assert!(decode_weekly_body("[1, 2, 3]").is_none());
}
