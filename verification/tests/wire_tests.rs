use rte_api::consumption::ShortTermForecastType;
use rte_api::generation::{ForecastType, ProductionType, ProductionTypeResponse};

#[test]
fn production_type_tokens_are_exact() {
    assert_eq!(ProductionType::AggregatedFrance.wire_token(), "AGGREGATED_FRANCE");
    assert_eq!(ProductionType::WindOnshore.wire_token(), "WIND_ONSHORE");
    assert_eq!(ProductionType::WindOffshore.wire_token(), "WIND_OFFSHORE");
    assert_eq!(ProductionType::Solar.wire_token(), "SOLAR");
    assert_eq!(ProductionType::AggregatedCpc.wire_token(), "AGGREGATED_CPC");
    assert_eq!(ProductionType::Mdse.wire_token(), "MDSE");
}

#[test]
fn forecast_type_tokens_are_exact() {
    assert_eq!(ForecastType::Current.wire_token(), "CURRENT");
    assert_eq!(ForecastType::Intraday.wire_token(), "ID");
    assert_eq!(ForecastType::Tomorrow.wire_token(), "D-1");
    assert_eq!(ForecastType::AfterTomorrow.wire_token(), "D-2");
    assert_eq!(ForecastType::AfterAfterTomorrow.wire_token(), "D-3");
}

#[test]
fn short_term_forecast_type_tokens_are_exact() {
    assert_eq!(ShortTermForecastType::Realised.wire_token(), "REALISED");
    assert_eq!(ShortTermForecastType::Intraday.wire_token(), "ID");
    assert_eq!(ShortTermForecastType::Tomorrow.wire_token(), "D-1");
    assert_eq!(ShortTermForecastType::DayAfterTomorrow.wire_token(), "D-2");
}

#[test]
fn production_response_tokens_are_exact() {
    assert_eq!(
        ProductionTypeResponse::AggregatedProgrammableFrance.wire_token(),
        "AGGREGATED_PROGRAMMABLE_FRANCE"
    );
    assert_eq!(
        ProductionTypeResponse::AggregatedNonProgrammableFrance.wire_token(),
        "AGGREGATED_NON_PROGRAMMABLE_FRANCE"
    );
    assert_eq!(ProductionTypeResponse::WindOnshore.wire_token(), "WIND_ONSHORE");
    assert_eq!(ProductionTypeResponse::WindOffshore.wire_token(), "WIND_OFFSHORE");
    assert_eq!(ProductionTypeResponse::Solar.wire_token(), "SOLAR");
    assert_eq!(ProductionTypeResponse::AggregatedCpc.wire_token(), "AGGREGATED_CPC");
    assert_eq!(ProductionTypeResponse::MdseTrf.wire_token(), "MDSETRF");
    assert_eq!(ProductionTypeResponse::MdseSts.wire_token(), "MDSESTS");
}

#[test]
fn production_response_round_trip_is_identity() {
    let all = [
        ProductionTypeResponse::AggregatedProgrammableFrance,
        ProductionTypeResponse::AggregatedNonProgrammableFrance,
        ProductionTypeResponse::WindOnshore,
        ProductionTypeResponse::WindOffshore,
        ProductionTypeResponse::Solar,
        ProductionTypeResponse::AggregatedCpc,
        ProductionTypeResponse::MdseTrf,
        ProductionTypeResponse::MdseSts,
    ];
    for p in all {
        assert_eq!(ProductionTypeResponse::from_wire(&p.wire_token()), Some(p));
    }
}

#[test]
fn unknown_token_never_defaults() {
    assert_eq!(ProductionTypeResponse::from_wire("SOLAR_PLUS"), None);
    assert_eq!(ProductionTypeResponse::from_wire("solar"), None);
    assert_eq!(ProductionTypeResponse::from_wire(""), None);
    assert_eq!(ProductionTypeResponse::from_wire("MDSE"), None);
}
