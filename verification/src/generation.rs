//! The generation-forecast endpoint family: its request enums, its typed
//! response model, the decoder, the query builder, and the tabular
//! projection.

use vstd::prelude::*;

use crate::error::{
    classify_status, is_success_status, spec_classify_status, status_is_success, ApiError,
    ProjectionError,
};
use crate::json::{
    spec_field_arr, spec_field_num, spec_field_opt_num, spec_field_opt_str, spec_field_str,
    spec_field_timestamp, JsonValue,
};
use crate::json::{field_arr, field_num, field_opt_num, field_opt_str, field_str, field_timestamp};
use crate::json::{json_of, parse_json, str_eq};
use crate::time::{qs_view, spec_window_params, DateRange, Timestamp};
use crate::ApiClient;

verus! {

/// Request-side production category; each variant has one fixed wire token.
#[derive(Clone, Copy, Debug, PartialEq, Eq, Structural)]
pub enum ProductionType {
    AggregatedFrance,
    WindOnshore,
    WindOffshore,
    Solar,
    AggregatedCpc,
    Mdse,
}

impl ProductionType {
    /// The documented wire token of the variant.
    pub open spec fn spec_wire_token(self) -> Seq<char> {
        match self {
            ProductionType::AggregatedFrance => "AGGREGATED_FRANCE"@,
            ProductionType::WindOnshore => "WIND_ONSHORE"@,
            ProductionType::WindOffshore => "WIND_OFFSHORE"@,
            ProductionType::Solar => "SOLAR"@,
            ProductionType::AggregatedCpc => "AGGREGATED_CPC"@,
            ProductionType::Mdse => "MDSE"@,
        }
    }

    /// Emits exactly the documented wire token.
    pub fn wire_token(&self) -> (r: String)
        ensures
            r@ == self.spec_wire_token(),
    {
        match self {
            ProductionType::AggregatedFrance => "AGGREGATED_FRANCE".to_owned(),
            ProductionType::WindOnshore => "WIND_ONSHORE".to_owned(),
            ProductionType::WindOffshore => "WIND_OFFSHORE".to_owned(),
            ProductionType::Solar => "SOLAR".to_owned(),
            ProductionType::AggregatedCpc => "AGGREGATED_CPC".to_owned(),
            ProductionType::Mdse => "MDSE".to_owned(),
        }
    }
}

/// Response-side production category.  Deliberately finer-grained than the
/// request side (two MDSE sub-variants, programmable split); the two
/// vocabularies are kept as distinct types with independent token tables.
#[derive(Clone, Copy, Debug, PartialEq, Eq, Structural)]
pub enum ProductionTypeResponse {
    AggregatedProgrammableFrance,
    AggregatedNonProgrammableFrance,
    WindOnshore,
    WindOffshore,
    Solar,
    AggregatedCpc,
    MdseTrf,
    MdseSts,
}

impl ProductionTypeResponse {
    /// The wire token of the variant, in the spelling the server sends.
    pub open spec fn spec_wire_token(self) -> Seq<char> {
        match self {
            ProductionTypeResponse::AggregatedProgrammableFrance => {
                "AGGREGATED_PROGRAMMABLE_FRANCE"@
            },
            ProductionTypeResponse::AggregatedNonProgrammableFrance => {
                "AGGREGATED_NON_PROGRAMMABLE_FRANCE"@
            },
            ProductionTypeResponse::WindOnshore => "WIND_ONSHORE"@,
            ProductionTypeResponse::WindOffshore => "WIND_OFFSHORE"@,
            ProductionTypeResponse::Solar => "SOLAR"@,
            ProductionTypeResponse::AggregatedCpc => "AGGREGATED_CPC"@,
            ProductionTypeResponse::MdseTrf => "MDSETRF"@,
            ProductionTypeResponse::MdseSts => "MDSESTS"@,
        }
    }

    /// The variant a wire token denotes; an unrecognized token is `None`,
    /// never a silent default.
    pub open spec fn spec_from_wire(s: Seq<char>) -> Option<ProductionTypeResponse> {
        if s == "AGGREGATED_PROGRAMMABLE_FRANCE"@ {
            Some(ProductionTypeResponse::AggregatedProgrammableFrance)
        } else if s == "AGGREGATED_NON_PROGRAMMABLE_FRANCE"@ {
            Some(ProductionTypeResponse::AggregatedNonProgrammableFrance)
        } else if s == "WIND_ONSHORE"@ {
            Some(ProductionTypeResponse::WindOnshore)
        } else if s == "WIND_OFFSHORE"@ {
            Some(ProductionTypeResponse::WindOffshore)
        } else if s == "SOLAR"@ {
            Some(ProductionTypeResponse::Solar)
        } else if s == "AGGREGATED_CPC"@ {
            Some(ProductionTypeResponse::AggregatedCpc)
        } else if s == "MDSETRF"@ {
            Some(ProductionTypeResponse::MdseTrf)
        } else if s == "MDSESTS"@ {
            Some(ProductionTypeResponse::MdseSts)
        } else {
            None
        }
    }

    /// Emits the variant's wire token, in the spelling the server sends.
    pub fn wire_token(&self) -> (r: String)
        ensures
            r@ == self.spec_wire_token(),
    {
        match self {
            ProductionTypeResponse::AggregatedProgrammableFrance => {
                "AGGREGATED_PROGRAMMABLE_FRANCE".to_owned()
            },
            ProductionTypeResponse::AggregatedNonProgrammableFrance => {
                "AGGREGATED_NON_PROGRAMMABLE_FRANCE".to_owned()
            },
            ProductionTypeResponse::WindOnshore => "WIND_ONSHORE".to_owned(),
            ProductionTypeResponse::WindOffshore => "WIND_OFFSHORE".to_owned(),
            ProductionTypeResponse::Solar => "SOLAR".to_owned(),
            ProductionTypeResponse::AggregatedCpc => "AGGREGATED_CPC".to_owned(),
            ProductionTypeResponse::MdseTrf => "MDSETRF".to_owned(),
            ProductionTypeResponse::MdseSts => "MDSESTS".to_owned(),
        }
    }

    pub fn from_wire(s: &str) -> (r: Option<ProductionTypeResponse>)
        ensures
            r == Self::spec_from_wire(s@),
    {
        if str_eq(s, "AGGREGATED_PROGRAMMABLE_FRANCE") {
            Some(ProductionTypeResponse::AggregatedProgrammableFrance)
        } else if str_eq(s, "AGGREGATED_NON_PROGRAMMABLE_FRANCE") {
            Some(ProductionTypeResponse::AggregatedNonProgrammableFrance)
        } else if str_eq(s, "WIND_ONSHORE") {
            Some(ProductionTypeResponse::WindOnshore)
        } else if str_eq(s, "WIND_OFFSHORE") {
            Some(ProductionTypeResponse::WindOffshore)
        } else if str_eq(s, "SOLAR") {
            Some(ProductionTypeResponse::Solar)
        } else if str_eq(s, "AGGREGATED_CPC") {
            Some(ProductionTypeResponse::AggregatedCpc)
        } else if str_eq(s, "MDSETRF") {
            Some(ProductionTypeResponse::MdseTrf)
        } else if str_eq(s, "MDSESTS") {
            Some(ProductionTypeResponse::MdseSts)
        } else {
            None
        }
    }
}

/// Decoding a variant's own wire token gives that variant back.
pub proof fn lemma_production_response_round_trip(p: ProductionTypeResponse)
    ensures
        ProductionTypeResponse::spec_from_wire(p.spec_wire_token()) == Some(p),
{
    reveal_strlit("AGGREGATED_PROGRAMMABLE_FRANCE");
    reveal_strlit("AGGREGATED_NON_PROGRAMMABLE_FRANCE");
    reveal_strlit("WIND_ONSHORE");
    reveal_strlit("WIND_OFFSHORE");
    reveal_strlit("SOLAR");
    reveal_strlit("AGGREGATED_CPC");
    reveal_strlit("MDSETRF");
    reveal_strlit("MDSESTS");
    assert("AGGREGATED_PROGRAMMABLE_FRANCE"@.len() == 30);
    assert("AGGREGATED_NON_PROGRAMMABLE_FRANCE"@.len() == 34);
    assert("WIND_ONSHORE"@.len() == 12);
    assert("WIND_OFFSHORE"@.len() == 13);
    assert("SOLAR"@.len() == 5);
    assert("AGGREGATED_CPC"@.len() == 14);
    assert("MDSETRF"@.len() == 7);
    assert("MDSESTS"@.len() == 7);
    assert("MDSETRF"@[4] == 'T');
    assert("MDSESTS"@[4] == 'S');
    match p {
        ProductionTypeResponse::AggregatedProgrammableFrance => {
            assert(ProductionTypeResponse::spec_from_wire(p.spec_wire_token()) == Some(p));
        },
        ProductionTypeResponse::AggregatedNonProgrammableFrance => {
            assert(ProductionTypeResponse::spec_from_wire(p.spec_wire_token()) == Some(p));
        },
        ProductionTypeResponse::WindOnshore => {
            assert(ProductionTypeResponse::spec_from_wire(p.spec_wire_token()) == Some(p));
        },
        ProductionTypeResponse::WindOffshore => {
            assert(ProductionTypeResponse::spec_from_wire(p.spec_wire_token()) == Some(p));
        },
        ProductionTypeResponse::Solar => {
            assert(ProductionTypeResponse::spec_from_wire(p.spec_wire_token()) == Some(p));
        },
        ProductionTypeResponse::AggregatedCpc => {
            assert(ProductionTypeResponse::spec_from_wire(p.spec_wire_token()) == Some(p));
        },
        ProductionTypeResponse::MdseTrf => {
            assert(ProductionTypeResponse::spec_from_wire(p.spec_wire_token()) == Some(p));
        },
        ProductionTypeResponse::MdseSts => {
            assert(ProductionTypeResponse::spec_from_wire(p.spec_wire_token()) == Some(p));
        },
    }
}

/// Forecast horizon of a generation request; one fixed wire token each.
#[derive(Clone, Copy, Debug, PartialEq, Eq, Structural)]
pub enum ForecastType {
    Current,
    Intraday,
    Tomorrow,
    AfterTomorrow,
    AfterAfterTomorrow,
}

impl ForecastType {
    /// The documented wire token of the variant.
    pub open spec fn spec_wire_token(self) -> Seq<char> {
        match self {
            ForecastType::Current => "CURRENT"@,
            ForecastType::Intraday => "ID"@,
            ForecastType::Tomorrow => "D-1"@,
            ForecastType::AfterTomorrow => "D-2"@,
            ForecastType::AfterAfterTomorrow => "D-3"@,
        }
    }

    /// Emits exactly the documented wire token.
    pub fn wire_token(&self) -> (r: String)
        ensures
            r@ == self.spec_wire_token(),
    {
        match self {
            ForecastType::Current => "CURRENT".to_owned(),
            ForecastType::Intraday => "ID".to_owned(),
            ForecastType::Tomorrow => "D-1".to_owned(),
            ForecastType::AfterTomorrow => "D-2".to_owned(),
            ForecastType::AfterAfterTomorrow => "D-3".to_owned(),
        }
    }
}

/// One time bucket of a forecast series.  `load_factor` is present only for
/// the wind categories; absence decodes to no value, never to zero.
#[derive(Debug)]
pub struct ForecastValue {
    pub start_date: Timestamp,
    pub end_date: Timestamp,
    pub updated_date: Timestamp,
    /// The forecast value, as its decimal rendering.
    pub value: String,
    pub load_factor: Option<String>,
}

/// The abstract value of a [`ForecastValue`].
pub struct ForecastValueV {
    pub start_date: Timestamp,
    pub end_date: Timestamp,
    pub updated_date: Timestamp,
    pub value: Seq<char>,
    pub load_factor: Option<Seq<char>>,
}

impl View for ForecastValue {
    type V = ForecastValueV;

    open spec fn view(&self) -> ForecastValueV {
        ForecastValueV {
            start_date: self.start_date,
            end_date: self.end_date,
            updated_date: self.updated_date,
            value: self.value@,
            load_factor: match self.load_factor {
                Some(s) => Some(s@),
                None => None,
            },
        }
    }
}

/// One decoded forecast series.
#[derive(Debug)]
pub struct Forecast {
    pub ty: String,
    pub sub_type: Option<String>,
    pub production_type: ProductionTypeResponse,
    pub start_date: Timestamp,
    pub end_date: Timestamp,
    pub values: Vec<ForecastValue>,
}

/// The abstract value of a [`Forecast`].
pub struct ForecastV {
    pub ty: Seq<char>,
    pub sub_type: Option<Seq<char>>,
    pub production_type: ProductionTypeResponse,
    pub start_date: Timestamp,
    pub end_date: Timestamp,
    pub values: Seq<ForecastValueV>,
}

/// The bucket list of a series, element by element, as abstract values.
pub open spec fn forecast_values_view(s: Seq<ForecastValue>) -> Seq<ForecastValueV> {
    s.map_values(|x: ForecastValue| x@)
}

impl View for Forecast {
    type V = ForecastV;

    open spec fn view(&self) -> ForecastV {
        ForecastV {
            ty: self.ty@,
            sub_type: match self.sub_type {
                Some(s) => Some(s@),
                None => None,
            },
            production_type: self.production_type,
            start_date: self.start_date,
            end_date: self.end_date,
            values: forecast_values_view(self.values@),
        }
    }
}

/// The decoded body of the generation-forecast endpoint.
#[derive(Debug)]
pub struct ForecastResponse {
    pub forecasts: Vec<Forecast>,
}

/// The abstract value of a [`ForecastResponse`].
pub struct ForecastResponseV {
    pub forecasts: Seq<ForecastV>,
}

/// The series list, element by element, as abstract values.
pub open spec fn forecasts_view(s: Seq<Forecast>) -> Seq<ForecastV> {
    s.map_values(|x: Forecast| x@)
}

impl View for ForecastResponse {
    type V = ForecastResponseV;

    open spec fn view(&self) -> ForecastResponseV {
        ForecastResponseV { forecasts: forecasts_view(self.forecasts@) }
    }
}

/// The bucket a JSON value decodes to: an object with the three timestamps,
/// the number `value`, and an optional `load_factor` number.
pub open spec fn spec_decode_forecast_value(v: JsonValue) -> Option<ForecastValueV> {
    match v {
        JsonValue::Obj(fields) => match (
            spec_field_timestamp(fields@, "start_date"@),
            spec_field_timestamp(fields@, "end_date"@),
            spec_field_timestamp(fields@, "updated_date"@),
            spec_field_num(fields@, "value"@),
            spec_field_opt_num(fields@, "load_factor"@),
        ) {
            (
                Some(start_date),
                Some(end_date),
                Some(updated_date),
                Some(value),
                Some(load_factor),
            ) => Some(
                ForecastValueV {
                    start_date,
                    end_date,
                    updated_date,
                    value: value@,
                    load_factor: match load_factor {
                        Some(s) => Some(s@),
                        None => None,
                    },
                },
            ),
            _ => None,
        },
        _ => None,
    }
}

pub fn decode_forecast_value(v: &JsonValue) -> (r: Option<ForecastValue>)
    ensures
        match r {
            Some(x) => spec_decode_forecast_value(*v) == Some(x@),
            None => spec_decode_forecast_value(*v) is None,
        },
{
    let fields = match v {
        JsonValue::Obj(fields) => fields,
        _ => {
            return None;
        },
    };
    let start_date = match field_timestamp(fields, "start_date") {
        Some(t) => t,
        None => {
            return None;
        },
    };
    let end_date = match field_timestamp(fields, "end_date") {
        Some(t) => t,
        None => {
            return None;
        },
    };
    let updated_date = match field_timestamp(fields, "updated_date") {
        Some(t) => t,
        None => {
            return None;
        },
    };
    let value = match field_num(fields, "value") {
        Some(s) => s,
        None => {
            return None;
        },
    };
    let load_factor = match field_opt_num(fields, "load_factor") {
        Some(o) => o,
        None => {
            return None;
        },
    };
    Some(ForecastValue { start_date, end_date, updated_date, value, load_factor })
}

/// The bucket list a JSON array decodes to: every element must decode.
pub open spec fn spec_decode_forecast_values(a: Seq<JsonValue>) -> Option<Seq<ForecastValueV>> {
    if forall|i: int| 0 <= i < a.len() ==> spec_decode_forecast_value(a[i]) is Some {
        Some(Seq::new(a.len(), |i: int| spec_decode_forecast_value(a[i]).unwrap()))
    } else {
        None
    }
}

pub fn decode_forecast_values(a: &Vec<JsonValue>) -> (r: Option<Vec<ForecastValue>>)
    ensures
        match r {
            Some(v) => spec_decode_forecast_values(a@) == Some(forecast_values_view(v@)),
            None => spec_decode_forecast_values(a@) is None,
        },
{
    let mut out: Vec<ForecastValue> = Vec::new();
    let n = a.len();
    let mut i: usize = 0;
    while i < n
        invariant
            n == a@.len(),
            i <= n,
            out@.len() == i,
            forall|j: int|
                0 <= j < i ==> #[trigger] spec_decode_forecast_value(a@[j]) == Some(out@[j]@),
        decreases n - i,
    {
        match decode_forecast_value(&a[i]) {
            Some(x) => {
                out.push(x);
            },
            None => {
                proof {
                    assert(spec_decode_forecast_value(a@[i as int]) is None);
                }
                return None;
            },
        }
        i += 1;
    }
    proof {
        assert(forall|j: int| 0 <= j < a@.len() ==> spec_decode_forecast_value(a@[j]) is Some);
        assert(Seq::new(a@.len(), |j: int| spec_decode_forecast_value(a@[j]).unwrap())
            =~= forecast_values_view(out@));
    }
    Some(out)
}

/// The series a JSON value decodes to: an object whose `production_type`
/// token must be recognized and whose `values` must all decode.
pub open spec fn spec_decode_forecast(v: JsonValue) -> Option<ForecastV> {
    match v {
        JsonValue::Obj(fields) => match (
            spec_field_str(fields@, "type"@),
            spec_field_opt_str(fields@, "sub_type"@),
            spec_field_str(fields@, "production_type"@),
            spec_field_timestamp(fields@, "start_date"@),
            spec_field_timestamp(fields@, "end_date"@),
            spec_field_arr(fields@, "values"@),
        ) {
            (Some(ty), Some(sub_type), Some(pt), Some(start_date), Some(end_date), Some(vals)) => {
                match (
                    ProductionTypeResponse::spec_from_wire(pt@),
                    spec_decode_forecast_values(vals),
                ) {
                    (Some(production_type), Some(values)) => Some(
                        ForecastV {
                            ty: ty@,
                            sub_type: match sub_type {
                                Some(s) => Some(s@),
                                None => None,
                            },
                            production_type,
                            start_date,
                            end_date,
                            values,
                        },
                    ),
                    _ => None,
                }
            },
            _ => None,
        },
        _ => None,
    }
}

pub fn decode_forecast(v: &JsonValue) -> (r: Option<Forecast>)
    ensures
        match r {
            Some(x) => spec_decode_forecast(*v) == Some(x@),
            None => spec_decode_forecast(*v) is None,
        },
{
    let fields = match v {
        JsonValue::Obj(fields) => fields,
        _ => {
            return None;
        },
    };
    let ty = match field_str(fields, "type") {
        Some(s) => s,
        None => {
            return None;
        },
    };
    let sub_type = match field_opt_str(fields, "sub_type") {
        Some(o) => o,
        None => {
            return None;
        },
    };
    let pt_token = match field_str(fields, "production_type") {
        Some(s) => s,
        None => {
            return None;
        },
    };
    let start_date = match field_timestamp(fields, "start_date") {
        Some(t) => t,
        None => {
            return None;
        },
    };
    let end_date = match field_timestamp(fields, "end_date") {
        Some(t) => t,
        None => {
            return None;
        },
    };
    let vals = match field_arr(fields, "values") {
        Some(a) => a,
        None => {
            return None;
        },
    };
    let production_type = match ProductionTypeResponse::from_wire(pt_token.as_str()) {
        Some(p) => p,
        None => {
            return None;
        },
    };
    let values = match decode_forecast_values(vals) {
        Some(v) => v,
        None => {
            return None;
        },
    };
    Some(Forecast { ty, sub_type, production_type, start_date, end_date, values })
}

/// The series list a JSON array decodes to: every element must decode.
pub open spec fn spec_decode_forecasts(a: Seq<JsonValue>) -> Option<Seq<ForecastV>> {
    if forall|i: int| 0 <= i < a.len() ==> spec_decode_forecast(a[i]) is Some {
        Some(Seq::new(a.len(), |i: int| spec_decode_forecast(a[i]).unwrap()))
    } else {
        None
    }
}

pub fn decode_forecasts(a: &Vec<JsonValue>) -> (r: Option<Vec<Forecast>>)
    ensures
        match r {
            Some(v) => spec_decode_forecasts(a@) == Some(forecasts_view(v@)),
            None => spec_decode_forecasts(a@) is None,
        },
{
    let mut out: Vec<Forecast> = Vec::new();
    let n = a.len();
    let mut i: usize = 0;
    while i < n
        invariant
            n == a@.len(),
            i <= n,
            out@.len() == i,
            forall|j: int| 0 <= j < i ==> #[trigger] spec_decode_forecast(a@[j]) == Some(out@[j]@),
        decreases n - i,
    {
        match decode_forecast(&a[i]) {
            Some(x) => {
                out.push(x);
            },
            None => {
                proof {
                    assert(spec_decode_forecast(a@[i as int]) is None);
                }
                return None;
            },
        }
        i += 1;
    }
    proof {
        assert(forall|j: int| 0 <= j < a@.len() ==> spec_decode_forecast(a@[j]) is Some);
        assert(Seq::new(a@.len(), |j: int| spec_decode_forecast(a@[j]).unwrap()) =~= forecasts_view(
            out@,
        ));
    }
    Some(out)
}

/// The response a JSON document decodes to: an object holding the series
/// array under `forecasts`.
pub open spec fn spec_decode_forecast_response(v: JsonValue) -> Option<ForecastResponseV> {
    match v {
        JsonValue::Obj(fields) => match spec_field_arr(fields@, "forecasts"@) {
            Some(a) => match spec_decode_forecasts(a) {
                Some(fs) => Some(ForecastResponseV { forecasts: fs }),
                None => None,
            },
            None => None,
        },
        _ => None,
    }
}

pub fn decode_forecast_response(v: &JsonValue) -> (r: Option<ForecastResponse>)
    ensures
        match r {
            Some(x) => spec_decode_forecast_response(*v) == Some(x@),
            None => spec_decode_forecast_response(*v) is None,
        },
{
    let fields = match v {
        JsonValue::Obj(fields) => fields,
        _ => {
            return None;
        },
    };
    let a = match field_arr(fields, "forecasts") {
        Some(a) => a,
        None => {
            return None;
        },
    };
    match decode_forecasts(a) {
        Some(fs) => Some(ForecastResponse { forecasts: fs }),
        None => None,
    }
}

/// The response a raw body decodes to: well-formed JSON of the expected
/// shape, with every enum token recognized and every timestamp well-formed.
pub open spec fn spec_decode_generation_body(body: Seq<char>) -> Option<ForecastResponseV> {
    match json_of(body) {
        Some(v) => spec_decode_forecast_response(v),
        None => None,
    }
}

pub fn decode_generation_body(body: &str) -> (r: Option<ForecastResponse>)
    ensures
        match r {
            Some(x) => spec_decode_generation_body(body@) == Some(x@),
            None => spec_decode_generation_body(body@) is None,
        },
{
    match parse_json(body) {
        Some(v) => decode_forecast_response(&v),
        None => None,
    }
}

/// The generation query: the production-category parameter first where
/// supplied, then the horizon parameter, then the two window parameters.
/// Absent options are omitted, never sent empty.
pub open spec fn spec_generation_query(
    production_type: Option<ProductionType>,
    forecast_type: Option<ForecastType>,
    date_range: Option<DateRange>,
) -> Seq<(Seq<char>, Seq<char>)> {
    (match production_type {
        Some(p) => seq![("production_type"@, p.spec_wire_token())],
        None => seq![],
    }) + (match forecast_type {
        Some(f) => seq![("type"@, f.spec_wire_token())],
        None => seq![],
    }) + (match date_range {
        Some(d) => spec_window_params(d),
        None => seq![],
    })
}

pub fn build_generation_query(
    production_type: Option<ProductionType>,
    forecast_type: Option<ForecastType>,
    date_range: Option<DateRange>,
) -> (q: Vec<(String, String)>)
    ensures
        qs_view(q@) == spec_generation_query(production_type, forecast_type, date_range),
{
    let mut q: Vec<(String, String)> = Vec::new();
    if let Some(p) = production_type {
        q.push(("production_type".to_owned(), p.wire_token()));
    }
    if let Some(f) = forecast_type {
        q.push(("type".to_owned(), f.wire_token()));
    }
    if let Some(d) = date_range {
        let mut w = d.to_query_string();
        q.append(&mut w);
    }
    proof {
        assert(qs_view(q@) =~= spec_generation_query(production_type, forecast_type, date_range));
    }
    q
}

/// What the generation endpoint returns for a completed round trip with
/// status `status` and body `body`: non-success statuses are classified and
/// decoding is not attempted; a success status is decoded, and a body that
/// does not decode fails with the endpoint path and the raw body.
pub open spec fn generation_outcome(
    status: u16,
    body: Seq<char>,
    r: Result<ForecastResponse, ApiError>,
) -> bool {
    &&& !is_success_status(status) ==> r == Err::<ForecastResponse, ApiError>(
        ApiError::Status(spec_classify_status(status)),
    )
    &&& is_success_status(status) ==> match spec_decode_generation_body(body) {
        Some(m) => r matches Ok(resp) && resp@ == m,
        None => r matches Err(ApiError::DecodeFailed { context, raw_body }) && context@
            == "/open_api/generation_forecast/v2/forecasts"@ && raw_body@ == body,
    }
}

/// Turns one completed round trip into the endpoint's result.
pub fn handle_generation_response(status: u16, body: String) -> (r: Result<
    ForecastResponse,
    ApiError,
>)
    ensures
        generation_outcome(status, body@, r),
{
    if !status_is_success(status) {
        return Err(ApiError::Status(classify_status(status)));
    }
    match decode_generation_body(body.as_str()) {
        Some(m) => Ok(m),
        None => Err(
            ApiError::DecodeFailed {
                context: "/open_api/generation_forecast/v2/forecasts".to_owned(),
                raw_body: body,
            },
        ),
    }
}

/// A series whose `production_type` token is not in the table fails to
/// decode, whatever its other fields hold: an unrecognized token is never
/// silently defaulted.
pub proof fn lemma_unrecognized_token_fails_decode(v: JsonValue, pt: String)
    requires
        v matches JsonValue::Obj(fields) && spec_field_str(fields@, "production_type"@) == Some(
            pt,
        ),
        ProductionTypeResponse::spec_from_wire(pt@) is None,
    ensures
        spec_decode_forecast(v) is None,
{
}

/// A 401 round trip fails as `InvalidCredentials` whatever the body holds:
/// the body is never consulted on a non-success status.
pub proof fn lemma_unauthorized_outcome(body: Seq<char>, r: Result<ForecastResponse, ApiError>)
    requires
        generation_outcome(401, body, r),
    ensures
        r == Err::<ForecastResponse, ApiError>(
            ApiError::Status(crate::error::StatusError::InvalidCredentials),
        ),
{
}

/// The generation-forecast endpoint, bound to an injected HTTP capability.
pub struct GenerationForecast<'a, C: ApiClient> {
    client: &'a C,
}

impl<'a, C: ApiClient> GenerationForecast<'a, C> {
    pub fn new(client: &'a C) -> Self {
        GenerationForecast { client }
    }

    /// Builds the typed query, performs one authenticated GET, and either
    /// propagates the transport failure or handles the round trip as
    /// [`generation_outcome`] states.
    pub fn short_term(
        &self,
        production_type: Option<ProductionType>,
        forecast_type: Option<ForecastType>,
        date_range: Option<DateRange>,
    ) -> (r: Result<ForecastResponse, ApiError>)
        ensures
            (r matches Err(e) && e matches ApiError::Transport(_)) || (exists|
                status: u16,
                body: Seq<char>,
            | #[trigger] generation_outcome(status, body, r)),
    {
        let q = build_generation_query(production_type, forecast_type, date_range);
        match self.client.http_get("/open_api/generation_forecast/v2/forecasts", q.as_slice()) {
            Err(e) => Err(ApiError::Transport(e)),
            Ok(resp) => {
                let status = resp.status;
                let ghost b: Seq<char> = resp.body@;
                let out = handle_generation_response(status, resp.body);
                proof {
                    assert(generation_outcome(status, b, out));
                }
                out
            },
        }
    }
}

/// One row per bucket of a selected series: strict structural flattening,
/// with `load_factor` kept as decoded (no value where the series has none).
impl Forecast {
    /// The projection of this series: its buckets, one row each.  An empty
    /// bucket list is an error, never a silently empty table.
    pub fn as_table(&self) -> (r: Result<Vec<ForecastValue>, ProjectionError>)
        ensures
            self.values@.len() == 0 ==> r == Err::<Vec<ForecastValue>, ProjectionError>(
                ProjectionError::EmptySeries,
            ),
            self.values@.len() > 0 ==> (r matches Ok(rows) && rows@ == self.values@),
    {
        if self.values.len() == 0 {
            return Err(ProjectionError::EmptySeries);
        }
        let mut rows: Vec<ForecastValue> = Vec::new();
        let n = self.values.len();
        let mut i: usize = 0;
        while i < n
            invariant
                n == self.values@.len(),
                i <= n,
                rows@.len() == i,
                forall|j: int| 0 <= j < i ==> rows@[j] == self.values@[j],
            decreases n - i,
        {
            rows.push(clone_forecast_value(&self.values[i]));
            i += 1;
        }
        proof {
            assert(rows@ =~= self.values@);
        }
        Ok(rows)
    }
}

fn clone_forecast_value(x: &ForecastValue) -> (r: ForecastValue)
    ensures
        r == *x,
{
    ForecastValue {
        start_date: x.start_date,
        end_date: x.end_date,
        updated_date: x.updated_date,
        value: x.value.clone(),
        load_factor: match &x.load_factor {
            Some(s) => Some(s.clone()),
            None => None,
        },
    }
}

} // verus!
