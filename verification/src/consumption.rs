//! The consumption endpoint family: the short-term forecast and the weekly
//! forecast, each with its typed response model, decoder, query builder,
//! and tabular projection.

use vstd::prelude::*;

use crate::error::{
    classify_status, is_success_status, spec_classify_status, status_is_success, ApiError,
    ProjectionError,
};
use crate::json::{
    spec_field_arr, spec_field_num, spec_field_str, spec_field_timestamp, JsonValue,
};
use crate::json::{field_arr, field_num, field_str, field_timestamp};
use crate::json::{json_of, parse_json};
use crate::time::{qs_view, spec_window_params, DateRange, Timestamp};
use crate::ApiClient;

verus! {

/// Horizon of a short-term consumption request; one fixed wire token each.
#[derive(Clone, Copy, Debug, PartialEq, Eq, Structural)]
pub enum ShortTermForecastType {
    /// Realised consumption rather than a forecast.
    Realised,
    /// Intra-day forecast.
    Intraday,
    /// Next-day forecast.
    Tomorrow,
    /// Day-after-next forecast.
    DayAfterTomorrow,
}

impl ShortTermForecastType {
    /// The documented wire token of the variant.
    pub open spec fn spec_wire_token(self) -> Seq<char> {
        match self {
            ShortTermForecastType::Realised => "REALISED"@,
            ShortTermForecastType::Intraday => "ID"@,
            ShortTermForecastType::Tomorrow => "D-1"@,
            ShortTermForecastType::DayAfterTomorrow => "D-2"@,
        }
    }

    /// Emits exactly the documented wire token.
    pub fn wire_token(&self) -> (r: String)
        ensures
            r@ == self.spec_wire_token(),
    {
        match self {
            ShortTermForecastType::Realised => "REALISED".to_owned(),
            ShortTermForecastType::Intraday => "ID".to_owned(),
            ShortTermForecastType::Tomorrow => "D-1".to_owned(),
            ShortTermForecastType::DayAfterTomorrow => "D-2".to_owned(),
        }
    }
}

/// One time bucket of a short-term series.
#[derive(Debug)]
pub struct ShortTermValue {
    pub start_date: Timestamp,
    pub end_date: Timestamp,
    pub updated_date: Timestamp,
    /// The consumption value, as its decimal rendering.
    pub value: String,
}

/// The abstract value of a [`ShortTermValue`].
pub struct ShortTermValueV {
    pub start_date: Timestamp,
    pub end_date: Timestamp,
    pub updated_date: Timestamp,
    pub value: Seq<char>,
}

impl View for ShortTermValue {
    type V = ShortTermValueV;

    open spec fn view(&self) -> ShortTermValueV {
        ShortTermValueV {
            start_date: self.start_date,
            end_date: self.end_date,
            updated_date: self.updated_date,
            value: self.value@,
        }
    }
}

/// One decoded short-term series.
#[derive(Debug)]
pub struct ShortTerm {
    pub ty: String,
    pub start_date: Timestamp,
    pub end_date: Timestamp,
    pub values: Vec<ShortTermValue>,
}

/// The abstract value of a [`ShortTerm`].
pub struct ShortTermV {
    pub ty: Seq<char>,
    pub start_date: Timestamp,
    pub end_date: Timestamp,
    pub values: Seq<ShortTermValueV>,
}

/// The bucket list of a series, element by element, as abstract values.
pub open spec fn short_term_values_view(s: Seq<ShortTermValue>) -> Seq<ShortTermValueV> {
    s.map_values(|x: ShortTermValue| x@)
}

impl View for ShortTerm {
    type V = ShortTermV;

    open spec fn view(&self) -> ShortTermV {
        ShortTermV {
            ty: self.ty@,
            start_date: self.start_date,
            end_date: self.end_date,
            values: short_term_values_view(self.values@),
        }
    }
}

/// The decoded body of the short-term consumption endpoint.
#[derive(Debug)]
pub struct ShortTermResponse {
    pub short_term: Vec<ShortTerm>,
}

/// The abstract value of a [`ShortTermResponse`].
pub struct ShortTermResponseV {
    pub short_term: Seq<ShortTermV>,
}

/// The series list, element by element, as abstract values.
pub open spec fn short_terms_view(s: Seq<ShortTerm>) -> Seq<ShortTermV> {
    s.map_values(|x: ShortTerm| x@)
}

impl View for ShortTermResponse {
    type V = ShortTermResponseV;

    open spec fn view(&self) -> ShortTermResponseV {
        ShortTermResponseV { short_term: short_terms_view(self.short_term@) }
    }
}

/// The bucket a JSON value decodes to: the three timestamps and the number.
pub open spec fn spec_decode_short_term_value(v: JsonValue) -> Option<ShortTermValueV> {
    match v {
        JsonValue::Obj(fields) => match (
            spec_field_timestamp(fields@, "start_date"@),
            spec_field_timestamp(fields@, "end_date"@),
            spec_field_timestamp(fields@, "updated_date"@),
            spec_field_num(fields@, "value"@),
        ) {
            (Some(start_date), Some(end_date), Some(updated_date), Some(value)) => Some(
                ShortTermValueV { start_date, end_date, updated_date, value: value@ },
            ),
            _ => None,
        },
        _ => None,
    }
}

pub fn decode_short_term_value(v: &JsonValue) -> (r: Option<ShortTermValue>)
    ensures
        match r {
            Some(x) => spec_decode_short_term_value(*v) == Some(x@),
            None => spec_decode_short_term_value(*v) is None,
        },
{
    let fields = match v {
        JsonValue::Obj(fields) => fields,
        _ => {
            return None;
        },
    };
    let start_date = match field_timestamp(fields, "start_date") {
        Some(t) => t,
        None => {
            return None;
        },
    };
    let end_date = match field_timestamp(fields, "end_date") {
        Some(t) => t,
        None => {
            return None;
        },
    };
    let updated_date = match field_timestamp(fields, "updated_date") {
        Some(t) => t,
        None => {
            return None;
        },
    };
    let value = match field_num(fields, "value") {
        Some(s) => s,
        None => {
            return None;
        },
    };
    Some(ShortTermValue { start_date, end_date, updated_date, value })
}

/// The bucket list a JSON array decodes to: every element must decode.
pub open spec fn spec_decode_short_term_values(a: Seq<JsonValue>) -> Option<Seq<ShortTermValueV>> {
    if forall|i: int| 0 <= i < a.len() ==> spec_decode_short_term_value(a[i]) is Some {
        Some(Seq::new(a.len(), |i: int| spec_decode_short_term_value(a[i]).unwrap()))
    } else {
        None
    }
}

pub fn decode_short_term_values(a: &Vec<JsonValue>) -> (r: Option<Vec<ShortTermValue>>)
    ensures
        match r {
            Some(v) => spec_decode_short_term_values(a@) == Some(short_term_values_view(v@)),
            None => spec_decode_short_term_values(a@) is None,
        },
{
    let mut out: Vec<ShortTermValue> = Vec::new();
    let n = a.len();
    let mut i: usize = 0;
    while i < n
        invariant
            n == a@.len(),
            i <= n,
            out@.len() == i,
            forall|j: int|
                0 <= j < i ==> #[trigger] spec_decode_short_term_value(a@[j]) == Some(out@[j]@),
        decreases n - i,
    {
        match decode_short_term_value(&a[i]) {
            Some(x) => {
                out.push(x);
            },
            None => {
                proof {
                    assert(spec_decode_short_term_value(a@[i as int]) is None);
                }
                return None;
            },
        }
        i += 1;
    }
    proof {
        assert(forall|j: int| 0 <= j < a@.len() ==> spec_decode_short_term_value(a@[j]) is Some);
        assert(Seq::new(a@.len(), |j: int| spec_decode_short_term_value(a@[j]).unwrap())
            =~= short_term_values_view(out@));
    }
    Some(out)
}

/// The series a JSON value decodes to: the `type` string, the window, and
/// the bucket list.
pub open spec fn spec_decode_short_term(v: JsonValue) -> Option<ShortTermV> {
    match v {
        JsonValue::Obj(fields) => match (
            spec_field_str(fields@, "type"@),
            spec_field_timestamp(fields@, "start_date"@),
            spec_field_timestamp(fields@, "end_date"@),
            spec_field_arr(fields@, "values"@),
        ) {
            (Some(ty), Some(start_date), Some(end_date), Some(vals)) => match
                spec_decode_short_term_values(vals) {
                Some(values) => Some(ShortTermV { ty: ty@, start_date, end_date, values }),
                None => None,
            },
            _ => None,
        },
        _ => None,
    }
}

pub fn decode_short_term(v: &JsonValue) -> (r: Option<ShortTerm>)
    ensures
        match r {
            Some(x) => spec_decode_short_term(*v) == Some(x@),
            None => spec_decode_short_term(*v) is None,
        },
{
    let fields = match v {
        JsonValue::Obj(fields) => fields,
        _ => {
            return None;
        },
    };
    let ty = match field_str(fields, "type") {
        Some(s) => s,
        None => {
            return None;
        },
    };
    let start_date = match field_timestamp(fields, "start_date") {
        Some(t) => t,
        None => {
            return None;
        },
    };
    let end_date = match field_timestamp(fields, "end_date") {
        Some(t) => t,
        None => {
            return None;
        },
    };
    let vals = match field_arr(fields, "values") {
        Some(a) => a,
        None => {
            return None;
        },
    };
    let values = match decode_short_term_values(vals) {
        Some(v) => v,
        None => {
            return None;
        },
    };
    Some(ShortTerm { ty, start_date, end_date, values })
}

/// The series list a JSON array decodes to: every element must decode.
pub open spec fn spec_decode_short_terms(a: Seq<JsonValue>) -> Option<Seq<ShortTermV>> {
    if forall|i: int| 0 <= i < a.len() ==> spec_decode_short_term(a[i]) is Some {
        Some(Seq::new(a.len(), |i: int| spec_decode_short_term(a[i]).unwrap()))
    } else {
        None
    }
}

pub fn decode_short_terms(a: &Vec<JsonValue>) -> (r: Option<Vec<ShortTerm>>)
    ensures
        match r {
            Some(v) => spec_decode_short_terms(a@) == Some(short_terms_view(v@)),
            None => spec_decode_short_terms(a@) is None,
        },
{
    let mut out: Vec<ShortTerm> = Vec::new();
    let n = a.len();
    let mut i: usize = 0;
    while i < n
        invariant
            n == a@.len(),
            i <= n,
            out@.len() == i,
            forall|j: int| 0 <= j < i ==> #[trigger] spec_decode_short_term(a@[j]) == Some(
                out@[j]@,
            ),
        decreases n - i,
    {
        match decode_short_term(&a[i]) {
            Some(x) => {
                out.push(x);
            },
            None => {
                proof {
                    assert(spec_decode_short_term(a@[i as int]) is None);
                }
                return None;
            },
        }
        i += 1;
    }
    proof {
        assert(forall|j: int| 0 <= j < a@.len() ==> spec_decode_short_term(a@[j]) is Some);
        assert(Seq::new(a@.len(), |j: int| spec_decode_short_term(a@[j]).unwrap())
            =~= short_terms_view(out@));
    }
    Some(out)
}

/// The response a JSON document decodes to: the series array under
/// `short_term`.
pub open spec fn spec_decode_short_term_response(v: JsonValue) -> Option<ShortTermResponseV> {
    match v {
        JsonValue::Obj(fields) => match spec_field_arr(fields@, "short_term"@) {
            Some(a) => match spec_decode_short_terms(a) {
                Some(sts) => Some(ShortTermResponseV { short_term: sts }),
                None => None,
            },
            None => None,
        },
        _ => None,
    }
}

pub fn decode_short_term_response(v: &JsonValue) -> (r: Option<ShortTermResponse>)
    ensures
        match r {
            Some(x) => spec_decode_short_term_response(*v) == Some(x@),
            None => spec_decode_short_term_response(*v) is None,
        },
{
    let fields = match v {
        JsonValue::Obj(fields) => fields,
        _ => {
            return None;
        },
    };
    let a = match field_arr(fields, "short_term") {
        Some(a) => a,
        None => {
            return None;
        },
    };
    match decode_short_terms(a) {
        Some(sts) => Some(ShortTermResponse { short_term: sts }),
        None => None,
    }
}

/// The short-term response a raw body decodes to.
pub open spec fn spec_decode_short_term_body(body: Seq<char>) -> Option<ShortTermResponseV> {
    match json_of(body) {
        Some(v) => spec_decode_short_term_response(v),
        None => None,
    }
}

pub fn decode_short_term_body(body: &str) -> (r: Option<ShortTermResponse>)
    ensures
        match r {
            Some(x) => spec_decode_short_term_body(body@) == Some(x@),
            None => spec_decode_short_term_body(body@) is None,
        },
{
    match parse_json(body) {
        Some(v) => decode_short_term_response(&v),
        None => None,
    }
}

/// One time bucket of a weekly forecast; buckets carry no update timestamp
/// of their own (the day-level record does).
#[derive(Debug)]
pub struct WeeklyForecastValue {
    pub start_date: Timestamp,
    pub end_date: Timestamp,
    /// The forecast value, as its decimal rendering.
    pub value: String,
}

/// The abstract value of a [`WeeklyForecastValue`].
pub struct WeeklyForecastValueV {
    pub start_date: Timestamp,
    pub end_date: Timestamp,
    pub value: Seq<char>,
}

impl View for WeeklyForecastValue {
    type V = WeeklyForecastValueV;

    open spec fn view(&self) -> WeeklyForecastValueV {
        WeeklyForecastValueV {
            start_date: self.start_date,
            end_date: self.end_date,
            value: self.value@,
        }
    }
}

/// The peak record of one weekly day-series.
#[derive(Debug)]
pub struct PeakForecast {
    pub peak_hour: Timestamp,
    pub value: String,
    pub temperature: String,
    pub temperature_deviation: String,
}

/// The abstract value of a [`PeakForecast`].
pub struct PeakForecastV {
    pub peak_hour: Timestamp,
    pub value: Seq<char>,
    pub temperature: Seq<char>,
    pub temperature_deviation: Seq<char>,
}

impl View for PeakForecast {
    type V = PeakForecastV;

    open spec fn view(&self) -> PeakForecastV {
        PeakForecastV {
            peak_hour: self.peak_hour,
            value: self.value@,
            temperature: self.temperature@,
            temperature_deviation: self.temperature_deviation@,
        }
    }
}

/// One decoded weekly day-series.
#[derive(Debug)]
pub struct WeeklyForecast {
    pub start_date: Timestamp,
    pub end_date: Timestamp,
    pub updated_date: Timestamp,
    pub peak: PeakForecast,
    pub values: Vec<WeeklyForecastValue>,
}

/// The abstract value of a [`WeeklyForecast`].
pub struct WeeklyForecastV {
    pub start_date: Timestamp,
    pub end_date: Timestamp,
    pub updated_date: Timestamp,
    pub peak: PeakForecastV,
    pub values: Seq<WeeklyForecastValueV>,
}

/// The bucket list of a day-series, element by element, as abstract values.
pub open spec fn weekly_values_view(s: Seq<WeeklyForecastValue>) -> Seq<WeeklyForecastValueV> {
    s.map_values(|x: WeeklyForecastValue| x@)
}

impl View for WeeklyForecast {
    type V = WeeklyForecastV;

    open spec fn view(&self) -> WeeklyForecastV {
        WeeklyForecastV {
            start_date: self.start_date,
            end_date: self.end_date,
            updated_date: self.updated_date,
            peak: self.peak@,
            values: weekly_values_view(self.values@),
        }
    }
}

/// The decoded body of the weekly-forecast endpoint.
#[derive(Debug)]
pub struct WeeklyForecastResponse {
    pub weekly_forecasts: Vec<WeeklyForecast>,
}

/// The abstract value of a [`WeeklyForecastResponse`].
pub struct WeeklyForecastResponseV {
    pub weekly_forecasts: Seq<WeeklyForecastV>,
}

/// The day-series list, element by element, as abstract values.
pub open spec fn weekly_forecasts_view(s: Seq<WeeklyForecast>) -> Seq<WeeklyForecastV> {
    s.map_values(|x: WeeklyForecast| x@)
}

impl View for WeeklyForecastResponse {
    type V = WeeklyForecastResponseV;

    open spec fn view(&self) -> WeeklyForecastResponseV {
        WeeklyForecastResponseV { weekly_forecasts: weekly_forecasts_view(self.weekly_forecasts@) }
    }
}

/// The bucket a JSON value decodes to: the two timestamps and the number.
pub open spec fn spec_decode_weekly_value(v: JsonValue) -> Option<WeeklyForecastValueV> {
    match v {
        JsonValue::Obj(fields) => match (
            spec_field_timestamp(fields@, "start_date"@),
            spec_field_timestamp(fields@, "end_date"@),
            spec_field_num(fields@, "value"@),
        ) {
            (Some(start_date), Some(end_date), Some(value)) => Some(
                WeeklyForecastValueV { start_date, end_date, value: value@ },
            ),
            _ => None,
        },
        _ => None,
    }
}

pub fn decode_weekly_value(v: &JsonValue) -> (r: Option<WeeklyForecastValue>)
    ensures
        match r {
            Some(x) => spec_decode_weekly_value(*v) == Some(x@),
            None => spec_decode_weekly_value(*v) is None,
        },
{
    let fields = match v {
        JsonValue::Obj(fields) => fields,
        _ => {
            return None;
        },
    };
    let start_date = match field_timestamp(fields, "start_date") {
        Some(t) => t,
        None => {
            return None;
        },
    };
    let end_date = match field_timestamp(fields, "end_date") {
        Some(t) => t,
        None => {
            return None;
        },
    };
    let value = match field_num(fields, "value") {
        Some(s) => s,
        None => {
            return None;
        },
    };
    Some(WeeklyForecastValue { start_date, end_date, value })
}

/// The bucket list a JSON array decodes to: every element must decode.
pub open spec fn spec_decode_weekly_values(a: Seq<JsonValue>) -> Option<Seq<WeeklyForecastValueV>> {
    if forall|i: int| 0 <= i < a.len() ==> spec_decode_weekly_value(a[i]) is Some {
        Some(Seq::new(a.len(), |i: int| spec_decode_weekly_value(a[i]).unwrap()))
    } else {
        None
    }
}

pub fn decode_weekly_values(a: &Vec<JsonValue>) -> (r: Option<Vec<WeeklyForecastValue>>)
    ensures
        match r {
            Some(v) => spec_decode_weekly_values(a@) == Some(weekly_values_view(v@)),
            None => spec_decode_weekly_values(a@) is None,
        },
{
    let mut out: Vec<WeeklyForecastValue> = Vec::new();
    let n = a.len();
    let mut i: usize = 0;
    while i < n
        invariant
            n == a@.len(),
            i <= n,
            out@.len() == i,
            forall|j: int|
                0 <= j < i ==> #[trigger] spec_decode_weekly_value(a@[j]) == Some(out@[j]@),
        decreases n - i,
    {
        match decode_weekly_value(&a[i]) {
            Some(x) => {
                out.push(x);
            },
            None => {
                proof {
                    assert(spec_decode_weekly_value(a@[i as int]) is None);
                }
                return None;
            },
        }
        i += 1;
    }
    proof {
        assert(forall|j: int| 0 <= j < a@.len() ==> spec_decode_weekly_value(a@[j]) is Some);
        assert(Seq::new(a@.len(), |j: int| spec_decode_weekly_value(a@[j]).unwrap())
            =~= weekly_values_view(out@));
    }
    Some(out)
}

/// The peak record a JSON value decodes to: the peak hour and three
/// numbers.
pub open spec fn spec_decode_peak(v: JsonValue) -> Option<PeakForecastV> {
    match v {
        JsonValue::Obj(fields) => match (
            spec_field_timestamp(fields@, "peak_hour"@),
            spec_field_num(fields@, "value"@),
            spec_field_num(fields@, "temperature"@),
            spec_field_num(fields@, "temperature_deviation"@),
        ) {
            (Some(peak_hour), Some(value), Some(temperature), Some(temperature_deviation)) => Some(
                PeakForecastV {
                    peak_hour,
                    value: value@,
                    temperature: temperature@,
                    temperature_deviation: temperature_deviation@,
                },
            ),
            _ => None,
        },
        _ => None,
    }
}

pub fn decode_peak(v: &JsonValue) -> (r: Option<PeakForecast>)
    ensures
        match r {
            Some(x) => spec_decode_peak(*v) == Some(x@),
            None => spec_decode_peak(*v) is None,
        },
{
    let fields = match v {
        JsonValue::Obj(fields) => fields,
        _ => {
            return None;
        },
    };
    let peak_hour = match field_timestamp(fields, "peak_hour") {
        Some(t) => t,
        None => {
            return None;
        },
    };
    let value = match field_num(fields, "value") {
        Some(s) => s,
        None => {
            return None;
        },
    };
    let temperature = match field_num(fields, "temperature") {
        Some(s) => s,
        None => {
            return None;
        },
    };
    let temperature_deviation = match field_num(fields, "temperature_deviation") {
        Some(s) => s,
        None => {
            return None;
        },
    };
    Some(PeakForecast { peak_hour, value, temperature, temperature_deviation })
}

/// The day-series a JSON value decodes to: the window, the update
/// timestamp, the peak record, and the bucket list.
pub open spec fn spec_decode_weekly_forecast(v: JsonValue) -> Option<WeeklyForecastV> {
    match v {
        JsonValue::Obj(fields) => match (
            spec_field_timestamp(fields@, "start_date"@),
            spec_field_timestamp(fields@, "end_date"@),
            spec_field_timestamp(fields@, "updated_date"@),
            crate::json::spec_obj_get(fields@, "peak"@),
            spec_field_arr(fields@, "values"@),
        ) {
            (Some(start_date), Some(end_date), Some(updated_date), Some(peak_v), Some(vals)) => {
                match (spec_decode_peak(peak_v), spec_decode_weekly_values(vals)) {
                    (Some(peak), Some(values)) => Some(
                        WeeklyForecastV { start_date, end_date, updated_date, peak, values },
                    ),
                    _ => None,
                }
            },
            _ => None,
        },
        _ => None,
    }
}

pub fn decode_weekly_forecast(v: &JsonValue) -> (r: Option<WeeklyForecast>)
    ensures
        match r {
            Some(x) => spec_decode_weekly_forecast(*v) == Some(x@),
            None => spec_decode_weekly_forecast(*v) is None,
        },
{
    let fields = match v {
        JsonValue::Obj(fields) => fields,
        _ => {
            return None;
        },
    };
    let start_date = match field_timestamp(fields, "start_date") {
        Some(t) => t,
        None => {
            return None;
        },
    };
    let end_date = match field_timestamp(fields, "end_date") {
        Some(t) => t,
        None => {
            return None;
        },
    };
    let updated_date = match field_timestamp(fields, "updated_date") {
        Some(t) => t,
        None => {
            return None;
        },
    };
    let peak_v = match crate::json::obj_get(fields, "peak") {
        Some(p) => p,
        None => {
            return None;
        },
    };
    let vals = match field_arr(fields, "values") {
        Some(a) => a,
        None => {
            return None;
        },
    };
    let peak = match decode_peak(peak_v) {
        Some(p) => p,
        None => {
            return None;
        },
    };
    let values = match decode_weekly_values(vals) {
        Some(v) => v,
        None => {
            return None;
        },
    };
    Some(WeeklyForecast { start_date, end_date, updated_date, peak, values })
}

/// The day-series list a JSON array decodes to: every element must decode.
pub open spec fn spec_decode_weekly_forecasts(a: Seq<JsonValue>) -> Option<Seq<WeeklyForecastV>> {
    if forall|i: int| 0 <= i < a.len() ==> spec_decode_weekly_forecast(a[i]) is Some {
        Some(Seq::new(a.len(), |i: int| spec_decode_weekly_forecast(a[i]).unwrap()))
    } else {
        None
    }
}

pub fn decode_weekly_forecasts(a: &Vec<JsonValue>) -> (r: Option<Vec<WeeklyForecast>>)
    ensures
        match r {
            Some(v) => spec_decode_weekly_forecasts(a@) == Some(weekly_forecasts_view(v@)),
            None => spec_decode_weekly_forecasts(a@) is None,
        },
{
    let mut out: Vec<WeeklyForecast> = Vec::new();
    let n = a.len();
    let mut i: usize = 0;
    while i < n
        invariant
            n == a@.len(),
            i <= n,
            out@.len() == i,
            forall|j: int|
                0 <= j < i ==> #[trigger] spec_decode_weekly_forecast(a@[j]) == Some(out@[j]@),
        decreases n - i,
    {
        match decode_weekly_forecast(&a[i]) {
            Some(x) => {
                out.push(x);
            },
            None => {
                proof {
                    assert(spec_decode_weekly_forecast(a@[i as int]) is None);
                }
                return None;
            },
        }
        i += 1;
    }
    proof {
        assert(forall|j: int| 0 <= j < a@.len() ==> spec_decode_weekly_forecast(a@[j]) is Some);
        assert(Seq::new(a@.len(), |j: int| spec_decode_weekly_forecast(a@[j]).unwrap())
            =~= weekly_forecasts_view(out@));
    }
    Some(out)
}

/// The response a JSON document decodes to: the day-series array under
/// `weekly_forecasts`.
pub open spec fn spec_decode_weekly_response(v: JsonValue) -> Option<WeeklyForecastResponseV> {
    match v {
        JsonValue::Obj(fields) => match spec_field_arr(fields@, "weekly_forecasts"@) {
            Some(a) => match spec_decode_weekly_forecasts(a) {
                Some(ws) => Some(WeeklyForecastResponseV { weekly_forecasts: ws }),
                None => None,
            },
            None => None,
        },
        _ => None,
    }
}

pub fn decode_weekly_response(v: &JsonValue) -> (r: Option<WeeklyForecastResponse>)
    ensures
        match r {
            Some(x) => spec_decode_weekly_response(*v) == Some(x@),
            None => spec_decode_weekly_response(*v) is None,
        },
{
    let fields = match v {
        JsonValue::Obj(fields) => fields,
        _ => {
            return None;
        },
    };
    let a = match field_arr(fields, "weekly_forecasts") {
        Some(a) => a,
        None => {
            return None;
        },
    };
    match decode_weekly_forecasts(a) {
        Some(ws) => Some(WeeklyForecastResponse { weekly_forecasts: ws }),
        None => None,
    }
}

/// The weekly response a raw body decodes to.
pub open spec fn spec_decode_weekly_body(body: Seq<char>) -> Option<WeeklyForecastResponseV> {
    match json_of(body) {
        Some(v) => spec_decode_weekly_response(v),
        None => None,
    }
}

pub fn decode_weekly_body(body: &str) -> (r: Option<WeeklyForecastResponse>)
    ensures
        match r {
            Some(x) => spec_decode_weekly_body(body@) == Some(x@),
            None => spec_decode_weekly_body(body@) is None,
        },
{
    match parse_json(body) {
        Some(v) => decode_weekly_response(&v),
        None => None,
    }
}

/// The short-term query: the mandatory horizon parameter first, then the
/// two window parameters where a window was supplied.
pub open spec fn spec_short_term_query(
    forecast_type: ShortTermForecastType,
    date_range: Option<DateRange>,
) -> Seq<(Seq<char>, Seq<char>)> {
    seq![("type"@, forecast_type.spec_wire_token())] + (match date_range {
        Some(d) => spec_window_params(d),
        None => seq![],
    })
}

pub fn build_short_term_query(
    forecast_type: ShortTermForecastType,
    date_range: Option<DateRange>,
) -> (q: Vec<(String, String)>)
    ensures
        qs_view(q@) == spec_short_term_query(forecast_type, date_range),
{
    let mut q: Vec<(String, String)> = Vec::new();
    q.push(("type".to_owned(), forecast_type.wire_token()));
    if let Some(d) = date_range {
        let mut w = d.to_query_string();
        q.append(&mut w);
    }
    proof {
        assert(qs_view(q@) =~= spec_short_term_query(forecast_type, date_range));
    }
    q
}

/// The weekly query: only the two window parameters, where a window was
/// supplied.
pub open spec fn spec_weekly_query(date_range: Option<DateRange>) -> Seq<(Seq<char>, Seq<char>)> {
    match date_range {
        Some(d) => spec_window_params(d),
        None => seq![],
    }
}

pub fn build_weekly_query(date_range: Option<DateRange>) -> (q: Vec<(String, String)>)
    ensures
        qs_view(q@) == spec_weekly_query(date_range),
{
    let mut q: Vec<(String, String)> = Vec::new();
    if let Some(d) = date_range {
        let mut w = d.to_query_string();
        q.append(&mut w);
    }
    proof {
        assert(qs_view(q@) =~= spec_weekly_query(date_range));
    }
    q
}

/// What the short-term endpoint returns for a completed round trip:
/// non-success statuses are classified without attempting a decode; a
/// success status is decoded, and a body that does not decode fails with
/// the endpoint path and the raw body.
pub open spec fn short_term_outcome(
    status: u16,
    body: Seq<char>,
    r: Result<ShortTermResponse, ApiError>,
) -> bool {
    &&& !is_success_status(status) ==> r == Err::<ShortTermResponse, ApiError>(
        ApiError::Status(spec_classify_status(status)),
    )
    &&& is_success_status(status) ==> match spec_decode_short_term_body(body) {
        Some(m) => r matches Ok(resp) && resp@ == m,
        None => r matches Err(ApiError::DecodeFailed { context, raw_body }) && context@
            == "/open_api/consumption/v1/short_term"@ && raw_body@ == body,
    }
}

/// Turns one completed short-term round trip into the endpoint's result.
pub fn handle_short_term_response(status: u16, body: String) -> (r: Result<
    ShortTermResponse,
    ApiError,
>)
    ensures
        short_term_outcome(status, body@, r),
{
    if !status_is_success(status) {
        return Err(ApiError::Status(classify_status(status)));
    }
    match decode_short_term_body(body.as_str()) {
        Some(m) => Ok(m),
        None => Err(
            ApiError::DecodeFailed {
                context: "/open_api/consumption/v1/short_term".to_owned(),
                raw_body: body,
            },
        ),
    }
}

/// What the weekly endpoint returns for a completed round trip, in the
/// same shape as [`short_term_outcome`].
pub open spec fn weekly_outcome(
    status: u16,
    body: Seq<char>,
    r: Result<WeeklyForecastResponse, ApiError>,
) -> bool {
    &&& !is_success_status(status) ==> r == Err::<WeeklyForecastResponse, ApiError>(
        ApiError::Status(spec_classify_status(status)),
    )
    &&& is_success_status(status) ==> match spec_decode_weekly_body(body) {
        Some(m) => r matches Ok(resp) && resp@ == m,
        None => r matches Err(ApiError::DecodeFailed { context, raw_body }) && context@
            == "/open_api/consumption/v1/weekly_forecasts"@ && raw_body@ == body,
    }
}

/// Turns one completed weekly round trip into the endpoint's result.
pub fn handle_weekly_response(status: u16, body: String) -> (r: Result<
    WeeklyForecastResponse,
    ApiError,
>)
    ensures
        weekly_outcome(status, body@, r),
{
    if !status_is_success(status) {
        return Err(ApiError::Status(classify_status(status)));
    }
    match decode_weekly_body(body.as_str()) {
        Some(m) => Ok(m),
        None => Err(
            ApiError::DecodeFailed {
                context: "/open_api/consumption/v1/weekly_forecasts".to_owned(),
                raw_body: body,
            },
        ),
    }
}

/// A 401 round trip fails as `InvalidCredentials` whatever the body holds:
/// the body is never consulted on a non-success status.
pub proof fn lemma_short_term_unauthorized_outcome(
    body: Seq<char>,
    r: Result<ShortTermResponse, ApiError>,
)
    requires
        short_term_outcome(401, body, r),
    ensures
        r == Err::<ShortTermResponse, ApiError>(
            ApiError::Status(crate::error::StatusError::InvalidCredentials),
        ),
{
}

/// The weekly counterpart of [`lemma_short_term_unauthorized_outcome`].
pub proof fn lemma_weekly_unauthorized_outcome(
    body: Seq<char>,
    r: Result<WeeklyForecastResponse, ApiError>,
)
    requires
        weekly_outcome(401, body, r),
    ensures
        r == Err::<WeeklyForecastResponse, ApiError>(
            ApiError::Status(crate::error::StatusError::InvalidCredentials),
        ),
{
}

/// The consumption endpoints, bound to an injected HTTP capability.
pub struct ConsumptionForecast<'a, C: ApiClient> {
    client: &'a C,
}

impl<'a, C: ApiClient> ConsumptionForecast<'a, C> {
    pub fn new(client: &'a C) -> Self {
        ConsumptionForecast { client }
    }

    /// Builds the typed query, performs one authenticated GET, and either
    /// propagates the transport failure or handles the round trip as
    /// [`short_term_outcome`] states.
    pub fn short_term(
        &self,
        forecast_type: ShortTermForecastType,
        date_range: Option<DateRange>,
    ) -> (r: Result<ShortTermResponse, ApiError>)
        ensures
            (r matches Err(e) && e matches ApiError::Transport(_)) || (exists|
                status: u16,
                body: Seq<char>,
            | #[trigger] short_term_outcome(status, body, r)),
    {
        let q = build_short_term_query(forecast_type, date_range);
        match self.client.http_get("/open_api/consumption/v1/short_term", q.as_slice()) {
            Err(e) => Err(ApiError::Transport(e)),
            Ok(resp) => {
                let status = resp.status;
                let ghost b: Seq<char> = resp.body@;
                let out = handle_short_term_response(status, resp.body);
                proof {
                    assert(short_term_outcome(status, b, out));
                }
                out
            },
        }
    }

    /// Builds the window query, performs one authenticated GET, and either
    /// propagates the transport failure or handles the round trip as
    /// [`weekly_outcome`] states.
    pub fn weekly_forecast(&self, date_range: Option<DateRange>) -> (r: Result<
        WeeklyForecastResponse,
        ApiError,
    >)
        ensures
            (r matches Err(e) && e matches ApiError::Transport(_)) || (exists|
                status: u16,
                body: Seq<char>,
            | #[trigger] weekly_outcome(status, body, r)),
    {
        let q = build_weekly_query(date_range);
        match self.client.http_get("/open_api/consumption/v1/weekly_forecasts", q.as_slice()) {
            Err(e) => Err(ApiError::Transport(e)),
            Ok(resp) => {
                let status = resp.status;
                let ghost b: Seq<char> = resp.body@;
                let out = handle_weekly_response(status, resp.body);
                proof {
                    assert(weekly_outcome(status, b, out));
                }
                out
            },
        }
    }
}

fn clone_short_term_value(x: &ShortTermValue) -> (r: ShortTermValue)
    ensures
        r == *x,
{
    ShortTermValue {
        start_date: x.start_date,
        end_date: x.end_date,
        updated_date: x.updated_date,
        value: x.value.clone(),
    }
}

impl ShortTermResponse {
    /// The projection of the response: one row per bucket of the first
    /// series (a call carries a single category, so the first series is the
    /// whole answer).  A missing first series or an empty bucket list is an
    /// error, never a silently empty table.
    pub fn as_table(&self) -> (r: Result<Vec<ShortTermValue>, ProjectionError>)
        ensures
            (self.short_term@.len() == 0 || self.short_term@[0].values@.len() == 0) ==> r == Err::<
                Vec<ShortTermValue>,
                ProjectionError,
            >(ProjectionError::EmptySeries),
            self.short_term@.len() > 0 && self.short_term@[0].values@.len() > 0 ==> (r matches Ok(
                rows,
            ) && rows@ == self.short_term@[0].values@),
    {
        if self.short_term.len() == 0 {
            return Err(ProjectionError::EmptySeries);
        }
        let first = &self.short_term[0];
        if first.values.len() == 0 {
            return Err(ProjectionError::EmptySeries);
        }
        let mut rows: Vec<ShortTermValue> = Vec::new();
        let n = first.values.len();
        let mut i: usize = 0;
        while i < n
            invariant
                n == first.values@.len(),
                i <= n,
                rows@.len() == i,
                forall|j: int| 0 <= j < i ==> rows@[j] == first.values@[j],
            decreases n - i,
        {
            rows.push(clone_short_term_value(&first.values[i]));
            i += 1;
        }
        proof {
            assert(rows@ =~= first.values@);
        }
        Ok(rows)
    }
}

/// One row of the flattened weekly table: the bucket's window and value,
/// with the parent day-series' update timestamp and peak temperatures
/// broadcast onto it.
#[derive(Debug)]
pub struct WeeklyForecastRow {
    pub start_date: Timestamp,
    pub end_date: Timestamp,
    pub updated_date: Timestamp,
    pub peak_temperature: String,
    pub peak_temperature_deviation: String,
    pub value: String,
}

/// The abstract value of a [`WeeklyForecastRow`].
pub struct WeeklyForecastRowV {
    pub start_date: Timestamp,
    pub end_date: Timestamp,
    pub updated_date: Timestamp,
    pub peak_temperature: Seq<char>,
    pub peak_temperature_deviation: Seq<char>,
    pub value: Seq<char>,
}

impl View for WeeklyForecastRow {
    type V = WeeklyForecastRowV;

    open spec fn view(&self) -> WeeklyForecastRowV {
        WeeklyForecastRowV {
            start_date: self.start_date,
            end_date: self.end_date,
            updated_date: self.updated_date,
            peak_temperature: self.peak_temperature@,
            peak_temperature_deviation: self.peak_temperature_deviation@,
            value: self.value@,
        }
    }
}

/// The row list, element by element, as abstract values.
pub open spec fn weekly_rows_view(s: Seq<WeeklyForecastRow>) -> Seq<WeeklyForecastRowV> {
    s.map_values(|x: WeeklyForecastRow| x@)
}

/// The rows one day-series contributes: its buckets in order, each with
/// the day's update timestamp and peak temperatures broadcast onto it.
pub open spec fn spec_weekly_rows_of(d: WeeklyForecastV) -> Seq<WeeklyForecastRowV> {
    d.values.map_values(
        |v: WeeklyForecastValueV|
            WeeklyForecastRowV {
                start_date: v.start_date,
                end_date: v.end_date,
                updated_date: d.updated_date,
                peak_temperature: d.peak.temperature,
                peak_temperature_deviation: d.peak.temperature_deviation,
                value: v.value,
            },
    )
}

/// The whole flattened table: the day-series' rows in order.
pub open spec fn spec_weekly_table(days: Seq<WeeklyForecastV>) -> Seq<WeeklyForecastRowV>
    decreases days.len(),
{
    if days.len() == 0 {
        seq![]
    } else {
        spec_weekly_rows_of(days[0]) + spec_weekly_table(days.drop_first())
    }
}

/// The total bucket count over the day-series.
pub open spec fn spec_total_buckets(days: Seq<WeeklyForecastV>) -> nat
    decreases days.len(),
{
    if days.len() == 0 {
        0
    } else {
        days[0].values.len() + spec_total_buckets(days.drop_first())
    }
}

/// Where the rows of day-series `i` start inside the flattened table.
pub open spec fn spec_bucket_offset(days: Seq<WeeklyForecastV>, i: int) -> nat {
    spec_total_buckets(days.take(i))
}

/// Extending the flattened prefix by one day-series appends exactly that
/// series' rows.
pub proof fn lemma_weekly_table_take_step(days: Seq<WeeklyForecastV>, i: int)
    requires
        0 <= i < days.len(),
    ensures
        spec_weekly_table(days.take(i + 1)) == spec_weekly_table(days.take(i))
            + spec_weekly_rows_of(days[i]),
        spec_total_buckets(days.take(i + 1)) == spec_total_buckets(days.take(i))
            + days[i].values.len(),
    decreases i,
{
    if i == 0 {
        assert(days.take(1).drop_first() =~= Seq::<WeeklyForecastV>::empty());
        assert(days.take(0) =~= Seq::<WeeklyForecastV>::empty());
        assert(spec_weekly_table(days.take(1)) =~= spec_weekly_table(days.take(0))
            + spec_weekly_rows_of(days[0]));
    } else {
        let rest = days.drop_first();
        lemma_weekly_table_take_step(rest, i - 1);
        assert(days.take(i + 1).drop_first() =~= rest.take(i));
        assert(days.take(i).drop_first() =~= rest.take(i - 1));
        assert(days.take(i + 1)[0] == days[0]);
        assert(days.take(i)[0] == days[0]);
        assert(rest[i - 1] == days[i]);
        assert(spec_weekly_table(days.take(i + 1)) == spec_weekly_rows_of(days[0])
            + spec_weekly_table(rest.take(i)));
        assert(spec_weekly_rows_of(days[0]) + (spec_weekly_table(rest.take(i - 1))
            + spec_weekly_rows_of(days[i])) =~= (spec_weekly_rows_of(days[0])
            + spec_weekly_table(rest.take(i - 1))) + spec_weekly_rows_of(days[i]));
    }
}

/// The flattened table has exactly one row per bucket: its length is the
/// total bucket count over the day-series.
pub proof fn lemma_weekly_table_len(days: Seq<WeeklyForecastV>)
    ensures
        spec_weekly_table(days).len() == spec_total_buckets(days),
    decreases days.len(),
{
    if days.len() > 0 {
        lemma_weekly_table_len(days.drop_first());
    }
}

/// Each bucket of each day-series stands at its place in the flattened
/// table, carrying its own window and value together with the parent
/// day-series' update timestamp and peak temperatures.
pub proof fn lemma_weekly_table_row(days: Seq<WeeklyForecastV>, i: int, j: int)
    requires
        0 <= i < days.len(),
        0 <= j < days[i].values.len(),
    ensures
        spec_bucket_offset(days, i) + j < spec_weekly_table(days).len(),
        spec_weekly_table(days)[spec_bucket_offset(days, i) + j] == (WeeklyForecastRowV {
            start_date: days[i].values[j].start_date,
            end_date: days[i].values[j].end_date,
            updated_date: days[i].updated_date,
            peak_temperature: days[i].peak.temperature,
            peak_temperature_deviation: days[i].peak.temperature_deviation,
            value: days[i].values[j].value,
        }),
    decreases i,
{
    if i == 0 {
        assert(days.take(0) =~= Seq::<WeeklyForecastV>::empty());
        assert(spec_bucket_offset(days, 0) == 0);
        lemma_weekly_table_len(days.drop_first());
        assert(spec_weekly_table(days) == spec_weekly_rows_of(days[0]) + spec_weekly_table(
            days.drop_first(),
        ));
        assert(spec_weekly_rows_of(days[0])[j] == (WeeklyForecastRowV {
            start_date: days[0].values[j].start_date,
            end_date: days[0].values[j].end_date,
            updated_date: days[0].updated_date,
            peak_temperature: days[0].peak.temperature,
            peak_temperature_deviation: days[0].peak.temperature_deviation,
            value: days[0].values[j].value,
        }));
    } else {
        let rest = days.drop_first();
        lemma_weekly_table_row(rest, i - 1, j);
        assert(rest[i - 1] == days[i]);
        assert(days.take(i).drop_first() =~= rest.take(i - 1));
        assert(days.take(i)[0] == days[0]);
        assert(spec_bucket_offset(days, i) == days[0].values.len() + spec_bucket_offset(
            rest,
            i - 1,
        ));
        assert(spec_weekly_table(days) == spec_weekly_rows_of(days[0]) + spec_weekly_table(rest));
        assert(spec_weekly_rows_of(days[0]).len() == days[0].values.len());
    }
}

fn make_weekly_row(day: &WeeklyForecast, v: &WeeklyForecastValue) -> (r: WeeklyForecastRow)
    ensures
        r@ == (WeeklyForecastRowV {
            start_date: v@.start_date,
            end_date: v@.end_date,
            updated_date: day@.updated_date,
            peak_temperature: day@.peak.temperature,
            peak_temperature_deviation: day@.peak.temperature_deviation,
            value: v@.value,
        }),
{
    WeeklyForecastRow {
        start_date: v.start_date,
        end_date: v.end_date,
        updated_date: day.updated_date,
        peak_temperature: day.peak.temperature.clone(),
        peak_temperature_deviation: day.peak.temperature_deviation.clone(),
        value: v.value.clone(),
    }
}

impl WeeklyForecastResponse {
    /// The projection of the response: one row per bucket per day-series,
    /// flattened across all day-series in order, each row carrying its
    /// parent day's update timestamp and peak temperatures.  A table with
    /// no rows at all is an error, never a silently empty table.
    pub fn as_table(&self) -> (r: Result<Vec<WeeklyForecastRow>, ProjectionError>)
        ensures
            spec_weekly_table(self@.weekly_forecasts).len() == 0 ==> r == Err::<
                Vec<WeeklyForecastRow>,
                ProjectionError,
            >(ProjectionError::EmptySeries),
            spec_weekly_table(self@.weekly_forecasts).len() > 0 ==> (r matches Ok(rows)
                && weekly_rows_view(rows@) == spec_weekly_table(self@.weekly_forecasts)),
    {
        let ghost days: Seq<WeeklyForecastV> = self@.weekly_forecasts;
        let mut rows: Vec<WeeklyForecastRow> = Vec::new();
        let n = self.weekly_forecasts.len();
        let mut i: usize = 0;
        proof {
            assert(days.take(0) =~= Seq::<WeeklyForecastV>::empty());
            assert(weekly_rows_view(rows@) =~= spec_weekly_table(days.take(0)));
        }
        while i < n
            invariant
                n == self.weekly_forecasts@.len(),
                days == self@.weekly_forecasts,
                i <= n,
                weekly_rows_view(rows@) == spec_weekly_table(days.take(i as int)),
            decreases n - i,
        {
            let day = &self.weekly_forecasts[i];
            proof {
                assert(days[i as int] == day@);
            }
            let m = day.values.len();
            let mut j: usize = 0;
            proof {
                assert(spec_weekly_rows_of(day@).take(0) =~= Seq::<WeeklyForecastRowV>::empty());
                assert(weekly_rows_view(rows@) =~= spec_weekly_table(days.take(i as int))
                    + spec_weekly_rows_of(day@).take(0));
            }
            while j < m
                invariant
                    m == day.values@.len(),
                    j <= m,
                    days == self@.weekly_forecasts,
                    spec_weekly_rows_of(day@).len() == m,
                    weekly_rows_view(rows@) == spec_weekly_table(days.take(i as int))
                        + spec_weekly_rows_of(day@).take(j as int),
                decreases m - j,
            {
                let row = make_weekly_row(day, &day.values[j]);
                proof {
                    assert(spec_weekly_rows_of(day@)[j as int] == row@);
                    assert(spec_weekly_rows_of(day@).take(j as int).push(row@)
                        =~= spec_weekly_rows_of(day@).take(j + 1));
                    assert(weekly_rows_view(rows@.push(row)) =~= weekly_rows_view(rows@).push(
                        row@,
                    ));
                    assert((spec_weekly_table(days.take(i as int)) + spec_weekly_rows_of(
                        day@,
                    ).take(j as int)).push(row@) =~= spec_weekly_table(days.take(i as int))
                        + spec_weekly_rows_of(day@).take(j + 1));
                }
                rows.push(row);
                j += 1;
            }
            proof {
                assert(spec_weekly_rows_of(day@).take(m as int) =~= spec_weekly_rows_of(day@));
                lemma_weekly_table_take_step(days, i as int);
            }
            i += 1;
        }
        proof {
            assert(days.take(n as int) =~= days);
        }
        if rows.len() == 0 {
            proof {
                lemma_weekly_table_len(days);
            }
            return Err(ProjectionError::EmptySeries);
        }
        Ok(rows)
    }
}

} // verus!
