//! Price charts: the timeframes a chart can cover, the chart request, and
//! the chart as the command reports it.
use vstd::prelude::*;

use crate::error_report::{plain_errors, plain_report};
use crate::broker_queries::{normalize_broker_isin, spec_normalize_isin};
use crate::broker_variables::{jnum, jstr, json_result, string_json, unsigned_json};
use crate::error_report::ErrorReport;
use crate::json::{items_view, json_view, opt_as_str, ArrayBuilder, Json, JsonView, ObjectBuilder};
use crate::projections::{field_or_null, get_or_null, spec_timestamp_value, timestamp_value_or_null};
use crate::text::{chars_of, push_str_chars, str_eq, string_of, trim, trim_chars};

verus! {

/// The span of time a chart covers.
#[derive(Debug, Clone, Copy, PartialEq, Eq, Structural)]
pub enum BrokerChartTimeframe {
    OneDay,
    OneWeek,
    OneMonth,
    ThreeMonths,
    SixMonths,
    YearToDate,
    OneYear,
    ThreeYears,
    FiveYears,
    Max,
}

impl BrokerChartTimeframe {
    /// The backend's name.
    pub open spec fn spec_graphql(self) -> Seq<char> {
        match self {
            BrokerChartTimeframe::OneDay => "ONE_DAY"@,
            BrokerChartTimeframe::OneWeek => "ONE_WEEK"@,
            BrokerChartTimeframe::OneMonth => "ONE_MONTH"@,
            BrokerChartTimeframe::ThreeMonths => "THREE_MONTHS"@,
            BrokerChartTimeframe::SixMonths => "SIX_MONTHS"@,
            BrokerChartTimeframe::YearToDate => "YEAR_TO_DATE"@,
            BrokerChartTimeframe::OneYear => "ONE_YEAR"@,
            BrokerChartTimeframe::ThreeYears => "THREE_YEARS"@,
            BrokerChartTimeframe::FiveYears => "FIVE_YEARS"@,
            BrokerChartTimeframe::Max => "MAX"@,
        }
    }

    /// The name on the command line.
    pub open spec fn spec_cli_value(self) -> Seq<char> {
        match self {
            BrokerChartTimeframe::OneDay => "1d"@,
            BrokerChartTimeframe::OneWeek => "1w"@,
            BrokerChartTimeframe::OneMonth => "1m"@,
            BrokerChartTimeframe::ThreeMonths => "3m"@,
            BrokerChartTimeframe::SixMonths => "6m"@,
            BrokerChartTimeframe::YearToDate => "ytd"@,
            BrokerChartTimeframe::OneYear => "1y"@,
            BrokerChartTimeframe::ThreeYears => "3y"@,
            BrokerChartTimeframe::FiveYears => "5y"@,
            BrokerChartTimeframe::Max => "max"@,
        }
    }

    pub fn as_graphql(self) -> (res: &'static str)
        ensures
            res@ == self.spec_graphql(),
    {
        match self {
            BrokerChartTimeframe::OneDay => "ONE_DAY",
            BrokerChartTimeframe::OneWeek => "ONE_WEEK",
            BrokerChartTimeframe::OneMonth => "ONE_MONTH",
            BrokerChartTimeframe::ThreeMonths => "THREE_MONTHS",
            BrokerChartTimeframe::SixMonths => "SIX_MONTHS",
            BrokerChartTimeframe::YearToDate => "YEAR_TO_DATE",
            BrokerChartTimeframe::OneYear => "ONE_YEAR",
            BrokerChartTimeframe::ThreeYears => "THREE_YEARS",
            BrokerChartTimeframe::FiveYears => "FIVE_YEARS",
            BrokerChartTimeframe::Max => "MAX",
        }
    }

    pub fn as_cli_value(self) -> (res: &'static str)
        ensures
            res@ == self.spec_cli_value(),
    {
        match self {
            BrokerChartTimeframe::OneDay => "1d",
            BrokerChartTimeframe::OneWeek => "1w",
            BrokerChartTimeframe::OneMonth => "1m",
            BrokerChartTimeframe::ThreeMonths => "3m",
            BrokerChartTimeframe::SixMonths => "6m",
            BrokerChartTimeframe::YearToDate => "ytd",
            BrokerChartTimeframe::OneYear => "1y",
            BrokerChartTimeframe::ThreeYears => "3y",
            BrokerChartTimeframe::FiveYears => "5y",
            BrokerChartTimeframe::Max => "max",
        }
    }
}

/// Variables of the chart query: the normalized ISIN, the one timeframe, and
/// the year-to-date flag set.
pub open spec fn spec_chart_variables(isin: Seq<char>, timeframe: BrokerChartTimeframe) -> Result<
    JsonView,
    Seq<char>,
> {
    match spec_normalize_isin(isin, "isin"@) {
        Err(e) => Err(e),
        Ok(i) => Ok(
            JsonView::Object(
                seq![
                    ("isin"@, jstr(i)),
                    ("timeFrames"@, JsonView::Array(seq![jstr(timeframe.spec_graphql())])),
                    ("includeYearToDate"@, JsonView::Bool(true)),
                ],
            ),
        ),
    }
}

pub fn broker_chart_variables(isin: &str, timeframe: BrokerChartTimeframe) -> (res: Result<
    Json,
    ErrorReport,
>)
    ensures
        plain_errors(res),
        json_result(res) == spec_chart_variables(isin@, timeframe),
{
    let isin = match normalize_broker_isin(isin, "isin") {
        Ok(i) => i,
        Err(e) => {
            return Err(e);
        },
    };
    let ghost iv = isin@;
    let mut frames = ArrayBuilder::new();
    frames.push(string_json(timeframe.as_graphql()));
    let ghost frame_items = frames.items();
    let mut out = ObjectBuilder::new();
    out.add("isin", Json::Str(isin));
    out.add("timeFrames", frames.build());
    out.add("includeYearToDate", Json::Bool(true));
    proof {
        assert(frame_items =~= seq![jstr(timeframe.spec_graphql())]);
        assert(out.members() =~= seq![
            ("isin"@, jstr(iv)),
            ("timeFrames"@, JsonView::Array(seq![jstr(timeframe.spec_graphql())])),
            ("includeYearToDate"@, JsonView::Bool(true)),
        ]);
    }
    Ok(out.build())
}

// ---------------------------------------------------------------------------
// The chart
// ---------------------------------------------------------------------------

/// A chart point: its mid price and its timestamp.
pub open spec fn spec_chart_point(point: Json) -> JsonView {
    JsonView::Object(
        seq![
            ("mid_price"@, get_or_null(point, "midPrice"@)),
            ("timestamp_utc"@, spec_timestamp_value(point.spec_get("timestampUtc"@))),
        ],
    )
}

pub fn map_broker_chart_point(point: &Json) -> (res: Json)
    ensures
        res@ == spec_chart_point(*point),
{
    let mut out = ObjectBuilder::new();
    out.add("mid_price", field_or_null(point, "midPrice"));
    out.add("timestamp_utc", timestamp_value_or_null(point.get("timestampUtc")));
    proof {
        assert(out.members() =~= seq![
            ("mid_price"@, get_or_null(*point, "midPrice"@)),
            ("timestamp_utc"@, spec_timestamp_value(point.spec_get("timestampUtc"@))),
        ]);
    }
    out.build()
}

/// The first series of the requested timeframe, its name trimmed.
pub open spec fn series_of_timeframe(series: Seq<Json>, timeframe: Seq<char>) -> Option<Json>
    decreases series.len(),
{
    if series.len() == 0 {
        None
    } else if match opt_as_str(series[0].spec_get("timeFrame"@)) {
        Some(t) => trim(t) == timeframe,
        None => false,
    } {
        Some(series[0])
    } else {
        series_of_timeframe(series.drop_first(), timeframe)
    }
}

pub open spec fn data_points_of(series: Json) -> Seq<Json> {
    match series.spec_get("dataPoints"@) {
        Some(Json::Array(points)) => points@,
        _ => Seq::empty(),
    }
}

/// The chart as the command reports it: the series of the requested
/// timeframe, which must be there and be of the requested security.
pub open spec fn spec_chart_response(
    requested_isin: Seq<char>,
    timeframe: BrokerChartTimeframe,
    response: Json,
) -> Result<JsonView, Seq<char>> {
    match response.spec_get("timeSeriesBySecurity"@) {
        Some(Json::Array(series)) => match series_of_timeframe(series@, timeframe.spec_graphql()) {
            None => Err(
                "Broker response invalid: requested timeframe '"@ + timeframe.spec_cli_value()
                    + "' missing from timeSeriesBySecurity"@,
            ),
            Some(s) => match opt_as_str(s.spec_get("isin"@)) {
                Some(i) if trim(i).len() > 0 => if trim(i) != trim(requested_isin) {
                    Err(
                        "Broker response invalid: requested isin '"@ + trim(requested_isin)
                            + "' does not match returned security isin '"@ + trim(i) + "'"@,
                    )
                } else {
                    Ok(
                        JsonView::Object(
                            seq![
                                ("isin"@, jstr(trim(i))),
                                ("timeframe"@, jstr(timeframe.spec_cli_value())),
                                ("currency"@, get_or_null(s, "currency"@)),
                                ("source"@, get_or_null(s, "source"@)),
                                (
                                    "closing_reference_point"@,
                                    spec_chart_point(
                                        match s.spec_get("closingReferencePoint"@) {
                                            Some(p) => p,
                                            None => Json::Null,
                                        },
                                    ),
                                ),
                                (
                                    "data_points"@,
                                    JsonView::Array(
                                        data_points_of(s).map_values(|p: Json| spec_chart_point(p)),
                                    ),
                                ),
                                ("point_count"@, jnum(data_points_of(s).len() as int)),
                            ],
                        ),
                    )
                },
                _ => Err("Broker response invalid: missing timeSeriesBySecurity[].isin"@),
            },
        },
        _ => Err("Broker response invalid: missing timeSeriesBySecurity"@),
    }
}

fn find_series<'a>(series: &'a Vec<Json>, timeframe: &str) -> (res: Option<&'a Json>)
    ensures
        crate::json::opt_ref(res) == series_of_timeframe(series@, timeframe@),
{
    let mut i: usize = 0;
    proof {
        assert(series@.skip(0) =~= series@);
    }
    while i < series.len()
        invariant
            i <= series.len(),
            series_of_timeframe(series@, timeframe@) == series_of_timeframe(series@.skip(i as int), timeframe@),
        decreases series.len() - i,
    {
        proof {
            assert(series@.skip(i as int)[0] == series@[i as int]);
            assert(series@.skip(i as int).drop_first() =~= series@.skip(i + 1));
        }
        if let Some(v) = series[i].get("timeFrame") {
            if let Some(t) = v.as_str() {
                let trimmed = string_of(&trim_chars(t));
                if str_eq(trimmed.as_str(), timeframe) {
                    return Some(&series[i]);
                }
            }
        }
        i = i + 1;
    }
    None
}

pub open spec fn chart_result(r: Result<Json, ErrorReport>) -> Result<JsonView, Seq<char>> {
    match r {
        Ok(j) => Ok(j@),
        Err(e) => Err(e.messages()[0]),
    }
}

pub fn text_report(text: &Vec<char>) -> (res: ErrorReport)
    ensures
        plain_report(res),
        res.messages() == seq![text@],
{
    let s = string_of(text);
    ErrorReport::msg(s.as_str())
}

pub fn project_broker_chart_response(
    requested_isin: &str,
    requested_timeframe: BrokerChartTimeframe,
    response: &Json,
) -> (res: Result<Json, ErrorReport>)
    ensures
        plain_errors(res),
        chart_result(res) == spec_chart_response(requested_isin@, requested_timeframe, *response),
{
    let series: &Vec<Json> = match response.get("timeSeriesBySecurity") {
        Some(v) => match v.as_array() {
            Some(s) => s,
            None => {
                return Err(ErrorReport::msg("Broker response invalid: missing timeSeriesBySecurity"));
            },
        },
        None => {
            return Err(ErrorReport::msg("Broker response invalid: missing timeSeriesBySecurity"));
        },
    };
    let requested = string_of(&trim_chars(requested_isin));
    let matching = match find_series(series, requested_timeframe.as_graphql()) {
        Some(s) => s,
        None => {
            let mut text: Vec<char> = Vec::new();
            push_str_chars(&mut text, "Broker response invalid: requested timeframe '");
            push_str_chars(&mut text, requested_timeframe.as_cli_value());
            push_str_chars(&mut text, "' missing from timeSeriesBySecurity");
            return Err(text_report(&text));
        },
    };
    let actual: String = match matching.get("isin") {
        Some(v) => match v.as_str() {
            Some(i) => {
                let t = trim_chars(i);
                if t.len() == 0 {
                    return Err(
                        ErrorReport::msg("Broker response invalid: missing timeSeriesBySecurity[].isin"),
                    );
                }
                string_of(&t)
            },
            None => {
                return Err(
                    ErrorReport::msg("Broker response invalid: missing timeSeriesBySecurity[].isin"),
                );
            },
        },
        None => {
            return Err(
                ErrorReport::msg("Broker response invalid: missing timeSeriesBySecurity[].isin"),
            );
        },
    };
    if !str_eq(actual.as_str(), requested.as_str()) {
        let mut text: Vec<char> = Vec::new();
        push_str_chars(&mut text, "Broker response invalid: requested isin '");
        push_str_chars(&mut text, requested.as_str());
        push_str_chars(&mut text, "' does not match returned security isin '");
        push_str_chars(&mut text, actual.as_str());
        push_str_chars(&mut text, "'");
        return Err(text_report(&text));
    }
    let empty: Vec<Json> = Vec::new();
    let points: &Vec<Json> = match matching.get("dataPoints") {
        Some(v) => match v.as_array() {
            Some(p) => p,
            None => &empty,
        },
        None => &empty,
    };
    let mut mapped = ArrayBuilder::new();
    let mut i: usize = 0;
    while i < points.len()
        invariant
            i <= points.len(),
            mapped.items() == points@.take(i as int).map_values(|p: Json| spec_chart_point(p)),
        decreases points.len() - i,
    {
        mapped.push(map_broker_chart_point(&points[i]));
        proof {
            assert(points@.take(i + 1).map_values(|p: Json| spec_chart_point(p)) =~= points@.take(
                i as int,
            ).map_values(|p: Json| spec_chart_point(p)).push(spec_chart_point(points@[i as int])));
        }
        i = i + 1;
    }
    proof {
        assert(points@.take(points.len() as int) =~= points@);
        assert(points@ == data_points_of(*matching));
    }
    let ghost mapped_items = mapped.items();
    let closing = match matching.get("closingReferencePoint") {
        Some(p) => map_broker_chart_point(p),
        None => map_broker_chart_point(&Json::Null),
    };
    let ghost actual_view = actual@;
    let mut out = ObjectBuilder::new();
    out.add("isin", Json::Str(actual));
    out.add("timeframe", string_json(requested_timeframe.as_cli_value()));
    out.add("currency", field_or_null(matching, "currency"));
    out.add("source", field_or_null(matching, "source"));
    out.add("closing_reference_point", closing);
    out.add("data_points", mapped.build());
    out.add("point_count", unsigned_json(points.len() as u64));
    proof {
        assert(out.members() =~= spec_chart_response(requested_isin@, requested_timeframe, *response)->Ok_0->Object_0);
    }
    Ok(out.build())
}

/// A chart is refused where the answer has no series of the requested
/// timeframe, with a message that names the timeframe as the command line
/// writes it, and where that series belongs to another security, with a
/// message that names the requested ISIN. Otherwise the chart reports the
/// timeframe as the command line writes it, and its point count is the
/// number of its data points.
pub proof fn charts_name_their_timeframe_and_count_their_points(
    requested_isin: Seq<char>,
    timeframe: BrokerChartTimeframe,
    response: Json,
)
    ensures
        (response.spec_get("timeSeriesBySecurity"@) matches Some(Json::Array(series))
            && series_of_timeframe(series@, timeframe.spec_graphql()) is None) ==> spec_chart_response(
            requested_isin,
            timeframe,
            response,
        ) == Err::<JsonView, Seq<char>>(
            "Broker response invalid: requested timeframe '"@ + timeframe.spec_cli_value()
                + "' missing from timeSeriesBySecurity"@,
        ),
        (response.spec_get("timeSeriesBySecurity"@) matches Some(Json::Array(series))
            && series_of_timeframe(series@, timeframe.spec_graphql()) matches Some(s)
            && opt_as_str(s.spec_get("isin"@)) matches Some(i) && trim(i).len() > 0 && trim(i) != trim(
            requested_isin,
        )) ==> (spec_chart_response(requested_isin, timeframe, response) matches Err(m) && m.subrange(
            0,
            41 + trim(requested_isin).len() as int,
        ) == "Broker response invalid: requested isin '"@ + trim(requested_isin)),
        spec_chart_response(requested_isin, timeframe, response) matches Ok(JsonView::Object(ms)) ==> {
            &&& ms.len() == 7
            &&& ms[1] == ("timeframe"@, jstr(timeframe.spec_cli_value()))
            &&& ms[5].1 matches JsonView::Array(points) && ms[6] == ("point_count"@, jnum(
                points.len() as int,
            ))
        },
{
    reveal_strlit("Broker response invalid: requested isin '");
    if let Some(Json::Array(series)) = response.spec_get("timeSeriesBySecurity"@) {
        if let Some(s) = series_of_timeframe(series@, timeframe.spec_graphql()) {
            if let Some(i) = opt_as_str(s.spec_get("isin"@)) {
                if trim(i).len() > 0 && trim(i) != trim(requested_isin) {
                    let m = "Broker response invalid: requested isin '"@ + trim(requested_isin)
                        + "' does not match returned security isin '"@ + trim(i) + "'"@;
                    assert(m.subrange(0, 41 + trim(requested_isin).len() as int) =~= "Broker response invalid: requested isin '"@
                        + trim(requested_isin));
                }
            }
        }
    }
}

} // verus!
