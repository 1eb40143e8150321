//! The variables of the broker's GraphQL requests. The order of an object's
//! members carries no meaning.
use vstd::prelude::*;

use crate::error_report::{plain_errors};
use crate::broker_queries::{
    field_error, field_error_report, normalize_broker_isin, normalize_non_negative_decimal_with_field,
    normalize_positive_decimal, normalize_positive_decimal_with_field, normalize_year_month, opt_views,
    spec_non_negative_decimal, spec_normalize_isin, spec_positive_decimal, spec_year_month, BrokerInput,
    NormalizedBrokerTransactionsQueryInput,
};
use crate::derivatives::{
    date_range_view, range_view, signed_range_view, sort_view, BrokerDerivativeType,
    NormalizedBrokerDerivativesSearchQueryInput, NormalizedDateRange, NormalizedDecimalRange,
    NormalizedDerivativeSort, NormalizedSignedDecimalRange, RangeSpec,
};
use crate::error_report::ErrorReport;
use crate::json::{ArrayBuilder, Json, JsonView, ObjectBuilder};
use crate::numbers::{decimal, i64_to_decimal, signed_decimal, u64_to_decimal};
use crate::text::{opt_slice, opt_str, string_of, trim, trim_chars, views};

verus! {

// ---------------------------------------------------------------------------
// Values
// ---------------------------------------------------------------------------

pub open spec fn jstr(s: Seq<char>) -> JsonView {
    JsonView::Str(s)
}

/// A text that may be absent: a string, or null.
pub open spec fn opt_jstr(o: Option<Seq<char>>) -> JsonView {
    match o {
        Some(s) => JsonView::Str(s),
        None => JsonView::Null,
    }
}

/// A number, written as JSON writes an integer.
pub open spec fn jnum(n: int) -> JsonView {
    JsonView::Number(signed_decimal(n))
}

pub open spec fn opt_jnum(o: Option<int>) -> JsonView {
    match o {
        Some(n) => jnum(n),
        None => JsonView::Null,
    }
}

/// An array of strings.
pub open spec fn str_array(v: Seq<Seq<char>>) -> JsonView {
    JsonView::Array(v.map_values(|s: Seq<char>| JsonView::Str(s)))
}

pub open spec fn opt_str_array(o: Option<Seq<Seq<char>>>) -> JsonView {
    match o {
        Some(v) => str_array(v),
        None => JsonView::Null,
    }
}

pub fn string_json(s: &str) -> (res: Json)
    ensures
        res@ == jstr(s@),
{
    Json::Str(s.to_owned())
}

pub fn opt_string_json(o: &Option<String>) -> (res: Json)
    ensures
        res@ == opt_jstr(opt_str(*o)),
{
    match o {
        Some(s) => Json::Str(s.clone()),
        None => Json::Null,
    }
}

pub fn opt_slice_json(o: Option<&str>) -> (res: Json)
    ensures
        res@ == opt_jstr(opt_slice(o)),
{
    match o {
        Some(s) => Json::Str(s.to_owned()),
        None => Json::Null,
    }
}

pub fn number_json(n: i64) -> (res: Json)
    ensures
        res@ == jnum(n as int),
{
    Json::Number(string_of(&i64_to_decimal(n)))
}

pub fn unsigned_json(n: u64) -> (res: Json)
    ensures
        res@ == jnum(n as int),
{
    let digits = u64_to_decimal(n);
    proof {
        assert(signed_decimal(n as int) == decimal(n as nat));
    }
    Json::Number(string_of(&digits))
}

pub fn opt_number_json(o: Option<i64>) -> (res: Json)
    ensures
        res@ == opt_jnum(
            match o {
                Some(n) => Some(n as int),
                None => None,
            },
        ),
{
    match o {
        Some(n) => number_json(n),
        None => Json::Null,
    }
}

pub fn string_array_json(v: &Vec<String>) -> (res: Json)
    ensures
        res@ == str_array(views(v@)),
{
    let mut out = ArrayBuilder::new();
    let mut i: usize = 0;
    while i < v.len()
        invariant
            i <= v.len(),
            out.items() == views(v@).take(i as int).map_values(|s: Seq<char>| JsonView::Str(s)),
        decreases v.len() - i,
    {
        out.push(Json::Str(v[i].clone()));
        proof {
            assert(views(v@).take(i + 1).map_values(|s: Seq<char>| JsonView::Str(s)) =~= views(
                v@,
            ).take(i as int).map_values(|s: Seq<char>| JsonView::Str(s)).push(JsonView::Str(v@[i as int]@)));
        }
        i = i + 1;
    }
    proof {
        assert(views(v@).take(v.len() as int) =~= views(v@));
    }
    out.build()
}

pub fn opt_string_array_json(o: &Option<Vec<String>>) -> (res: Json)
    ensures
        res@ == opt_str_array(opt_views(*o)),
{
    match o {
        Some(v) => string_array_json(v),
        None => Json::Null,
    }
}

pub open spec fn json_result(r: Result<Json, ErrorReport>) -> Result<JsonView, Seq<char>> {
    match r {
        Ok(j) => Ok(j@),
        Err(e) => Err(e.messages()[0]),
    }
}

// ---------------------------------------------------------------------------
// Variables of a portfolio
// ---------------------------------------------------------------------------

/// The account and portfolio of a request.
pub open spec fn ids_members(input: BrokerInput) -> Seq<(Seq<char>, JsonView)> {
    seq![
        ("accountId"@, jstr(input.spec_account_id())),
        ("portfolioId"@, jstr(input.spec_portfolio_id())),
    ]
}

fn ids_builder(input: &BrokerInput) -> (res: ObjectBuilder)
    ensures
        res.members() == ids_members(*input),
{
    let mut out = ObjectBuilder::new();
    out.add("accountId", string_json(input.account_id()));
    out.add("portfolioId", string_json(input.portfolio_id()));
    proof {
        assert(out.members() =~= ids_members(*input));
    }
    out
}

/// Variables of a request about the portfolio alone.
pub open spec fn spec_ids_variables(input: BrokerInput) -> JsonView {
    JsonView::Object(ids_members(input))
}

/// Variables of the overview query: the ids and the year-to-date flag.
pub open spec fn spec_overview_variables(input: BrokerInput) -> JsonView {
    JsonView::Object(
        ids_members(input).push(("includeYearToDate"@, JsonView::Bool(input.spec_include_year_to_date()))),
    )
}

/// Variables of the holdings query: the overview's and the quote source.
pub open spec fn holdings_members(input: BrokerInput) -> Seq<(Seq<char>, JsonView)> {
    ids_members(input).push(("includeYearToDate"@, JsonView::Bool(input.spec_include_year_to_date()))).push(
        ("quoteSource"@, opt_jstr(input.spec_quote_source())),
    )
}

pub fn broker_overview_variables(input: &BrokerInput) -> (res: Result<Json, ErrorReport>)
    ensures
        plain_errors(res),
        json_result(res) == Ok::<JsonView, Seq<char>>(spec_overview_variables(*input)),
{
    let mut out = ids_builder(input);
    out.add("includeYearToDate", Json::Bool(input.include_year_to_date()));
    Ok(out.build())
}

pub fn broker_analytics_variables(input: &BrokerInput) -> (res: Result<Json, ErrorReport>)
    ensures
        plain_errors(res),
        json_result(res) == Ok::<JsonView, Seq<char>>(spec_ids_variables(*input)),
{
    Ok(ids_builder(input).build())
}

fn holdings_builder(input: &BrokerInput) -> (res: ObjectBuilder)
    ensures
        res.members() == holdings_members(*input),
{
    let mut out = ids_builder(input);
    out.add("includeYearToDate", Json::Bool(input.include_year_to_date()));
    out.add("quoteSource", opt_slice_json(input.quote_source()));
    out
}

pub fn broker_holdings_variables(input: &BrokerInput) -> (res: Result<Json, ErrorReport>)
    ensures
        plain_errors(res),
        json_result(res) == Ok::<JsonView, Seq<char>>(JsonView::Object(holdings_members(*input))),
{
    Ok(holdings_builder(input).build())
}

pub fn broker_watchlist_variables(input: &BrokerInput) -> (res: Result<Json, ErrorReport>)
    ensures
        plain_errors(res),
        json_result(res) == Ok::<JsonView, Seq<char>>(JsonView::Object(holdings_members(*input))),
{
    broker_holdings_variables(input)
}

/// Variables of the search query: the holdings' and the search term as given.
pub fn broker_search_variables(input: &BrokerInput, search_term: &str) -> (res: Result<
    Json,
    ErrorReport,
>)
    ensures
        plain_errors(res),
        json_result(res) == Ok::<JsonView, Seq<char>>(
            JsonView::Object(holdings_members(*input).push(("searchTerm"@, jstr(search_term@)))),
        ),
{
    let mut out = holdings_builder(input);
    out.add("searchTerm", string_json(search_term));
    Ok(out.build())
}

/// Variables of the quote query: the holdings' and the normalized ISIN.
pub open spec fn spec_quote_variables(input: BrokerInput, isin: Seq<char>) -> Result<JsonView, Seq<char>> {
    match spec_normalize_isin(isin, "isin"@) {
        Ok(i) => Ok(JsonView::Object(holdings_members(input).push(("isin"@, jstr(i))))),
        Err(e) => Err(e),
    }
}

pub fn broker_quote_variables(input: &BrokerInput, isin: &str) -> (res: Result<Json, ErrorReport>)
    ensures
        plain_errors(res),
        json_result(res) == spec_quote_variables(*input, isin@),
{
    let isin = match normalize_broker_isin(isin, "isin") {
        Ok(i) => i,
        Err(e) => {
            return Err(e);
        },
    };
    let mut out = holdings_builder(input);
    out.add("isin", Json::Str(isin));
    Ok(out.build())
}

pub fn broker_price_alerts_variables(input: &BrokerInput, active_only: bool) -> (res: Result<
    Json,
    ErrorReport,
>)
    ensures
        plain_errors(res),
        json_result(res) == Ok::<JsonView, Seq<char>>(
            JsonView::Object(ids_members(*input).push(("activeOnly"@, JsonView::Bool(active_only)))),
        ),
{
    let mut out = ids_builder(input);
    out.add("activeOnly", Json::Bool(active_only));
    Ok(out.build())
}

pub fn broker_crypto_price_alerts_variables(input: &BrokerInput) -> (res: Result<Json, ErrorReport>)
    ensures
        plain_errors(res),
        json_result(res) == Ok::<JsonView, Seq<char>>(spec_ids_variables(*input)),
{
    Ok(ids_builder(input).build())
}

pub fn broker_limits_variables(input: &BrokerInput) -> (res: Result<Json, ErrorReport>)
    ensures
        plain_errors(res),
        json_result(res) == Ok::<JsonView, Seq<char>>(spec_ids_variables(*input)),
{
    Ok(ids_builder(input).build())
}

pub fn broker_savings_plans_variables(input: &BrokerInput) -> (res: Result<Json, ErrorReport>)
    ensures
        plain_errors(res),
        json_result(res) == Ok::<JsonView, Seq<char>>(spec_ids_variables(*input)),
{
    Ok(ids_builder(input).build())
}

/// Variables of the savings plan configuration query: the ids and the
/// normalized ISIN.
pub open spec fn spec_savings_plan_config_variables(input: BrokerInput, isin: Seq<char>) -> Result<
    JsonView,
    Seq<char>,
> {
    match spec_normalize_isin(isin, "isin"@) {
        Ok(i) => Ok(JsonView::Object(ids_members(input).push(("isin"@, jstr(i))))),
        Err(e) => Err(e),
    }
}

pub fn broker_savings_plan_config_variables(input: &BrokerInput, isin: &str) -> (res: Result<
    Json,
    ErrorReport,
>)
    ensures
        plain_errors(res),
        json_result(res) == spec_savings_plan_config_variables(*input, isin@),
{
    let isin = match normalize_broker_isin(isin, "isin") {
        Ok(i) => i,
        Err(e) => {
            return Err(e);
        },
    };
    let mut out = ids_builder(input);
    out.add("isin", Json::Str(isin));
    Ok(out.build())
}

pub fn broker_savings_plan_by_isin_variables(input: &BrokerInput, isin: &str) -> (res: Result<
    Json,
    ErrorReport,
>)
    ensures
        plain_errors(res),
        json_result(res) == spec_savings_plan_config_variables(*input, isin@),
{
    broker_savings_plan_config_variables(input, isin)
}

/// The venue savings plans are executed at.
pub const SAVINGS_PLAN_EXECUTION_VENUE: &'static str = "MUNC";

/// A required text field: trimmed, refused when blank.
pub open spec fn spec_required(raw: Seq<char>, field: Seq<char>) -> Result<Seq<char>, Seq<char>> {
    if trim(raw).len() == 0 {
        Err(field_error(field, "must be a non-empty string"@))
    } else {
        Ok(trim(raw))
    }
}

fn required(raw: &str, field: &str) -> (res: Result<String, ErrorReport>)
    ensures
        plain_errors(res),
        match (res, spec_required(raw@, field@)) {
            (Ok(s), Ok(t)) => s@ == t,
            (Err(e), Err(m)) => e.messages() == seq![m],
            _ => false,
        },
{
    let t = trim_chars(raw);
    if t.len() == 0 {
        return Err(field_error_report(field, "must be a non-empty string"));
    }
    Ok(string_of(&t))
}

/// Variables of the savings plan cost query: the ISIN, then the frequency,
/// then the amount are checked, in that order.
pub open spec fn spec_ex_ante_cost_variables(
    input: BrokerInput,
    isin: Seq<char>,
    frequency: Seq<char>,
    amount: Seq<char>,
) -> Result<JsonView, Seq<char>> {
    match spec_normalize_isin(isin, "isin"@) {
        Err(e) => Err(e),
        Ok(i) => match spec_required(frequency, "frequency"@) {
            Err(e) => Err(e),
            Ok(f) => match spec_positive_decimal(amount, "amount"@) {
                Err(e) => Err(e),
                Ok(a) => Ok(
                    JsonView::Object(
                        ids_members(input) + seq![
                            ("isin"@, jstr(i)),
                            ("frequency"@, jstr(f)),
                            ("amount"@, jstr(a)),
                            ("venue"@, jstr(SAVINGS_PLAN_EXECUTION_VENUE@)),
                        ],
                    ),
                ),
            },
        },
    }
}

pub fn broker_savings_plan_ex_ante_cost_variables(
    input: &BrokerInput,
    isin: &str,
    frequency: &str,
    amount: &str,
) -> (res: Result<Json, ErrorReport>)
    ensures
        plain_errors(res),
        json_result(res) == spec_ex_ante_cost_variables(*input, isin@, frequency@, amount@),
{
    let isin = match normalize_broker_isin(isin, "isin") {
        Ok(i) => i,
        Err(e) => {
            return Err(e);
        },
    };
    let frequency = match required(frequency, "frequency") {
        Ok(f) => f,
        Err(e) => {
            return Err(e);
        },
    };
    let amount = match normalize_positive_decimal_with_field(amount, "amount") {
        Ok(a) => a,
        Err(e) => {
            return Err(e);
        },
    };
    let ghost (iv, fv, av) = (isin@, frequency@, amount@);
    let mut out = ids_builder(input);
    out.add("isin", Json::Str(isin));
    out.add("frequency", Json::Str(frequency));
    out.add("amount", Json::Str(amount));
    out.add("venue", string_json(SAVINGS_PLAN_EXECUTION_VENUE));
    proof {
        assert(out.members() =~= ids_members(*input) + seq![
            ("isin"@, jstr(iv)),
            ("frequency"@, jstr(fv)),
            ("amount"@, jstr(av)),
            ("venue"@, jstr(SAVINGS_PLAN_EXECUTION_VENUE@)),
        ]);
    }
    Ok(out.build())
}

// ---------------------------------------------------------------------------
// Mutations
// ---------------------------------------------------------------------------

/// Variables of a watchlist change: the portfolio and the ISIN, both trimmed
/// and required; the ISIN is sent twice, as the mutation takes it.
pub open spec fn spec_watchlist_mutation_variables(portfolio_id: Seq<char>, isin: Seq<char>) -> Result<
    JsonView,
    Seq<char>,
> {
    match spec_required(portfolio_id, "portfolio_id"@) {
        Err(e) => Err(e),
        Ok(p) => match spec_required(isin, "isin"@) {
            Err(e) => Err(e),
            Ok(i) => Ok(
                JsonView::Object(
                    seq![
                        ("portfolioId"@, jstr(p)),
                        ("isin"@, jstr(i)),
                        ("input"@, JsonView::Object(seq![("isin"@, jstr(i))])),
                    ],
                ),
            ),
        },
    }
}

fn broker_watchlist_mutation_variables(portfolio_id: &str, isin: &str) -> (res: Result<
    Json,
    ErrorReport,
>)
    ensures
        plain_errors(res),
        json_result(res) == spec_watchlist_mutation_variables(portfolio_id@, isin@),
{
    let p = match required(portfolio_id, "portfolio_id") {
        Ok(v) => v,
        Err(e) => {
            return Err(e);
        },
    };
    let i = match required(isin, "isin") {
        Ok(v) => v,
        Err(e) => {
            return Err(e);
        },
    };
    let mut inner = ObjectBuilder::new();
    inner.add("isin", string_json(i.as_str()));
    let ghost inner_members = inner.members();
    let mut out = ObjectBuilder::new();
    out.add("portfolioId", string_json(p.as_str()));
    out.add("isin", string_json(i.as_str()));
    out.add("input", inner.build());
    proof {
        assert(inner_members =~= seq![("isin"@, jstr(i@))]);
        assert(out.members() =~= seq![
            ("portfolioId"@, jstr(p@)),
            ("isin"@, jstr(i@)),
            ("input"@, JsonView::Object(seq![("isin"@, jstr(i@))])),
        ]);
    }
    Ok(out.build())
}

pub fn broker_add_to_watchlist_variables(portfolio_id: &str, isin: &str) -> (res: Result<
    Json,
    ErrorReport,
>)
    ensures
        plain_errors(res),
        json_result(res) == spec_watchlist_mutation_variables(portfolio_id@, isin@),
{
    broker_watchlist_mutation_variables(portfolio_id, isin)
}

pub fn broker_remove_from_watchlist_variables(portfolio_id: &str, isin: &str) -> (res: Result<
    Json,
    ErrorReport,
>)
    ensures
        plain_errors(res),
        json_result(res) == spec_watchlist_mutation_variables(portfolio_id@, isin@),
{
    broker_watchlist_mutation_variables(portfolio_id, isin)
}

/// Variables of removing a savings plan: the portfolio, then the normalized
/// ISIN.
pub open spec fn spec_remove_savings_plan_variables(portfolio_id: Seq<char>, isin: Seq<char>) -> Result<
    JsonView,
    Seq<char>,
> {
    match spec_required(portfolio_id, "portfolio_id"@) {
        Err(e) => Err(e),
        Ok(p) => match spec_normalize_isin(isin, "isin"@) {
            Err(e) => Err(e),
            Ok(i) => Ok(JsonView::Object(seq![("portfolioId"@, jstr(p)), ("isin"@, jstr(i))])),
        },
    }
}

pub fn broker_remove_savings_plan_variables(portfolio_id: &str, isin: &str) -> (res: Result<
    Json,
    ErrorReport,
>)
    ensures
        plain_errors(res),
        json_result(res) == spec_remove_savings_plan_variables(portfolio_id@, isin@),
{
    let p = match required(portfolio_id, "portfolio_id") {
        Ok(v) => v,
        Err(e) => {
            return Err(e);
        },
    };
    let i = match normalize_broker_isin(isin, "isin") {
        Ok(v) => v,
        Err(e) => {
            return Err(e);
        },
    };
    let ghost (pv, iv) = (p@, i@);
    let mut out = ObjectBuilder::new();
    out.add("portfolioId", Json::Str(p));
    out.add("isin", Json::Str(i));
    proof {
        assert(out.members() =~= seq![("portfolioId"@, jstr(pv)), ("isin"@, jstr(iv))]);
    }
    Ok(out.build())
}

/// Variables of removing a price alert: the portfolio and the alert, both
/// trimmed and required.
pub open spec fn spec_remove_price_alert_variables(portfolio_id: Seq<char>, alert_id: Seq<char>) -> Result<
    JsonView,
    Seq<char>,
> {
    match spec_required(portfolio_id, "portfolio_id"@) {
        Err(e) => Err(e),
        Ok(p) => match spec_required(alert_id, "alert_id"@) {
            Err(e) => Err(e),
            Ok(a) => Ok(JsonView::Object(seq![("portfolioId"@, jstr(p)), ("alertId"@, jstr(a))])),
        },
    }
}

pub fn broker_remove_price_alert_variables(portfolio_id: &str, alert_id: &str) -> (res: Result<
    Json,
    ErrorReport,
>)
    ensures
        plain_errors(res),
        json_result(res) == spec_remove_price_alert_variables(portfolio_id@, alert_id@),
{
    let p = match required(portfolio_id, "portfolio_id") {
        Ok(v) => v,
        Err(e) => {
            return Err(e);
        },
    };
    let a = match required(alert_id, "alert_id") {
        Ok(v) => v,
        Err(e) => {
            return Err(e);
        },
    };
    let ghost (pv, av) = (p@, a@);
    let mut out = ObjectBuilder::new();
    out.add("portfolioId", Json::Str(p));
    out.add("alertId", Json::Str(a));
    proof {
        assert(out.members() =~= seq![("portfolioId"@, jstr(pv)), ("alertId"@, jstr(av))]);
    }
    Ok(out.build())
}

/// Variables of adding a price alert: the portfolio and the instrument
/// trimmed, the price a positive decimal.
pub open spec fn spec_add_alert_variables(
    portfolio_id: Seq<char>,
    key: Seq<char>,
    instrument: Seq<char>,
    price: Seq<char>,
) -> Result<JsonView, Seq<char>> {
    match spec_positive_decimal(price, "price"@) {
        Err(e) => Err(e),
        Ok(p) => Ok(
            JsonView::Object(
                seq![
                    ("portfolioId"@, jstr(trim(portfolio_id))),
                    (key, jstr(trim(instrument))),
                    ("price"@, jstr(p)),
                ],
            ),
        ),
    }
}

fn add_alert_variables(portfolio_id: &str, key: &str, instrument: &str, price: &str) -> (res: Result<
    Json,
    ErrorReport,
>)
    ensures
        plain_errors(res),
        json_result(res) == spec_add_alert_variables(portfolio_id@, key@, instrument@, price@),
{
    let price = match normalize_positive_decimal(price) {
        Ok(p) => p,
        Err(e) => {
            return Err(e);
        },
    };
    let ghost pv = price@;
    let mut out = ObjectBuilder::new();
    out.add("portfolioId", Json::Str(string_of(&trim_chars(portfolio_id))));
    out.add(key, Json::Str(string_of(&trim_chars(instrument))));
    out.add("price", Json::Str(price));
    proof {
        assert(out.members() =~= seq![
            ("portfolioId"@, jstr(trim(portfolio_id@))),
            (key@, jstr(trim(instrument@))),
            ("price"@, jstr(pv)),
        ]);
    }
    Ok(out.build())
}

pub fn broker_add_price_alert_variables(portfolio_id: &str, isin: &str, price: &str) -> (res: Result<
    Json,
    ErrorReport,
>)
    ensures
        plain_errors(res),
        json_result(res) == spec_add_alert_variables(portfolio_id@, "isin"@, isin@, price@),
{
    add_alert_variables(portfolio_id, "isin", isin, price)
}

pub fn broker_add_crypto_price_alert_variables(portfolio_id: &str, ticker: &str, price: &str) -> (res:
    Result<Json, ErrorReport>)
    ensures
        plain_errors(res),
        json_result(res) == spec_add_alert_variables(portfolio_id@, "ticker"@, ticker@, price@),
{
    add_alert_variables(portfolio_id, "ticker", ticker, price)
}

/// Variables of looking at one transaction: the ids and the trimmed,
/// required transaction id.
pub open spec fn spec_transaction_details_variables(input: BrokerInput, transaction_id: Seq<char>) -> Result<
    JsonView,
    Seq<char>,
> {
    match spec_required(transaction_id, "transaction_id"@) {
        Err(e) => Err(e),
        Ok(t) => Ok(JsonView::Object(ids_members(input).push(("transactionId"@, jstr(t))))),
    }
}

pub fn broker_transaction_details_variables(input: &BrokerInput, transaction_id: &str) -> (res:
    Result<Json, ErrorReport>)
    ensures
        plain_errors(res),
        json_result(res) == spec_transaction_details_variables(*input, transaction_id@),
{
    let t = match required(transaction_id, "transaction_id") {
        Ok(v) => v,
        Err(e) => {
            return Err(e);
        },
    };
    let mut out = ids_builder(input);
    out.add("transactionId", Json::Str(t));
    Ok(out.build())
}

/// The list query's input as the request sends it.
pub open spec fn spec_transactions_input(n: NormalizedBrokerTransactionsQueryInput) -> JsonView {
    JsonView::Object(
        seq![
            ("pageSize"@, jnum(n.page_size as int)),
            ("cursor"@, opt_jstr(opt_str(n.cursor))),
            ("type"@, opt_str_array(opt_views(n.type_filter))),
            ("status"@, opt_str_array(opt_views(n.status))),
            ("searchTerm"@, opt_jstr(opt_str(n.search_term))),
            (
                "fromTime"@,
                opt_jnum(
                    match n.from_time_seconds {
                        Some(s) => Some(s as int),
                        None => None,
                    },
                ),
            ),
            (
                "toTime"@,
                opt_jnum(
                    match n.to_time_seconds {
                        Some(s) => Some(s as int),
                        None => None,
                    },
                ),
            ),
            ("isin"@, opt_jstr(opt_str(n.isin))),
            ("includeReinvestmentSubtypes"@, JsonView::Bool(n.include_reinvestment_subtypes)),
        ],
    )
}

pub fn broker_transactions_variables_from_normalized(
    input: &BrokerInput,
    normalized: &NormalizedBrokerTransactionsQueryInput,
) -> (res: Json)
    ensures
        res@ == JsonView::Object(ids_members(*input).push(("input"@, spec_transactions_input(*normalized)))),
{
    let mut query = ObjectBuilder::new();
    query.add("pageSize", unsigned_json(normalized.page_size as u64));
    query.add("cursor", opt_string_json(&normalized.cursor));
    query.add("type", opt_string_array_json(&normalized.type_filter));
    query.add("status", opt_string_array_json(&normalized.status));
    query.add("searchTerm", opt_string_json(&normalized.search_term));
    query.add("fromTime", opt_number_json(normalized.from_time_seconds));
    query.add("toTime", opt_number_json(normalized.to_time_seconds));
    query.add("isin", opt_string_json(&normalized.isin));
    query.add("includeReinvestmentSubtypes", Json::Bool(normalized.include_reinvestment_subtypes));
    proof {
        assert(JsonView::Object(query.members()) == spec_transactions_input(*normalized)) by {
            assert(query.members() =~= spec_transactions_input(*normalized)->Object_0);
        }
    }
    let mut out = ids_builder(input);
    out.add("input", query.build());
    out.build()
}


/// Variables of creating or changing a savings plan: the portfolio, the
/// ISIN, the day of the month (1 to 31), the frequency and the payment method
/// are checked in that order, then the amount, the month and the
/// dynamization rate; blank optional ids are left out as null.
pub open spec fn spec_create_or_update_savings_plan_variables(
    portfolio_id: Seq<char>,
    isin: Seq<char>,
    amount: Seq<char>,
    frequency: Seq<char>,
    day_of_month: u8,
    year_month: Seq<char>,
    dynamization_rate: Seq<char>,
    payment_method: Seq<char>,
    appropriateness_id: Option<Seq<char>>,
    warning_version: Option<Seq<char>>,
) -> Result<JsonView, Seq<char>> {
    match spec_required(portfolio_id, "portfolio_id"@) {
        Err(e) => Err(e),
        Ok(p) => match spec_normalize_isin(isin, "isin"@) {
            Err(e) => Err(e),
            Ok(i) => if day_of_month == 0 || day_of_month > 31 {
                Err("Broker input invalid: field 'day_of_month' must be between 1 and 31"@)
            } else {
                match spec_required(frequency, "frequency"@) {
                    Err(e) => Err(e),
                    Ok(f) => match spec_required(payment_method, "payment_method"@) {
                        Err(e) => Err(e),
                        Ok(m) => match spec_positive_decimal(amount, "amount"@) {
                            Err(e) => Err(e),
                            Ok(a) => match spec_year_month(year_month) {
                                Err(e) => Err(e),
                                Ok(y) => match spec_non_negative_decimal(
                                    dynamization_rate,
                                    "dynamization_rate"@,
                                ) {
                                    Err(e) => Err(e),
                                    Ok(d) => Ok(
                                        JsonView::Object(
                                            seq![
                                                ("portfolioId"@, jstr(p)),
                                                (
                                                    "input"@,
                                                    JsonView::Object(
                                                        seq![
                                                            ("isin"@, jstr(i)),
                                                            ("amount"@, jstr(a)),
                                                            (
                                                                "configuration"@,
                                                                JsonView::Object(
                                                                    seq![
                                                                        ("frequency"@, jstr(f)),
                                                                        ("dayOfTheMonth"@, jnum(day_of_month as int)),
                                                                        ("yearMonth"@, jstr(y)),
                                                                        ("dynamizationRate"@, jstr(d)),
                                                                        ("paymentMethod"@, jstr(m)),
                                                                    ],
                                                                ),
                                                            ),
                                                            (
                                                                "appropriatenessId"@,
                                                                opt_jstr(crate::broker_queries::spec_optional_non_empty(appropriateness_id)),
                                                            ),
                                                            (
                                                                "acknowledgedAppropriatenessWarningVersion"@,
                                                                opt_jstr(crate::broker_queries::spec_optional_non_empty(warning_version)),
                                                            ),
                                                        ],
                                                    ),
                                                ),
                                            ],
                                        ),
                                    ),
                                },
                            },
                        },
                    },
                }
            },
        },
    }
}

#[verifier::rlimit(40)]
pub fn broker_create_or_update_savings_plan_variables(
    portfolio_id: &str,
    isin: &str,
    amount: &str,
    frequency: &str,
    day_of_month: u8,
    year_month: &str,
    dynamization_rate: &str,
    payment_method: &str,
    appropriateness_id: Option<&str>,
    acknowledged_appropriateness_warning_version: Option<&str>,
) -> (res: Result<Json, ErrorReport>)
    ensures
        plain_errors(res),
        json_result(res) == spec_create_or_update_savings_plan_variables(
            portfolio_id@,
            isin@,
            amount@,
            frequency@,
            day_of_month,
            year_month@,
            dynamization_rate@,
            payment_method@,
            opt_slice(appropriateness_id),
            opt_slice(acknowledged_appropriateness_warning_version),
        ),
{
    let p = match required(portfolio_id, "portfolio_id") {
        Ok(v) => v,
        Err(e) => {
            return Err(e);
        },
    };
    let i = match normalize_broker_isin(isin, "isin") {
        Ok(v) => v,
        Err(e) => {
            return Err(e);
        },
    };
    if day_of_month == 0 || day_of_month > 31 {
        return Err(
            ErrorReport::msg("Broker input invalid: field 'day_of_month' must be between 1 and 31"),
        );
    }
    let f = match required(frequency, "frequency") {
        Ok(v) => v,
        Err(e) => {
            return Err(e);
        },
    };
    let m = match required(payment_method, "payment_method") {
        Ok(v) => v,
        Err(e) => {
            return Err(e);
        },
    };
    let a = match normalize_positive_decimal_with_field(amount, "amount") {
        Ok(v) => v,
        Err(e) => {
            return Err(e);
        },
    };
    let y = match normalize_year_month(year_month) {
        Ok(v) => v,
        Err(e) => {
            return Err(e);
        },
    };
    let d = match normalize_non_negative_decimal_with_field(dynamization_rate, "dynamization_rate") {
        Ok(v) => v,
        Err(e) => {
            return Err(e);
        },
    };
    let ghost (pv, iv, fv, mv, av, yv, dv) = (p@, i@, f@, m@, a@, y@, d@);
    let mut configuration = ObjectBuilder::new();
    configuration.add("frequency", Json::Str(f));
    configuration.add("dayOfTheMonth", unsigned_json(day_of_month as u64));
    configuration.add("yearMonth", Json::Str(y));
    configuration.add("dynamizationRate", Json::Str(d));
    configuration.add("paymentMethod", Json::Str(m));
    let ghost configuration_members = configuration.members();
    let appropriateness = crate::broker_queries::normalize_optional_non_empty_string(appropriateness_id);
    let version = crate::broker_queries::normalize_optional_non_empty_string(
        acknowledged_appropriateness_warning_version,
    );
    let mut inner = ObjectBuilder::new();
    inner.add("isin", Json::Str(i));
    inner.add("amount", Json::Str(a));
    inner.add("configuration", configuration.build());
    inner.add("appropriatenessId", opt_string_json(&appropriateness));
    inner.add("acknowledgedAppropriatenessWarningVersion", opt_string_json(&version));
    let ghost inner_members = inner.members();
    let mut out = ObjectBuilder::new();
    out.add("portfolioId", Json::Str(p));
    out.add("input", inner.build());
    proof {
        assert(configuration_members =~= seq![
            ("frequency"@, jstr(fv)),
            ("dayOfTheMonth"@, jnum(day_of_month as int)),
            ("yearMonth"@, jstr(yv)),
            ("dynamizationRate"@, jstr(dv)),
            ("paymentMethod"@, jstr(mv)),
        ]);
        assert(inner_members =~= seq![
            ("isin"@, jstr(iv)),
            ("amount"@, jstr(av)),
            ("configuration"@, JsonView::Object(configuration_members)),
            (
                "appropriatenessId"@,
                opt_jstr(crate::broker_queries::spec_optional_non_empty(opt_slice(appropriateness_id))),
            ),
            (
                "acknowledgedAppropriatenessWarningVersion"@,
                opt_jstr(
                    crate::broker_queries::spec_optional_non_empty(
                        opt_slice(acknowledged_appropriateness_warning_version),
                    ),
                ),
            ),
        ]);
        assert(out.members() =~= seq![
            ("portfolioId"@, jstr(pv)),
            ("input"@, JsonView::Object(inner_members)),
        ]);
    }
    Ok(out.build())
}


// ---------------------------------------------------------------------------
// Derivative search
// ---------------------------------------------------------------------------

/// A member that is there only when its value is.
pub open spec fn opt_member(key: Seq<char>, value: Option<JsonView>) -> Seq<(Seq<char>, JsonView)> {
    match value {
        Some(v) => seq![(key, v)],
        None => Seq::empty(),
    }
}

/// A range as `{min, max}`, open ends as null.
pub open spec fn range_object(r: RangeSpec, low: Seq<char>, high: Seq<char>) -> Option<JsonView> {
    match r {
        Some((a, b)) => Some(JsonView::Object(seq![(low, opt_jstr(a)), (high, opt_jstr(b))])),
        None => None,
    }
}

pub open spec fn knockout_expiry(r: RangeSpec) -> Option<JsonView> {
    match r {
        Some((a, b)) => Some(
            JsonView::Object(
                seq![
                    ("startDate"@, opt_jstr(a)),
                    ("endDate"@, opt_jstr(b)),
                    ("isOpenEnd"@, JsonView::Bool(false)),
                ],
            ),
        ),
        None => None,
    }
}

pub open spec fn sort_object(s: Option<(Seq<char>, Seq<char>)>) -> Option<JsonView> {
    match s {
        Some((f, o)) => Some(JsonView::Object(seq![("field"@, jstr(f)), ("order"@, jstr(o))])),
        None => None,
    }
}

/// What every derivative search input starts with.
pub open spec fn derivative_base(q: NormalizedBrokerDerivativesSearchQueryInput) -> Seq<(Seq<char>, JsonView)> {
    seq![
        ("underlyingIsin"@, jstr(q.underlying_isin@)),
        (
            "pagination"@,
            JsonView::Object(seq![("offset"@, jnum(q.offset as int)), ("limit"@, jnum(q.limit as int))]),
        ),
        ("strategy"@, jstr(q.strategy@)),
    ] + opt_member("issuers"@, match opt_views(q.issuers) {
        Some(v) => Some(str_array(v)),
        None => None,
    })
}

pub open spec fn knockout_input(q: NormalizedBrokerDerivativesSearchQueryInput) -> JsonView {
    JsonView::Object(
        derivative_base(q) + opt_member(
            "productSubcategories"@,
            match opt_views(q.product_subcategories) {
                Some(v) => Some(str_array(v)),
                None => None,
            },
        ) + opt_member("leverageRange"@, range_object(range_view(q.leverage_range), "min"@, "max"@))
            + opt_member(
            "knockoutBarrier"@,
            range_object(range_view(q.knockout_barrier_range), "min"@, "max"@),
        ) + opt_member("strike"@, range_object(range_view(q.strike_range), "min"@, "max"@))
            + opt_member("expiryDate"@, knockout_expiry(date_range_view(q.expiry_date_range)))
            + opt_member("sortBy"@, sort_object(sort_view(q.sort_by))),
    )
}

pub open spec fn warrant_input(q: NormalizedBrokerDerivativesSearchQueryInput) -> JsonView {
    JsonView::Object(
        derivative_base(q) + opt_member(
            "strikeRange"@,
            range_object(range_view(q.strike_range), "min"@, "max"@),
        ) + opt_member("omegaRange"@, range_object(range_view(q.omega_range), "min"@, "max"@))
            + opt_member("deltaRange"@, range_object(signed_range_view(q.delta_range), "min"@, "max"@))
            + opt_member(
            "expiryDate"@,
            range_object(date_range_view(q.expiry_date_range), "startDate"@, "endDate"@),
        ) + opt_member("sortBy"@, sort_object(sort_view(q.sort_by))),
    )
}

pub open spec fn factor_input(q: NormalizedBrokerDerivativesSearchQueryInput) -> JsonView {
    JsonView::Object(
        derivative_base(q) + opt_member(
            "factorRange"@,
            range_object(range_view(q.factor_range), "min"@, "max"@),
        ) + opt_member("sortBy"@, sort_object(sort_view(q.sort_by))),
    )
}

/// Variables of a derivative search: the ids and one input per derivative
/// type, the others null.
pub open spec fn spec_derivatives_search_variables(
    input: BrokerInput,
    q: NormalizedBrokerDerivativesSearchQueryInput,
) -> JsonView {
    let null = JsonView::Null;
    JsonView::Object(
        ids_members(input).push(
            (
                "input"@,
                JsonView::Object(
                    seq![
                        (
                            "knockoutInput"@,
                            if q.derivative_type == BrokerDerivativeType::Knockout {
                                knockout_input(q)
                            } else {
                                null
                            },
                        ),
                        (
                            "warrantInput"@,
                            if q.derivative_type == BrokerDerivativeType::Warrant {
                                warrant_input(q)
                            } else {
                                null
                            },
                        ),
                        (
                            "factorCertificateInput"@,
                            if q.derivative_type == BrokerDerivativeType::Factor {
                                factor_input(q)
                            } else {
                                null
                            },
                        ),
                    ],
                ),
            ),
        ),
    )
}

fn add_range(out: &mut ObjectBuilder, key: &str, min: &Option<String>, max: &Option<String>, low: &str, high: &str)
    ensures
        final(out).members() == old(out).members() + opt_member(
            key@,
            range_object(Some((opt_str(*min), opt_str(*max))), low@, high@),
        ),
{
    let mut range = ObjectBuilder::new();
    range.add(low, opt_string_json(min));
    range.add(high, opt_string_json(max));
    proof {
        assert(range.members() =~= seq![(low@, opt_jstr(opt_str(*min))), (high@, opt_jstr(opt_str(*max)))]);
    }
    let ghost before = out.members();
    out.add(key, range.build());
    proof {
        assert(out.members() =~= before + opt_member(
            key@,
            range_object(Some((opt_str(*min), opt_str(*max))), low@, high@),
        ));
    }
}

fn add_decimal_range(out: &mut ObjectBuilder, key: &str, r: &Option<NormalizedDecimalRange>)
    ensures
        final(out).members() == old(out).members() + opt_member(key@, range_object(range_view(*r), "min"@, "max"@)),
{
    match r {
        Some(x) => add_range(out, key, &x.min, &x.max, "min", "max"),
        None => {
            proof {
                assert(old(out).members() + Seq::<(Seq<char>, JsonView)>::empty() =~= old(out).members());
            }
        },
    }
}

fn add_signed_range(out: &mut ObjectBuilder, key: &str, r: &Option<NormalizedSignedDecimalRange>)
    ensures
        final(out).members() == old(out).members() + opt_member(
            key@,
            range_object(signed_range_view(*r), "min"@, "max"@),
        ),
{
    match r {
        Some(x) => add_range(out, key, &x.min, &x.max, "min", "max"),
        None => {
            proof {
                assert(old(out).members() + Seq::<(Seq<char>, JsonView)>::empty() =~= old(out).members());
            }
        },
    }
}

fn add_warrant_expiry(out: &mut ObjectBuilder, r: &Option<NormalizedDateRange>)
    ensures
        final(out).members() == old(out).members() + opt_member(
            "expiryDate"@,
            range_object(date_range_view(*r), "startDate"@, "endDate"@),
        ),
{
    match r {
        Some(x) => add_range(out, "expiryDate", &x.start_date, &x.end_date, "startDate", "endDate"),
        None => {
            proof {
                assert(old(out).members() + Seq::<(Seq<char>, JsonView)>::empty() =~= old(out).members());
            }
        },
    }
}

fn add_knockout_expiry(out: &mut ObjectBuilder, r: &Option<NormalizedDateRange>)
    ensures
        final(out).members() == old(out).members() + opt_member(
            "expiryDate"@,
            knockout_expiry(date_range_view(*r)),
        ),
{
    let ghost before = out.members();
    match r {
        Some(x) => {
            let mut range = ObjectBuilder::new();
            range.add("startDate", opt_string_json(&x.start_date));
            range.add("endDate", opt_string_json(&x.end_date));
            range.add("isOpenEnd", Json::Bool(false));
            proof {
                assert(range.members() =~= seq![
                    ("startDate"@, opt_jstr(opt_str(x.start_date))),
                    ("endDate"@, opt_jstr(opt_str(x.end_date))),
                    ("isOpenEnd"@, JsonView::Bool(false)),
                ]);
            }
            out.add("expiryDate", range.build());
            proof {
                assert(out.members() =~= before + opt_member(
                    "expiryDate"@,
                    knockout_expiry(date_range_view(*r)),
                ));
            }
        },
        None => {
            proof {
                assert(before + Seq::<(Seq<char>, JsonView)>::empty() =~= before);
            }
        },
    }
}

fn add_sort(out: &mut ObjectBuilder, s: &Option<NormalizedDerivativeSort>)
    ensures
        final(out).members() == old(out).members() + opt_member("sortBy"@, sort_object(sort_view(*s))),
{
    let ghost before = out.members();
    match s {
        Some(x) => {
            let mut sort = ObjectBuilder::new();
            sort.add("field", Json::Str(x.field.clone()));
            sort.add("order", Json::Str(x.order.clone()));
            proof {
                assert(sort.members() =~= seq![("field"@, jstr(x.field@)), ("order"@, jstr(x.order@))]);
            }
            out.add("sortBy", sort.build());
            proof {
                assert(out.members() =~= before + opt_member("sortBy"@, sort_object(sort_view(*s))));
            }
        },
        None => {
            proof {
                assert(before + Seq::<(Seq<char>, JsonView)>::empty() =~= before);
            }
        },
    }
}

fn add_names(out: &mut ObjectBuilder, key: &str, names: &Option<Vec<String>>)
    ensures
        final(out).members() == old(out).members() + opt_member(
            key@,
            match opt_views(*names) {
                Some(v) => Some(str_array(v)),
                None => None,
            },
        ),
{
    let ghost before = out.members();
    match names {
        Some(v) => {
            out.add(key, string_array_json(v));
            proof {
                assert(out.members() =~= before + seq![(key@, str_array(views(v@)))]);
            }
        },
        None => {
            proof {
                assert(before + Seq::<(Seq<char>, JsonView)>::empty() =~= before);
            }
        },
    }
}

fn derivative_base_builder(q: &NormalizedBrokerDerivativesSearchQueryInput) -> (res: ObjectBuilder)
    ensures
        res.members() == derivative_base(*q),
{
    let mut pagination = ObjectBuilder::new();
    pagination.add("offset", unsigned_json(q.offset as u64));
    pagination.add("limit", unsigned_json(q.limit as u64));
    let ghost pagination_members = pagination.members();
    let mut out = ObjectBuilder::new();
    out.add("underlyingIsin", Json::Str(q.underlying_isin.clone()));
    out.add("pagination", pagination.build());
    out.add("strategy", Json::Str(q.strategy.clone()));
    proof {
        assert(pagination_members =~= seq![("offset"@, jnum(q.offset as int)), ("limit"@, jnum(q.limit as int))]);
    }
    add_names(&mut out, "issuers", &q.issuers);
    proof {
        assert(out.members() =~= derivative_base(*q));
    }
    out
}

fn knockout_input_json(q: &NormalizedBrokerDerivativesSearchQueryInput) -> (res: Json)
    ensures
        res@ == knockout_input(*q),
{
    let mut out = derivative_base_builder(q);
    add_names(&mut out, "productSubcategories", &q.product_subcategories);
    add_decimal_range(&mut out, "leverageRange", &q.leverage_range);
    add_decimal_range(&mut out, "knockoutBarrier", &q.knockout_barrier_range);
    add_decimal_range(&mut out, "strike", &q.strike_range);
    add_knockout_expiry(&mut out, &q.expiry_date_range);
    add_sort(&mut out, &q.sort_by);
    out.build()
}

fn warrant_input_json(q: &NormalizedBrokerDerivativesSearchQueryInput) -> (res: Json)
    ensures
        res@ == warrant_input(*q),
{
    let mut out = derivative_base_builder(q);
    add_decimal_range(&mut out, "strikeRange", &q.strike_range);
    add_decimal_range(&mut out, "omegaRange", &q.omega_range);
    add_signed_range(&mut out, "deltaRange", &q.delta_range);
    add_warrant_expiry(&mut out, &q.expiry_date_range);
    add_sort(&mut out, &q.sort_by);
    out.build()
}

fn factor_input_json(q: &NormalizedBrokerDerivativesSearchQueryInput) -> (res: Json)
    ensures
        res@ == factor_input(*q),
{
    let mut out = derivative_base_builder(q);
    add_decimal_range(&mut out, "factorRange", &q.factor_range);
    add_sort(&mut out, &q.sort_by);
    out.build()
}

pub fn broker_derivatives_search_variables(
    input: &BrokerInput,
    query: &NormalizedBrokerDerivativesSearchQueryInput,
) -> (res: Result<Json, ErrorReport>)
    ensures
        plain_errors(res),
        json_result(res) == Ok::<JsonView, Seq<char>>(spec_derivatives_search_variables(*input, *query)),
{
    let (knockout, warrant, factor) = match query.derivative_type {
        BrokerDerivativeType::Knockout => (knockout_input_json(query), Json::Null, Json::Null),
        BrokerDerivativeType::Warrant => (Json::Null, warrant_input_json(query), Json::Null),
        BrokerDerivativeType::Factor => (Json::Null, Json::Null, factor_input_json(query)),
    };
    let mut derivatives = ObjectBuilder::new();
    derivatives.add("knockoutInput", knockout);
    derivatives.add("warrantInput", warrant);
    derivatives.add("factorCertificateInput", factor);
    let ghost derivative_members = derivatives.members();
    let mut out = ids_builder(input);
    out.add("input", derivatives.build());
    proof {
        assert(JsonView::Object(derivative_members) == spec_derivatives_search_variables(*input, *query)->Object_0.last().1) by {
            assert(derivative_members =~= spec_derivatives_search_variables(*input, *query)->Object_0.last().1->Object_0);
        }
        assert(out.members() =~= spec_derivatives_search_variables(*input, *query)->Object_0);
    }
    Ok(out.build())
}

} // verus!
