//! Broker request inputs: checked, trimmed and normalized before any request
//! is sent.
use vstd::prelude::*;

use crate::error_report::{plain_errors, plain_report};
use crate::decimal::{components_view, decimal_order, ordering_value, parse_decimal, spec_parse_decimal};
use crate::enum_filter::{normalize_enum_values, spec_normalize_enum_values, EnumFilterError};
use crate::error_report::ErrorReport;
use crate::json::{Json, JsonView};
use crate::isin::{is_valid_isin, isin_shape, spec_is_valid_isin};
use crate::text::{
    chars_of, concat3, concat4, is_digit, is_digit_char, join, join_strings, opt_slice, opt_str,
    str_eq, string_of, trim, trim_chars, trimmed, upper, upper_char_exec, views,
};
use crate::time::{instant_after, instant_after_exec, parse_rfc3339, rfc3339_instant};

verus! {

/// The transaction types that the backend filters by.
pub open spec fn broker_transaction_type_filters() -> Seq<Seq<char>> {
    seq![
        "BUY"@,
        "SELL"@,
        "SAVINGS_PLAN"@,
        "DEPOSIT"@,
        "WITHDRAWAL"@,
        "DISTRIBUTION"@,
        "FEE"@,
        "INTEREST"@,
        "TAX"@,
        "TAX_RETURN"@,
        "SWAP_IN"@,
        "SWAP_OUT"@,
        "TRANSFER_IN"@,
        "TRANSFER_OUT"@,
        "CURRENCY_SWITCH_BUY"@,
        "CURRENCY_SWITCH_SELL"@,
        "CASH_TRANSFER_IN"@,
        "CASH_TRANSFER_OUT"@,
        "POCKET_MONEY"@,
        "REINVESTMENT"@,
        "REINVESTMENT_DISTRIBUTION"@,
        "REINVESTMENT_POCKET_MONEY"@,
    ]
}

/// The transaction types that the backend filters by.
pub fn valid_broker_transaction_type_filters() -> (res: Vec<String>)
    ensures
        views(res@) == broker_transaction_type_filters(),
{
    let mut res: Vec<String> = Vec::new();
    res.push("BUY".to_owned());
    res.push("SELL".to_owned());
    res.push("SAVINGS_PLAN".to_owned());
    res.push("DEPOSIT".to_owned());
    res.push("WITHDRAWAL".to_owned());
    res.push("DISTRIBUTION".to_owned());
    res.push("FEE".to_owned());
    res.push("INTEREST".to_owned());
    res.push("TAX".to_owned());
    res.push("TAX_RETURN".to_owned());
    res.push("SWAP_IN".to_owned());
    res.push("SWAP_OUT".to_owned());
    res.push("TRANSFER_IN".to_owned());
    res.push("TRANSFER_OUT".to_owned());
    res.push("CURRENCY_SWITCH_BUY".to_owned());
    res.push("CURRENCY_SWITCH_SELL".to_owned());
    res.push("CASH_TRANSFER_IN".to_owned());
    res.push("CASH_TRANSFER_OUT".to_owned());
    res.push("POCKET_MONEY".to_owned());
    res.push("REINVESTMENT".to_owned());
    res.push("REINVESTMENT_DISTRIBUTION".to_owned());
    res.push("REINVESTMENT_POCKET_MONEY".to_owned());
    proof {
        assert(views(res@) =~= broker_transaction_type_filters());
    }
    res
}
/// The transaction statuses that the backend filters by.
pub open spec fn broker_transaction_statuses() -> Seq<Seq<char>> {
    seq![
        "CREATED"@,
        "REQUESTED"@,
        "PENDING"@,
        "PARTIAL_FILLED"@,
        "FILLED"@,
        "SETTLED"@,
        "CANCELLED"@,
        "CANCEL_REQUESTED"@,
        "EXPIRED"@,
        "REJECTED"@,
        "CONFIRMED"@,
    ]
}

/// The transaction statuses that the backend filters by.
pub fn valid_broker_transaction_statuses() -> (res: Vec<String>)
    ensures
        views(res@) == broker_transaction_statuses(),
{
    let mut res: Vec<String> = Vec::new();
    res.push("CREATED".to_owned());
    res.push("REQUESTED".to_owned());
    res.push("PENDING".to_owned());
    res.push("PARTIAL_FILLED".to_owned());
    res.push("FILLED".to_owned());
    res.push("SETTLED".to_owned());
    res.push("CANCELLED".to_owned());
    res.push("CANCEL_REQUESTED".to_owned());
    res.push("EXPIRED".to_owned());
    res.push("REJECTED".to_owned());
    res.push("CONFIRMED".to_owned());
    proof {
        assert(views(res@) =~= broker_transaction_statuses());
    }
    res
}
/// `Broker input invalid: field '<field>' <tail>`.
pub open spec fn field_error(field: Seq<char>, tail: Seq<char>) -> Seq<char> {
    "Broker input invalid: field '"@ + field + "' "@ + tail
}

/// An error with the message `field_error(field, tail)`.
pub fn field_error_report(field: &str, tail: &str) -> (res: ErrorReport)
    ensures
        plain_report(res),
        res.messages() == seq![field_error(field@, tail@)],
{
    let m = concat4("Broker input invalid: field '", field, "' ", tail);
    ErrorReport::msg(m.as_str())
}

/// The help text for a filter: the accepted values and how input is normalized.
pub open spec fn spec_enum_filter_help(prefix: Seq<char>, allowed: Seq<Seq<char>>, hint: Seq<char>) -> Seq<char> {
    prefix + ": "@ + join(allowed, ", "@) + ". "@ + hint
}

pub fn format_enum_filter_help(prefix: &str, allowed: &Vec<String>, normalization_hint: &str) -> (res: String)
    ensures
        res@ == spec_enum_filter_help(prefix@, views(allowed@), normalization_hint@),
{
    let list = join_strings(allowed, ", ");
    let mut res = concat3(prefix, ": ", list.as_str());
    res.append(". ");
    res.append(normalization_hint);
    res
}

pub fn broker_transactions_type_filter_help() -> (res: String)
    ensures
        res@ == spec_enum_filter_help(
            "Transaction type filter (repeatable). Accepted values"@,
            broker_transaction_type_filters(),
            "Input is normalized, so values like `buy`, `cash transfer in`, and `cash-transfer-in` are accepted."@,
        ),
{
    format_enum_filter_help(
        "Transaction type filter (repeatable). Accepted values",
        &valid_broker_transaction_type_filters(),
        "Input is normalized, so values like `buy`, `cash transfer in`, and `cash-transfer-in` are accepted.",
    )
}

pub fn broker_transactions_status_help() -> (res: String)
    ensures
        res@ == spec_enum_filter_help(
            "Transaction status filter (repeatable). Accepted values"@,
            broker_transaction_statuses(),
            "Input is normalized, so values like `filled` and `partial filled` are accepted."@,
        ),
{
    format_enum_filter_help(
        "Transaction status filter (repeatable). Accepted values",
        &valid_broker_transaction_statuses(),
        "Input is normalized, so values like `filled` and `partial filled` are accepted.",
    )
}

// ---------------------------------------------------------------------------
// Account and portfolio
// ---------------------------------------------------------------------------

/// The account and portfolio that a broker request is about, with the
/// request-wide options.
#[derive(Debug, Clone, PartialEq, Eq)]
pub struct BrokerInput {
    account_id: String,
    portfolio_id: String,
    include_year_to_date: bool,
    quote_source: Option<String>,
}

impl BrokerInput {
    pub closed spec fn spec_account_id(&self) -> Seq<char> {
        self.account_id@
    }

    pub closed spec fn spec_portfolio_id(&self) -> Seq<char> {
        self.portfolio_id@
    }

    pub closed spec fn spec_include_year_to_date(&self) -> bool {
        self.include_year_to_date
    }

    pub closed spec fn spec_quote_source(&self) -> Option<Seq<char>> {
        opt_str(self.quote_source)
    }

    /// The ids trimmed, neither of them blank; a blank quote source is none.
    pub fn new(
        account_id: &str,
        portfolio_id: &str,
        include_year_to_date: bool,
        quote_source: Option<&str>,
    ) -> (res: Result<Self, ErrorReport>)
        ensures
            plain_errors(res),
            trim(account_id@).len() == 0 ==> (res matches Err(e) && e.messages() == seq![
                field_error("account_id"@, "must be a non-empty string"@),
            ]),
            trim(account_id@).len() > 0 && trim(portfolio_id@).len() == 0 ==> (res matches Err(e)
                && e.messages() == seq![
                field_error("portfolio_id"@, "must be a non-empty string"@),
            ]),
            trim(account_id@).len() > 0 && trim(portfolio_id@).len() > 0 ==> (res matches Ok(b) && {
                &&& b.spec_account_id() == trim(account_id@)
                &&& b.spec_portfolio_id() == trim(portfolio_id@)
                &&& b.spec_include_year_to_date() == include_year_to_date
                &&& b.spec_quote_source() == spec_optional_non_empty(opt_slice(quote_source))
            }),
    {
        let account_id = trimmed(account_id);
        let portfolio_id = trimmed(portfolio_id);
        if account_id.as_str().is_empty() {
            return Err(field_error_report("account_id", "must be a non-empty string"));
        }
        if portfolio_id.as_str().is_empty() {
            return Err(field_error_report("portfolio_id", "must be a non-empty string"));
        }
        let quote_source = normalize_optional_non_empty_string(quote_source);
        Ok(Self { account_id, portfolio_id, include_year_to_date, quote_source })
    }

    pub fn account_id(&self) -> (res: &str)
        ensures
            res@ == self.spec_account_id(),
    {
        self.account_id.as_str()
    }

    pub fn portfolio_id(&self) -> (res: &str)
        ensures
            res@ == self.spec_portfolio_id(),
    {
        self.portfolio_id.as_str()
    }

    /// The account id as a JSON string.
    pub fn account_id_value(&self) -> (res: Json)
        ensures
            res@ == JsonView::Str(self.spec_account_id()),
    {
        Json::Str(self.account_id.clone())
    }

    /// The portfolio id as a JSON string.
    pub fn portfolio_id_value(&self) -> (res: Json)
        ensures
            res@ == JsonView::Str(self.spec_portfolio_id()),
    {
        Json::Str(self.portfolio_id.clone())
    }

    pub fn include_year_to_date(&self) -> (res: bool)
        ensures
            res == self.spec_include_year_to_date(),
    {
        self.include_year_to_date
    }

    pub fn quote_source(&self) -> (res: Option<&str>)
        ensures
            opt_slice(res) == self.spec_quote_source(),
    {
        match &self.quote_source {
            Some(s) => Some(s.as_str()),
            None => None,
        }
    }
}

/// A trimmed optional text; a blank one is none.
pub open spec fn spec_optional_non_empty(raw: Option<Seq<char>>) -> Option<Seq<char>> {
    match raw {
        Some(s) => if trim(s).len() == 0 {
            None
        } else {
            Some(trim(s))
        },
        None => None,
    }
}

pub fn normalize_optional_non_empty_string(raw: Option<&str>) -> (res: Option<String>)
    ensures
        opt_str(res) == spec_optional_non_empty(opt_slice(raw)),
{
    match raw {
        Some(s) => {
            let t = trimmed(s);
            if t.as_str().is_empty() {
                None
            } else {
                Some(t)
            }
        },
        None => None,
    }
}

// ---------------------------------------------------------------------------
// ISINs, decimals, months, timestamps
// ---------------------------------------------------------------------------

/// The ISIN trimmed and upper-cased; refused when blank or not a valid ISIN.
pub open spec fn spec_normalize_isin(raw: Seq<char>, field: Seq<char>) -> Result<Seq<char>, Seq<char>> {
    let t = trim(raw);
    if t.len() == 0 {
        Err(field_error(field, "must be a non-empty string"@))
    } else if !spec_is_valid_isin(upper(t)) {
        Err(field_error(field, "must be a valid ISIN"@))
    } else {
        Ok(upper(t))
    }
}

/// A normalized ISIN normalizes to itself: normalizing twice is normalizing
/// once.
pub proof fn normalized_isin_is_a_fixed_point(raw: Seq<char>, field: Seq<char>, again: Seq<char>)
    ensures
        spec_normalize_isin(raw, field) matches Ok(v) ==> spec_normalize_isin(v, again) == Ok::<
            Seq<char>,
            Seq<char>,
        >(v),
{
    if let Ok(v) = spec_normalize_isin(raw, field) {
        assert(isin_shape(v));
        assert(!crate::text::is_ws(v[0]) && !crate::text::is_ws(v.last())) by {
            assert(v.last() == v[11]);
        }
        assert(crate::text::trim_start(v) == v);
        assert(crate::text::trim_end(v) == v);
        assert(upper(v) =~= v) by {
            assert forall|i: int| 0 <= i < v.len() implies #[trigger] upper(v)[i] == v[i] by {
                assert(v[i] == upper(trim(raw))[i]);
            }
        }
    }
}

/// Maps a result whose error is an `ErrorReport` to plain values.
pub open spec fn result_view(r: Result<String, ErrorReport>) -> Result<Seq<char>, Seq<Seq<char>>> {
    match r {
        Ok(s) => Ok(s@),
        Err(e) => Err(e.messages()),
    }
}

/// A one-message error result.
pub open spec fn lift(r: Result<Seq<char>, Seq<char>>) -> Result<Seq<char>, Seq<Seq<char>>> {
    match r {
        Ok(s) => Ok(s),
        Err(m) => Err(seq![m]),
    }
}

fn to_ascii_uppercase(v: &Vec<char>) -> (res: Vec<char>)
    ensures
        res@ == upper(v@),
{
    let mut res: Vec<char> = Vec::new();
    let mut i: usize = 0;
    while i < v.len()
        invariant
            i <= v.len(),
            res@ == upper(v@.take(i as int)),
        decreases v.len() - i,
    {
        res.push(upper_char_exec(v[i]));
        proof {
            assert(res@ =~= upper(v@.take(i + 1)));
        }
        i = i + 1;
    }
    proof {
        assert(v@.take(v.len() as int) =~= v@);
    }
    res
}

/// The ISIN trimmed and upper-cased; refused when blank or not a valid ISIN.
pub fn normalize_broker_isin(raw: &str, field: &str) -> (res: Result<String, ErrorReport>)
    ensures
        plain_errors(res),
        result_view(res) == lift(spec_normalize_isin(raw@, field@)),
{
    let t = trim_chars(raw);
    if t.len() == 0 {
        return Err(field_error_report(field, "must be a non-empty string"));
    }
    let canonical = to_ascii_uppercase(&t);
    if !is_valid_isin(&canonical) {
        return Err(field_error_report(field, "must be a valid ISIN"));
    }
    Ok(string_of(&canonical))
}

/// A decimal refused for a field: `must be a <kind>`.
pub open spec fn decimal_error(field: Seq<char>, kind: Seq<char>) -> Seq<char> {
    field_error(field, "must be a "@ + kind)
}

/// Parses a decimal for a field, with the field's error when it is not one.
pub fn parse_decimal_components(raw: &str, field: &str, allow_negative: bool, kind: &str) -> (res:
    Result<(i8, String, String), ErrorReport>)
    ensures
        plain_errors(res),
        match res {
            Ok(c) => spec_parse_decimal(raw@, allow_negative) == Some(components_view(c)),
            Err(e) => spec_parse_decimal(raw@, allow_negative) is None && e.messages() == seq![
                decimal_error(field@, kind@),
            ],
        },
{
    match parse_decimal(raw, allow_negative) {
        Some(c) => Ok(c),
        None => {
            let tail = concat3("must be a ", kind, "");
            proof {
                reveal_strlit("");
                assert(tail@ =~= "must be a "@ + kind@);
            }
            Err(field_error_report(field, tail.as_str()))
        },
    }
}

/// A positive decimal, trimmed.
pub open spec fn spec_positive_decimal(raw: Seq<char>, field: Seq<char>) -> Result<Seq<char>, Seq<char>> {
    match spec_parse_decimal(raw, false) {
        Some(c) => if c.0 > 0 {
            Ok(trim(raw))
        } else {
            Err(field_error(field, "must be a positive decimal"@))
        },
        None => Err(field_error(field, "must be a positive decimal"@)),
    }
}

pub fn normalize_positive_decimal_with_field(raw: &str, field: &str) -> (res: Result<String, ErrorReport>)
    ensures
        plain_errors(res),
        result_view(res) == lift(spec_positive_decimal(raw@, field@)),
{
    let t = trimmed(raw);
    proof {
        crate::text::lemma_trim_idempotent(raw@);
        assert(spec_parse_decimal(t@, false) == spec_parse_decimal(raw@, false));
    }
    match parse_decimal(t.as_str(), false) {
        Some((sign, _, _)) => {
            if sign <= 0 {
                return Err(field_error_report(field, "must be a positive decimal"));
            }
            Ok(t)
        },
        None => Err(field_error_report(field, "must be a positive decimal")),
    }
}

pub fn normalize_positive_decimal(raw: &str) -> (res: Result<String, ErrorReport>)
    ensures
        plain_errors(res),
        result_view(res) == lift(spec_positive_decimal(raw@, "price"@)),
{
    normalize_positive_decimal_with_field(raw, "price")
}

/// A decimal that is not negative, trimmed.
pub open spec fn spec_non_negative_decimal(raw: Seq<char>, field: Seq<char>) -> Result<Seq<char>, Seq<char>> {
    match spec_parse_decimal(raw, false) {
        Some(_) => Ok(trim(raw)),
        None => Err(field_error(field, "must be a non-negative decimal"@)),
    }
}

pub fn normalize_non_negative_decimal_with_field(raw: &str, field: &str) -> (res: Result<String, ErrorReport>)
    ensures
        plain_errors(res),
        result_view(res) == lift(spec_non_negative_decimal(raw@, field@)),
{
    let t = trimmed(raw);
    proof {
        crate::text::lemma_trim_idempotent(raw@);
        assert(spec_parse_decimal(t@, false) == spec_parse_decimal(raw@, false));
    }
    match parse_decimal(t.as_str(), false) {
        Some(_) => Ok(t),
        None => Err(field_error_report(field, "must be a non-negative decimal")),
    }
}

/// A decimal of either sign, trimmed.
pub open spec fn spec_signed_decimal(raw: Seq<char>, field: Seq<char>) -> Result<Seq<char>, Seq<char>> {
    match spec_parse_decimal(raw, true) {
        Some(_) => Ok(trim(raw)),
        None => Err(decimal_error(field, "decimal"@)),
    }
}

pub fn normalize_decimal_with_field(raw: &str, field: &str) -> (res: Result<String, ErrorReport>)
    ensures
        plain_errors(res),
        result_view(res) == lift(spec_signed_decimal(raw@, field@)),
{
    let t = trimmed(raw);
    proof {
        crate::text::lemma_trim_idempotent(raw@);
        assert(spec_parse_decimal(t@, true) == spec_parse_decimal(raw@, true));
    }
    let _ = parse_decimal_components(t.as_str(), field, true, "decimal")?;
    Ok(t)
}

/// A `YYYY-MM` month: four digits, `-`, and `01` to `12`.
pub open spec fn is_year_month(t: Seq<char>) -> bool {
    &&& t.len() == 7
    &&& t[4] == '-'
    &&& is_digit(t[0]) && is_digit(t[1]) && is_digit(t[2]) && is_digit(t[3])
    &&& ((t[5] == '0' && '1' <= t[6] && t[6] <= '9') || (t[5] == '1' && '0' <= t[6] && t[6] <= '2'))
}

pub open spec fn spec_year_month(raw: Seq<char>) -> Result<Seq<char>, Seq<char>> {
    if is_year_month(trim(raw)) {
        Ok(trim(raw))
    } else {
        Err(field_error("year_month"@, "must use YYYY-MM format"@))
    }
}

pub fn normalize_year_month(raw: &str) -> (res: Result<String, ErrorReport>)
    ensures
        plain_errors(res),
        result_view(res) == lift(spec_year_month(raw@)),
{
    let t = trim_chars(raw);
    if t.len() != 7 || t[4] != '-' {
        return Err(field_error_report("year_month", "must use YYYY-MM format"));
    }
    let valid_year = is_digit_char(t[0]) && is_digit_char(t[1]) && is_digit_char(t[2])
        && is_digit_char(t[3]);
    let valid_month = (t[5] == '0' && '1' <= t[6] && t[6] <= '9') || (t[5] == '1' && '0' <= t[6]
        && t[6] <= '2');
    if !valid_year || !valid_month {
        return Err(field_error_report("year_month", "must use YYYY-MM format"));
    }
    Ok(string_of(&t))
}

/// A timestamp with an offset, read as RFC 3339 after trimming.
pub open spec fn spec_timestamp(raw: Seq<char>, field: Seq<char>, prefix: Seq<char>) -> Result<(int, int), Seq<char>> {
    let t = trim(raw);
    if t.len() == 0 {
        Err(prefix + "field '"@ + field + "' must be a non-empty ISO-8601 timestamp"@)
    } else {
        match rfc3339_instant(t) {
            Some(i) => Ok(i),
            None => Err(prefix + "field '"@ + field + "' must be an ISO-8601 timestamp with timezone"@),
        }
    }
}

/// Reads a timestamp with an offset; errors start with `prefix`.
pub fn parse_iso_8601_timestamp(raw: &str, field: &str, prefix: &str) -> (res: Result<(i64, u32), ErrorReport>)
    ensures
        plain_errors(res),
        match res {
            Ok(i) => spec_timestamp(raw@, field@, prefix@) == Ok::<(int, int), Seq<char>>(
                (i.0 as int, i.1 as int),
            ),
            Err(e) => spec_timestamp(raw@, field@, prefix@) matches Err(m) && e.messages() == seq![m],
        },
{
    let t = trimmed(raw);
    if t.as_str().is_empty() {
        let m = concat4(prefix, "field '", field, "' must be a non-empty ISO-8601 timestamp");
        return Err(ErrorReport::msg(m.as_str()));
    }
    match parse_rfc3339(t.as_str()) {
        Some(i) => Ok(i),
        None => {
            let m = concat4(prefix, "field '", field, "' must be an ISO-8601 timestamp with timezone");
            Err(ErrorReport::msg(m.as_str()))
        },
    }
}

// ---------------------------------------------------------------------------
// Enum filters
// ---------------------------------------------------------------------------

/// The message for a refused filter value.
pub open spec fn enum_filter_message(prefix: Seq<char>, field: Seq<char>, e: EnumFilterError) -> Seq<char> {
    match e {
        EnumFilterError::Empty => prefix + "field '"@ + field + "' contains an empty value"@,
        EnumFilterError::Unsupported => prefix + "field '"@ + field + "' contains unsupported characters"@,
    }
}

pub fn enum_filter_error_report(prefix: &str, field: &str, e: EnumFilterError) -> (res: ErrorReport)
    ensures
        plain_report(res),
        res.messages() == seq![enum_filter_message(prefix@, field@, e)],
{
    let m = match e {
        EnumFilterError::Empty => concat4(prefix, "field '", field, "' contains an empty value"),
        EnumFilterError::Unsupported => concat4(
            prefix,
            "field '",
            field,
            "' contains unsupported characters",
        ),
    };
    ErrorReport::msg(m.as_str())
}

/// The broker's normalized filter list, with its errors.
pub fn normalize_enum_filter_values(values: &[String], field: &str) -> (res: Result<Option<Vec<String>>, ErrorReport>)
    ensures
        plain_errors(res),
        match spec_normalize_enum_values(views(values@)) {
            Ok(v) => res matches Ok(x) && opt_views(x) == v,
            Err(e) => res matches Err(r) && r.messages() == seq![
                enum_filter_message("Broker input invalid: "@, field@, e),
            ],
        },
{
    match normalize_enum_values(values) {
        Ok(v) => Ok(v),
        Err(e) => Err(enum_filter_error_report("Broker input invalid: ", field, e)),
    }
}

/// The message for a filter value outside the accepted list.
pub open spec fn unsupported_value_message(field: Seq<char>, value: Seq<char>, allowed: Seq<Seq<char>>) -> Seq<char> {
    field_error(field, "value '"@ + value + "' is not supported. Valid values: "@ + join(allowed, ", "@))
}

/// The first value that the accepted list does not hold.
pub open spec fn first_unsupported(values: Seq<Seq<char>>, allowed: Seq<Seq<char>>) -> Option<Seq<char>>
    decreases values.len(),
{
    if values.len() == 0 {
        None
    } else if !allowed.contains(values[0]) {
        Some(values[0])
    } else {
        first_unsupported(values.drop_first(), allowed)
    }
}

fn list_contains(list: &Vec<String>, value: &str) -> (res: bool)
    ensures
        res == views(list@).contains(value@),
{
    let mut i: usize = 0;
    while i < list.len()
        invariant
            i <= list.len(),
            forall|k: int| 0 <= k < i ==> list@[k]@ != value@,
        decreases list.len() - i,
    {
        if str_eq(list[i].as_str(), value) {
            proof {
                assert(views(list@)[i as int] == value@);
            }
            return true;
        }
        i = i + 1;
    }
    proof {
        if views(list@).contains(value@) {
            let k = choose|k: int| 0 <= k < views(list@).len() && views(list@)[k] == value@;
            assert(list@[k]@ == value@);
        }
    }
    false
}

fn validate_list(values: &Vec<String>, field: &str, allowed: &Vec<String>) -> (res: Result<(), ErrorReport>)
    ensures
        plain_errors(res),
        match first_unsupported(views(values@), views(allowed@)) {
            None => res is Ok,
            Some(v) => res matches Err(e) && e.messages() == seq![
                unsupported_value_message(field@, v, views(allowed@)),
            ],
        },
{
    let ghost vs = views(values@);
    let mut i: usize = 0;
    proof {
        assert(vs.skip(0) =~= vs);
    }
    while i < values.len()
        invariant
            i <= values.len(),
            vs == views(values@),
            first_unsupported(vs, views(allowed@)) == first_unsupported(vs.skip(i as int), views(allowed@)),
        decreases values.len() - i,
    {
        proof {
            assert(vs.skip(i as int)[0] == vs[i as int]);
            assert(vs.skip(i as int).drop_first() =~= vs.skip(i + 1));
        }
        if !list_contains(allowed, values[i].as_str()) {
            let list = join_strings(allowed, ", ");
            let tail = concat4("value '", values[i].as_str(), "' is not supported. Valid values: ", list.as_str());
            let err = field_error_report(field, tail.as_str());
            proof {
                assert(values@[i as int]@ == vs[i as int]);
                assert(first_unsupported(vs, views(allowed@)) == Some(vs[i as int]));
            }
            return Err(err);
        }
        i = i + 1;
    }
    proof {
        assert(vs.skip(values.len() as int) =~= Seq::<Seq<char>>::empty());
    }
    Ok(())
}

/// Every value must be in the accepted list; the first that is not is reported.
pub fn validate_enum_filter_values(values: Option<&Vec<String>>, field: &str, allowed: &Vec<String>) -> (res: Result<(), ErrorReport>)
    ensures
        plain_errors(res),
        match values {
            None => res is Ok,
            Some(vs) => match first_unsupported(views(vs@), views(allowed@)) {
                None => res is Ok,
                Some(v) => res matches Err(e) && e.messages() == seq![
                    unsupported_value_message(field@, v, views(allowed@)),
                ],
            },
        },
{
    match values {
        Some(vs) => validate_list(vs, field, allowed),
        None => Ok(()),
    }
}

// ---------------------------------------------------------------------------
// Transaction list queries
// ---------------------------------------------------------------------------

/// The checked inputs of a transaction list query.
#[derive(Debug, Clone, PartialEq, Eq)]
pub struct NormalizedBrokerTransactionsQueryInput {
    pub page_size: u16,
    pub cursor: Option<String>,
    pub type_filter: Option<Vec<String>>,
    pub status: Option<Vec<String>>,
    pub search_term: Option<String>,
    pub from_time_seconds: Option<i64>,
    pub to_time_seconds: Option<i64>,
    pub isin: Option<String>,
    pub include_reinvestment_subtypes: bool,
}

pub open spec fn opt_views(o: Option<Vec<String>>) -> Option<Seq<Seq<char>>> {
    match o {
        Some(v) => Some(views(v@)),
        None => None,
    }
}

/// A time bound: absent, or read from its text.
pub open spec fn spec_time_bound(raw: Option<Seq<char>>, field: Seq<char>) -> Result<Option<(int, int)>, Seq<char>> {
    match raw {
        None => Ok(None),
        Some(r) => match spec_timestamp(r, field, "Broker input invalid: "@) {
            Ok(i) => Ok(Some(i)),
            Err(m) => Err(m),
        },
    }
}

fn time_bound(raw: Option<&str>, field: &str, prefix: &str) -> (res: Result<Option<(i64, u32)>, ErrorReport>)
    ensures
        plain_errors(res),
        match res {
            Ok(None) => raw is None,
            Ok(Some(i)) => raw matches Some(r) && spec_timestamp(r@, field@, prefix@) == Ok::<(int, int), Seq<char>>(
                (i.0 as int, i.1 as int),
            ),
            Err(e) => raw matches Some(r) && spec_timestamp(r@, field@, prefix@) matches Err(m)
                && e.messages() == seq![m],
        },
{
    match raw {
        None => Ok(None),
        Some(r) => {
            let i = parse_iso_8601_timestamp(r, field, prefix)?;
            Ok(Some(i))
        },
    }
}

/// An optional integer as a mathematical integer.
pub open spec fn opt_int(o: Option<i64>) -> Option<int> {
    match o {
        Some(x) => Some(x as int),
        None => None,
    }
}

/// The seconds of an optional instant.
pub open spec fn opt_seconds(i: Option<(i64, u32)>) -> Option<i64> {
    match i {
        Some(x) => Some(x.0),
        None => None,
    }
}

/// The list of an optional list, empty for none.
pub open spec fn listed(v: Option<Seq<Seq<char>>>) -> Seq<Seq<char>> {
    match v {
        Some(x) => x,
        None => Seq::empty(),
    }
}

/// The first check that a transaction list query fails, in the order in which
/// they run: page size, type filter, status filter, the two timestamps, and
/// their order.
pub open spec fn spec_transactions_error(
    page_size: u16,
    types: Seq<Seq<char>>,
    statuses: Seq<Seq<char>>,
    from: Option<Seq<char>>,
    to: Option<Seq<char>>,
) -> Option<Seq<char>> {
    if page_size == 0 || page_size > 100 {
        Some(field_error("page_size"@, "must be between 1 and 100"@))
    } else {
        match spec_normalize_enum_values(types) {
            Err(e) => Some(enum_filter_message("Broker input invalid: "@, "type_filter"@, e)),
            Ok(t) => match first_unsupported(listed(t), broker_transaction_type_filters()) {
                Some(v) => Some(unsupported_value_message("type_filter"@, v, broker_transaction_type_filters())),
                None => match spec_normalize_enum_values(statuses) {
                    Err(e) => Some(enum_filter_message("Broker input invalid: "@, "status"@, e)),
                    Ok(st) => match first_unsupported(listed(st), broker_transaction_statuses()) {
                        Some(v) => Some(unsupported_value_message("status"@, v, broker_transaction_statuses())),
                        None => match spec_time_bound(from, "from_time"@) {
                            Err(m) => Some(m),
                            Ok(f) => match spec_time_bound(to, "to_time"@) {
                                Err(m) => Some(m),
                                Ok(t) => match (f, t) {
                                    (Some(x), Some(y)) => if instant_after(x, y) {
                                        Some("Broker input invalid: field 'from_time' must be before or equal to 'to_time'"@)
                                    } else {
                                        None
                                    },
                                    _ => None,
                                },
                            },
                        },
                    },
                },
            },
        }
    }
}

/// The seconds of a time bound that was read.
pub open spec fn bound_seconds(b: Result<Option<(int, int)>, Seq<char>>) -> Option<int> {
    match b {
        Ok(Some(x)) => Some(x.0),
        _ => None,
    }
}

/// Checks and normalizes the inputs of a transaction list query: the page
/// size must be 1 to 100; filters are normalized, deduplicated, sorted and
/// must be accepted values; blank optional texts are none; timestamps must be
/// RFC 3339 and in order.
#[verifier::rlimit(60)]
pub fn normalize_broker_transactions_query_input(
    page_size: u16,
    cursor: Option<&str>,
    type_filter: &[String],
    status: &[String],
    search_term: Option<&str>,
    from_time: Option<&str>,
    to_time: Option<&str>,
    isin: Option<&str>,
    include_reinvestment_subtypes: bool,
) -> (res: Result<NormalizedBrokerTransactionsQueryInput, ErrorReport>)
    ensures
        plain_errors(res),
        match spec_transactions_error(page_size, views(type_filter@), views(status@), opt_slice(from_time), opt_slice(to_time)) {
            Some(m) => res matches Err(e) && e.messages() == seq![m],
            None => res matches Ok(n) && {
                &&& n.page_size == page_size
                &&& opt_str(n.cursor) == spec_optional_non_empty(opt_slice(cursor))
                &&& opt_str(n.search_term) == spec_optional_non_empty(opt_slice(search_term))
                &&& opt_str(n.isin) == spec_optional_non_empty(opt_slice(isin))
                &&& n.include_reinvestment_subtypes == include_reinvestment_subtypes
                &&& spec_normalize_enum_values(views(type_filter@)) == Ok::<Option<Seq<Seq<char>>>, EnumFilterError>(opt_views(n.type_filter))
                &&& spec_normalize_enum_values(views(status@)) == Ok::<Option<Seq<Seq<char>>>, EnumFilterError>(opt_views(n.status))
                &&& opt_int(n.from_time_seconds) == bound_seconds(spec_time_bound(opt_slice(from_time), "from_time"@))
                &&& opt_int(n.to_time_seconds) == bound_seconds(spec_time_bound(opt_slice(to_time), "to_time"@))
            },
        },
{
    if page_size == 0 || page_size > 100 {
        return Err(field_error_report("page_size", "must be between 1 and 100"));
    }
    let normalized_cursor = normalize_optional_non_empty_string(cursor);
    let normalized_type_filter = normalize_enum_filter_values(type_filter, "type_filter")?;
    let type_list = valid_broker_transaction_type_filters();
    validate_enum_filter_values(normalized_type_filter.as_ref(), "type_filter", &type_list)?;
    let normalized_status = normalize_enum_filter_values(status, "status")?;
    let status_list = valid_broker_transaction_statuses();
    validate_enum_filter_values(normalized_status.as_ref(), "status", &status_list)?;
    let normalized_search_term = normalize_optional_non_empty_string(search_term);
    let normalized_isin = normalize_optional_non_empty_string(isin);
    let from_time_parsed = time_bound(from_time, "from_time", "Broker input invalid: ")?;
    let to_time_parsed = time_bound(to_time, "to_time", "Broker input invalid: ")?;
    if let (Some(from), Some(to)) = (from_time_parsed, to_time_parsed) {
        if instant_after_exec(from, to) {
            return Err(ErrorReport::msg(
                "Broker input invalid: field 'from_time' must be before or equal to 'to_time'",
            ));
        }
    }
    let from_time_seconds = match from_time_parsed {
        Some(x) => Some(x.0),
        None => None,
    };
    let to_time_seconds = match to_time_parsed {
        Some(x) => Some(x.0),
        None => None,
    };
    Ok(NormalizedBrokerTransactionsQueryInput {
        page_size,
        cursor: normalized_cursor,
        type_filter: normalized_type_filter,
        status: normalized_status,
        search_term: normalized_search_term,
        from_time_seconds,
        to_time_seconds,
        isin: normalized_isin,
        include_reinvestment_subtypes,
    })
}

} // verus!
