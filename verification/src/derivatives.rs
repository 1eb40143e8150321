//! Derivative search inputs: per-type rules for which filters, strategies
//! and sort fields apply, and checked decimal and date ranges.
use vstd::prelude::*;

use crate::error_report::{plain_errors, plain_report};
use crate::broker_queries::{
    decimal_error, field_error, field_error_report, normalize_broker_isin,
    normalize_decimal_with_field, normalize_positive_decimal_with_field, parse_decimal_components,
    result_view, lift, spec_normalize_isin, spec_positive_decimal, spec_signed_decimal,
};
use crate::decimal::{
    compare_decimal_components, components_view, decimal_order, ordering_value, spec_parse_decimal,
};
use crate::error_report::ErrorReport;
use crate::sorted::{lemma_sorted_list_of, sorted_dedup, sorted_list, sorted_unique};
use crate::text::{concat3, concat4, concat5, opt_slice, opt_str, trim, trimmed, views};
use crate::time::{parse_ymd_date, ymd_day};
use core::cmp::Ordering;

verus! {

/// The kinds of derivative that the search covers.
#[derive(Debug, Clone, Copy, PartialEq, Eq, Structural)]
pub enum BrokerDerivativeType {
    Knockout,
    Warrant,
    Factor,
}

impl BrokerDerivativeType {
    /// The backend's name.
    pub open spec fn spec_graphql(self) -> Seq<char> {
        match self {
            BrokerDerivativeType::Knockout => "KNOCKOUT"@,
            BrokerDerivativeType::Warrant => "WARRANT"@,
            BrokerDerivativeType::Factor => "FACTOR"@,
        }
    }

    /// The backend's name.
    pub fn as_graphql(&self) -> (res: &'static str)
        ensures
            res@ == self.spec_graphql(),
    {
        match self {
            BrokerDerivativeType::Knockout => "KNOCKOUT",
            BrokerDerivativeType::Warrant => "WARRANT",
            BrokerDerivativeType::Factor => "FACTOR",
        }
    }

    /// The name shown in messages.
    pub open spec fn spec_label(self) -> Seq<char> {
        match self {
            BrokerDerivativeType::Knockout => "knockout"@,
            BrokerDerivativeType::Warrant => "warrant"@,
            BrokerDerivativeType::Factor => "factor"@,
        }
    }

    /// The name shown in messages.
    pub fn as_label(&self) -> (res: &'static str)
        ensures
            res@ == self.spec_label(),
    {
        match self {
            BrokerDerivativeType::Knockout => "knockout",
            BrokerDerivativeType::Warrant => "warrant",
            BrokerDerivativeType::Factor => "factor",
        }
    }

}

/// The direction of a derivative.
#[derive(Debug, Clone, Copy, PartialEq, Eq, Structural)]
pub enum BrokerDerivativeStrategy {
    Long,
    Short,
    Call,
    Put,
}

impl BrokerDerivativeStrategy {
    /// The backend's name.
    pub open spec fn spec_graphql(self) -> Seq<char> {
        match self {
            BrokerDerivativeStrategy::Long => "LONG"@,
            BrokerDerivativeStrategy::Short => "SHORT"@,
            BrokerDerivativeStrategy::Call => "CALL"@,
            BrokerDerivativeStrategy::Put => "PUT"@,
        }
    }

    /// The backend's name.
    pub fn as_graphql(&self) -> (res: &'static str)
        ensures
            res@ == self.spec_graphql(),
    {
        match self {
            BrokerDerivativeStrategy::Long => "LONG",
            BrokerDerivativeStrategy::Short => "SHORT",
            BrokerDerivativeStrategy::Call => "CALL",
            BrokerDerivativeStrategy::Put => "PUT",
        }
    }

    /// The variant's name as `{:?}` prints it.
    pub open spec fn spec_debug_name(self) -> Seq<char> {
        match self {
            BrokerDerivativeStrategy::Long => "Long"@,
            BrokerDerivativeStrategy::Short => "Short"@,
            BrokerDerivativeStrategy::Call => "Call"@,
            BrokerDerivativeStrategy::Put => "Put"@,
        }
    }

    /// The variant's name as `{:?}` prints it.
    pub fn debug_name(&self) -> (res: &'static str)
        ensures
            res@ == self.spec_debug_name(),
    {
        match self {
            BrokerDerivativeStrategy::Long => "Long",
            BrokerDerivativeStrategy::Short => "Short",
            BrokerDerivativeStrategy::Call => "Call",
            BrokerDerivativeStrategy::Put => "Put",
        }
    }

}

/// Issuers of derivatives.
#[derive(Debug, Clone, Copy, PartialEq, Eq, Structural)]
pub enum BrokerDerivativeIssuer {
    BnpParibas,
    Citi,
    DeutscheBank,
    DzBank,
    GoldmanSachs,
    Hsbc,
    JpMorgan,
    MorganStanley,
    SocieteGenerale,
    Ubs,
    Vontobel,
}

impl BrokerDerivativeIssuer {
    /// The backend's name.
    pub open spec fn spec_graphql(self) -> Seq<char> {
        match self {
            BrokerDerivativeIssuer::BnpParibas => "BNP_PARIBAS"@,
            BrokerDerivativeIssuer::Citi => "CITI"@,
            BrokerDerivativeIssuer::DeutscheBank => "DEUTSCHE_BANK"@,
            BrokerDerivativeIssuer::DzBank => "DZ_BANK"@,
            BrokerDerivativeIssuer::GoldmanSachs => "GOLDMAN_SACHS"@,
            BrokerDerivativeIssuer::Hsbc => "HSBC"@,
            BrokerDerivativeIssuer::JpMorgan => "JP_MORGAN"@,
            BrokerDerivativeIssuer::MorganStanley => "MORGAN_STANLEY"@,
            BrokerDerivativeIssuer::SocieteGenerale => "SOCIETE_GENERALE"@,
            BrokerDerivativeIssuer::Ubs => "UBS"@,
            BrokerDerivativeIssuer::Vontobel => "VONTOBEL"@,
        }
    }

    /// The backend's name.
    pub fn as_graphql(&self) -> (res: &'static str)
        ensures
            res@ == self.spec_graphql(),
    {
        match self {
            BrokerDerivativeIssuer::BnpParibas => "BNP_PARIBAS",
            BrokerDerivativeIssuer::Citi => "CITI",
            BrokerDerivativeIssuer::DeutscheBank => "DEUTSCHE_BANK",
            BrokerDerivativeIssuer::DzBank => "DZ_BANK",
            BrokerDerivativeIssuer::GoldmanSachs => "GOLDMAN_SACHS",
            BrokerDerivativeIssuer::Hsbc => "HSBC",
            BrokerDerivativeIssuer::JpMorgan => "JP_MORGAN",
            BrokerDerivativeIssuer::MorganStanley => "MORGAN_STANLEY",
            BrokerDerivativeIssuer::SocieteGenerale => "SOCIETE_GENERALE",
            BrokerDerivativeIssuer::Ubs => "UBS",
            BrokerDerivativeIssuer::Vontobel => "VONTOBEL",
        }
    }

}

/// Kinds of knock-out product.
#[derive(Debug, Clone, Copy, PartialEq, Eq, Structural)]
pub enum BrokerDerivativeKnockoutSubcategory {
    Turbo,
    MiniFuture,
    OpenEndTurbo,
}

impl BrokerDerivativeKnockoutSubcategory {
    /// The backend's name.
    pub open spec fn spec_graphql(self) -> Seq<char> {
        match self {
            BrokerDerivativeKnockoutSubcategory::Turbo => "TURBO"@,
            BrokerDerivativeKnockoutSubcategory::MiniFuture => "MINI_FUTURE"@,
            BrokerDerivativeKnockoutSubcategory::OpenEndTurbo => "OPEN_END_TURBO"@,
        }
    }

    /// The backend's name.
    pub fn as_graphql(&self) -> (res: &'static str)
        ensures
            res@ == self.spec_graphql(),
    {
        match self {
            BrokerDerivativeKnockoutSubcategory::Turbo => "TURBO",
            BrokerDerivativeKnockoutSubcategory::MiniFuture => "MINI_FUTURE",
            BrokerDerivativeKnockoutSubcategory::OpenEndTurbo => "OPEN_END_TURBO",
        }
    }

}

/// Fields that search results can be sorted by.
#[derive(Debug, Clone, Copy, PartialEq, Eq, Structural)]
pub enum BrokerDerivativeSortField {
    Strike,
    DistanceToStrike,
    Omega,
    Delta,
    ExpiryDate,
    ImpliedVolatility,
    Leverage,
    KnockoutBarrier,
    DistanceToKnockout,
    PremiumAbsolute,
    PremiumRelative,
    Factor,
}

impl BrokerDerivativeSortField {
    /// The backend's name.
    pub open spec fn spec_graphql(self) -> Seq<char> {
        match self {
            BrokerDerivativeSortField::Strike => "STRIKE"@,
            BrokerDerivativeSortField::DistanceToStrike => "DISTANCE_TO_STRIKE"@,
            BrokerDerivativeSortField::Omega => "OMEGA"@,
            BrokerDerivativeSortField::Delta => "DELTA"@,
            BrokerDerivativeSortField::ExpiryDate => "EXPIRY_DATE"@,
            BrokerDerivativeSortField::ImpliedVolatility => "IMPLIED_VOLATILITY"@,
            BrokerDerivativeSortField::Leverage => "LEVERAGE"@,
            BrokerDerivativeSortField::KnockoutBarrier => "KNOCKOUT_BARRIER"@,
            BrokerDerivativeSortField::DistanceToKnockout => "DISTANCE_TO_KNOCKOUT"@,
            BrokerDerivativeSortField::PremiumAbsolute => "PREMIUM_ABSOLUTE"@,
            BrokerDerivativeSortField::PremiumRelative => "PREMIUM_RELATIVE"@,
            BrokerDerivativeSortField::Factor => "FACTOR"@,
        }
    }

    /// The backend's name.
    pub fn as_graphql(&self) -> (res: &'static str)
        ensures
            res@ == self.spec_graphql(),
    {
        match self {
            BrokerDerivativeSortField::Strike => "STRIKE",
            BrokerDerivativeSortField::DistanceToStrike => "DISTANCE_TO_STRIKE",
            BrokerDerivativeSortField::Omega => "OMEGA",
            BrokerDerivativeSortField::Delta => "DELTA",
            BrokerDerivativeSortField::ExpiryDate => "EXPIRY_DATE",
            BrokerDerivativeSortField::ImpliedVolatility => "IMPLIED_VOLATILITY",
            BrokerDerivativeSortField::Leverage => "LEVERAGE",
            BrokerDerivativeSortField::KnockoutBarrier => "KNOCKOUT_BARRIER",
            BrokerDerivativeSortField::DistanceToKnockout => "DISTANCE_TO_KNOCKOUT",
            BrokerDerivativeSortField::PremiumAbsolute => "PREMIUM_ABSOLUTE",
            BrokerDerivativeSortField::PremiumRelative => "PREMIUM_RELATIVE",
            BrokerDerivativeSortField::Factor => "FACTOR",
        }
    }

}

/// Sort directions.
#[derive(Debug, Clone, Copy, PartialEq, Eq, Structural)]
pub enum BrokerDerivativeSortOrder {
    Asc,
    Desc,
}

impl BrokerDerivativeSortOrder {
    /// The backend's name.
    pub open spec fn spec_graphql(self) -> Seq<char> {
        match self {
            BrokerDerivativeSortOrder::Asc => "ASC"@,
            BrokerDerivativeSortOrder::Desc => "DESC"@,
        }
    }

    /// The backend's name.
    pub fn as_graphql(&self) -> (res: &'static str)
        ensures
            res@ == self.spec_graphql(),
    {
        match self {
            BrokerDerivativeSortOrder::Asc => "ASC",
            BrokerDerivativeSortOrder::Desc => "DESC",
        }
    }

}
/// The command-line arguments of a derivative search.
#[derive(Debug, Clone)]
pub struct BrokerDerivativesSearchArgs {
    pub portfolio_id: Option<String>,
    pub underlying: String,
    pub derivative_type: BrokerDerivativeType,
    pub limit: u16,
    pub offset: u32,
    pub issuer: Vec<BrokerDerivativeIssuer>,
    pub strategy: BrokerDerivativeStrategy,
    pub product_subcategory: Vec<BrokerDerivativeKnockoutSubcategory>,
    pub leverage_min: Option<String>,
    pub leverage_max: Option<String>,
    pub knockout_barrier_min: Option<String>,
    pub knockout_barrier_max: Option<String>,
    pub strike_min: Option<String>,
    pub strike_max: Option<String>,
    pub omega_min: Option<String>,
    pub omega_max: Option<String>,
    pub delta_min: Option<String>,
    pub delta_max: Option<String>,
    pub factor_min: Option<String>,
    pub factor_max: Option<String>,
    pub expiry_from: Option<String>,
    pub expiry_to: Option<String>,
    pub sort_field: Option<BrokerDerivativeSortField>,
    pub sort_order: Option<BrokerDerivativeSortOrder>,
    pub json: bool,
}

/// A checked range of positive decimals; either end may be open.
#[derive(Debug, Clone, PartialEq, Eq)]
pub struct NormalizedDecimalRange {
    pub min: Option<String>,
    pub max: Option<String>,
}

/// A checked range of decimals of either sign; either end may be open.
#[derive(Debug, Clone, PartialEq, Eq)]
pub struct NormalizedSignedDecimalRange {
    pub min: Option<String>,
    pub max: Option<String>,
}

/// A checked range of `YYYY-MM-DD` dates; either end may be open.
#[derive(Debug, Clone, PartialEq, Eq)]
pub struct NormalizedDateRange {
    pub start_date: Option<String>,
    pub end_date: Option<String>,
}

/// The backend names of a sort field and order.
#[derive(Debug, Clone, PartialEq, Eq)]
pub struct NormalizedDerivativeSort {
    pub field: String,
    pub order: String,
}

/// The checked inputs of a derivative search.
#[derive(Debug, Clone, PartialEq, Eq)]
pub struct NormalizedBrokerDerivativesSearchQueryInput {
    pub derivative_type: BrokerDerivativeType,
    pub underlying_isin: String,
    pub limit: u16,
    pub offset: u32,
    pub issuers: Option<Vec<String>>,
    pub strategy: String,
    pub product_subcategories: Option<Vec<String>>,
    pub leverage_range: Option<NormalizedDecimalRange>,
    pub knockout_barrier_range: Option<NormalizedDecimalRange>,
    pub strike_range: Option<NormalizedDecimalRange>,
    pub omega_range: Option<NormalizedDecimalRange>,
    pub delta_range: Option<NormalizedSignedDecimalRange>,
    pub factor_range: Option<NormalizedDecimalRange>,
    pub expiry_date_range: Option<NormalizedDateRange>,
    pub sort_by: Option<NormalizedDerivativeSort>,
}

/// A range as plain values: none, or its two optional ends.
pub type RangeSpec = Option<(Option<Seq<char>>, Option<Seq<char>>)>;

pub open spec fn range_view(r: Option<NormalizedDecimalRange>) -> RangeSpec {
    match r {
        Some(x) => Some((opt_str(x.min), opt_str(x.max))),
        None => None,
    }
}

pub open spec fn signed_range_view(r: Option<NormalizedSignedDecimalRange>) -> RangeSpec {
    match r {
        Some(x) => Some((opt_str(x.min), opt_str(x.max))),
        None => None,
    }
}

pub open spec fn date_range_view(r: Option<NormalizedDateRange>) -> RangeSpec {
    match r {
        Some(x) => Some((opt_str(x.start_date), opt_str(x.end_date))),
        None => None,
    }
}

/// `Broker input invalid: fields '<min>' and '<max>' must define a valid range`.
pub open spec fn range_error(min_field: Seq<char>, max_field: Seq<char>) -> Seq<char> {
    "Broker input invalid: fields '"@ + min_field + "' and '"@ + max_field + "' must define a valid range"@
}

fn range_error_report(min_field: &str, max_field: &str) -> (res: ErrorReport)
    ensures
        plain_report(res),
        res.messages() == seq![range_error(min_field@, max_field@)],
{
    let m = concat5(
        "Broker input invalid: fields '",
        min_field,
        "' and '",
        max_field,
        "' must define a valid range",
    );
    ErrorReport::msg(m.as_str())
}

/// One end of a decimal range: absent, or checked as a positive decimal (or a
/// decimal of either sign for a signed range).
pub open spec fn spec_bound(raw: Option<Seq<char>>, field: Seq<char>, signed: bool) -> Result<Option<Seq<char>>, Seq<char>> {
    match raw {
        None => Ok(None),
        Some(r) => {
            let checked = if signed {
                spec_signed_decimal(r, field)
            } else {
                spec_positive_decimal(r, field)
            };
            match checked {
                Ok(v) => Ok(Some(v)),
                Err(m) => Err(m),
            }
        },
    }
}

/// The order check of a range whose two ends are present: the lower end must
/// not be above the upper end.
pub open spec fn spec_range_order(min: Option<Seq<char>>, max: Option<Seq<char>>, min_field: Seq<char>, max_field: Seq<char>) -> Option<Seq<char>> {
    match (min, max) {
        (Some(a), Some(b)) => match (spec_parse_decimal(a, true), spec_parse_decimal(b, true)) {
            (None, _) => Some(decimal_error(min_field, "decimal"@)),
            (_, None) => Some(decimal_error(max_field, "decimal"@)),
            (Some(x), Some(y)) => if decimal_order(x, y) == 1 {
                Some(range_error(min_field, max_field))
            } else {
                None
            },
        },
        _ => None,
    }
}

/// A decimal range: both ends checked, then their order; no range when both
/// ends are absent.
pub open spec fn spec_decimal_range(min: Option<Seq<char>>, max: Option<Seq<char>>, min_field: Seq<char>, max_field: Seq<char>, signed: bool) -> Result<RangeSpec, Seq<char>> {
    match spec_bound(min, min_field, signed) {
        Err(m) => Err(m),
        Ok(lo) => match spec_bound(max, max_field, signed) {
            Err(m) => Err(m),
            Ok(hi) => match spec_range_order(lo, hi, min_field, max_field) {
                Some(m) => Err(m),
                None => if lo is None && hi is None {
                    Ok(None)
                } else {
                    Ok(Some((lo, hi)))
                },
            },
        },
    }
}

fn bound(raw: Option<&str>, field: &str, signed: bool) -> (res: Result<Option<String>, ErrorReport>)
    ensures
        plain_errors(res),
        match spec_bound(opt_slice(raw), field@, signed) {
            Ok(v) => res matches Ok(x) && opt_str(x) == v,
            Err(m) => res matches Err(e) && e.messages() == seq![m],
        },
{
    match raw {
        None => Ok(None),
        Some(r) => {
            let v = if signed {
                normalize_decimal_with_field(r, field)
            } else {
                normalize_positive_decimal_with_field(r, field)
            };
            match v {
                Ok(s) => Ok(Some(s)),
                Err(e) => Err(e),
            }
        },
    }
}

/// The lower end of a range must not be above the upper end.
pub fn validate_decimal_range_order(min: Option<&str>, max: Option<&str>, min_field: &str, max_field: &str) -> (res: Result<(), ErrorReport>)
    ensures
        plain_errors(res),
        match spec_range_order(opt_slice(min), opt_slice(max), min_field@, max_field@) {
            None => res is Ok,
            Some(m) => res matches Err(e) && e.messages() == seq![m],
        },
{
    let (min, max) = match (min, max) {
        (Some(a), Some(b)) => (a, b),
        _ => return Ok(()),
    };
    let min_value = parse_decimal_components(min, min_field, true, "decimal")?;
    let max_value = parse_decimal_components(max, max_field, true, "decimal")?;
    proof {
        crate::decimal::lemma_parse_sign_range(min@, true);
        crate::decimal::lemma_parse_sign_range(max@, true);
    }
    let order = compare_decimal_components(&min_value, &max_value);
    match order {
        Ordering::Greater => Err(range_error_report(min_field, max_field)),
        _ => Ok(()),
    }
}

fn decimal_range(min: Option<&str>, max: Option<&str>, min_field: &str, max_field: &str, signed: bool) -> (res: Result<Option<(Option<String>, Option<String>)>, ErrorReport>)
    ensures
        plain_errors(res),
        match spec_decimal_range(opt_slice(min), opt_slice(max), min_field@, max_field@, signed) {
            Ok(r) => res matches Ok(x) && match x {
                Some((a, b)) => r == Some((opt_str(a), opt_str(b))),
                None => r is None,
            },
            Err(m) => res matches Err(e) && e.messages() == seq![m],
        },
{
    let lo = bound(min, field_of(min_field), signed)?;
    let hi = bound(max, field_of(max_field), signed)?;
    let lo_ref: Option<&str> = match &lo {
        Some(s) => Some(s.as_str()),
        None => None,
    };
    let hi_ref: Option<&str> = match &hi {
        Some(s) => Some(s.as_str()),
        None => None,
    };
    validate_decimal_range_order(lo_ref, hi_ref, min_field, max_field)?;
    if lo.is_none() && hi.is_none() {
        Ok(None)
    } else {
        Ok(Some((lo, hi)))
    }
}

fn field_of(f: &str) -> (res: &str)
    ensures
        res@ == f@,
{
    f
}

/// A checked range of positive decimals, or none when both ends are absent.
pub fn normalize_positive_decimal_range(min: Option<&str>, max: Option<&str>, min_field: &str, max_field: &str) -> (res: Result<Option<NormalizedDecimalRange>, ErrorReport>)
    ensures
        plain_errors(res),
        match spec_decimal_range(opt_slice(min), opt_slice(max), min_field@, max_field@, false) {
            Ok(r) => res matches Ok(x) && range_view(x) == r,
            Err(m) => res matches Err(e) && e.messages() == seq![m],
        },
{
    match decimal_range(min, max, min_field, max_field, false)? {
        Some((min, max)) => Ok(Some(NormalizedDecimalRange { min, max })),
        None => Ok(None),
    }
}

/// A checked range of decimals of either sign, or none when both ends are absent.
pub fn normalize_signed_decimal_range(min: Option<&str>, max: Option<&str>, min_field: &str, max_field: &str) -> (res: Result<Option<NormalizedSignedDecimalRange>, ErrorReport>)
    ensures
        plain_errors(res),
        match spec_decimal_range(opt_slice(min), opt_slice(max), min_field@, max_field@, true) {
            Ok(r) => res matches Ok(x) && signed_range_view(x) == r,
            Err(m) => res matches Err(e) && e.messages() == seq![m],
        },
{
    match decimal_range(min, max, min_field, max_field, true)? {
        Some((min, max)) => Ok(Some(NormalizedSignedDecimalRange { min, max })),
        None => Ok(None),
    }
}

// ---------------------------------------------------------------------------
// Dates
// ---------------------------------------------------------------------------

/// `Broker input invalid: field '<field>' must use YYYY-MM-DD format`.
pub open spec fn date_error(field: Seq<char>) -> Seq<char> {
    field_error(field, "must use YYYY-MM-DD format"@)
}

/// A `YYYY-MM-DD` date, trimmed; refused when blank or not read as a date.
pub open spec fn spec_local_date(raw: Seq<char>, field: Seq<char>) -> Result<Seq<char>, Seq<char>> {
    let t = trim(raw);
    if t.len() == 0 || ymd_day(t) is None {
        Err(date_error(field))
    } else {
        Ok(t)
    }
}

pub fn normalize_local_date(raw: &str, field: &str) -> (res: Result<String, ErrorReport>)
    ensures
        plain_errors(res),
        result_view(res) == lift(spec_local_date(raw@, field@)),
{
    let t = trimmed(raw);
    if t.as_str().is_empty() {
        return Err(field_error_report(field, "must use YYYY-MM-DD format"));
    }
    match parse_ymd_date(t.as_str()) {
        Some(_) => Ok(t),
        None => Err(field_error_report(field, "must use YYYY-MM-DD format")),
    }
}

pub open spec fn spec_date_bound(raw: Option<Seq<char>>, field: Seq<char>) -> Result<Option<Seq<char>>, Seq<char>> {
    match raw {
        None => Ok(None),
        Some(r) => match spec_local_date(r, field) {
            Ok(v) => Ok(Some(v)),
            Err(m) => Err(m),
        },
    }
}

/// A date range: both ends checked, then their order; none when both are absent.
pub open spec fn spec_date_range(start: Option<Seq<char>>, end: Option<Seq<char>>, start_field: Seq<char>, end_field: Seq<char>) -> Result<RangeSpec, Seq<char>> {
    match spec_date_bound(start, start_field) {
        Err(m) => Err(m),
        Ok(s) => match spec_date_bound(end, end_field) {
            Err(m) => Err(m),
            Ok(e) => {
                let order_error = match (s, e) {
                    (Some(a), Some(b)) => match (ymd_day(a), ymd_day(b)) {
                        (None, _) => Some(date_error(start_field)),
                        (_, None) => Some(date_error(end_field)),
                        (Some(x), Some(y)) => if x > y {
                            Some(range_error(start_field, end_field))
                        } else {
                            None
                        },
                    },
                    _ => None,
                };
                match order_error {
                    Some(m) => Err(m),
                    None => if s is None && e is None {
                        Ok(None)
                    } else {
                        Ok(Some((s, e)))
                    },
                }
            },
        },
    }
}

fn date_bound(raw: Option<&str>, field: &str) -> (res: Result<Option<String>, ErrorReport>)
    ensures
        plain_errors(res),
        match spec_date_bound(opt_slice(raw), field@) {
            Ok(v) => res matches Ok(x) && opt_str(x) == v,
            Err(m) => res matches Err(e) && e.messages() == seq![m],
        },
{
    match raw {
        None => Ok(None),
        Some(r) => {
            let d = normalize_local_date(r, field)?;
            Ok(Some(d))
        },
    }
}

pub fn normalize_date_range(start_date: Option<&str>, end_date: Option<&str>, start_field: &str, end_field: &str) -> (res: Result<Option<NormalizedDateRange>, ErrorReport>)
    ensures
        plain_errors(res),
        match spec_date_range(opt_slice(start_date), opt_slice(end_date), start_field@, end_field@) {
            Ok(r) => res matches Ok(x) && date_range_view(x) == r,
            Err(m) => res matches Err(e) && e.messages() == seq![m],
        },
{
    let start = date_bound(start_date, start_field)?;
    let end = date_bound(end_date, end_field)?;
    if let (Some(s), Some(e)) = (&start, &end) {
        let a = match parse_ymd_date(s.as_str()) {
            Some(d) => d,
            None => return Err(field_error_report(start_field, "must use YYYY-MM-DD format")),
        };
        let b = match parse_ymd_date(e.as_str()) {
            Some(d) => d,
            None => return Err(field_error_report(end_field, "must use YYYY-MM-DD format")),
        };
        if a > b {
            return Err(range_error_report(start_field, end_field));
        }
    }
    if start.is_none() && end.is_none() {
        Ok(None)
    } else {
        Ok(Some(NormalizedDateRange { start_date: start, end_date: end }))
    }
}

// ---------------------------------------------------------------------------
// Sort, strategy, per-type fields
// ---------------------------------------------------------------------------

/// A sort needs both a field and an order, or neither.
pub open spec fn spec_sort(field: Option<BrokerDerivativeSortField>, order: Option<BrokerDerivativeSortOrder>) -> Result<Option<(Seq<char>, Seq<char>)>, Seq<char>> {
    match (field, order) {
        (None, None) => Ok(None),
        (Some(f), Some(o)) => Ok(Some((f.spec_graphql(), o.spec_graphql()))),
        (Some(_), None) => Err("Broker input invalid: field 'sort_order' is required when 'sort_field' is set"@),
        (None, Some(_)) => Err("Broker input invalid: field 'sort_field' is required when 'sort_order' is set"@),
    }
}

pub open spec fn sort_view(s: Option<NormalizedDerivativeSort>) -> Option<(Seq<char>, Seq<char>)> {
    match s {
        Some(x) => Some((x.field@, x.order@)),
        None => None,
    }
}

pub fn normalize_derivative_sort(field: Option<BrokerDerivativeSortField>, order: Option<BrokerDerivativeSortOrder>) -> (res: Result<Option<NormalizedDerivativeSort>, ErrorReport>)
    ensures
        plain_errors(res),
        match spec_sort(field, order) {
            Ok(s) => res matches Ok(x) && sort_view(x) == s,
            Err(m) => res matches Err(e) && e.messages() == seq![m],
        },
{
    match (field, order) {
        (None, None) => Ok(None),
        (Some(f), Some(o)) => Ok(Some(NormalizedDerivativeSort {
            field: f.as_graphql().to_owned(),
            order: o.as_graphql().to_owned(),
        })),
        (Some(_), None) => Err(ErrorReport::msg(
            "Broker input invalid: field 'sort_order' is required when 'sort_field' is set",
        )),
        (None, Some(_)) => Err(ErrorReport::msg(
            "Broker input invalid: field 'sort_field' is required when 'sort_order' is set",
        )),
    }
}

/// Knock-outs and factor certificates go long or short; warrants are calls or puts.
pub open spec fn strategy_valid(t: BrokerDerivativeType, s: BrokerDerivativeStrategy) -> bool {
    match t {
        BrokerDerivativeType::Knockout | BrokerDerivativeType::Factor => s == BrokerDerivativeStrategy::Long || s == BrokerDerivativeStrategy::Short,
        BrokerDerivativeType::Warrant => s == BrokerDerivativeStrategy::Call || s == BrokerDerivativeStrategy::Put,
    }
}

pub open spec fn strategy_error(t: BrokerDerivativeType, s: BrokerDerivativeStrategy) -> Seq<char> {
    "Broker input invalid: strategy '"@ + s.spec_debug_name() + "' is not supported for derivative type '"@ + t.spec_label() + "'"@
}

pub fn validate_derivative_strategy(t: BrokerDerivativeType, s: BrokerDerivativeStrategy) -> (res: Result<(), ErrorReport>)
    ensures
        plain_errors(res),
        strategy_valid(t, s) ==> res is Ok,
        !strategy_valid(t, s) ==> (res matches Err(e) && e.messages() == seq![strategy_error(t, s)]),
{
    let valid = match t {
        BrokerDerivativeType::Knockout | BrokerDerivativeType::Factor => match s {
            BrokerDerivativeStrategy::Long | BrokerDerivativeStrategy::Short => true,
            _ => false,
        },
        BrokerDerivativeType::Warrant => match s {
            BrokerDerivativeStrategy::Call | BrokerDerivativeStrategy::Put => true,
            _ => false,
        },
    };
    if valid {
        Ok(())
    } else {
        let m = concat5(
            "Broker input invalid: strategy '",
            s.debug_name(),
            "' is not supported for derivative type '",
            t.as_label(),
            "'",
        );
        Err(ErrorReport::msg(m.as_str()))
    }
}

/// The sort fields that apply to each derivative type.
pub open spec fn sort_field_allowed(t: BrokerDerivativeType, f: BrokerDerivativeSortField) -> bool {
    match t {
        BrokerDerivativeType::Knockout => match f {
            BrokerDerivativeSortField::Strike | BrokerDerivativeSortField::Leverage
            | BrokerDerivativeSortField::ExpiryDate | BrokerDerivativeSortField::KnockoutBarrier
            | BrokerDerivativeSortField::DistanceToKnockout
            | BrokerDerivativeSortField::PremiumAbsolute
            | BrokerDerivativeSortField::PremiumRelative => true,
            _ => false,
        },
        BrokerDerivativeType::Warrant => match f {
            BrokerDerivativeSortField::Strike | BrokerDerivativeSortField::DistanceToStrike
            | BrokerDerivativeSortField::Omega | BrokerDerivativeSortField::Delta
            | BrokerDerivativeSortField::ExpiryDate
            | BrokerDerivativeSortField::ImpliedVolatility => true,
            _ => false,
        },
        BrokerDerivativeType::Factor => match f {
            BrokerDerivativeSortField::Factor | BrokerDerivativeSortField::ExpiryDate => true,
            _ => false,
        },
    }
}

pub open spec fn sort_field_error(t: BrokerDerivativeType, f: BrokerDerivativeSortField) -> Seq<char> {
    "Broker input invalid: sort field '"@ + f.spec_graphql() + "' is not supported for derivative type '"@ + t.spec_label() + "'"@
}

fn sort_field_allowed_exec(t: BrokerDerivativeType, f: BrokerDerivativeSortField) -> (res: bool)
    ensures
        res == sort_field_allowed(t, f),
{
    match t {
        BrokerDerivativeType::Knockout => match f {
            BrokerDerivativeSortField::Strike | BrokerDerivativeSortField::Leverage
            | BrokerDerivativeSortField::ExpiryDate | BrokerDerivativeSortField::KnockoutBarrier
            | BrokerDerivativeSortField::DistanceToKnockout
            | BrokerDerivativeSortField::PremiumAbsolute
            | BrokerDerivativeSortField::PremiumRelative => true,
            _ => false,
        },
        BrokerDerivativeType::Warrant => match f {
            BrokerDerivativeSortField::Strike | BrokerDerivativeSortField::DistanceToStrike
            | BrokerDerivativeSortField::Omega | BrokerDerivativeSortField::Delta
            | BrokerDerivativeSortField::ExpiryDate
            | BrokerDerivativeSortField::ImpliedVolatility => true,
            _ => false,
        },
        BrokerDerivativeType::Factor => match f {
            BrokerDerivativeSortField::Factor | BrokerDerivativeSortField::ExpiryDate => true,
            _ => false,
        },
    }
}

/// A sort field, when given, must apply to the derivative type.
pub fn validate_derivative_sort_field(t: BrokerDerivativeType, field: Option<BrokerDerivativeSortField>) -> (res: Result<(), ErrorReport>)
    ensures
        plain_errors(res),
        match field {
            None => res is Ok,
            Some(f) => if sort_field_allowed(t, f) {
                res is Ok
            } else {
                res matches Err(e) && e.messages() == seq![sort_field_error(t, f)]
            },
        },
{
    let f = match field {
        Some(f) => f,
        None => return Ok(()),
    };
    if sort_field_allowed_exec(t, f) {
        Ok(())
    } else {
        let m = concat5(
            "Broker input invalid: sort field '",
            f.as_graphql(),
            "' is not supported for derivative type '",
            t.as_label(),
            "'",
        );
        Err(ErrorReport::msg(m.as_str()))
    }
}

/// `Broker input invalid: field '<field>' is not supported for the selected derivative type`.
pub open spec fn unsupported_field_error(field: Seq<char>) -> Seq<char> {
    field_error(field, "is not supported for the selected derivative type"@)
}

/// A filter that does not apply to the derivative type must be absent.
pub fn reject_derivative_field_present(is_present: bool, field: &str, _supported_type: BrokerDerivativeType) -> (res: Result<(), ErrorReport>)
    ensures
        plain_errors(res),
        !is_present ==> res is Ok,
        is_present ==> (res matches Err(e) && e.messages() == seq![unsupported_field_error(field@)]),
{
    if is_present {
        Err(field_error_report(field, "is not supported for the selected derivative type"))
    } else {
        Ok(())
    }
}

/// The first filter that the derivative type does not take, in the order in
/// which they are checked, then the sort field.
pub open spec fn spec_type_rejection(a: BrokerDerivativesSearchArgs) -> Option<Seq<char>> {
    match a.derivative_type {
        BrokerDerivativeType::Knockout => {
            if a.omega_min is Some {
                Some(unsupported_field_error("omega_min"@))
            } else if a.omega_max is Some {
                Some(unsupported_field_error("omega_max"@))
            } else if a.delta_min is Some {
                Some(unsupported_field_error("delta_min"@))
            } else if a.delta_max is Some {
                Some(unsupported_field_error("delta_max"@))
            } else if a.factor_min is Some {
                Some(unsupported_field_error("factor_min"@))
            } else if a.factor_max is Some {
                Some(unsupported_field_error("factor_max"@))
            } else {
                spec_sort_field_rejection(a.derivative_type, a.sort_field)
            }
        },
        BrokerDerivativeType::Warrant => {
            if a.product_subcategory.len() > 0 {
                Some(unsupported_field_error("product_subcategory"@))
            } else if a.leverage_min is Some {
                Some(unsupported_field_error("leverage_min"@))
            } else if a.leverage_max is Some {
                Some(unsupported_field_error("leverage_max"@))
            } else if a.knockout_barrier_min is Some {
                Some(unsupported_field_error("knockout_barrier_min"@))
            } else if a.knockout_barrier_max is Some {
                Some(unsupported_field_error("knockout_barrier_max"@))
            } else if a.factor_min is Some {
                Some(unsupported_field_error("factor_min"@))
            } else if a.factor_max is Some {
                Some(unsupported_field_error("factor_max"@))
            } else {
                spec_sort_field_rejection(a.derivative_type, a.sort_field)
            }
        },
        BrokerDerivativeType::Factor => {
            if a.product_subcategory.len() > 0 {
                Some(unsupported_field_error("product_subcategory"@))
            } else if a.leverage_min is Some {
                Some(unsupported_field_error("leverage_min"@))
            } else if a.leverage_max is Some {
                Some(unsupported_field_error("leverage_max"@))
            } else if a.knockout_barrier_min is Some {
                Some(unsupported_field_error("knockout_barrier_min"@))
            } else if a.knockout_barrier_max is Some {
                Some(unsupported_field_error("knockout_barrier_max"@))
            } else if a.omega_min is Some {
                Some(unsupported_field_error("omega_min"@))
            } else if a.omega_max is Some {
                Some(unsupported_field_error("omega_max"@))
            } else if a.delta_min is Some {
                Some(unsupported_field_error("delta_min"@))
            } else if a.delta_max is Some {
                Some(unsupported_field_error("delta_max"@))
            } else if a.expiry_from is Some {
                Some(unsupported_field_error("expiry_from"@))
            } else if a.expiry_to is Some {
                Some(unsupported_field_error("expiry_to"@))
            } else if a.strike_min is Some {
                Some(unsupported_field_error("strike_min"@))
            } else if a.strike_max is Some {
                Some(unsupported_field_error("strike_max"@))
            } else {
                spec_sort_field_rejection(a.derivative_type, a.sort_field)
            }
        },
    }
}

pub open spec fn spec_sort_field_rejection(t: BrokerDerivativeType, f: Option<BrokerDerivativeSortField>) -> Option<Seq<char>> {
    match f {
        Some(f) => if sort_field_allowed(t, f) {
            None
        } else {
            Some(sort_field_error(t, f))
        },
        None => None,
    }
}

fn type_rejection(a: &BrokerDerivativesSearchArgs) -> (res: Result<(), ErrorReport>)
    ensures
        plain_errors(res),
        match spec_type_rejection(*a) {
            None => res is Ok,
            Some(m) => res matches Err(e) && e.messages() == seq![m],
        },
{
    match a.derivative_type {
        BrokerDerivativeType::Knockout => {
            reject_derivative_field_present(a.omega_min.is_some(), "omega_min", BrokerDerivativeType::Warrant)?;
            reject_derivative_field_present(a.omega_max.is_some(), "omega_max", BrokerDerivativeType::Warrant)?;
            reject_derivative_field_present(a.delta_min.is_some(), "delta_min", BrokerDerivativeType::Warrant)?;
            reject_derivative_field_present(a.delta_max.is_some(), "delta_max", BrokerDerivativeType::Warrant)?;
            reject_derivative_field_present(a.factor_min.is_some(), "factor_min", BrokerDerivativeType::Factor)?;
            reject_derivative_field_present(a.factor_max.is_some(), "factor_max", BrokerDerivativeType::Factor)?;
            validate_derivative_sort_field(a.derivative_type, a.sort_field)
        },
        BrokerDerivativeType::Warrant => {
            reject_derivative_field_present(a.product_subcategory.len() > 0, "product_subcategory", BrokerDerivativeType::Knockout)?;
            reject_derivative_field_present(a.leverage_min.is_some(), "leverage_min", BrokerDerivativeType::Knockout)?;
            reject_derivative_field_present(a.leverage_max.is_some(), "leverage_max", BrokerDerivativeType::Knockout)?;
            reject_derivative_field_present(a.knockout_barrier_min.is_some(), "knockout_barrier_min", BrokerDerivativeType::Knockout)?;
            reject_derivative_field_present(a.knockout_barrier_max.is_some(), "knockout_barrier_max", BrokerDerivativeType::Knockout)?;
            reject_derivative_field_present(a.factor_min.is_some(), "factor_min", BrokerDerivativeType::Factor)?;
            reject_derivative_field_present(a.factor_max.is_some(), "factor_max", BrokerDerivativeType::Factor)?;
            validate_derivative_sort_field(a.derivative_type, a.sort_field)
        },
        BrokerDerivativeType::Factor => {
            reject_derivative_field_present(a.product_subcategory.len() > 0, "product_subcategory", BrokerDerivativeType::Knockout)?;
            reject_derivative_field_present(a.leverage_min.is_some(), "leverage_min", BrokerDerivativeType::Knockout)?;
            reject_derivative_field_present(a.leverage_max.is_some(), "leverage_max", BrokerDerivativeType::Knockout)?;
            reject_derivative_field_present(a.knockout_barrier_min.is_some(), "knockout_barrier_min", BrokerDerivativeType::Knockout)?;
            reject_derivative_field_present(a.knockout_barrier_max.is_some(), "knockout_barrier_max", BrokerDerivativeType::Knockout)?;
            reject_derivative_field_present(a.omega_min.is_some(), "omega_min", BrokerDerivativeType::Warrant)?;
            reject_derivative_field_present(a.omega_max.is_some(), "omega_max", BrokerDerivativeType::Warrant)?;
            reject_derivative_field_present(a.delta_min.is_some(), "delta_min", BrokerDerivativeType::Warrant)?;
            reject_derivative_field_present(a.delta_max.is_some(), "delta_max", BrokerDerivativeType::Warrant)?;
            reject_derivative_field_present(a.expiry_from.is_some(), "expiry_from", BrokerDerivativeType::Warrant)?;
            reject_derivative_field_present(a.expiry_to.is_some(), "expiry_to", BrokerDerivativeType::Warrant)?;
            reject_derivative_field_present(a.strike_min.is_some(), "strike_min", BrokerDerivativeType::Knockout)?;
            reject_derivative_field_present(a.strike_max.is_some(), "strike_max", BrokerDerivativeType::Knockout)?;
            validate_derivative_sort_field(a.derivative_type, a.sort_field)
        },
    }
}

// ---------------------------------------------------------------------------
// Issuer and sub-category lists
// ---------------------------------------------------------------------------

/// A list of names normalized: none when empty, else the distinct names in
/// increasing order.
pub open spec fn names_normalized(names: Seq<Seq<char>>, out: Option<Seq<Seq<char>>>) -> bool {
    if names.len() == 0 {
        out is None
    } else {
        out == Some(sorted_list(names.to_set()))
    }
}

pub open spec fn issuer_names(v: Seq<BrokerDerivativeIssuer>) -> Seq<Seq<char>> {
    v.map_values(|i: BrokerDerivativeIssuer| i.spec_graphql())
}

pub open spec fn subcategory_names(v: Seq<BrokerDerivativeKnockoutSubcategory>) -> Seq<Seq<char>> {
    v.map_values(|i: BrokerDerivativeKnockoutSubcategory| i.spec_graphql())
}

pub open spec fn opt_views(o: Option<Vec<String>>) -> Option<Seq<Seq<char>>> {
    match o {
        Some(v) => Some(views(v@)),
        None => None,
    }
}

pub fn normalize_derivative_issuers(values: &Vec<BrokerDerivativeIssuer>) -> (res: Option<Vec<String>>)
    ensures
        names_normalized(issuer_names(values@), opt_views(res)),
{
    if values.len() == 0 {
        return None;
    }
    let mut names: Vec<String> = Vec::new();
    let mut i: usize = 0;
    while i < values.len()
        invariant
            i <= values.len(),
            views(names@) == issuer_names(values@).take(i as int),
        decreases values.len() - i,
    {
        let item = values[i];
        let name = item.as_graphql().to_owned();
        let ghost before = views(names@);
        names.push(name);
        proof {
            assert(item == values@[i as int]);
            assert(views(names@) =~= before.push(name@));
            assert(issuer_names(values@).take(i + 1) =~= issuer_names(values@).take(i as int).push(
                item.spec_graphql(),
            ));
        }
        i = i + 1;
    }
    proof {
        assert(issuer_names(values@).take(values.len() as int) =~= issuer_names(values@));
    }
    Some(sorted_dedup(names))
}

pub fn normalize_derivative_product_subcategories(values: &Vec<BrokerDerivativeKnockoutSubcategory>) -> (res: Option<Vec<String>>)
    ensures
        names_normalized(subcategory_names(values@), opt_views(res)),
{
    if values.len() == 0 {
        return None;
    }
    let mut names: Vec<String> = Vec::new();
    let mut i: usize = 0;
    while i < values.len()
        invariant
            i <= values.len(),
            views(names@) == subcategory_names(values@).take(i as int),
        decreases values.len() - i,
    {
        let item = values[i];
        let name = item.as_graphql().to_owned();
        let ghost before = views(names@);
        names.push(name);
        proof {
            assert(item == values@[i as int]);
            assert(views(names@) =~= before.push(name@));
            assert(subcategory_names(values@).take(i + 1) =~= subcategory_names(values@).take(i as int).push(
                item.spec_graphql(),
            ));
        }
        i = i + 1;
    }
    proof {
        assert(subcategory_names(values@).take(values.len() as int) =~= subcategory_names(values@));
    }
    Some(sorted_dedup(names))
}


/// `Broker input invalid: field 'offset' must be between 0 and 2147483647`.
pub open spec fn offset_error() -> Seq<char> {
    "Broker input invalid: field 'offset' must be between 0 and 2147483647"@
}

/// The first check that a derivative search fails, in the order in which
/// they run: the underlying ISIN, the offset, the strategy, the decimal
/// ranges, the expiry range, the sort pair, then the per-type fields.
pub open spec fn spec_derivatives_error(a: BrokerDerivativesSearchArgs) -> Option<Seq<char>> {
    match spec_normalize_isin(a.underlying@, "underlying"@) {
        Err(m) => Some(m),
        Ok(_) => if a.offset > 2147483647 {
            Some(offset_error())
        } else if !strategy_valid(a.derivative_type, a.strategy) {
            Some(strategy_error(a.derivative_type, a.strategy))
        } else {
            spec_range_errors(a)
        },
    }
}

/// The first failing range of a derivative search, then the later checks.
pub open spec fn spec_range_errors(a: BrokerDerivativesSearchArgs) -> Option<Seq<char>> {
    match spec_decimal_range(opt_str(a.leverage_min), opt_str(a.leverage_max), "leverage_min"@, "leverage_max"@, false) {
        Err(m) => Some(m),
        Ok(_) => match spec_decimal_range(opt_str(a.knockout_barrier_min), opt_str(a.knockout_barrier_max), "knockout_barrier_min"@, "knockout_barrier_max"@, false) {
        Err(m) => Some(m),
        Ok(_) => match spec_decimal_range(opt_str(a.strike_min), opt_str(a.strike_max), "strike_min"@, "strike_max"@, false) {
        Err(m) => Some(m),
        Ok(_) => match spec_decimal_range(opt_str(a.omega_min), opt_str(a.omega_max), "omega_min"@, "omega_max"@, false) {
        Err(m) => Some(m),
        Ok(_) => match spec_decimal_range(opt_str(a.delta_min), opt_str(a.delta_max), "delta_min"@, "delta_max"@, true) {
        Err(m) => Some(m),
        Ok(_) => match spec_decimal_range(opt_str(a.factor_min), opt_str(a.factor_max), "factor_min"@, "factor_max"@, false) {
        Err(m) => Some(m),
        Ok(_) => match spec_date_range(opt_str(a.expiry_from), opt_str(a.expiry_to), "expiry_from"@, "expiry_to"@) {
        Err(m) => Some(m),
        Ok(_) => match spec_sort(a.sort_field, a.sort_order) {
            Err(m) => Some(m),
            Ok(_) => spec_type_rejection(a),
        },
    },
    },
    },
    },
    },
    },
    }
}

/// The fields of a normalized derivative search, given that every check passed.
pub open spec fn derivatives_result(a: BrokerDerivativesSearchArgs, n: NormalizedBrokerDerivativesSearchQueryInput) -> bool {
    &&& n.derivative_type == a.derivative_type
    &&& spec_normalize_isin(a.underlying@, "underlying"@) == Ok::<Seq<char>, Seq<char>>(n.underlying_isin@)
    &&& n.limit == a.limit
    &&& n.offset == a.offset
    &&& names_normalized(issuer_names(a.issuer@), opt_views(n.issuers))
    &&& n.strategy@ == a.strategy.spec_graphql()
    &&& names_normalized(subcategory_names(a.product_subcategory@), opt_views(n.product_subcategories))
    &&& spec_decimal_range(opt_str(a.leverage_min), opt_str(a.leverage_max), "leverage_min"@, "leverage_max"@, false) == Ok::<RangeSpec, Seq<char>>(range_view(n.leverage_range))
    &&& spec_decimal_range(opt_str(a.knockout_barrier_min), opt_str(a.knockout_barrier_max), "knockout_barrier_min"@, "knockout_barrier_max"@, false) == Ok::<RangeSpec, Seq<char>>(range_view(n.knockout_barrier_range))
    &&& spec_decimal_range(opt_str(a.strike_min), opt_str(a.strike_max), "strike_min"@, "strike_max"@, false) == Ok::<RangeSpec, Seq<char>>(range_view(n.strike_range))
    &&& spec_decimal_range(opt_str(a.omega_min), opt_str(a.omega_max), "omega_min"@, "omega_max"@, false) == Ok::<RangeSpec, Seq<char>>(range_view(n.omega_range))
    &&& spec_decimal_range(opt_str(a.delta_min), opt_str(a.delta_max), "delta_min"@, "delta_max"@, true) == Ok::<RangeSpec, Seq<char>>(signed_range_view(n.delta_range))
    &&& spec_decimal_range(opt_str(a.factor_min), opt_str(a.factor_max), "factor_min"@, "factor_max"@, false) == Ok::<RangeSpec, Seq<char>>(range_view(n.factor_range))
    &&& spec_date_range(opt_str(a.expiry_from), opt_str(a.expiry_to), "expiry_from"@, "expiry_to"@) == Ok::<RangeSpec, Seq<char>>(date_range_view(n.expiry_date_range))
    &&& spec_sort(a.sort_field, a.sort_order) == Ok::<Option<(Seq<char>, Seq<char>)>, Seq<char>>(sort_view(n.sort_by))
}

fn opt_as_str(o: &Option<String>) -> (res: Option<&str>)
    ensures
        opt_slice(res) == opt_str(*o),
{
    match o {
        Some(s) => Some(s.as_str()),
        None => None,
    }
}

/// Checks and normalizes the arguments of a derivative search.
#[verifier::rlimit(60)]
pub fn normalize_broker_derivatives_search_query_input(args: &BrokerDerivativesSearchArgs) -> (res: Result<NormalizedBrokerDerivativesSearchQueryInput, ErrorReport>)
    ensures
        plain_errors(res),
        match spec_derivatives_error(*args) {
            Some(m) => res matches Err(e) && e.messages() == seq![m],
            None => res matches Ok(n) && derivatives_result(*args, n),
        },
{
    let underlying_isin = normalize_broker_isin(args.underlying.as_str(), "underlying")?;
    if args.offset > 2147483647 {
        return Err(ErrorReport::msg("Broker input invalid: field 'offset' must be between 0 and 2147483647"));
    }
    let strategy = args.strategy;
    validate_derivative_strategy(args.derivative_type, strategy)?;
    let product_subcategories = normalize_derivative_product_subcategories(&args.product_subcategory);
    let leverage_range = normalize_positive_decimal_range(opt_as_str(&args.leverage_min), opt_as_str(&args.leverage_max), "leverage_min", "leverage_max")?;
    let knockout_barrier_range = normalize_positive_decimal_range(opt_as_str(&args.knockout_barrier_min), opt_as_str(&args.knockout_barrier_max), "knockout_barrier_min", "knockout_barrier_max")?;
    let strike_range = normalize_positive_decimal_range(opt_as_str(&args.strike_min), opt_as_str(&args.strike_max), "strike_min", "strike_max")?;
    let omega_range = normalize_positive_decimal_range(opt_as_str(&args.omega_min), opt_as_str(&args.omega_max), "omega_min", "omega_max")?;
    let delta_range = normalize_signed_decimal_range(opt_as_str(&args.delta_min), opt_as_str(&args.delta_max), "delta_min", "delta_max")?;
    let factor_range = normalize_positive_decimal_range(opt_as_str(&args.factor_min), opt_as_str(&args.factor_max), "factor_min", "factor_max")?;
    let expiry_date_range = normalize_date_range(opt_as_str(&args.expiry_from), opt_as_str(&args.expiry_to), "expiry_from", "expiry_to")?;
    let sort_by = normalize_derivative_sort(args.sort_field, args.sort_order)?;
    type_rejection(args)?;
    Ok(NormalizedBrokerDerivativesSearchQueryInput {
        derivative_type: args.derivative_type,
        underlying_isin,
        limit: args.limit,
        offset: args.offset,
        issuers: normalize_derivative_issuers(&args.issuer),
        strategy: strategy.as_graphql().to_owned(),
        product_subcategories,
        leverage_range,
        knockout_barrier_range,
        strike_range,
        omega_range,
        delta_range,
        factor_range,
        expiry_date_range,
        sort_by,
    })
}

// ---------------------------------------------------------------------------
// What a normalized search says of its arguments
// ---------------------------------------------------------------------------

/// A range whose two ends are present has its lower end at or below its
/// upper end, as decimals.
pub open spec fn decimal_range_ordered(r: RangeSpec) -> bool {
    match r {
        Some((Some(lo), Some(hi))) => match (spec_parse_decimal(lo, true), spec_parse_decimal(hi, true)) {
            (Some(x), Some(y)) => decimal_order(x, y) != 1,
            _ => false,
        },
        _ => true,
    }
}

/// A range whose two ends are present has its start on or before its end.
pub open spec fn date_range_ordered(r: RangeSpec) -> bool {
    match r {
        Some((Some(a), Some(b))) => match (ymd_day(a), ymd_day(b)) {
            (Some(x), Some(y)) => x <= y,
            _ => false,
        },
        _ => true,
    }
}

/// A range is absent exactly when both of its ends were left out, and each
/// end is present exactly when it was given.
pub open spec fn range_follows_bounds(r: RangeSpec, min: Option<Seq<char>>, max: Option<Seq<char>>) -> bool {
    &&& (r is None <==> (min is None && max is None))
    &&& (r matches Some((lo, hi)) ==> ((lo is Some <==> min is Some) && (hi is Some <==> max is Some)))
}

proof fn lemma_decimal_range_shape(min: Option<Seq<char>>, max: Option<Seq<char>>, fmin: Seq<char>, fmax: Seq<char>, signed: bool)
    requires
        spec_decimal_range(min, max, fmin, fmax, signed) is Ok,
    ensures
        range_follows_bounds(spec_decimal_range(min, max, fmin, fmax, signed)->Ok_0, min, max),
        decimal_range_ordered(spec_decimal_range(min, max, fmin, fmax, signed)->Ok_0),
{
}

proof fn lemma_date_range_shape(start: Option<Seq<char>>, end: Option<Seq<char>>, fs: Seq<char>, fe: Seq<char>)
    requires
        spec_date_range(start, end, fs, fe) is Ok,
    ensures
        range_follows_bounds(spec_date_range(start, end, fs, fe)->Ok_0, start, end),
        date_range_ordered(spec_date_range(start, end, fs, fe)->Ok_0),
{
}

/// A list of names as normalized: none when no name was given, else each
/// given name once, in strictly increasing order.
pub open spec fn names_as_ordered_set(names: Seq<Seq<char>>, out: Option<Seq<Seq<char>>>) -> bool {
    match out {
        None => names.len() == 0,
        Some(l) => names.len() > 0 && sorted_unique(l) && l.to_set() == names.to_set(),
    }
}

/// A normalized derivative search is for the given type, limit, offset and
/// strategy; its issuers and sub-categories are the given ones, each once and
/// in increasing order, or none when none were given; each range is absent
/// exactly when both of its ends were left out, keeps the ends that were
/// given, and has its lower end at or below its upper end.
pub proof fn normalized_derivative_searches_follow_their_arguments(
    a: BrokerDerivativesSearchArgs,
    n: NormalizedBrokerDerivativesSearchQueryInput,
)
    requires
        derivatives_result(a, n),
    ensures
        n.derivative_type == a.derivative_type,
        n.limit == a.limit,
        n.offset == a.offset,
        n.strategy@ == a.strategy.spec_graphql(),
        names_as_ordered_set(issuer_names(a.issuer@), opt_views(n.issuers)),
        names_as_ordered_set(subcategory_names(a.product_subcategory@), opt_views(n.product_subcategories)),
        range_follows_bounds(range_view(n.leverage_range), opt_str(a.leverage_min), opt_str(a.leverage_max)),
        decimal_range_ordered(range_view(n.leverage_range)),
        range_follows_bounds(range_view(n.knockout_barrier_range), opt_str(a.knockout_barrier_min), opt_str(a.knockout_barrier_max)),
        decimal_range_ordered(range_view(n.knockout_barrier_range)),
        range_follows_bounds(range_view(n.strike_range), opt_str(a.strike_min), opt_str(a.strike_max)),
        decimal_range_ordered(range_view(n.strike_range)),
        range_follows_bounds(range_view(n.omega_range), opt_str(a.omega_min), opt_str(a.omega_max)),
        decimal_range_ordered(range_view(n.omega_range)),
        range_follows_bounds(signed_range_view(n.delta_range), opt_str(a.delta_min), opt_str(a.delta_max)),
        decimal_range_ordered(signed_range_view(n.delta_range)),
        range_follows_bounds(range_view(n.factor_range), opt_str(a.factor_min), opt_str(a.factor_max)),
        decimal_range_ordered(range_view(n.factor_range)),
        range_follows_bounds(date_range_view(n.expiry_date_range), opt_str(a.expiry_from), opt_str(a.expiry_to)),
        date_range_ordered(date_range_view(n.expiry_date_range)),
{
    lemma_sorted_list_of(issuer_names(a.issuer@));
    lemma_sorted_list_of(subcategory_names(a.product_subcategory@));
    lemma_decimal_range_shape(opt_str(a.leverage_min), opt_str(a.leverage_max), "leverage_min"@, "leverage_max"@, false);
    lemma_decimal_range_shape(opt_str(a.knockout_barrier_min), opt_str(a.knockout_barrier_max), "knockout_barrier_min"@, "knockout_barrier_max"@, false);
    lemma_decimal_range_shape(opt_str(a.strike_min), opt_str(a.strike_max), "strike_min"@, "strike_max"@, false);
    lemma_decimal_range_shape(opt_str(a.omega_min), opt_str(a.omega_max), "omega_min"@, "omega_max"@, false);
    lemma_decimal_range_shape(opt_str(a.delta_min), opt_str(a.delta_max), "delta_min"@, "delta_max"@, true);
    lemma_decimal_range_shape(opt_str(a.factor_min), opt_str(a.factor_max), "factor_min"@, "factor_max"@, false);
    lemma_date_range_shape(opt_str(a.expiry_from), opt_str(a.expiry_to), "expiry_from"@, "expiry_to"@);
}

} // verus!
