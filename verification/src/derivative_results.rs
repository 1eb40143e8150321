//! Reshaping derivative search results into the command line's result
//! object.
use vstd::prelude::*;

use crate::error_report::{plain_errors};
use crate::broker_queries::BrokerInput;
use crate::broker_variables::{jnum, jstr, unsigned_json};
use crate::derivatives::NormalizedBrokerDerivativesSearchQueryInput;
use crate::error_report::ErrorReport;
use crate::json::{opt_as_str, opt_get, opt_ref, ArrayBuilder, Json, JsonView, ObjectBuilder};
use crate::listings::{array_at, ids_head};
use crate::projections::{field_or_null, get_or_null, json_result};
use crate::text::str_eq;

verus! {

/// A price of a derivative: money where the answer says so or names a
/// currency, else a point value; null where there is none.
pub open spec fn spec_derivative_price(raw: Option<Json>) -> JsonView {
    match raw {
        None => JsonView::Null,
        Some(p) => {
            let kind = match opt_as_str(p.spec_get("__typename"@)) {
                Some(t) => if t == "Money"@ {
                    "money"@
                } else if t == "Point"@ {
                    "point"@
                } else if p.spec_get("currencyIsoCode"@) is Some {
                    "money"@
                } else {
                    "point"@
                },
                None => if p.spec_get("currencyIsoCode"@) is Some {
                    "money"@
                } else {
                    "point"@
                },
            };
            JsonView::Object(
                seq![
                    ("kind"@, jstr(kind)),
                    ("currency_iso_code"@, get_or_null(p, "currencyIsoCode"@)),
                    ("value"@, get_or_null(p, "value"@)),
                ],
            )
        },
    }
}

pub fn map_derivative_price(raw: Option<&Json>) -> (res: Json)
    ensures
        res@ == spec_derivative_price(opt_ref(raw)),
{
    let p = match raw {
        Some(p) => p,
        None => {
            return Json::Null;
        },
    };
    let has_currency = p.get("currencyIsoCode").is_some();
    let typename = match p.get("__typename") {
        Some(v) => v.as_str(),
        None => None,
    };
    let kind = match typename {
        Some(t) => if str_eq(t, "Money") {
            "money"
        } else if str_eq(t, "Point") {
            "point"
        } else if has_currency {
            "money"
        } else {
            "point"
        },
        None => if has_currency {
            "money"
        } else {
            "point"
        },
    };
    let mut out = ObjectBuilder::new();
    out.add("kind", Json::Str(kind.to_owned()));
    out.add("currency_iso_code", field_or_null(p, "currencyIsoCode"));
    out.add("value", field_or_null(p, "value"));
    proof {
        assert(out.members() =~= spec_derivative_price(opt_ref(raw))->Object_0);
    }
    out.build()
}

/// An amount of money; null where there is none.
pub open spec fn spec_money_value(raw: Option<Json>) -> JsonView {
    match raw {
        None => JsonView::Null,
        Some(m) => JsonView::Object(
            seq![
                ("currency_iso_code"@, get_or_null(m, "currencyIsoCode"@)),
                ("value"@, get_or_null(m, "value"@)),
            ],
        ),
    }
}

pub fn map_money_value(raw: Option<&Json>) -> (res: Json)
    ensures
        res@ == spec_money_value(opt_ref(raw)),
{
    match raw {
        Some(m) => {
            let mut out = ObjectBuilder::new();
            out.add("currency_iso_code", field_or_null(m, "currencyIsoCode"));
            out.add("value", field_or_null(m, "value"));
            proof {
                assert(out.members() =~= spec_money_value(opt_ref(raw))->Object_0);
            }
            out.build()
        },
        None => Json::Null,
    }
}

/// The expiry date of a derivative, from whichever shape the answer has:
/// a nested date object, a date beside an epoch day, or an epoch day alone.
pub open spec fn spec_expiry_date(raw: Option<Json>) -> JsonView {
    match raw {
        None => JsonView::Null,
        Some(e) => match e.spec_get("date"@) {
            Some(Json::Object(_)) => JsonView::Object(
                seq![
                    ("date"@, crate::listings::opt_field(e.spec_get("date"@), "date"@)),
                    ("epoch_day"@, crate::listings::opt_field(e.spec_get("date"@), "epochDay"@)),
                ],
            ),
            Some(Json::Str(_)) | Some(Json::Number(_)) => JsonView::Object(
                seq![("date"@, get_or_null(e, "date"@)), ("epoch_day"@, get_or_null(e, "epochDay"@))],
            ),
            _ => if e.spec_get("epochDay"@) is Some {
                JsonView::Object(seq![("date"@, JsonView::Null), ("epoch_day"@, get_or_null(e, "epochDay"@))])
            } else {
                JsonView::Null
            },
        },
    }
}

pub fn map_derivative_expiry_date(raw: Option<&Json>) -> (res: Json)
    ensures
        res@ == spec_expiry_date(opt_ref(raw)),
{
    let e = match raw {
        Some(e) => e,
        None => {
            return Json::Null;
        },
    };
    match e.get("date") {
        Some(Json::Object(_)) => {
            let d = e.get("date");
            let mut out = ObjectBuilder::new();
            out.add("date", crate::listings::opt_field_or_null(d, "date"));
            out.add("epoch_day", crate::listings::opt_field_or_null(d, "epochDay"));
            proof {
                assert(out.members() =~= spec_expiry_date(opt_ref(raw))->Object_0);
            }
            out.build()
        },
        Some(Json::Str(_)) | Some(Json::Number(_)) => {
            let mut out = ObjectBuilder::new();
            out.add("date", field_or_null(e, "date"));
            out.add("epoch_day", field_or_null(e, "epochDay"));
            proof {
                assert(out.members() =~= spec_expiry_date(opt_ref(raw))->Object_0);
            }
            out.build()
        },
        _ => if e.get("epochDay").is_some() {
            let mut out = ObjectBuilder::new();
            out.add("date", Json::Null);
            out.add("epoch_day", field_or_null(e, "epochDay"));
            proof {
                assert(out.members() =~= spec_expiry_date(opt_ref(raw))->Object_0);
            }
            out.build()
        } else {
            Json::Null
        },
    }
}

/// One derivative as the command reports it.
pub open spec fn spec_derivative_search_result(item: Json) -> JsonView {
    let expiry = item.spec_get("expiryDate"@);
    JsonView::Object(
        seq![
            ("isin"@, get_or_null(item, "isin"@)),
            ("underlying_isin"@, get_or_null(item, "underlyingIsin"@)),
            ("issuer"@, get_or_null(item, "issuer"@)),
            ("strategy"@, get_or_null(item, "strategy"@)),
            ("product_subcategory"@, get_or_null(item, "productSubcategory"@)),
            ("leverage"@, get_or_null(item, "leverage"@)),
            ("factor"@, get_or_null(item, "factor"@)),
            ("omega"@, get_or_null(item, "omega"@)),
            ("delta"@, get_or_null(item, "delta"@)),
            ("implied_volatility"@, get_or_null(item, "impliedVolatility"@)),
            ("distance_to_knockout"@, get_or_null(item, "distanceToKnockout"@)),
            ("distance_to_strike"@, get_or_null(item, "distanceToStrike"@)),
            ("strike"@, spec_derivative_price(item.spec_get("strike"@))),
            ("knockout_barrier"@, spec_derivative_price(item.spec_get("knockoutBarrier"@))),
            ("premium_absolute"@, spec_money_value(item.spec_get("premiumAbsolute"@))),
            ("premium_percentage"@, get_or_null(item, "premiumPercentage"@)),
            ("expiry_date"@, spec_expiry_date(expiry)),
            (
                "expiry_is_open_end"@,
                match expiry {
                    Some(e) => get_or_null(e, "isOpenEnd"@),
                    None => JsonView::Null,
                },
            ),
        ],
    )
}

pub fn map_derivative_search_result(item: &Json) -> (res: Json)
    ensures
        res@ == spec_derivative_search_result(*item),
{
    let expiry = item.get("expiryDate");
    let open_end = match expiry {
        Some(e) => field_or_null(e, "isOpenEnd"),
        None => Json::Null,
    };
    let mut out = ObjectBuilder::new();
    out.add("isin", field_or_null(item, "isin"));
    out.add("underlying_isin", field_or_null(item, "underlyingIsin"));
    out.add("issuer", field_or_null(item, "issuer"));
    out.add("strategy", field_or_null(item, "strategy"));
    out.add("product_subcategory", field_or_null(item, "productSubcategory"));
    out.add("leverage", field_or_null(item, "leverage"));
    out.add("factor", field_or_null(item, "factor"));
    out.add("omega", field_or_null(item, "omega"));
    out.add("delta", field_or_null(item, "delta"));
    out.add("implied_volatility", field_or_null(item, "impliedVolatility"));
    out.add("distance_to_knockout", field_or_null(item, "distanceToKnockout"));
    out.add("distance_to_strike", field_or_null(item, "distanceToStrike"));
    out.add("strike", map_derivative_price(item.get("strike")));
    out.add("knockout_barrier", map_derivative_price(item.get("knockoutBarrier")));
    out.add("premium_absolute", map_money_value(item.get("premiumAbsolute")));
    out.add("premium_percentage", field_or_null(item, "premiumPercentage"));
    out.add("expiry_date", map_derivative_expiry_date(expiry));
    out.add("expiry_is_open_end", open_end);
    proof {
        assert(out.members() =~= spec_derivative_search_result(*item)->Object_0);
    }
    out.build()
}

/// A member of the pagination, or the value asked for where it is missing.
pub open spec fn paging_value(pagination: Json, key: Seq<char>, asked: int) -> JsonView {
    match pagination.spec_get(key) {
        Some(v) => v@,
        None => jnum(asked),
    }
}

/// The derivative search results as the command reports them.
pub open spec fn spec_derivatives_search_response(
    input: BrokerInput,
    query: NormalizedBrokerDerivativesSearchQueryInput,
    response: Json,
) -> Result<JsonView, Seq<char>> {
    match opt_get(opt_get(response.spec_get("account"@), "brokerPortfolio"@), "derivativesSearch"@) {
        None => Err("Broker response invalid: missing account.brokerPortfolio.derivativesSearch"@),
        Some(ds) => match ds.spec_get("pagination"@) {
            None => Err("Broker response invalid: missing derivatives search pagination"@),
            Some(pagination) => match array_at(ds.spec_get("results"@)) {
                None => Err("Broker response invalid: missing derivatives search results"@),
                Some(items) => Ok(
                    JsonView::Object(
                        ids_head(input) + seq![
                            ("derivative_type"@, jstr(query.derivative_type.spec_label())),
                            ("underlying_isin"@, jstr(query.underlying_isin@)),
                            ("offset"@, paging_value(pagination, "offset"@, query.offset as int)),
                            ("limit"@, paging_value(pagination, "limit"@, query.limit as int)),
                            ("total_available"@, get_or_null(pagination, "totalAvailable"@)),
                            ("count"@, jnum(items.len() as int)),
                            (
                                "items"@,
                                JsonView::Array(items.map_values(|i: Json| spec_derivative_search_result(i))),
                            ),
                        ],
                    ),
                ),
            },
        },
    }
}

pub fn project_broker_derivatives_search_response(
    input: &BrokerInput,
    query: &NormalizedBrokerDerivativesSearchQueryInput,
    response: &Json,
) -> (res: Result<Json, ErrorReport>)
    ensures
        plain_errors(res),
        json_result(res) == spec_derivatives_search_response(*input, *query, *response),
{
    let ds = match response.get("account") {
        Some(a) => match a.get("brokerPortfolio") {
            Some(p) => p.get("derivativesSearch"),
            None => None,
        },
        None => None,
    };
    let ds = match ds {
        Some(d) => d,
        None => {
            return Err(ErrorReport::msg("Broker response invalid: missing account.brokerPortfolio.derivativesSearch"));
        },
    };
    let pagination = match ds.get("pagination") {
        Some(p) => p,
        None => {
            return Err(ErrorReport::msg("Broker response invalid: missing derivatives search pagination"));
        },
    };
    let items: &Vec<Json> = match ds.get("results") {
        Some(Json::Array(items)) => items,
        _ => {
            return Err(ErrorReport::msg("Broker response invalid: missing derivatives search results"));
        },
    };
    let mut mapped = ArrayBuilder::new();
    let mut i: usize = 0;
    while i < items.len()
        invariant
            i <= items.len(),
            mapped.items() == items@.take(i as int).map_values(|t: Json| spec_derivative_search_result(t)),
        decreases items.len() - i,
    {
        mapped.push(map_derivative_search_result(&items[i]));
        proof {
            assert(items@.take(i + 1).map_values(|t: Json| spec_derivative_search_result(t)) =~= items@.take(
                i as int,
            ).map_values(|t: Json| spec_derivative_search_result(t)).push(
                spec_derivative_search_result(items@[i as int]),
            ));
        }
        i = i + 1;
    }
    proof {
        assert(items@.take(items.len() as int) =~= items@);
    }
    let offset = match pagination.get("offset") {
        Some(v) => v.duplicate(),
        None => unsigned_json(query.offset as u64),
    };
    let limit = match pagination.get("limit") {
        Some(v) => v.duplicate(),
        None => unsigned_json(query.limit as u64),
    };
    let mut out = ObjectBuilder::new();
    out.add("account_id", Json::Str(input.account_id().to_owned()));
    out.add("portfolio_id", Json::Str(input.portfolio_id().to_owned()));
    out.add("derivative_type", Json::Str(query.derivative_type.as_label().to_owned()));
    out.add("underlying_isin", Json::Str(query.underlying_isin.clone()));
    out.add("offset", offset);
    out.add("limit", limit);
    out.add("total_available", field_or_null(pagination, "totalAvailable"));
    out.add("count", unsigned_json(items.len() as u64));
    out.add("items", mapped.build());
    proof {
        assert(out.members() =~= spec_derivatives_search_response(*input, *query, *response)->Ok_0->Object_0);
    }
    Ok(out.build())
}

} // verus!
