//! Reshaping the details of one broker transaction into the command line's
//! result object.
use vstd::prelude::*;

use crate::error_report::{plain_errors};
use crate::broker_queries::BrokerInput;
use crate::broker_variables::jstr;
use crate::error_report::ErrorReport;
use crate::group_render::non_null;
use crate::json::{opt_get, opt_ref, ArrayBuilder, Json, JsonView, ObjectBuilder};
use crate::listings::{array_at, ids_head, opt_field, opt_field_or_null, or_opt};
use crate::projections::{
    field_or_null, get_or_null, json_result, spec_timestamp_value, timestamp_value_or_null,
};
use crate::text::str_eq;

verus! {

fn present<'a>(raw: Option<&'a Json>) -> (res: Option<&'a Json>)
    ensures
        opt_ref(res) == non_null(opt_ref(raw)),
{
    match raw {
        Some(Json::Null) => None,
        other => other,
    }
}

/// A pair of members of a value that is present and not null, else null.
pub open spec fn pair_or_null(raw: Option<Json>, k1: Seq<char>, f1: Seq<char>, k2: Seq<char>, f2: Seq<char>) -> JsonView {
    match non_null(raw) {
        Some(v) => JsonView::Object(seq![(k1, get_or_null(v, f1)), (k2, get_or_null(v, f2))]),
        None => JsonView::Null,
    }
}

fn map_pair(raw: Option<&Json>, k1: &str, f1: &str, k2: &str, f2: &str) -> (res: Json)
    ensures
        res@ == pair_or_null(opt_ref(raw), k1@, f1@, k2@, f2@),
{
    match present(raw) {
        Some(v) => {
            let mut out = ObjectBuilder::new();
            out.add(k1, field_or_null(v, f1));
            out.add(k2, field_or_null(v, f2));
            proof {
                assert(out.members() =~= seq![(k1@, get_or_null(*v, f1@)), (k2@, get_or_null(*v, f2@))]);
            }
            out.build()
        },
        None => Json::Null,
    }
}

/// The number of shares filled of the total.
pub open spec fn spec_number_of_shares(raw: Option<Json>) -> JsonView {
    pair_or_null(raw, "filled"@, "filled"@, "total"@, "total"@)
}

/// The kind of the details of a transaction type.
pub open spec fn spec_detail_type(typename: Seq<char>) -> Seq<char> {
    if typename == "BrokerSecurityTransaction"@ {
        "security_trade"@
    } else if typename == "BrokerCashTransaction"@ {
        "cash"@
    } else if typename == "BrokerNonTradeSecurityTransaction"@ {
        "non_trade_security"@
    } else if typename == "BrokerEltifTransaction"@ {
        "eltif"@
    } else {
        "unknown"@
    }
}

pub fn map_broker_transaction_detail_type(typename: &str) -> (res: Json)
    ensures
        res@ == jstr(spec_detail_type(typename@)),
{
    let kind = if str_eq(typename, "BrokerSecurityTransaction") {
        "security_trade"
    } else if str_eq(typename, "BrokerCashTransaction") {
        "cash"
    } else if str_eq(typename, "BrokerNonTradeSecurityTransaction") {
        "non_trade_security"
    } else if str_eq(typename, "BrokerEltifTransaction") {
        "eltif"
    } else {
        "unknown"
    };
    Json::Str(kind.to_owned())
}

/// The security a transaction is about, where it names one.
pub open spec fn spec_transaction_security_ref(raw: Option<Json>) -> JsonView {
    match non_null(raw) {
        Some(s) => JsonView::Object(
            seq![
                ("isin"@, get_or_null(s, "isin"@)),
                ("name"@, get_or_null(s, "name"@)),
                ("security_type"@, get_or_null(s, "type"@)),
            ],
        ),
        None => JsonView::Null,
    }
}

pub fn map_transaction_security_ref(raw: Option<&Json>) -> (res: Json)
    ensures
        res@ == spec_transaction_security_ref(opt_ref(raw)),
{
    match present(raw) {
        Some(s) => {
            let mut out = ObjectBuilder::new();
            out.add("isin", field_or_null(s, "isin"));
            out.add("name", field_or_null(s, "name"));
            out.add("security_type", field_or_null(s, "type"));
            proof {
                assert(out.members() =~= spec_transaction_security_ref(opt_ref(raw))->Object_0);
            }
            out.build()
        },
        None => Json::Null,
    }
}

/// A document of a transaction.
pub open spec fn spec_document(item: Json) -> JsonView {
    JsonView::Object(
        seq![
            ("id"@, get_or_null(item, "id"@)),
            ("url"@, get_or_null(item, "url"@)),
            ("label"@, get_or_null(item, "label"@)),
        ],
    )
}

pub open spec fn spec_transaction_documents(raw: Option<Json>) -> JsonView {
    JsonView::Array(
        match array_at(raw) {
            Some(items) => items.map_values(|i: Json| spec_document(i)),
            None => Seq::empty(),
        },
    )
}

pub fn map_transaction_documents(raw: Option<&Json>) -> (res: Json)
    ensures
        res@ == spec_transaction_documents(opt_ref(raw)),
{
    let mut out = ArrayBuilder::new();
    match raw {
        Some(Json::Array(items)) => {
            let mut i: usize = 0;
            while i < items.len()
                invariant
                    i <= items.len(),
                    out.items() == items@.take(i as int).map_values(|t: Json| spec_document(t)),
                decreases items.len() - i,
            {
                let mut doc = ObjectBuilder::new();
                doc.add("id", field_or_null(&items[i], "id"));
                doc.add("url", field_or_null(&items[i], "url"));
                doc.add("label", field_or_null(&items[i], "label"));
                proof {
                    assert(doc.members() =~= spec_document(items@[i as int])->Object_0);
                }
                out.push(doc.build());
                proof {
                    assert(items@.take(i + 1).map_values(|t: Json| spec_document(t)) =~= items@.take(
                        i as int,
                    ).map_values(|t: Json| spec_document(t)).push(spec_document(items@[i as int])));
                }
                i = i + 1;
            }
            proof {
                assert(items@.take(items.len() as int) =~= items@);
            }
        },
        _ => {},
    }
    out.build()
}

/// The ids of linked transactions.
pub open spec fn spec_linked_transaction_ids(raw: Option<Json>) -> JsonView {
    JsonView::Array(
        match array_at(raw) {
            Some(items) => items.map_values(|i: Json| get_or_null(i, "id"@)),
            None => Seq::empty(),
        },
    )
}

pub fn map_linked_transaction_ids(raw: Option<&Json>) -> (res: Json)
    ensures
        res@ == spec_linked_transaction_ids(opt_ref(raw)),
{
    let mut out = ArrayBuilder::new();
    match raw {
        Some(Json::Array(items)) => {
            let mut i: usize = 0;
            while i < items.len()
                invariant
                    i <= items.len(),
                    out.items() == items@.take(i as int).map_values(|t: Json| get_or_null(t, "id"@)),
                decreases items.len() - i,
            {
                out.push(field_or_null(&items[i], "id"));
                proof {
                    assert(items@.take(i + 1).map_values(|t: Json| get_or_null(t, "id"@)) =~= items@.take(
                        i as int,
                    ).map_values(|t: Json| get_or_null(t, "id"@)).push(get_or_null(items@[i as int], "id"@)));
                }
                i = i + 1;
            }
            proof {
                assert(items@.take(items.len() as int) =~= items@);
            }
        },
        _ => {},
    }
    out.build()
}

/// One state of a transaction's history.
pub open spec fn spec_history_entry(item: Json) -> JsonView {
    JsonView::Object(
        seq![
            ("state"@, get_or_null(item, "state"@)),
            ("timestamp"@, spec_timestamp_value(or_opt(item.spec_get("time"@), item.spec_get("timestamp"@)))),
            ("number_of_shares"@, spec_number_of_shares(item.spec_get("numberOfShares"@))),
            ("execution_price"@, get_or_null(item, "executionPrice"@)),
            ("amount"@, get_or_null(item, "amount"@)),
            ("eltif_quantity"@, get_or_null(item, "eltifQuantity"@)),
        ],
    )
}

/// The history of a transaction: the first history member it has, of any
/// transaction type, where that is a list.
pub open spec fn spec_transaction_history(tx: Json) -> JsonView {
    let history = or_opt(
        tx.spec_get("securityTransactionHistory"@),
        or_opt(
            tx.spec_get("cashTransactionHistory"@),
            or_opt(
                tx.spec_get("nonTradeSecurityTransactionHistory"@),
                or_opt(tx.spec_get("eltifTransactionHistory"@), tx.spec_get("transactionHistory"@)),
            ),
        ),
    );
    JsonView::Array(
        match array_at(history) {
            Some(items) => items.map_values(|i: Json| spec_history_entry(i)),
            None => Seq::empty(),
        },
    )
}

fn first_of<'a>(a: Option<&'a Json>, b: Option<&'a Json>) -> (res: Option<&'a Json>)
    ensures
        opt_ref(res) == or_opt(opt_ref(a), opt_ref(b)),
{
    match a {
        Some(v) => Some(v),
        None => b,
    }
}

pub fn map_transaction_history_for_details(tx: &Json) -> (res: Json)
    ensures
        res@ == spec_transaction_history(*tx),
{
    let history = first_of(
        tx.get("securityTransactionHistory"),
        first_of(
            tx.get("cashTransactionHistory"),
            first_of(
                tx.get("nonTradeSecurityTransactionHistory"),
                first_of(tx.get("eltifTransactionHistory"), tx.get("transactionHistory")),
            ),
        ),
    );
    let mut out = ArrayBuilder::new();
    match history {
        Some(Json::Array(items)) => {
            let mut i: usize = 0;
            while i < items.len()
                invariant
                    i <= items.len(),
                    out.items() == items@.take(i as int).map_values(|t: Json| spec_history_entry(t)),
                decreases items.len() - i,
            {
                let item = &items[i];
                let mut entry = ObjectBuilder::new();
                entry.add("state", field_or_null(item, "state"));
                entry.add("timestamp", timestamp_value_or_null(first_of(item.get("time"), item.get("timestamp"))));
                entry.add("number_of_shares", map_pair(item.get("numberOfShares"), "filled", "filled", "total", "total"));
                entry.add("execution_price", field_or_null(item, "executionPrice"));
                entry.add("amount", field_or_null(item, "amount"));
                entry.add("eltif_quantity", field_or_null(item, "eltifQuantity"));
                proof {
                    assert(entry.members() =~= spec_history_entry(*item)->Object_0);
                }
                out.push(entry.build());
                proof {
                    assert(items@.take(i + 1).map_values(|t: Json| spec_history_entry(t)) =~= items@.take(
                        i as int,
                    ).map_values(|t: Json| spec_history_entry(t)).push(spec_history_entry(items@[i as int])));
                }
                i = i + 1;
            }
            proof {
                assert(items@.take(items.len() as int) =~= items@);
            }
        },
        _ => {},
    }
    out.build()
}

/// The trade part of a securities transaction; null for other types.
pub open spec fn spec_security_trade_details(tx: Json, typename: Seq<char>) -> JsonView {
    if typename != "BrokerSecurityTransaction"@ {
        JsonView::Null
    } else {
        let amounts = non_null(tx.spec_get("tradeTransactionAmounts"@));
        let taxes = non_null(tx.spec_get("aggregatedTransactionTaxes"@));
        let trailing = non_null(tx.spec_get("trailingStopInfo"@));
        JsonView::Object(
            seq![
                ("status"@, get_or_null(tx, "status"@)),
                ("side"@, get_or_null(tx, "side"@)),
                ("order_kind"@, get_or_null(tx, "orderKind"@)),
                ("number_of_shares"@, spec_number_of_shares(tx.spec_get("numberOfShares"@))),
                ("average_price"@, get_or_null(tx, "averagePrice"@)),
                ("total_amount"@, get_or_null(tx, "totalAmount"@)),
                ("finalisation_reason"@, get_or_null(tx, "finalisationReason"@)),
                ("limit_price"@, get_or_null(tx, "limitPrice"@)),
                ("stop_price"@, get_or_null(tx, "stopPrice"@)),
                ("valid_until"@, spec_timestamp_value(tx.spec_get("validUntil"@))),
                ("is_cancellation_requested"@, get_or_null(tx, "isCancellationRequested"@)),
                ("trading_venue"@, get_or_null(tx, "tradingVenue"@)),
                ("fee"@, get_or_null(tx, "fee"@)),
                ("transactional_fee"@, get_or_null(tx, "transactionalFee"@)),
                ("taxes"@, get_or_null(tx, "taxes"@)),
                (
                    "trade_transaction_amounts"@,
                    match amounts {
                        Some(v) => JsonView::Object(
                            seq![
                                ("market_valuation"@, get_or_null(v, "marketValuation"@)),
                                ("tax_amount"@, get_or_null(v, "taxAmount"@)),
                                ("transaction_fee"@, get_or_null(v, "transactionFee"@)),
                                ("venue_fee"@, get_or_null(v, "venueFee"@)),
                                ("crypto_spread_fee"@, get_or_null(v, "cryptoSpreadFee"@)),
                            ],
                        ),
                        None => JsonView::Null,
                    },
                ),
                (
                    "aggregated_transaction_taxes"@,
                    match taxes {
                        Some(v) => JsonView::Object(
                            seq![
                                ("total_tax"@, get_or_null(v, "totalTax"@)),
                                ("capital_gains_tax"@, get_or_null(v, "capitalGainsTax"@)),
                                ("church_tax"@, get_or_null(v, "churchTax"@)),
                                ("solidarity_tax"@, get_or_null(v, "solidarityTax"@)),
                                ("source_tax"@, get_or_null(v, "sourceTax"@)),
                                ("financial_transaction_tax"@, get_or_null(v, "financialTransactionTax"@)),
                            ],
                        ),
                        None => JsonView::Null,
                    },
                ),
                (
                    "trailing_stop_info"@,
                    match trailing {
                        Some(v) => JsonView::Object(
                            seq![
                                ("trail_type"@, get_or_null(v, "trailType"@)),
                                ("trail_offset"@, get_or_null(v, "trailOffset"@)),
                                (
                                    "latest_stop_price_timestamp"@,
                                    spec_timestamp_value(v.spec_get("latestStopPriceTimestamp"@)),
                                ),
                                (
                                    "latest_stop_price_epoch_second"@,
                                    opt_field(v.spec_get("latestStopPriceTimestamp"@), "epochSecond"@),
                                ),
                                (
                                    "latest_stop_price_epoch_millisecond"@,
                                    opt_field(v.spec_get("latestStopPriceTimestamp"@), "epochMillisecond"@),
                                ),
                            ],
                        ),
                        None => JsonView::Null,
                    },
                ),
            ],
        )
    }
}

pub fn map_security_trade_details(tx: &Json, typename: &str) -> (res: Json)
    ensures
        res@ == spec_security_trade_details(*tx, typename@),
{
    if !str_eq(typename, "BrokerSecurityTransaction") {
        return Json::Null;
    }
    let amounts = match present(tx.get("tradeTransactionAmounts")) {
        Some(v) => {
            let mut o = ObjectBuilder::new();
            o.add("market_valuation", field_or_null(v, "marketValuation"));
            o.add("tax_amount", field_or_null(v, "taxAmount"));
            o.add("transaction_fee", field_or_null(v, "transactionFee"));
            o.add("venue_fee", field_or_null(v, "venueFee"));
            o.add("crypto_spread_fee", field_or_null(v, "cryptoSpreadFee"));
            proof {
                assert(o.members() =~= seq![
                    ("market_valuation"@, get_or_null(*v, "marketValuation"@)),
                    ("tax_amount"@, get_or_null(*v, "taxAmount"@)),
                    ("transaction_fee"@, get_or_null(*v, "transactionFee"@)),
                    ("venue_fee"@, get_or_null(*v, "venueFee"@)),
                    ("crypto_spread_fee"@, get_or_null(*v, "cryptoSpreadFee"@)),
                ]);
            }
            o.build()
        },
        None => Json::Null,
    };
    let taxes = match present(tx.get("aggregatedTransactionTaxes")) {
        Some(v) => {
            let mut o = ObjectBuilder::new();
            o.add("total_tax", field_or_null(v, "totalTax"));
            o.add("capital_gains_tax", field_or_null(v, "capitalGainsTax"));
            o.add("church_tax", field_or_null(v, "churchTax"));
            o.add("solidarity_tax", field_or_null(v, "solidarityTax"));
            o.add("source_tax", field_or_null(v, "sourceTax"));
            o.add("financial_transaction_tax", field_or_null(v, "financialTransactionTax"));
            proof {
                assert(o.members() =~= seq![
                    ("total_tax"@, get_or_null(*v, "totalTax"@)),
                    ("capital_gains_tax"@, get_or_null(*v, "capitalGainsTax"@)),
                    ("church_tax"@, get_or_null(*v, "churchTax"@)),
                    ("solidarity_tax"@, get_or_null(*v, "solidarityTax"@)),
                    ("source_tax"@, get_or_null(*v, "sourceTax"@)),
                    ("financial_transaction_tax"@, get_or_null(*v, "financialTransactionTax"@)),
                ]);
            }
            o.build()
        },
        None => Json::Null,
    };
    let trailing = match present(tx.get("trailingStopInfo")) {
        Some(v) => {
            let stamp = v.get("latestStopPriceTimestamp");
            let mut o = ObjectBuilder::new();
            o.add("trail_type", field_or_null(v, "trailType"));
            o.add("trail_offset", field_or_null(v, "trailOffset"));
            o.add("latest_stop_price_timestamp", timestamp_value_or_null(stamp));
            o.add("latest_stop_price_epoch_second", opt_field_or_null(stamp, "epochSecond"));
            o.add("latest_stop_price_epoch_millisecond", opt_field_or_null(stamp, "epochMillisecond"));
            proof {
                assert(o.members() =~= seq![
                    ("trail_type"@, get_or_null(*v, "trailType"@)),
                    ("trail_offset"@, get_or_null(*v, "trailOffset"@)),
                    ("latest_stop_price_timestamp"@, spec_timestamp_value(v.spec_get("latestStopPriceTimestamp"@))),
                    (
                        "latest_stop_price_epoch_second"@,
                        opt_field(v.spec_get("latestStopPriceTimestamp"@), "epochSecond"@),
                    ),
                    (
                        "latest_stop_price_epoch_millisecond"@,
                        opt_field(v.spec_get("latestStopPriceTimestamp"@), "epochMillisecond"@),
                    ),
                ]);
            }
            o.build()
        },
        None => Json::Null,
    };
    let mut out = ObjectBuilder::new();
    out.add("status", field_or_null(tx, "status"));
    out.add("side", field_or_null(tx, "side"));
    out.add("order_kind", field_or_null(tx, "orderKind"));
    out.add("number_of_shares", map_pair(tx.get("numberOfShares"), "filled", "filled", "total", "total"));
    out.add("average_price", field_or_null(tx, "averagePrice"));
    out.add("total_amount", field_or_null(tx, "totalAmount"));
    out.add("finalisation_reason", field_or_null(tx, "finalisationReason"));
    out.add("limit_price", field_or_null(tx, "limitPrice"));
    out.add("stop_price", field_or_null(tx, "stopPrice"));
    out.add("valid_until", timestamp_value_or_null(tx.get("validUntil")));
    out.add("is_cancellation_requested", field_or_null(tx, "isCancellationRequested"));
    out.add("trading_venue", field_or_null(tx, "tradingVenue"));
    out.add("fee", field_or_null(tx, "fee"));
    out.add("transactional_fee", field_or_null(tx, "transactionalFee"));
    out.add("taxes", field_or_null(tx, "taxes"));
    out.add("trade_transaction_amounts", amounts);
    out.add("aggregated_transaction_taxes", taxes);
    out.add("trailing_stop_info", trailing);
    proof {
        assert(out.members() =~= spec_security_trade_details(*tx, typename@)->Object_0);
    }
    out.build()
}

/// The cash part of a cash transaction; null for other types.
pub open spec fn spec_cash_transaction_details(tx: Json, typename: Seq<char>) -> JsonView {
    if typename != "BrokerCashTransaction"@ {
        JsonView::Null
    } else {
        JsonView::Object(
            seq![
                ("cash_transaction_type"@, get_or_null(tx, "cashTransactionType"@)),
                ("amount"@, get_or_null(tx, "amount"@)),
                ("description"@, get_or_null(tx, "description"@)),
                (
                    "tax_details"@,
                    pair_or_null(tx.spec_get("taxDetails"@), "gross_amount"@, "grossAmount"@, "tax_amount"@, "taxAmount"@),
                ),
                (
                    "sddi_details"@,
                    pair_or_null(tx.spec_get("sddiDetails"@), "fee"@, "fee"@, "gross_amount"@, "grossAmount"@),
                ),
            ],
        )
    }
}

pub fn map_cash_transaction_details(tx: &Json, typename: &str) -> (res: Json)
    ensures
        res@ == spec_cash_transaction_details(*tx, typename@),
{
    if !str_eq(typename, "BrokerCashTransaction") {
        return Json::Null;
    }
    let mut out = ObjectBuilder::new();
    out.add("cash_transaction_type", field_or_null(tx, "cashTransactionType"));
    out.add("amount", field_or_null(tx, "amount"));
    out.add("description", field_or_null(tx, "description"));
    out.add("tax_details", map_pair(tx.get("taxDetails"), "gross_amount", "grossAmount", "tax_amount", "taxAmount"));
    out.add("sddi_details", map_pair(tx.get("sddiDetails"), "fee", "fee", "gross_amount", "grossAmount"));
    proof {
        assert(out.members() =~= spec_cash_transaction_details(*tx, typename@)->Object_0);
    }
    out.build()
}

/// The part of a security transaction that is no trade; null for other types.
pub open spec fn spec_non_trade_security_details(tx: Json, typename: Seq<char>) -> JsonView {
    if typename != "BrokerNonTradeSecurityTransaction"@ {
        JsonView::Null
    } else {
        JsonView::Object(
            seq![
                ("isin"@, get_or_null(tx, "isin"@)),
                ("non_trade_security_transaction_type"@, get_or_null(tx, "nonTradeSecurityTransactionType"@)),
                ("quantity"@, get_or_null(tx, "quantity"@)),
                (
                    "average_price"@,
                    match or_opt(tx.spec_get("nonTradeAveragePrice"@), tx.spec_get("averagePrice"@)) {
                        Some(v) => v@,
                        None => JsonView::Null,
                    },
                ),
                (
                    "total_amount"@,
                    match or_opt(tx.spec_get("nonTradeSecurityAmount"@), tx.spec_get("totalAmount"@)) {
                        Some(v) => v@,
                        None => JsonView::Null,
                    },
                ),
                ("description"@, get_or_null(tx, "description"@)),
            ],
        )
    }
}

fn copy_or_null(v: Option<&Json>) -> (res: Json)
    ensures
        res@ == match opt_ref(v) {
            Some(x) => x@,
            None => JsonView::Null,
        },
{
    match v {
        Some(x) => x.duplicate(),
        None => Json::Null,
    }
}

pub fn map_non_trade_security_details(tx: &Json, typename: &str) -> (res: Json)
    ensures
        res@ == spec_non_trade_security_details(*tx, typename@),
{
    if !str_eq(typename, "BrokerNonTradeSecurityTransaction") {
        return Json::Null;
    }
    let mut out = ObjectBuilder::new();
    out.add("isin", field_or_null(tx, "isin"));
    out.add("non_trade_security_transaction_type", field_or_null(tx, "nonTradeSecurityTransactionType"));
    out.add("quantity", field_or_null(tx, "quantity"));
    out.add("average_price", copy_or_null(first_of(tx.get("nonTradeAveragePrice"), tx.get("averagePrice"))));
    out.add("total_amount", copy_or_null(first_of(tx.get("nonTradeSecurityAmount"), tx.get("totalAmount"))));
    out.add("description", field_or_null(tx, "description"));
    proof {
        assert(out.members() =~= spec_non_trade_security_details(*tx, typename@)->Object_0);
    }
    out.build()
}

/// The part of an ELTIF transaction; null for other types.
pub open spec fn spec_eltif_transaction_details(tx: Json, typename: Seq<char>) -> JsonView {
    if typename != "BrokerEltifTransaction"@ {
        JsonView::Null
    } else {
        JsonView::Object(
            seq![
                ("status"@, get_or_null(tx, "status"@)),
                ("side"@, get_or_null(tx, "side"@)),
                ("order_kind"@, get_or_null(tx, "orderKind"@)),
                ("amount"@, get_or_null(tx, "amount"@)),
                ("finalisation_reason"@, get_or_null(tx, "finalisationReason"@)),
                ("eltif_quantity"@, get_or_null(tx, "eltifQuantity"@)),
                ("execution_price"@, get_or_null(tx, "executionPrice"@)),
                ("execution_date"@, spec_timestamp_value(tx.spec_get("executionDate"@))),
                ("earliest_sell_date"@, spec_timestamp_value(tx.spec_get("earliestSellDate"@))),
                ("market_valuation"@, get_or_null(tx, "marketValuation"@)),
                ("trading_venue"@, get_or_null(tx, "tradingVenue"@)),
                ("is_multiple_orders_cancellation"@, get_or_null(tx, "isMultipleOrdersCancellation"@)),
                ("is_initial_investment"@, get_or_null(tx, "isInitialInvestment"@)),
                (
                    "cancelable_details"@,
                    pair_or_null(
                        tx.spec_get("cancelableDetails"@),
                        "days_left"@,
                        "daysLeft"@,
                        "is_cancelable"@,
                        "isCancelable"@,
                    ),
                ),
            ],
        )
    }
}

pub fn map_eltif_transaction_details(tx: &Json, typename: &str) -> (res: Json)
    ensures
        res@ == spec_eltif_transaction_details(*tx, typename@),
{
    if !str_eq(typename, "BrokerEltifTransaction") {
        return Json::Null;
    }
    let mut out = ObjectBuilder::new();
    out.add("status", field_or_null(tx, "status"));
    out.add("side", field_or_null(tx, "side"));
    out.add("order_kind", field_or_null(tx, "orderKind"));
    out.add("amount", field_or_null(tx, "amount"));
    out.add("finalisation_reason", field_or_null(tx, "finalisationReason"));
    out.add("eltif_quantity", field_or_null(tx, "eltifQuantity"));
    out.add("execution_price", field_or_null(tx, "executionPrice"));
    out.add("execution_date", timestamp_value_or_null(tx.get("executionDate")));
    out.add("earliest_sell_date", timestamp_value_or_null(tx.get("earliestSellDate")));
    out.add("market_valuation", field_or_null(tx, "marketValuation"));
    out.add("trading_venue", field_or_null(tx, "tradingVenue"));
    out.add("is_multiple_orders_cancellation", field_or_null(tx, "isMultipleOrdersCancellation"));
    out.add("is_initial_investment", field_or_null(tx, "isInitialInvestment"));
    out.add(
        "cancelable_details",
        map_pair(tx.get("cancelableDetails"), "days_left", "daysLeft", "is_cancelable", "isCancelable"),
    );
    proof {
        assert(out.members() =~= spec_eltif_transaction_details(*tx, typename@)->Object_0);
    }
    out.build()
}

/// The text of a value's type name, or the empty text.
pub open spec fn typename_of(tx: Json) -> Seq<char> {
    match tx.spec_get("__typename"@) {
        Some(Json::Str(t)) => t@,
        _ => Seq::empty(),
    }
}

/// The details of one transaction as the command reports them: the common
/// members, and the part of the transaction's own type (null for the others).
pub open spec fn spec_transaction_details_response(input: BrokerInput, response: Json) -> Result<
    JsonView,
    Seq<char>,
> {
    match opt_get(opt_get(response.spec_get("account"@), "brokerPortfolio"@), "transactionDetails"@) {
        None => Err("Broker response invalid: missing account.brokerPortfolio.transactionDetails"@),
        Some(tx) => {
            let t = typename_of(tx);
            Ok(
                JsonView::Object(
                    ids_head(input) + seq![
                        ("id"@, get_or_null(tx, "id"@)),
                        ("detail_type"@, jstr(spec_detail_type(t))),
                        ("detail_typename"@, get_or_null(tx, "__typename"@)),
                        ("type"@, get_or_null(tx, "type"@)),
                        ("currency"@, get_or_null(tx, "currency"@)),
                        ("transaction_reference"@, get_or_null(tx, "transactionReference"@)),
                        ("last_event_datetime"@, spec_timestamp_value(tx.spec_get("lastEventDateTime"@))),
                        ("is_pending"@, get_or_null(tx, "isPending"@)),
                        ("is_cancellation"@, get_or_null(tx, "isCancellation"@)),
                        ("security"@, spec_transaction_security_ref(tx.spec_get("security"@))),
                        ("documents"@, spec_transaction_documents(tx.spec_get("documents"@))),
                        ("linked_transaction_ids"@, spec_linked_transaction_ids(tx.spec_get("linkedTransactions"@))),
                        ("history"@, spec_transaction_history(tx)),
                        ("security_trade"@, spec_security_trade_details(tx, t)),
                        ("cash"@, spec_cash_transaction_details(tx, t)),
                        ("non_trade_security"@, spec_non_trade_security_details(tx, t)),
                        ("eltif"@, spec_eltif_transaction_details(tx, t)),
                    ],
                ),
            )
        },
    }
}

#[verifier::rlimit(30)]
pub fn project_broker_transaction_details_response(input: &BrokerInput, response: &Json) -> (res:
    Result<Json, ErrorReport>)
    ensures
        plain_errors(res),
        json_result(res) == spec_transaction_details_response(*input, *response),
{
    let tx = match response.get("account") {
        Some(a) => match a.get("brokerPortfolio") {
            Some(p) => p.get("transactionDetails"),
            None => None,
        },
        None => None,
    };
    let tx = match tx {
        Some(t) => t,
        None => {
            return Err(
                ErrorReport::msg("Broker response invalid: missing account.brokerPortfolio.transactionDetails"),
            );
        },
    };
    let typename: &str = match tx.get("__typename") {
        Some(Json::Str(t)) => t.as_str(),
        _ => {
            proof {
                reveal_strlit("");
            }
            ""
        },
    };
    proof {
        reveal_strlit("");
        assert(typename@ == typename_of(*tx));
    }
    let mut out = ObjectBuilder::new();
    out.add("account_id", Json::Str(input.account_id().to_owned()));
    out.add("portfolio_id", Json::Str(input.portfolio_id().to_owned()));
    out.add("id", field_or_null(tx, "id"));
    out.add("detail_type", map_broker_transaction_detail_type(typename));
    out.add("detail_typename", field_or_null(tx, "__typename"));
    out.add("type", field_or_null(tx, "type"));
    out.add("currency", field_or_null(tx, "currency"));
    out.add("transaction_reference", field_or_null(tx, "transactionReference"));
    out.add("last_event_datetime", timestamp_value_or_null(tx.get("lastEventDateTime")));
    out.add("is_pending", field_or_null(tx, "isPending"));
    out.add("is_cancellation", field_or_null(tx, "isCancellation"));
    out.add("security", map_transaction_security_ref(tx.get("security")));
    out.add("documents", map_transaction_documents(tx.get("documents")));
    out.add("linked_transaction_ids", map_linked_transaction_ids(tx.get("linkedTransactions")));
    out.add("history", map_transaction_history_for_details(tx));
    out.add("security_trade", map_security_trade_details(tx, typename));
    out.add("cash", map_cash_transaction_details(tx, typename));
    out.add("non_trade_security", map_non_trade_security_details(tx, typename));
    out.add("eltif", map_eltif_transaction_details(tx, typename));
    proof {
        assert(out.members() =~= spec_transaction_details_response(*input, *response)->Ok_0->Object_0);
    }
    Ok(out.build())
}

} // verus!
