//! Reshaping broker responses into the command line's result objects.
use vstd::prelude::*;

use crate::error_report::{plain_errors};
use crate::broker_queries::BrokerInput;
use crate::broker_variables::{jnum, jstr, unsigned_json};
use crate::error_report::ErrorReport;
use crate::json::{items_view, json_view, opt_get, ArrayBuilder, Json, JsonView, ObjectBuilder};
use crate::text::str_eq;

verus! {

fn empty_array() -> (res: Json)
    ensures
        res@ == JsonView::Array(Seq::empty()),
{
    let res = Json::Array(Vec::new());
    proof {
        assert(items_view(Seq::<Json>::empty()) == Seq::<JsonView>::empty());
    }
    res
}

/// A member of an object, or null where it is missing.
pub open spec fn get_or_null(item: Json, key: Seq<char>) -> JsonView {
    match item.spec_get(key) {
        Some(v) => json_view(v),
        None => JsonView::Null,
    }
}

pub fn field_or_null(item: &Json, key: &str) -> (res: Json)
    ensures
        res@ == get_or_null(*item, key@),
{
    match item.get(key) {
        Some(v) => v.duplicate(),
        None => Json::Null,
    }
}

/// A timestamp: the `time` member of the value where it has one, else the
/// value itself; null where there is no value.
pub open spec fn spec_timestamp_value(raw: Option<Json>) -> JsonView {
    match raw {
        Some(v) => match v.spec_get("time"@) {
            Some(t) => json_view(t),
            None => json_view(v),
        },
        None => JsonView::Null,
    }
}

pub fn timestamp_value_or_null(raw: Option<&Json>) -> (res: Json)
    ensures
        res@ == spec_timestamp_value(crate::json::opt_ref(raw)),
{
    match raw {
        Some(value) => match value.get("time") {
            Some(t) => t.duplicate(),
            None => value.duplicate(),
        },
        None => Json::Null,
    }
}

/// The members every transaction summary has.
pub open spec fn summary_base(item: Json, unknown: bool) -> Seq<(Seq<char>, JsonView)> {
    seq![
        ("id"@, get_or_null(item, "id"@)),
        ("summary_type"@, get_or_null(item, "__typename"@)),
        ("currency"@, get_or_null(item, "currency"@)),
        ("type"@, get_or_null(item, "type"@)),
        ("status"@, get_or_null(item, "status"@)),
        ("is_cancellation"@, get_or_null(item, "isCancellation"@)),
        ("last_event_datetime"@, spec_timestamp_value(item.spec_get("lastEventDateTime"@))),
        ("description"@, get_or_null(item, "description"@)),
        ("custodian"@, get_or_null(item, "custodian"@)),
        (
            "documents"@,
            match item.spec_get("documents"@) {
                Some(Json::Array(docs)) => JsonView::Array(items_view(docs@)),
                _ => JsonView::Array(Seq::empty()),
            },
        ),
        ("unknown_summary_type"@, JsonView::Bool(unknown)),
    ]
}

/// The members a summary of a known type adds.
pub open spec fn summary_extra(item: Json, typename: Seq<char>) -> Seq<(Seq<char>, JsonView)> {
    if typename == "BrokerSecurityTransactionSummary"@ {
        seq![
            ("isin"@, get_or_null(item, "isin"@)),
            ("security_transaction_type"@, get_or_null(item, "securityTransactionType"@)),
            ("quantity"@, get_or_null(item, "quantity"@)),
            ("amount"@, get_or_null(item, "amount"@)),
            ("side"@, get_or_null(item, "side"@)),
            ("limit_price"@, get_or_null(item, "limitPrice"@)),
            ("stop_price"@, get_or_null(item, "stopPrice"@)),
        ]
    } else if typename == "BrokerCashTransactionSummary"@ {
        seq![
            ("related_isin"@, get_or_null(item, "relatedIsin"@)),
            ("cash_transaction_type"@, get_or_null(item, "cashTransactionType"@)),
            ("amount"@, get_or_null(item, "amount"@)),
        ]
    } else if typename == "BrokerNonTradeSecurityTransactionSummary"@ {
        seq![
            ("isin"@, get_or_null(item, "isin"@)),
            (
                "non_trade_security_transaction_type"@,
                get_or_null(item, "nonTradeSecurityTransactionType"@),
            ),
            ("quantity"@, get_or_null(item, "quantity"@)),
            ("amount"@, get_or_null(item, "amount"@)),
        ]
    } else if typename == "BrokerEltifTransactionSummary"@ {
        seq![
            ("isin"@, get_or_null(item, "isin"@)),
            ("security_transaction_type"@, get_or_null(item, "securityTransactionType"@)),
            ("eltif_quantity"@, get_or_null(item, "eltifQuantity"@)),
            ("amount"@, get_or_null(item, "amount"@)),
            ("side"@, get_or_null(item, "side"@)),
        ]
    } else {
        Seq::empty()
    }
}

pub open spec fn is_known_summary_type(typename: Seq<char>) -> bool {
    ||| typename == "BrokerSecurityTransactionSummary"@
    ||| typename == "BrokerCashTransactionSummary"@
    ||| typename == "BrokerNonTradeSecurityTransactionSummary"@
    ||| typename == "BrokerEltifTransactionSummary"@
}

/// A transaction summary as the command reports it: the common members, and
/// those of its type; a summary of an unknown type is flagged as such.
pub open spec fn spec_transaction_summary(item: Json) -> JsonView {
    let typename = match item.spec_get("__typename"@) {
        Some(Json::Str(t)) => t@,
        _ => Seq::empty(),
    };
    JsonView::Object(
        summary_base(item, !is_known_summary_type(typename)) + summary_extra(item, typename),
    )
}

/// The type name of a summary, empty where it has none.
pub open spec fn summary_typename(item: Json) -> Seq<char> {
    match item.spec_get("__typename"@) {
        Some(Json::Str(t)) => t@,
        _ => Seq::empty(),
    }
}

/// Every summary starts with the common members, copied from the item (null
/// where missing; documents an empty list where they are not a list), and
/// flags a type outside the four known ones; such a summary has nothing more.
/// A cash summary adds its cash transaction type, a security summary its
/// security transaction type.
pub proof fn transaction_summaries_keep_common_members_and_flag_unknown_types(item: Json)
    ensures
        spec_transaction_summary(item) matches JsonView::Object(ms) && {
            let typename = summary_typename(item);
            &&& ms.len() >= 11
            &&& ms.subrange(0, 11) == summary_base(item, !is_known_summary_type(typename))
            &&& ms[10] == ("unknown_summary_type"@, JsonView::Bool(!is_known_summary_type(typename)))
            &&& !is_known_summary_type(typename) ==> ms.len() == 11
            &&& typename == "BrokerCashTransactionSummary"@ ==> ms[12] == (
                "cash_transaction_type"@,
                get_or_null(item, "cashTransactionType"@),
            )
            &&& typename == "BrokerSecurityTransactionSummary"@ ==> ms[12] == (
                "security_transaction_type"@,
                get_or_null(item, "securityTransactionType"@),
            )
        },
{
    reveal_strlit("BrokerSecurityTransactionSummary");
    reveal_strlit("BrokerCashTransactionSummary");
    assert("BrokerSecurityTransactionSummary"@.len() == 32);
    assert("BrokerCashTransactionSummary"@.len() == 28);
    let typename = summary_typename(item);
    let base = summary_base(item, !is_known_summary_type(typename));
    let extra = summary_extra(item, typename);
    assert((base + extra).subrange(0, 11) =~= base);
}

pub fn map_broker_transaction_summary(item: &Json) -> (res: Json)
    ensures
        res@ == spec_transaction_summary(*item),
{
    let typename: &str = match item.get("__typename") {
        Some(v) => match v.as_str() {
            Some(t) => t,
            None => "",
        },
        None => "",
    };
    proof {
        reveal_strlit("");
        assert(typename@ == match item.spec_get("__typename"@) {
            Some(Json::Str(t)) => t@,
            _ => Seq::<char>::empty(),
        });
    }
    let security = str_eq(typename, "BrokerSecurityTransactionSummary");
    let cash = str_eq(typename, "BrokerCashTransactionSummary");
    let non_trade = str_eq(typename, "BrokerNonTradeSecurityTransactionSummary");
    let eltif = str_eq(typename, "BrokerEltifTransactionSummary");
    let mut out = ObjectBuilder::new();
    out.add("id", field_or_null(item, "id"));
    out.add("summary_type", field_or_null(item, "__typename"));
    out.add("currency", field_or_null(item, "currency"));
    out.add("type", field_or_null(item, "type"));
    out.add("status", field_or_null(item, "status"));
    out.add("is_cancellation", field_or_null(item, "isCancellation"));
    out.add("last_event_datetime", timestamp_value_or_null(item.get("lastEventDateTime")));
    out.add("description", field_or_null(item, "description"));
    out.add("custodian", field_or_null(item, "custodian"));
    let documents = match item.get("documents") {
        Some(v) => if v.as_array().is_some() {
            v.duplicate()
        } else {
            empty_array()
        },
        None => empty_array(),
    };
    out.add("documents", documents);
    out.add("unknown_summary_type", Json::Bool(!(security || cash || non_trade || eltif)));
    let ghost base = out.members();
    if security {
        out.add("isin", field_or_null(item, "isin"));
        out.add("security_transaction_type", field_or_null(item, "securityTransactionType"));
        out.add("quantity", field_or_null(item, "quantity"));
        out.add("amount", field_or_null(item, "amount"));
        out.add("side", field_or_null(item, "side"));
        out.add("limit_price", field_or_null(item, "limitPrice"));
        out.add("stop_price", field_or_null(item, "stopPrice"));
    } else if cash {
        out.add("related_isin", field_or_null(item, "relatedIsin"));
        out.add("cash_transaction_type", field_or_null(item, "cashTransactionType"));
        out.add("amount", field_or_null(item, "amount"));
    } else if non_trade {
        out.add("isin", field_or_null(item, "isin"));
        out.add(
            "non_trade_security_transaction_type",
            field_or_null(item, "nonTradeSecurityTransactionType"),
        );
        out.add("quantity", field_or_null(item, "quantity"));
        out.add("amount", field_or_null(item, "amount"));
    } else if eltif {
        out.add("isin", field_or_null(item, "isin"));
        out.add("security_transaction_type", field_or_null(item, "securityTransactionType"));
        out.add("eltif_quantity", field_or_null(item, "eltifQuantity"));
        out.add("amount", field_or_null(item, "amount"));
        out.add("side", field_or_null(item, "side"));
    }
    proof {
        let typename_v = match item.spec_get("__typename"@) {
            Some(Json::Str(t)) => t@,
            _ => Seq::empty(),
        };
        assert(base =~= summary_base(*item, !is_known_summary_type(typename_v)));
        assert(out.members() =~= base + summary_extra(*item, typename_v));
    }
    out.build()
}


/// The transactions page as the command reports it: the ids, the paging,
/// and each transaction summary mapped.
pub open spec fn spec_transactions_response(input: BrokerInput, response: Json) -> Result<
    JsonView,
    Seq<char>,
> {
    match opt_get(opt_get(response.spec_get("account"@), "brokerPortfolio"@), "moreTransactions"@) {
        None => Err("Broker response invalid: missing account.brokerPortfolio.moreTransactions"@),
        Some(summaries) => match summaries.spec_get("transactions"@) {
            Some(Json::Array(items)) => Ok(
                JsonView::Object(
                    seq![
                        ("account_id"@, jstr(input.spec_account_id())),
                        ("portfolio_id"@, jstr(input.spec_portfolio_id())),
                        ("cursor"@, get_or_null(summaries, "cursor"@)),
                        ("total"@, get_or_null(summaries, "total"@)),
                        ("count"@, jnum(items@.len() as int)),
                        (
                            "items"@,
                            JsonView::Array(items@.map_values(|i: Json| spec_transaction_summary(i))),
                        ),
                    ],
                ),
            ),
            _ => Err(
                "Broker response invalid: missing account.brokerPortfolio.moreTransactions.transactions"@,
            ),
        },
    }
}

pub open spec fn json_result(r: Result<Json, ErrorReport>) -> Result<JsonView, Seq<char>> {
    match r {
        Ok(j) => Ok(j@),
        Err(e) => Err(e.messages()[0]),
    }
}

pub fn project_broker_transactions_response(input: &BrokerInput, response: &Json) -> (res: Result<
    Json,
    ErrorReport,
>)
    ensures
        plain_errors(res),
        json_result(res) == spec_transactions_response(*input, *response),
{
    let summaries = match response.get("account") {
        Some(a) => match a.get("brokerPortfolio") {
            Some(p) => p.get("moreTransactions"),
            None => None,
        },
        None => None,
    };
    let summaries = match summaries {
        Some(s) => s,
        None => {
            return Err(
                ErrorReport::msg("Broker response invalid: missing account.brokerPortfolio.moreTransactions"),
            );
        },
    };
    let items: &Vec<Json> = match summaries.get("transactions") {
        Some(v) => match v.as_array() {
            Some(items) => items,
            None => {
                return Err(
                    ErrorReport::msg(
                        "Broker response invalid: missing account.brokerPortfolio.moreTransactions.transactions",
                    ),
                );
            },
        },
        None => {
            return Err(
                ErrorReport::msg(
                    "Broker response invalid: missing account.brokerPortfolio.moreTransactions.transactions",
                ),
            );
        },
    };
    let mut mapped = ArrayBuilder::new();
    let mut i: usize = 0;
    while i < items.len()
        invariant
            i <= items.len(),
            mapped.items() == items@.take(i as int).map_values(|t: Json| spec_transaction_summary(t)),
        decreases items.len() - i,
    {
        mapped.push(map_broker_transaction_summary(&items[i]));
        proof {
            assert(items@.take(i + 1).map_values(|t: Json| spec_transaction_summary(t)) =~= items@.take(
                i as int,
            ).map_values(|t: Json| spec_transaction_summary(t)).push(spec_transaction_summary(items@[i as int])));
        }
        i = i + 1;
    }
    proof {
        assert(items@.take(items.len() as int) =~= items@);
    }
    let mut out = ObjectBuilder::new();
    out.add("account_id", Json::Str(input.account_id().to_owned()));
    out.add("portfolio_id", Json::Str(input.portfolio_id().to_owned()));
    out.add("cursor", field_or_null(summaries, "cursor"));
    out.add("total", field_or_null(summaries, "total"));
    out.add("count", unsigned_json(items.len() as u64));
    out.add("items", mapped.build());
    proof {
        assert(out.members() =~= spec_transactions_response(*input, *response)->Ok_0->Object_0);
    }
    Ok(out.build())
}

} // verus!
