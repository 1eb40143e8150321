//! Properties of the listings the command reports: each is complete, in the
//! order of its key, and refused exactly where the answer lacks what it needs.
use vstd::prelude::*;

use crate::alerts::{crypto_alert_entries, spec_crypto_price_alerts_response};
use crate::broker_queries::BrokerInput;
use crate::broker_variables::jnum;
use crate::json::{opt_get, Json, JsonView};
use crate::keyed::{
    keyed_sort_orders_by_key_and_keeps_every_entry, keyed_values, keys_ordered, lemma_sort_keyed_len,
    sort_keyed,
};
use crate::listings::{
    array_at, holding_entries, ids_head, performance_entries, reported_isin, spec_holdings_response,
    spec_quote_response,
};

verus! {

/// The inventory items of a holdings answer, where they form an array.
pub open spec fn holdings_items(response: Json) -> Option<Seq<Json>> {
    array_at(
        opt_get(
            opt_get(opt_get(response.spec_get("account"@), "brokerPortfolio"@), "inventory"@),
            "items"@,
        ),
    )
}

/// The holdings are refused exactly where the answer has no list of items;
/// else they hold one entry for each item, none lost or repeated, ordered by
/// ISIN (an ISIN that is not a string counts as empty), and the count is the
/// number of items.
pub proof fn holdings_list_every_item_ordered_by_isin(input: BrokerInput, response: Json)
    ensures
        holdings_items(response) is None <==> spec_holdings_response(input, response) is Err,
        holdings_items(response) matches Some(items) ==> {
            let sorted = sort_keyed(holding_entries(items));
            &&& spec_holdings_response(input, response) == Ok::<JsonView, Seq<char>>(
                JsonView::Object(
                    ids_head(input) + seq![
                        ("count"@, jnum(items.len() as int)),
                        ("items"@, JsonView::Array(keyed_values(sorted))),
                    ],
                ),
            )
            &&& keys_ordered(sorted)
            &&& sorted.to_multiset() == holding_entries(items).to_multiset()
            &&& keyed_values(sorted).len() == items.len()
        },
{
    if let Some(items) = holdings_items(response) {
        keyed_sort_orders_by_key_and_keeps_every_entry(holding_entries(items));
        lemma_sort_keyed_len(holding_entries(items));
    }
}

/// The crypto price alert groups of an answer's portfolio.
pub open spec fn crypto_alert_groups(portfolio: Json) -> Option<Json> {
    opt_get(opt_get(portfolio.spec_get("crypto"@), "priceAlerts"@), "itemsPerInstrument"@)
}

/// Without a portfolio the crypto alerts are refused; without alert groups
/// (or with null) there are none; with a list of groups every alert of every
/// group is listed once, ordered by ticker and then by alert id, and counted;
/// any other value is refused.
pub proof fn crypto_alerts_list_every_alert_ordered_by_ticker_and_id(input: BrokerInput, response: Json)
    ensures
        opt_get(response.spec_get("account"@), "brokerPortfolio"@) is None ==> spec_crypto_price_alerts_response(
            input,
            response,
        ) is Err,
        opt_get(response.spec_get("account"@), "brokerPortfolio"@) matches Some(p) ==> match crypto_alert_groups(p) {
            None | Some(Json::Null) => spec_crypto_price_alerts_response(input, response) == Ok::<
                JsonView,
                Seq<char>,
            >(
                JsonView::Object(
                    ids_head(input) + seq![
                        ("count"@, jnum(0)),
                        ("items"@, JsonView::Array(Seq::empty())),
                    ],
                ),
            ),
            Some(Json::Array(groups)) => {
                let sorted = sort_keyed(crypto_alert_entries(groups@));
                &&& spec_crypto_price_alerts_response(input, response) == Ok::<JsonView, Seq<char>>(
                    JsonView::Object(
                        ids_head(input) + seq![
                            ("count"@, jnum(keyed_values(sorted).len() as int)),
                            ("items"@, JsonView::Array(keyed_values(sorted))),
                        ],
                    ),
                )
                &&& keys_ordered(sorted)
                &&& sorted.to_multiset() == crypto_alert_entries(groups@).to_multiset()
            },
            Some(_) => spec_crypto_price_alerts_response(input, response) is Err,
        },
{
    if let Some(p) = opt_get(response.spec_get("account"@), "brokerPortfolio"@) {
        if let Some(Json::Array(groups)) = crypto_alert_groups(p) {
            keyed_sort_orders_by_key_and_keeps_every_entry(crypto_alert_entries(groups@));
            lemma_sort_keyed_len(crypto_alert_entries(groups@));
        }
    }
}

/// A quote is refused exactly where the answer has no security, or its ISIN
/// is missing, blank, or, trimmed, not the one asked for; else it reports the
/// asked ISIN and every performance of the quote tick once, ordered by
/// timeframe.
pub proof fn quotes_are_of_the_asked_security_with_ordered_performances(
    input: BrokerInput,
    requested_isin: Seq<char>,
    response: Json,
)
    ensures
        spec_quote_response(input, requested_isin, response) is Err <==> match opt_get(
            opt_get(response.spec_get("account"@), "brokerPortfolio"@),
            "security"@,
        ) {
            None => true,
            Some(security) => reported_isin(security) != Some(requested_isin),
        },
        opt_get(opt_get(response.spec_get("account"@), "brokerPortfolio"@), "security"@) matches Some(
            security,
        ) ==> {
            let performances = match array_at(opt_get(security.spec_get("quoteTick"@), "performancesByTimeframe"@)) {
                Some(p) => p,
                None => Seq::empty(),
            };
            let sorted = sort_keyed(performance_entries(performances));
            &&& keys_ordered(sorted)
            &&& sorted.to_multiset() == performance_entries(performances).to_multiset()
            &&& spec_quote_response(input, requested_isin, response) matches Ok(v) ==> (v
                matches JsonView::Object(ms) && ms[3] == ("isin"@, JsonView::Str(requested_isin))
                && ms[ms.len() - 1] == ("quote_performances"@, JsonView::Array(keyed_values(sorted))))
        },
{
    if let Some(security) = opt_get(opt_get(response.spec_get("account"@), "brokerPortfolio"@), "security"@) {
        let performances = match array_at(opt_get(security.spec_get("quoteTick"@), "performancesByTimeframe"@)) {
            Some(p) => p,
            None => Seq::empty(),
        };
        keyed_sort_orders_by_key_and_keeps_every_entry(performance_entries(performances));
    }
}

} // verus!
