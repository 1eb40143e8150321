//! Reshaping broker listings (holdings, watchlist, search, quote, news,
//! overview, cash) into the command line's result objects.
use vstd::prelude::*;

use crate::error_report::{plain_errors};
use crate::broker_queries::BrokerInput;
use crate::broker_variables::{jnum, jstr, unsigned_json};
use crate::error_report::ErrorReport;
use crate::json::{opt_get, opt_ref, ArrayBuilder, Json, JsonView, ObjectBuilder};
use crate::chart::text_report;
use crate::text::{push_str_chars, str_eq, string_of, trim, trim_chars};
use crate::keyed::{
    keyed_values, lemma_sort_keyed_len, single_key, sort_keyed, KeyedList, SortKey,
};
use crate::projections::{
    field_or_null, get_or_null, json_result, spec_timestamp_value, timestamp_value_or_null,
};

verus! {

// ---------------------------------------------------------------------------
// Helpers
// ---------------------------------------------------------------------------

/// A member of a value that may be absent, or null.
pub open spec fn opt_field(o: Option<Json>, key: Seq<char>) -> JsonView {
    match opt_get(o, key) {
        Some(v) => v@,
        None => JsonView::Null,
    }
}

pub fn opt_field_or_null(o: Option<&Json>, key: &str) -> (res: Json)
    ensures
        res@ == opt_field(opt_ref(o), key@),
{
    match o {
        Some(v) => field_or_null(v, key),
        None => Json::Null,
    }
}

/// The text of a member, or the empty text where it is missing or not a
/// string: what a listing is sorted by.
pub open spec fn text_or_empty(item: Json, key: Seq<char>) -> Seq<char> {
    match item.spec_get(key) {
        Some(Json::Str(s)) => s@,
        _ => Seq::empty(),
    }
}

pub fn member_text_or_empty<'a>(item: &'a Json, key: &str) -> (res: &'a str)
    ensures
        res@ == text_or_empty(*item, key@),
{
    match item.get(key) {
        Some(v) => match v.as_str() {
            Some(s) => s,
            None => {
                proof {
                    reveal_strlit("");
                }
                ""
            },
        },
        None => {
            proof {
                reveal_strlit("");
            }
            ""
        },
    }
}

/// The items of the array at a path of an object, if it is an array.
pub open spec fn array_at(o: Option<Json>) -> Option<Seq<Json>> {
    match o {
        Some(Json::Array(items)) => Some(items@),
        _ => None,
    }
}

/// The ids members every listing starts with.
pub open spec fn ids_head(input: BrokerInput) -> Seq<(Seq<char>, JsonView)> {
    seq![
        ("account_id"@, jstr(input.spec_account_id())),
        ("portfolio_id"@, jstr(input.spec_portfolio_id())),
    ]
}

pub fn ids_builder(input: &BrokerInput) -> (res: ObjectBuilder)
    ensures
        res.members() == ids_head(*input),
{
    let mut out = ObjectBuilder::new();
    out.add("account_id", Json::Str(input.account_id().to_owned()));
    out.add("portfolio_id", Json::Str(input.portfolio_id().to_owned()));
    proof {
        assert(out.members() =~= ids_head(*input));
    }
    out
}

pub proof fn lemma_sort_step(s: Seq<(SortKey, JsonView)>, i: int)
    requires
        0 <= i < s.len(),
    ensures
        sort_keyed(s.take(i + 1)) == crate::keyed::insert_keyed(sort_keyed(s.take(i)), s[i]),
{
    assert(s.take(i + 1).drop_last() =~= s.take(i));
    assert(s.take(i + 1).last() == s[i]);
}

// ---------------------------------------------------------------------------
// Holdings
// ---------------------------------------------------------------------------

/// One holding as the command reports it.
pub open spec fn spec_holding(item: Json) -> JsonView {
    let position = opt_get(item.spec_get("inventory"@), "position"@);
    let quote = item.spec_get("quoteTick"@);
    let performance = item.spec_get("portfolioIsinPerformance"@);
    JsonView::Object(
        seq![
            ("isin"@, get_or_null(item, "isin"@)),
            ("name"@, get_or_null(item, "name"@)),
            ("security_type"@, get_or_null(item, "type"@)),
            ("quantity"@, opt_field(position, "filled"@)),
            ("pending_quantity"@, opt_field(position, "pending"@)),
            ("blocked_quantity"@, opt_field(position, "blocked"@)),
            ("fifo_price"@, opt_field(position, "fifoPrice"@)),
            ("valuation"@, opt_field(performance, "valuation"@)),
            ("valuation_currency"@, opt_field(performance, "currency"@)),
            ("quote_mid_price"@, opt_field(quote, "midPrice"@)),
            ("quote_currency"@, opt_field(quote, "currency"@)),
            ("quote_timestamp_utc"@, spec_timestamp_value(opt_get(quote, "timestampUtc"@))),
            ("quote_is_outdated"@, opt_field(quote, "isOutdated"@)),
        ],
    )
}

fn map_holding(item: &Json) -> (res: Json)
    ensures
        res@ == spec_holding(*item),
{
    let position = match item.get("inventory") {
        Some(inv) => inv.get("position"),
        None => None,
    };
    let quote = item.get("quoteTick");
    let performance = item.get("portfolioIsinPerformance");
    let quote_time = match quote {
        Some(q) => q.get("timestampUtc"),
        None => None,
    };
    let mut out = ObjectBuilder::new();
    out.add("isin", field_or_null(item, "isin"));
    out.add("name", field_or_null(item, "name"));
    out.add("security_type", field_or_null(item, "type"));
    out.add("quantity", opt_field_or_null(position, "filled"));
    out.add("pending_quantity", opt_field_or_null(position, "pending"));
    out.add("blocked_quantity", opt_field_or_null(position, "blocked"));
    out.add("fifo_price", opt_field_or_null(position, "fifoPrice"));
    out.add("valuation", opt_field_or_null(performance, "valuation"));
    out.add("valuation_currency", opt_field_or_null(performance, "currency"));
    out.add("quote_mid_price", opt_field_or_null(quote, "midPrice"));
    out.add("quote_currency", opt_field_or_null(quote, "currency"));
    out.add("quote_timestamp_utc", timestamp_value_or_null(quote_time));
    out.add("quote_is_outdated", opt_field_or_null(quote, "isOutdated"));
    proof {
        assert(out.members() =~= spec_holding(*item)->Object_0);
    }
    out.build()
}

/// A holding with the ISIN it is listed by.
pub open spec fn holding_entries(items: Seq<Json>) -> Seq<(SortKey, JsonView)> {
    items.map_values(|it: Json| (single_key(text_or_empty(it, "isin"@)), spec_holding(it)))
}

/// The holdings as the command reports them: each mapped, ordered by ISIN.
pub open spec fn spec_holdings_response(input: BrokerInput, response: Json) -> Result<
    JsonView,
    Seq<char>,
> {
    match array_at(
        opt_get(
            opt_get(opt_get(response.spec_get("account"@), "brokerPortfolio"@), "inventory"@),
            "items"@,
        ),
    ) {
        None => Err("Broker response invalid: missing account.brokerPortfolio.inventory.items"@),
        Some(items) => Ok(
            JsonView::Object(
                ids_head(input) + seq![
                    ("count"@, jnum(items.len() as int)),
                    ("items"@, JsonView::Array(keyed_values(sort_keyed(holding_entries(items))))),
                ],
            ),
        ),
    }
}

pub fn project_broker_holdings_response(input: &BrokerInput, response: &Json) -> (res: Result<
    Json,
    ErrorReport,
>)
    ensures
        plain_errors(res),
        json_result(res) == spec_holdings_response(*input, *response),
{
    let raw = match response.get("account") {
        Some(a) => match a.get("brokerPortfolio") {
            Some(p) => match p.get("inventory") {
                Some(inv) => inv.get("items"),
                None => None,
            },
            None => None,
        },
        None => None,
    };
    let items: &Vec<Json> = match raw {
        Some(v) => match v.as_array() {
            Some(items) => items,
            None => {
                return Err(
                    ErrorReport::msg(
                        "Broker response invalid: missing account.brokerPortfolio.inventory.items",
                    ),
                );
            },
        },
        None => {
            return Err(
                ErrorReport::msg("Broker response invalid: missing account.brokerPortfolio.inventory.items"),
            );
        },
    };
    let ghost entries = holding_entries(items@);
    let mut list = KeyedList::new();
    let mut i: usize = 0;
    proof {
        assert(entries.take(0) =~= Seq::<(SortKey, JsonView)>::empty());
    }
    while i < items.len()
        invariant
            i <= items.len(),
            entries == holding_entries(items@),
            list.well_formed(),
            list.entries() == sort_keyed(entries.take(i as int)),
        decreases items.len() - i,
    {
        let key = member_text_or_empty(&items[i], "isin");
        proof {
            reveal_strlit("");
            lemma_sort_step(entries, i as int);
            assert(entries[i as int] == ((key@, ""@), spec_holding(items@[i as int])));
        }
        list.insert(key, "", map_holding(&items[i]));
        i = i + 1;
    }
    proof {
        assert(entries.take(items.len() as int) =~= entries);
        lemma_sort_keyed_len(entries);
    }
    let count = list.len();
    let mut out = ids_builder(input);
    out.add("count", unsigned_json(count as u64));
    out.add("items", list.into_array());
    proof {
        assert(out.members() =~= spec_holdings_response(*input, *response)->Ok_0->Object_0);
    }
    Ok(out.build())
}

// ---------------------------------------------------------------------------
// Watchlist and search
// ---------------------------------------------------------------------------

/// A listed security with its latest quote, as the command reports it.
pub open spec fn spec_listed_security(item: Json) -> JsonView {
    let quote = item.spec_get("quoteTick"@);
    JsonView::Object(
        seq![
            ("isin"@, get_or_null(item, "isin"@)),
            ("name"@, get_or_null(item, "name"@)),
            ("security_type"@, get_or_null(item, "type"@)),
            ("quote_mid_price"@, opt_field(quote, "midPrice"@)),
            ("quote_currency"@, opt_field(quote, "currency"@)),
            ("quote_timestamp_utc"@, spec_timestamp_value(opt_get(quote, "timestampUtc"@))),
            ("quote_is_outdated"@, opt_field(quote, "isOutdated"@)),
        ],
    )
}

fn map_listed_security(item: &Json) -> (res: Json)
    ensures
        res@ == spec_listed_security(*item),
{
    let quote = item.get("quoteTick");
    let quote_time = match quote {
        Some(q) => q.get("timestampUtc"),
        None => None,
    };
    let mut out = ObjectBuilder::new();
    out.add("isin", field_or_null(item, "isin"));
    out.add("name", field_or_null(item, "name"));
    out.add("security_type", field_or_null(item, "type"));
    out.add("quote_mid_price", opt_field_or_null(quote, "midPrice"));
    out.add("quote_currency", opt_field_or_null(quote, "currency"));
    out.add("quote_timestamp_utc", timestamp_value_or_null(quote_time));
    out.add("quote_is_outdated", opt_field_or_null(quote, "isOutdated"));
    proof {
        assert(out.members() =~= spec_listed_security(*item)->Object_0);
    }
    out.build()
}

/// A listed security with the ISIN it is listed by.
pub open spec fn listed_entries(items: Seq<Json>) -> Seq<(SortKey, JsonView)> {
    items.map_values(|it: Json| (single_key(text_or_empty(it, "isin"@)), spec_listed_security(it)))
}

/// Listed securities, mapped and ordered by ISIN.
fn sorted_listed_securities(items: &Vec<Json>) -> (res: (Json, usize))
    ensures
        res.0@ == JsonView::Array(keyed_values(sort_keyed(listed_entries(items@)))),
        res.1 == items.len(),
{
    let ghost entries = listed_entries(items@);
    let mut list = KeyedList::new();
    let mut i: usize = 0;
    proof {
        assert(entries.take(0) =~= Seq::<(SortKey, JsonView)>::empty());
    }
    while i < items.len()
        invariant
            i <= items.len(),
            entries == listed_entries(items@),
            list.well_formed(),
            list.entries() == sort_keyed(entries.take(i as int)),
        decreases items.len() - i,
    {
        let key = member_text_or_empty(&items[i], "isin");
        proof {
            reveal_strlit("");
            lemma_sort_step(entries, i as int);
            assert(entries[i as int] == ((key@, ""@), spec_listed_security(items@[i as int])));
        }
        list.insert(key, "", map_listed_security(&items[i]));
        i = i + 1;
    }
    proof {
        assert(entries.take(items.len() as int) =~= entries);
        lemma_sort_keyed_len(entries);
    }
    let count = list.len();
    (list.into_array(), count)
}

/// The items of the array at `account.brokerPortfolio.<field>.items`.
pub open spec fn portfolio_items(response: Json, field: Seq<char>) -> Option<Seq<Json>> {
    array_at(
        opt_get(opt_get(opt_get(response.spec_get("account"@), "brokerPortfolio"@), field), "items"@),
    )
}

fn find_portfolio_items<'a>(response: &'a Json, field: &str) -> (res: Option<&'a Vec<Json>>)
    ensures
        match res {
            Some(items) => portfolio_items(*response, field@) == Some(items@),
            None => portfolio_items(*response, field@) is None,
        },
{
    let raw = match response.get("account") {
        Some(a) => match a.get("brokerPortfolio") {
            Some(p) => match p.get(field) {
                Some(f) => f.get("items"),
                None => None,
            },
            None => None,
        },
        None => None,
    };
    match raw {
        Some(v) => v.as_array(),
        None => None,
    }
}

/// The watchlist as the command reports it: each security mapped, ordered
/// by ISIN.
pub open spec fn spec_watchlist_response(input: BrokerInput, response: Json) -> Result<
    JsonView,
    Seq<char>,
> {
    match portfolio_items(response, "watchlist"@) {
        None => Err("Broker response invalid: missing account.brokerPortfolio.watchlist.items"@),
        Some(items) => Ok(
            JsonView::Object(
                ids_head(input) + seq![
                    ("count"@, jnum(items.len() as int)),
                    ("items"@, JsonView::Array(keyed_values(sort_keyed(listed_entries(items))))),
                ],
            ),
        ),
    }
}

pub fn project_broker_watchlist_response(input: &BrokerInput, response: &Json) -> (res: Result<
    Json,
    ErrorReport,
>)
    ensures
        plain_errors(res),
        json_result(res) == spec_watchlist_response(*input, *response),
{
    let items = match find_portfolio_items(response, "watchlist") {
        Some(items) => items,
        None => {
            return Err(
                ErrorReport::msg("Broker response invalid: missing account.brokerPortfolio.watchlist.items"),
            );
        },
    };
    let (listed, count) = sorted_listed_securities(items);
    let mut out = ids_builder(input);
    out.add("count", unsigned_json(count as u64));
    out.add("items", listed);
    proof {
        assert(out.members() =~= spec_watchlist_response(*input, *response)->Ok_0->Object_0);
    }
    Ok(out.build())
}

/// A search's results as the command reports them: the query, and each
/// security mapped, ordered by ISIN.
pub open spec fn spec_search_response(input: BrokerInput, search_term: Seq<char>, response: Json) -> Result<
    JsonView,
    Seq<char>,
> {
    match portfolio_items(response, "simpleSecuritySearch"@) {
        None => Err(
            "Broker response invalid: missing account.brokerPortfolio.simpleSecuritySearch.items"@,
        ),
        Some(items) => Ok(
            JsonView::Object(
                ids_head(input) + seq![
                    ("query"@, jstr(search_term)),
                    ("count"@, jnum(items.len() as int)),
                    ("items"@, JsonView::Array(keyed_values(sort_keyed(listed_entries(items))))),
                ],
            ),
        ),
    }
}

pub fn project_broker_search_response(input: &BrokerInput, search_term: &str, response: &Json) -> (res:
    Result<Json, ErrorReport>)
    ensures
        plain_errors(res),
        json_result(res) == spec_search_response(*input, search_term@, *response),
{
    let items = match find_portfolio_items(response, "simpleSecuritySearch") {
        Some(items) => items,
        None => {
            return Err(
                ErrorReport::msg(
                    "Broker response invalid: missing account.brokerPortfolio.simpleSecuritySearch.items",
                ),
            );
        },
    };
    let (listed, count) = sorted_listed_securities(items);
    let mut out = ids_builder(input);
    out.add("query", Json::Str(search_term.to_owned()));
    out.add("count", unsigned_json(count as u64));
    out.add("items", listed);
    proof {
        assert(out.members() =~= spec_search_response(*input, search_term@, *response)->Ok_0->Object_0);
    }
    Ok(out.build())
}

// ---------------------------------------------------------------------------
// Quote
// ---------------------------------------------------------------------------

/// The performance over one timeframe, as the command reports it.
pub open spec fn spec_performance(entry: Json) -> JsonView {
    JsonView::Object(
        seq![
            ("timeframe"@, get_or_null(entry, "timeframe"@)),
            ("performance"@, get_or_null(entry, "performance"@)),
            ("simple_absolute_return"@, get_or_null(entry, "simpleAbsoluteReturn"@)),
        ],
    )
}

fn map_performance(entry: &Json) -> (res: Json)
    ensures
        res@ == spec_performance(*entry),
{
    let mut out = ObjectBuilder::new();
    out.add("timeframe", field_or_null(entry, "timeframe"));
    out.add("performance", field_or_null(entry, "performance"));
    out.add("simple_absolute_return", field_or_null(entry, "simpleAbsoluteReturn"));
    proof {
        assert(out.members() =~= spec_performance(*entry)->Object_0);
    }
    out.build()
}

/// Performances with the timeframe they are ordered by.
pub open spec fn performance_entries(items: Seq<Json>) -> Seq<(SortKey, JsonView)> {
    items.map_values(|e: Json| (single_key(text_or_empty(e, "timeframe"@)), spec_performance(e)))
}

fn sorted_performances(items: &Vec<Json>) -> (res: Json)
    ensures
        res@ == JsonView::Array(keyed_values(sort_keyed(performance_entries(items@)))),
{
    let ghost entries = performance_entries(items@);
    let mut list = KeyedList::new();
    let mut i: usize = 0;
    proof {
        assert(entries.take(0) =~= Seq::<(SortKey, JsonView)>::empty());
    }
    while i < items.len()
        invariant
            i <= items.len(),
            entries == performance_entries(items@),
            list.well_formed(),
            list.entries() == sort_keyed(entries.take(i as int)),
        decreases items.len() - i,
    {
        let key = member_text_or_empty(&items[i], "timeframe");
        proof {
            reveal_strlit("");
            lemma_sort_step(entries, i as int);
            assert(entries[i as int] == ((key@, ""@), spec_performance(items@[i as int])));
        }
        list.insert(key, "", map_performance(&items[i]));
        i = i + 1;
    }
    proof {
        assert(entries.take(items.len() as int) =~= entries);
    }
    list.into_array()
}

/// The trimmed ISIN a security reports, where it reports a non-blank one.
pub open spec fn reported_isin(security: Json) -> Option<Seq<char>> {
    match security.spec_get("isin"@) {
        Some(Json::Str(s)) => if trim(s@).len() > 0 {
            Some(trim(s@))
        } else {
            None
        },
        _ => None,
    }
}

/// The error for a security that is not the one asked for.
pub open spec fn isin_mismatch_message(requested: Seq<char>, actual: Seq<char>) -> Seq<char> {
    "Broker response invalid: requested isin '"@ + requested
        + "' does not match returned security isin '"@ + actual + "'"@
}

/// A quote as the command reports it: the security must be the one asked
/// for; its performances are ordered by timeframe.
pub open spec fn spec_quote_response(input: BrokerInput, requested_isin: Seq<char>, response: Json) -> Result<
    JsonView,
    Seq<char>,
> {
    match opt_get(opt_get(response.spec_get("account"@), "brokerPortfolio"@), "security"@) {
        None => Err("Broker response invalid: missing account.brokerPortfolio.security"@),
        Some(security) => match reported_isin(security) {
            None => Err("Broker response invalid: missing account.brokerPortfolio.security.isin"@),
            Some(actual) => if actual != requested_isin {
                Err(isin_mismatch_message(requested_isin, actual))
            } else {
                let quote = security.spec_get("quoteTick"@);
                let performances = match array_at(opt_get(quote, "performancesByTimeframe"@)) {
                    Some(p) => p,
                    None => Seq::empty(),
                };
                Ok(
                    JsonView::Object(
                        ids_head(input) + seq![
                            ("security_id"@, get_or_null(security, "id"@)),
                            ("isin"@, jstr(actual)),
                            ("name"@, get_or_null(security, "name"@)),
                            ("security_type"@, get_or_null(security, "type"@)),
                            ("quote_tick_id"@, opt_field(quote, "id"@)),
                            ("quote_mid_price"@, opt_field(quote, "midPrice"@)),
                            ("quote_bid_price"@, opt_field(quote, "bidPrice"@)),
                            ("quote_ask_price"@, opt_field(quote, "askPrice"@)),
                            ("quote_currency"@, opt_field(quote, "currency"@)),
                            (
                                "quote_timestamp_utc"@,
                                spec_timestamp_value(opt_get(quote, "timestampUtc"@)),
                            ),
                            ("quote_is_outdated"@, opt_field(quote, "isOutdated"@)),
                            (
                                "quote_performance_date"@,
                                opt_field(opt_get(quote, "performanceDate"@), "date"@),
                            ),
                            (
                                "quote_performances"@,
                                JsonView::Array(keyed_values(sort_keyed(performance_entries(performances)))),
                            ),
                        ],
                    ),
                )
            },
        },
    }
}

pub fn project_broker_quote_response(input: &BrokerInput, requested_isin: &str, response: &Json) -> (res:
    Result<Json, ErrorReport>)
    ensures
        plain_errors(res),
        json_result(res) == spec_quote_response(*input, requested_isin@, *response),
{
    let security = match response.get("account") {
        Some(a) => match a.get("brokerPortfolio") {
            Some(p) => p.get("security"),
            None => None,
        },
        None => None,
    };
    let security = match security {
        Some(s) => s,
        None => {
            return Err(ErrorReport::msg("Broker response invalid: missing account.brokerPortfolio.security"));
        },
    };
    let raw_isin: &str = match security.get("isin") {
        Some(v) => match v.as_str() {
            Some(i) => i,
            None => {
                return Err(
                    ErrorReport::msg("Broker response invalid: missing account.brokerPortfolio.security.isin"),
                );
            },
        },
        None => {
            return Err(
                ErrorReport::msg("Broker response invalid: missing account.brokerPortfolio.security.isin"),
            );
        },
    };
    let actual_chars = trim_chars(raw_isin);
    if actual_chars.len() == 0 {
        return Err(
            ErrorReport::msg("Broker response invalid: missing account.brokerPortfolio.security.isin"),
        );
    }
    let actual = string_of(&actual_chars);
    if !str_eq(actual.as_str(), requested_isin) {
        let mut text: Vec<char> = Vec::new();
        push_str_chars(&mut text, "Broker response invalid: requested isin '");
        push_str_chars(&mut text, requested_isin);
        push_str_chars(&mut text, "' does not match returned security isin '");
        push_str_chars(&mut text, actual.as_str());
        push_str_chars(&mut text, "'");
        proof {
            assert(text@ =~= isin_mismatch_message(requested_isin@, actual@));
        }
        return Err(text_report(&text));
    }
    let quote = security.get("quoteTick");
    let empty: Vec<Json> = Vec::new();
    let performances: &Vec<Json> = match quote {
        Some(q) => match q.get("performancesByTimeframe") {
            Some(p) => match p.as_array() {
                Some(items) => items,
                None => &empty,
            },
            None => &empty,
        },
        None => &empty,
    };
    proof {
        assert(empty@ =~= Seq::<Json>::empty());
    }
    let quote_time = match quote {
        Some(q) => q.get("timestampUtc"),
        None => None,
    };
    let performance_date = match quote {
        Some(q) => q.get("performanceDate"),
        None => None,
    };
    let mut out = ids_builder(input);
    out.add("security_id", field_or_null(security, "id"));
    out.add("isin", Json::Str(actual));
    out.add("name", field_or_null(security, "name"));
    out.add("security_type", field_or_null(security, "type"));
    out.add("quote_tick_id", opt_field_or_null(quote, "id"));
    out.add("quote_mid_price", opt_field_or_null(quote, "midPrice"));
    out.add("quote_bid_price", opt_field_or_null(quote, "bidPrice"));
    out.add("quote_ask_price", opt_field_or_null(quote, "askPrice"));
    out.add("quote_currency", opt_field_or_null(quote, "currency"));
    out.add("quote_timestamp_utc", timestamp_value_or_null(quote_time));
    out.add("quote_is_outdated", opt_field_or_null(quote, "isOutdated"));
    out.add("quote_performance_date", opt_field_or_null(performance_date, "date"));
    out.add("quote_performances", sorted_performances(performances));
    proof {
        assert(out.members() =~= spec_quote_response(*input, requested_isin@, *response)->Ok_0->Object_0);
    }
    Ok(out.build())
}

// ---------------------------------------------------------------------------
// News
// ---------------------------------------------------------------------------

/// A news source as the command reports it.
pub open spec fn spec_news_source(source: Json) -> JsonView {
    JsonView::Object(
        seq![
            ("id"@, get_or_null(source, "id"@)),
            ("headline"@, get_or_null(source, "headline"@)),
            ("source_name"@, get_or_null(source, "sourceName"@)),
            ("publication_time_utc"@, spec_timestamp_value(source.spec_get("publicationTime"@))),
        ],
    )
}

fn map_news_source(source: &Json) -> (res: Json)
    ensures
        res@ == spec_news_source(*source),
{
    let mut out = ObjectBuilder::new();
    out.add("id", field_or_null(source, "id"));
    out.add("headline", field_or_null(source, "headline"));
    out.add("source_name", field_or_null(source, "sourceName"));
    out.add("publication_time_utc", timestamp_value_or_null(source.get("publicationTime")));
    proof {
        assert(out.members() =~= spec_news_source(*source)->Object_0);
    }
    out.build()
}

/// News sources with the id they are ordered by.
pub open spec fn news_entries(items: Seq<Json>) -> Seq<(SortKey, JsonView)> {
    items.map_values(|e: Json| (single_key(text_or_empty(e, "id"@)), spec_news_source(e)))
}

fn sorted_news_sources(items: &Vec<Json>) -> (res: Json)
    ensures
        res@ == JsonView::Array(keyed_values(sort_keyed(news_entries(items@)))),
{
    let ghost entries = news_entries(items@);
    let mut list = KeyedList::new();
    let mut i: usize = 0;
    proof {
        assert(entries.take(0) =~= Seq::<(SortKey, JsonView)>::empty());
    }
    while i < items.len()
        invariant
            i <= items.len(),
            entries == news_entries(items@),
            list.well_formed(),
            list.entries() == sort_keyed(entries.take(i as int)),
        decreases items.len() - i,
    {
        let key = member_text_or_empty(&items[i], "id");
        proof {
            reveal_strlit("");
            lemma_sort_step(entries, i as int);
            assert(entries[i as int] == ((key@, ""@), spec_news_source(items@[i as int])));
        }
        list.insert(key, "", map_news_source(&items[i]));
        i = i + 1;
    }
    proof {
        assert(entries.take(items.len() as int) =~= entries);
    }
    list.into_array()
}

/// A security's news as the command reports it: the summaries, and the
/// sources ordered by id.
pub open spec fn spec_security_news_response(isin: Seq<char>, locale: Seq<char>, response: Json) -> Result<
    JsonView,
    Seq<char>,
> {
    match response.spec_get("securityNews"@) {
        None => Err("Broker response invalid: missing securityNews"@),
        Some(news) => {
            let sources = match array_at(news.spec_get("sources"@)) {
                Some(s) => s,
                None => Seq::empty(),
            };
            Ok(
                JsonView::Object(
                    seq![
                        ("isin"@, jstr(isin)),
                        ("locale"@, jstr(locale)),
                        (
                            "summary"@,
                            JsonView::Object(
                                seq![
                                    ("short"@, get_or_null(news, "shortNewsSummary"@)),
                                    ("long"@, get_or_null(news, "longNewsSummary"@)),
                                    ("last_updated"@, spec_timestamp_value(news.spec_get("lastUpdated"@))),
                                ],
                            ),
                        ),
                        ("sources"@, JsonView::Array(keyed_values(sort_keyed(news_entries(sources))))),
                    ],
                ),
            )
        },
    }
}

pub fn project_broker_security_news_response(isin: &str, locale: &str, response: &Json) -> (res: Result<
    Json,
    ErrorReport,
>)
    ensures
        plain_errors(res),
        json_result(res) == spec_security_news_response(isin@, locale@, *response),
{
    let news = match response.get("securityNews") {
        Some(n) => n,
        None => {
            return Err(ErrorReport::msg("Broker response invalid: missing securityNews"));
        },
    };
    let empty: Vec<Json> = Vec::new();
    let sources: &Vec<Json> = match news.get("sources") {
        Some(v) => match v.as_array() {
            Some(items) => items,
            None => &empty,
        },
        None => &empty,
    };
    proof {
        assert(empty@ =~= Seq::<Json>::empty());
    }
    let mut summary = ObjectBuilder::new();
    summary.add("short", field_or_null(news, "shortNewsSummary"));
    summary.add("long", field_or_null(news, "longNewsSummary"));
    summary.add("last_updated", timestamp_value_or_null(news.get("lastUpdated")));
    proof {
        assert(summary.members() =~= seq![
            ("short"@, get_or_null(*news, "shortNewsSummary"@)),
            ("long"@, get_or_null(*news, "longNewsSummary"@)),
            ("last_updated"@, spec_timestamp_value(news.spec_get("lastUpdated"@))),
        ]);
    }
    let mut out = ObjectBuilder::new();
    out.add("isin", Json::Str(isin.to_owned()));
    out.add("locale", Json::Str(locale.to_owned()));
    out.add("summary", summary.build());
    out.add("sources", sorted_news_sources(sources));
    proof {
        assert(out.members() =~= spec_security_news_response(isin@, locale@, *response)->Ok_0->Object_0);
    }
    Ok(out.build())
}

// ---------------------------------------------------------------------------
// Overview and cash
// ---------------------------------------------------------------------------

/// The first value that is present.
pub open spec fn or_opt(a: Option<Json>, b: Option<Json>) -> Option<Json> {
    match a {
        Some(v) => Some(v),
        None => b,
    }
}

/// One timeframe's return, as the overview reports it.
pub open spec fn spec_overview_return(item: Json) -> JsonView {
    JsonView::Object(
        seq![
            ("timeframe"@, get_or_null(item, "timeframe"@)),
            ("simpleAbsoluteReturn"@, get_or_null(item, "simpleAbsoluteReturn"@)),
        ],
    )
}

/// The portfolio overview as the command reports it.
pub open spec fn spec_overview_response(input: BrokerInput, response: Json) -> Result<
    JsonView,
    Seq<char>,
> {
    match opt_get(opt_get(response.spec_get("account"@), "brokerPortfolio"@), "valuation"@) {
        None => Err("Broker response invalid: missing account.brokerPortfolio.valuation"@),
        Some(v) => Ok(
            JsonView::Object(
                ids_head(input) + seq![
                    (
                        "valuation"@,
                        JsonView::Object(
                            seq![
                                ("total"@, get_or_null(v, "valuation"@)),
                                ("securities"@, get_or_null(v, "securitiesValuation"@)),
                                ("crypto"@, get_or_null(v, "cryptoValuation"@)),
                            ],
                        ),
                    ),
                    (
                        "timestamps"@,
                        JsonView::Object(
                            seq![
                                (
                                    "valuation_timestamp_utc"@,
                                    spec_timestamp_value(
                                        or_opt(v.spec_get("timestampUtc"@), v.spec_get("timestamp"@)),
                                    ),
                                ),
                                (
                                    "inventory_timestamp_utc"@,
                                    spec_timestamp_value(
                                        or_opt(
                                            v.spec_get("lastInventoryUpdateTimestampUtc"@),
                                            v.spec_get("lastInventoryUpdateTimestamp"@),
                                        ),
                                    ),
                                ),
                            ],
                        ),
                    ),
                    (
                        "performance"@,
                        JsonView::Array(
                            match array_at(v.spec_get("timeWeightedReturnByTimeframe"@)) {
                                Some(items) => items.map_values(|i: Json| spec_overview_return(i)),
                                None => Seq::empty(),
                            },
                        ),
                    ),
                ],
            ),
        ),
    }
}

fn first_present<'a>(a: Option<&'a Json>, b: Option<&'a Json>) -> (res: Option<&'a Json>)
    ensures
        opt_ref(res) == or_opt(opt_ref(a), opt_ref(b)),
{
    match a {
        Some(v) => Some(v),
        None => b,
    }
}

pub fn project_broker_overview_response(input: &BrokerInput, response: &Json) -> (res: Result<
    Json,
    ErrorReport,
>)
    ensures
        plain_errors(res),
        json_result(res) == spec_overview_response(*input, *response),
{
    let valuation = match response.get("account") {
        Some(a) => match a.get("brokerPortfolio") {
            Some(p) => p.get("valuation"),
            None => None,
        },
        None => None,
    };
    let v = match valuation {
        Some(v) => v,
        None => {
            return Err(ErrorReport::msg("Broker response invalid: missing account.brokerPortfolio.valuation"));
        },
    };
    let mut totals = ObjectBuilder::new();
    totals.add("total", field_or_null(v, "valuation"));
    totals.add("securities", field_or_null(v, "securitiesValuation"));
    totals.add("crypto", field_or_null(v, "cryptoValuation"));
    let mut stamps = ObjectBuilder::new();
    stamps.add(
        "valuation_timestamp_utc",
        timestamp_value_or_null(first_present(v.get("timestampUtc"), v.get("timestamp"))),
    );
    stamps.add(
        "inventory_timestamp_utc",
        timestamp_value_or_null(
            first_present(
                v.get("lastInventoryUpdateTimestampUtc"),
                v.get("lastInventoryUpdateTimestamp"),
            ),
        ),
    );
    proof {
        assert(totals.members() =~= seq![
            ("total"@, get_or_null(*v, "valuation"@)),
            ("securities"@, get_or_null(*v, "securitiesValuation"@)),
            ("crypto"@, get_or_null(*v, "cryptoValuation"@)),
        ]);
        assert(stamps.members() =~= seq![
            (
                "valuation_timestamp_utc"@,
                spec_timestamp_value(or_opt(v.spec_get("timestampUtc"@), v.spec_get("timestamp"@))),
            ),
            (
                "inventory_timestamp_utc"@,
                spec_timestamp_value(
                    or_opt(
                        v.spec_get("lastInventoryUpdateTimestampUtc"@),
                        v.spec_get("lastInventoryUpdateTimestamp"@),
                    ),
                ),
            ),
        ]);
    }
    let empty: Vec<Json> = Vec::new();
    let items: &Vec<Json> = match v.get("timeWeightedReturnByTimeframe") {
        Some(t) => match t.as_array() {
            Some(items) => items,
            None => &empty,
        },
        None => &empty,
    };
    proof {
        assert(empty@ =~= Seq::<Json>::empty());
    }
    let mut performance = ArrayBuilder::new();
    let mut i: usize = 0;
    while i < items.len()
        invariant
            i <= items.len(),
            performance.items() == items@.take(i as int).map_values(
                |t: Json| spec_overview_return(t),
            ),
        decreases items.len() - i,
    {
        let mut entry = ObjectBuilder::new();
        entry.add("timeframe", field_or_null(&items[i], "timeframe"));
        entry.add("simpleAbsoluteReturn", field_or_null(&items[i], "simpleAbsoluteReturn"));
        proof {
            assert(entry.members() =~= spec_overview_return(items@[i as int])->Object_0);
        }
        performance.push(entry.build());
        proof {
            assert(items@.take(i + 1).map_values(|t: Json| spec_overview_return(t)) =~= items@.take(
                i as int,
            ).map_values(|t: Json| spec_overview_return(t)).push(spec_overview_return(items@[i as int])));
        }
        i = i + 1;
    }
    proof {
        assert(items@.take(items.len() as int) =~= items@);
    }
    let mut out = ids_builder(input);
    out.add("valuation", totals.build());
    out.add("timestamps", stamps.build());
    out.add("performance", performance.build());
    proof {
        assert(out.members() =~= spec_overview_response(*input, *response)->Ok_0->Object_0);
    }
    Ok(out.build())
}

/// The cash and buying power as the command reports them.
pub open spec fn spec_cash_breakdown_response(input: BrokerInput, response: Json) -> Result<
    JsonView,
    Seq<char>,
> {
    match opt_get(response.spec_get("account"@), "brokerPortfolio"@) {
        None => Err("Broker response invalid: missing account.brokerPortfolio"@),
        Some(portfolio) => {
            let payments = portfolio.spec_get("payments"@);
            let buying = opt_get(payments, "buyingPower"@);
            let derivatives = opt_get(payments, "derivativesBuyingPower"@);
            Ok(
                JsonView::Object(
                    ids_head(input) + seq![
                        ("cash_balance"@, opt_field(buying, "cashBalance"@)),
                        ("buying_power"@, opt_field(buying, "cashAvailableToInvest"@)),
                        (
                            "buying_power_without_credit"@,
                            opt_field(buying, "cashAvailableToInvestWithoutCredit"@),
                        ),
                        ("available_credit_line"@, opt_field(buying, "liveLimit"@)),
                        ("loaned"@, opt_field(buying, "loaned"@)),
                        ("pending_buy_orders_amount"@, opt_field(buying, "pendingBuyOrdersAmount"@)),
                        ("possible_taxes"@, opt_field(buying, "estimatedTaxes"@)),
                        ("derivatives_buying_power"@, opt_field(derivatives, "cashAvailableToInvest"@)),
                        (
                            "available_for_derivatives"@,
                            opt_field(derivatives, "cashAvailableForDerivatives"@),
                        ),
                    ],
                ),
            )
        },
    }
}

pub fn project_broker_cash_breakdown_response(input: &BrokerInput, response: &Json) -> (res: Result<
    Json,
    ErrorReport,
>)
    ensures
        plain_errors(res),
        json_result(res) == spec_cash_breakdown_response(*input, *response),
{
    let portfolio = match response.get("account") {
        Some(a) => a.get("brokerPortfolio"),
        None => None,
    };
    let portfolio = match portfolio {
        Some(p) => p,
        None => {
            return Err(ErrorReport::msg("Broker response invalid: missing account.brokerPortfolio"));
        },
    };
    let payments = portfolio.get("payments");
    let buying = match payments {
        Some(p) => p.get("buyingPower"),
        None => None,
    };
    let derivatives = match payments {
        Some(p) => p.get("derivativesBuyingPower"),
        None => None,
    };
    let mut out = ids_builder(input);
    out.add("cash_balance", opt_field_or_null(buying, "cashBalance"));
    out.add("buying_power", opt_field_or_null(buying, "cashAvailableToInvest"));
    out.add("buying_power_without_credit", opt_field_or_null(buying, "cashAvailableToInvestWithoutCredit"));
    out.add("available_credit_line", opt_field_or_null(buying, "liveLimit"));
    out.add("loaned", opt_field_or_null(buying, "loaned"));
    out.add("pending_buy_orders_amount", opt_field_or_null(buying, "pendingBuyOrdersAmount"));
    out.add("possible_taxes", opt_field_or_null(buying, "estimatedTaxes"));
    out.add("derivatives_buying_power", opt_field_or_null(derivatives, "cashAvailableToInvest"));
    out.add("available_for_derivatives", opt_field_or_null(derivatives, "cashAvailableForDerivatives"));
    proof {
        assert(out.members() =~= spec_cash_breakdown_response(*input, *response)->Ok_0->Object_0);
    }
    Ok(out.build())
}

} // verus!
