//! Reshaping price alert listings and acknowledgements into the command
//! line's result objects.
use vstd::prelude::*;

use crate::error_report::{plain_errors};
use crate::broker_queries::BrokerInput;
use crate::broker_variables::{jnum, jstr, unsigned_json};
use crate::error_report::ErrorReport;
use crate::json::{opt_get, opt_ref, Json, JsonView, ObjectBuilder};
use crate::keyed::{keyed_values, lemma_sort_keyed_len, single_key, sort_keyed, KeyedList, SortKey};
use crate::listings::{array_at, ids_head, member_text_or_empty, opt_field, opt_field_or_null, text_or_empty};
use crate::projections::{field_or_null, get_or_null, json_result, spec_timestamp_value, timestamp_value_or_null};

verus! {

proof fn lemma_sort_push(s: Seq<(SortKey, JsonView)>, x: (SortKey, JsonView))
    ensures
        sort_keyed(s.push(x)) == crate::keyed::insert_keyed(sort_keyed(s), x),
{
    assert(s.push(x).drop_last() =~= s);
}

fn ids_object(input: &BrokerInput) -> (res: ObjectBuilder)
    ensures
        res.members() == ids_head(*input),
{
    let mut out = ObjectBuilder::new();
    out.add("account_id", Json::Str(input.account_id().to_owned()));
    out.add("portfolio_id", Json::Str(input.portfolio_id().to_owned()));
    proof {
        assert(out.members() =~= ids_head(*input));
    }
    out
}

// ---------------------------------------------------------------------------
// Price alerts of securities
// ---------------------------------------------------------------------------

/// One security price alert as the command reports it, with whether more
/// alerts can be added for its instrument.
pub open spec fn spec_price_alert(alert: Json, group: Json) -> JsonView {
    let security = alert.spec_get("security"@);
    JsonView::Object(
        seq![
            ("alert_id"@, get_or_null(alert, "id"@)),
            ("direction"@, get_or_null(alert, "direction"@)),
            ("is_active"@, get_or_null(alert, "isActive"@)),
            ("price"@, get_or_null(alert, "price"@)),
            ("triggered_timestamp_utc"@, opt_field(alert.spec_get("triggeredTimestamp"@), "time"@)),
            ("isin"@, opt_field(security, "isin"@)),
            ("name"@, opt_field(security, "name"@)),
            ("security_type"@, opt_field(security, "type"@)),
            ("can_add_new_for_instrument"@, get_or_null(group, "canAddNew"@)),
        ],
    )
}

/// The text of a member of a value that may be absent, or the empty text.
pub open spec fn opt_text_or_empty(o: Option<Json>, key: Seq<char>) -> Seq<char> {
    match o {
        Some(v) => text_or_empty(v, key),
        None => Seq::empty(),
    }
}

/// A security price alert with its key: the ISIN, then the alert id.
pub open spec fn price_alert_entry(alert: Json, group: Json) -> (SortKey, JsonView) {
    (
        (opt_text_or_empty(alert.spec_get("security"@), "isin"@), text_or_empty(alert, "id"@)),
        spec_price_alert(alert, group),
    )
}

/// The alerts of one instrument.
pub open spec fn price_alert_group_entries(group: Json) -> Seq<(SortKey, JsonView)> {
    match array_at(group.spec_get("items"@)) {
        Some(alerts) => alerts.map_values(|a: Json| price_alert_entry(a, group)),
        None => Seq::empty(),
    }
}

/// The alerts of all instruments, in the order they come.
pub open spec fn price_alert_entries(groups: Seq<Json>) -> Seq<(SortKey, JsonView)>
    decreases groups.len(),
{
    if groups.len() == 0 {
        Seq::empty()
    } else {
        price_alert_entries(groups.drop_last()) + price_alert_group_entries(groups.last())
    }
}

fn map_price_alert(alert: &Json, group: &Json) -> (res: Json)
    ensures
        res@ == spec_price_alert(*alert, *group),
{
    let security = alert.get("security");
    let mut out = ObjectBuilder::new();
    out.add("alert_id", field_or_null(alert, "id"));
    out.add("direction", field_or_null(alert, "direction"));
    out.add("is_active", field_or_null(alert, "isActive"));
    out.add("price", field_or_null(alert, "price"));
    out.add("triggered_timestamp_utc", opt_field_or_null(alert.get("triggeredTimestamp"), "time"));
    out.add("isin", opt_field_or_null(security, "isin"));
    out.add("name", opt_field_or_null(security, "name"));
    out.add("security_type", opt_field_or_null(security, "type"));
    out.add("can_add_new_for_instrument", field_or_null(group, "canAddNew"));
    proof {
        assert(out.members() =~= spec_price_alert(*alert, *group)->Object_0);
    }
    out.build()
}

fn opt_member_text_or_empty<'a>(o: Option<&'a Json>, key: &str) -> (res: &'a str)
    ensures
        res@ == opt_text_or_empty(opt_ref(o), key@),
{
    match o {
        Some(v) => member_text_or_empty(v, key),
        None => {
            proof {
                reveal_strlit("");
            }
            ""
        },
    }
}

/// The security price alerts as the command reports them: the alerts of
/// every instrument, ordered by ISIN and then by alert id.
pub open spec fn spec_price_alerts_response(input: BrokerInput, active_only: bool, response: Json) -> Result<
    JsonView,
    Seq<char>,
> {
    match array_at(
        opt_get(
            opt_get(opt_get(response.spec_get("account"@), "brokerPortfolio"@), "priceAlerts"@),
            "itemsPerInstrument"@,
        ),
    ) {
        None => Err(
            "Broker response invalid: missing account.brokerPortfolio.priceAlerts.itemsPerInstrument"@,
        ),
        Some(groups) => Ok(
            JsonView::Object(
                ids_head(input) + seq![
                    ("active_only"@, JsonView::Bool(active_only)),
                    ("count"@, jnum(price_alert_entries(groups).len() as int)),
                    ("items"@, JsonView::Array(keyed_values(sort_keyed(price_alert_entries(groups))))),
                ],
            ),
        ),
    }
}

pub fn project_broker_price_alerts_response(
    input: &BrokerInput,
    active_only: bool,
    response: &Json,
) -> (res: Result<Json, ErrorReport>)
    ensures
        plain_errors(res),
        json_result(res) == spec_price_alerts_response(*input, active_only, *response),
{
    let raw = match response.get("account") {
        Some(a) => match a.get("brokerPortfolio") {
            Some(p) => match p.get("priceAlerts") {
                Some(pa) => pa.get("itemsPerInstrument"),
                None => None,
            },
            None => None,
        },
        None => None,
    };
    let groups: &Vec<Json> = match raw {
        Some(v) => match v.as_array() {
            Some(g) => g,
            None => {
                return Err(
                    ErrorReport::msg(
                        "Broker response invalid: missing account.brokerPortfolio.priceAlerts.itemsPerInstrument",
                    ),
                );
            },
        },
        None => {
            return Err(
                ErrorReport::msg(
                    "Broker response invalid: missing account.brokerPortfolio.priceAlerts.itemsPerInstrument",
                ),
            );
        },
    };
    let mut list = KeyedList::new();
    let mut i: usize = 0;
    proof {
        assert(groups@.take(0) =~= Seq::<Json>::empty());
        assert(price_alert_entries(groups@.take(0)) =~= Seq::<(SortKey, JsonView)>::empty());
    }
    while i < groups.len()
        invariant
            i <= groups.len(),
            list.well_formed(),
            list.entries() == sort_keyed(price_alert_entries(groups@.take(i as int))),
        decreases groups.len() - i,
    {
        let group = &groups[i];
        let ghost before = price_alert_entries(groups@.take(i as int));
        let ghost ge = price_alert_group_entries(*group);
        proof {
            assert(groups@.take(i + 1).drop_last() =~= groups@.take(i as int));
            assert(price_alert_entries(groups@.take(i + 1)) == before + ge);
        }
        match group.get("items") {
            Some(v) => match v.as_array() {
                Some(alerts) => {
                    let mut j: usize = 0;
                    proof {
                        assert(ge.take(0) =~= Seq::<(SortKey, JsonView)>::empty());
                        assert(before + ge.take(0) =~= before);
                    }
                    while j < alerts.len()
                        invariant
                            j <= alerts.len(),
                            list.well_formed(),
                            ge == alerts@.map_values(|a: Json| price_alert_entry(a, *group)),
                            list.entries() == sort_keyed(before + ge.take(j as int)),
                        decreases alerts.len() - j,
                    {
                        let alert = &alerts[j];
                        let first = opt_member_text_or_empty(alert.get("security"), "isin");
                        let second = member_text_or_empty(alert, "id");
                        proof {
                            assert(before + ge.take(j + 1) =~= (before + ge.take(j as int)).push(ge[j as int]));
                            lemma_sort_push(before + ge.take(j as int), ge[j as int]);
                            assert(ge[j as int] == ((first@, second@), spec_price_alert(*alert, *group)));
                        }
                        list.insert(first, second, map_price_alert(alert, group));
                        j = j + 1;
                    }
                    proof {
                        assert(ge.take(alerts.len() as int) =~= ge);
                    }
                },
                None => {
                    proof {
                        assert(before + ge =~= before);
                    }
                },
            },
            None => {
                proof {
                    assert(before + ge =~= before);
                }
            },
        }
        i = i + 1;
    }
    proof {
        assert(groups@.take(groups.len() as int) =~= groups@);
        lemma_sort_keyed_len(price_alert_entries(groups@));
    }
    let count = list.len();
    let mut out = ids_object(input);
    out.add("active_only", Json::Bool(active_only));
    out.add("count", unsigned_json(count as u64));
    out.add("items", list.into_array());
    proof {
        assert(out.members() =~= spec_price_alerts_response(*input, active_only, *response)->Ok_0->Object_0);
    }
    Ok(out.build())
}

// ---------------------------------------------------------------------------
// Price alerts of crypto coins
// ---------------------------------------------------------------------------

/// One crypto price alert as the command reports it.
pub open spec fn spec_crypto_price_alert(alert: Json, group: Json) -> JsonView {
    let coin = alert.spec_get("coin"@);
    JsonView::Object(
        seq![
            ("alert_id"@, get_or_null(alert, "id"@)),
            ("direction"@, get_or_null(alert, "direction"@)),
            ("is_active"@, get_or_null(alert, "isActive"@)),
            ("price"@, get_or_null(alert, "price"@)),
            ("triggered_timestamp_utc"@, opt_field(alert.spec_get("triggeredTimestamp"@), "time"@)),
            ("ticker"@, opt_field(coin, "ticker"@)),
            ("name"@, opt_field(coin, "name"@)),
            ("can_add_new_for_instrument"@, get_or_null(group, "canAddNew"@)),
        ],
    )
}

/// A crypto price alert with its key: the ticker, then the alert id.
pub open spec fn crypto_alert_entry(alert: Json, group: Json) -> (SortKey, JsonView) {
    (
        (opt_text_or_empty(alert.spec_get("coin"@), "ticker"@), text_or_empty(alert, "id"@)),
        spec_crypto_price_alert(alert, group),
    )
}

pub open spec fn crypto_alert_group_entries(group: Json) -> Seq<(SortKey, JsonView)> {
    match array_at(group.spec_get("items"@)) {
        Some(alerts) => alerts.map_values(|a: Json| crypto_alert_entry(a, group)),
        None => Seq::empty(),
    }
}

pub open spec fn crypto_alert_entries(groups: Seq<Json>) -> Seq<(SortKey, JsonView)>
    decreases groups.len(),
{
    if groups.len() == 0 {
        Seq::empty()
    } else {
        crypto_alert_entries(groups.drop_last()) + crypto_alert_group_entries(groups.last())
    }
}

fn map_crypto_price_alert(alert: &Json, group: &Json) -> (res: Json)
    ensures
        res@ == spec_crypto_price_alert(*alert, *group),
{
    let coin = alert.get("coin");
    let mut out = ObjectBuilder::new();
    out.add("alert_id", field_or_null(alert, "id"));
    out.add("direction", field_or_null(alert, "direction"));
    out.add("is_active", field_or_null(alert, "isActive"));
    out.add("price", field_or_null(alert, "price"));
    out.add("triggered_timestamp_utc", opt_field_or_null(alert.get("triggeredTimestamp"), "time"));
    out.add("ticker", opt_field_or_null(coin, "ticker"));
    out.add("name", opt_field_or_null(coin, "name"));
    out.add("can_add_new_for_instrument", field_or_null(group, "canAddNew"));
    proof {
        assert(out.members() =~= spec_crypto_price_alert(*alert, *group)->Object_0);
    }
    out.build()
}

/// The crypto price alerts as the command reports them: none where the
/// portfolio has no crypto alerts at all, else the alerts of every coin,
/// ordered by ticker and then by alert id.
pub open spec fn spec_crypto_price_alerts_response(input: BrokerInput, response: Json) -> Result<
    JsonView,
    Seq<char>,
> {
    match opt_get(response.spec_get("account"@), "brokerPortfolio"@) {
        None => Err("Broker response invalid: missing account.brokerPortfolio"@),
        Some(portfolio) => match opt_get(
            opt_get(portfolio.spec_get("crypto"@), "priceAlerts"@),
            "itemsPerInstrument"@,
        ) {
            None | Some(Json::Null) => Ok(
                JsonView::Object(
                    ids_head(input) + seq![
                        ("count"@, jnum(0)),
                        ("items"@, JsonView::Array(Seq::empty())),
                    ],
                ),
            ),
            Some(Json::Array(groups)) => Ok(
                JsonView::Object(
                    ids_head(input) + seq![
                        ("count"@, jnum(crypto_alert_entries(groups@).len() as int)),
                        (
                            "items"@,
                            JsonView::Array(keyed_values(sort_keyed(crypto_alert_entries(groups@)))),
                        ),
                    ],
                ),
            ),
            Some(_) => Err(
                "Broker response invalid: missing account.brokerPortfolio.crypto.priceAlerts.itemsPerInstrument"@,
            ),
        },
    }
}

fn sorted_crypto_alerts(groups: &Vec<Json>) -> (res: (Json, usize))
    ensures
        res.0@ == JsonView::Array(keyed_values(sort_keyed(crypto_alert_entries(groups@)))),
        res.1 == crypto_alert_entries(groups@).len(),
{
    let mut list = KeyedList::new();
    let mut i: usize = 0;
    proof {
        assert(groups@.take(0) =~= Seq::<Json>::empty());
        assert(crypto_alert_entries(groups@.take(0)) =~= Seq::<(SortKey, JsonView)>::empty());
    }
    while i < groups.len()
        invariant
            i <= groups.len(),
            list.well_formed(),
            list.entries() == sort_keyed(crypto_alert_entries(groups@.take(i as int))),
        decreases groups.len() - i,
    {
        let group = &groups[i];
        let ghost before = crypto_alert_entries(groups@.take(i as int));
        let ghost ge = crypto_alert_group_entries(*group);
        proof {
            assert(groups@.take(i + 1).drop_last() =~= groups@.take(i as int));
            assert(crypto_alert_entries(groups@.take(i + 1)) == before + ge);
        }
        match group.get("items") {
            Some(v) => match v.as_array() {
                Some(alerts) => {
                    let mut j: usize = 0;
                    proof {
                        assert(ge.take(0) =~= Seq::<(SortKey, JsonView)>::empty());
                        assert(before + ge.take(0) =~= before);
                    }
                    while j < alerts.len()
                        invariant
                            j <= alerts.len(),
                            list.well_formed(),
                            ge == alerts@.map_values(|a: Json| crypto_alert_entry(a, *group)),
                            list.entries() == sort_keyed(before + ge.take(j as int)),
                        decreases alerts.len() - j,
                    {
                        let alert = &alerts[j];
                        let first = opt_member_text_or_empty(alert.get("coin"), "ticker");
                        let second = member_text_or_empty(alert, "id");
                        proof {
                            assert(before + ge.take(j + 1) =~= (before + ge.take(j as int)).push(ge[j as int]));
                            lemma_sort_push(before + ge.take(j as int), ge[j as int]);
                            assert(ge[j as int] == ((first@, second@), spec_crypto_price_alert(*alert, *group)));
                        }
                        list.insert(first, second, map_crypto_price_alert(alert, group));
                        j = j + 1;
                    }
                    proof {
                        assert(ge.take(alerts.len() as int) =~= ge);
                    }
                },
                None => {
                    proof {
                        assert(before + ge =~= before);
                    }
                },
            },
            None => {
                proof {
                    assert(before + ge =~= before);
                }
            },
        }
        i = i + 1;
    }
    proof {
        assert(groups@.take(groups.len() as int) =~= groups@);
        lemma_sort_keyed_len(crypto_alert_entries(groups@));
    }
    let count = list.len();
    (list.into_array(), count)
}

pub fn project_broker_crypto_price_alerts_response(input: &BrokerInput, response: &Json) -> (res:
    Result<Json, ErrorReport>)
    ensures
        plain_errors(res),
        json_result(res) == spec_crypto_price_alerts_response(*input, *response),
{
    let portfolio = match response.get("account") {
        Some(a) => a.get("brokerPortfolio"),
        None => None,
    };
    let portfolio = match portfolio {
        Some(p) => p,
        None => {
            return Err(ErrorReport::msg("Broker response invalid: missing account.brokerPortfolio"));
        },
    };
    let raw = match portfolio.get("crypto") {
        Some(c) => match c.get("priceAlerts") {
            Some(pa) => pa.get("itemsPerInstrument"),
            None => None,
        },
        None => None,
    };
    let mut out = ids_object(input);
    match raw {
        None | Some(Json::Null) => {
            out.add("count", unsigned_json(0));
            out.add("items", Json::Array(Vec::new()));
            proof {
                assert(crate::json::items_view(Seq::<Json>::empty()) =~= Seq::<JsonView>::empty());
                assert(out.members() =~= spec_crypto_price_alerts_response(*input, *response)->Ok_0->Object_0);
            }
            Ok(out.build())
        },
        Some(Json::Array(groups)) => {
            let (items, count) = sorted_crypto_alerts(groups);
            out.add("count", unsigned_json(count as u64));
            out.add("items", items);
            proof {
                assert(out.members() =~= spec_crypto_price_alerts_response(*input, *response)->Ok_0->Object_0);
            }
            Ok(out.build())
        },
        Some(_) => Err(
            ErrorReport::msg(
                "Broker response invalid: missing account.brokerPortfolio.crypto.priceAlerts.itemsPerInstrument",
            ),
        ),
    }
}

// ---------------------------------------------------------------------------
// Acknowledgements of added alerts
// ---------------------------------------------------------------------------

/// An alert of a security just added to, as the command reports it; the
/// requested ISIN stands in where the alert names no security.
pub open spec fn spec_added_price_alert(alert: Json, isin: Seq<char>) -> JsonView {
    let security = alert.spec_get("security"@);
    JsonView::Object(
        seq![
            ("alert_id"@, get_or_null(alert, "id"@)),
            ("direction"@, get_or_null(alert, "direction"@)),
            ("is_active"@, get_or_null(alert, "isActive"@)),
            ("price"@, get_or_null(alert, "price"@)),
            ("triggered_timestamp_utc"@, spec_timestamp_value(alert.spec_get("triggeredTimestamp"@))),
            (
                "isin"@,
                match opt_get(security, "isin"@) {
                    Some(v) => v@,
                    None => jstr(isin),
                },
            ),
            ("name"@, opt_field(security, "name"@)),
            ("security_type"@, opt_field(security, "type"@)),
        ],
    )
}

pub open spec fn added_price_alert_entries(alerts: Seq<Json>, isin: Seq<char>) -> Seq<(SortKey, JsonView)> {
    alerts.map_values(|a: Json| (single_key(text_or_empty(a, "id"@)), spec_added_price_alert(a, isin)))
}

fn map_added_price_alert(alert: &Json, isin: &str) -> (res: Json)
    ensures
        res@ == spec_added_price_alert(*alert, isin@),
{
    let security = alert.get("security");
    let isin_value = match security {
        Some(s) => match s.get("isin") {
            Some(v) => v.duplicate(),
            None => Json::Str(isin.to_owned()),
        },
        None => Json::Str(isin.to_owned()),
    };
    let mut out = ObjectBuilder::new();
    out.add("alert_id", field_or_null(alert, "id"));
    out.add("direction", field_or_null(alert, "direction"));
    out.add("is_active", field_or_null(alert, "isActive"));
    out.add("price", field_or_null(alert, "price"));
    out.add("triggered_timestamp_utc", timestamp_value_or_null(alert.get("triggeredTimestamp")));
    out.add("isin", isin_value);
    out.add("name", opt_field_or_null(security, "name"));
    out.add("security_type", opt_field_or_null(security, "type"));
    proof {
        assert(out.members() =~= spec_added_price_alert(*alert, isin@)->Object_0);
    }
    out.build()
}

/// The acknowledgement of an added security price alert: the alerts of the
/// security, ordered by alert id.
pub open spec fn spec_add_price_alert_response(
    input: BrokerInput,
    isin: Seq<char>,
    requested_price: Seq<char>,
    response: Json,
) -> Result<JsonView, Seq<char>> {
    match opt_get(opt_get(response.spec_get("addPriceAlert"@), "security"@), "priceAlerts"@) {
        None => Err("Broker response invalid: missing addPriceAlert.security.priceAlerts"@),
        Some(alerts_node) => {
            let alerts = match array_at(alerts_node.spec_get("items"@)) {
                Some(a) => a,
                None => Seq::empty(),
            };
            Ok(
                JsonView::Object(
                    ids_head(input) + seq![
                        ("kind"@, jstr("security"@)),
                        ("isin"@, jstr(isin)),
                        ("requested_price"@, jstr(requested_price)),
                        ("can_add_new_for_instrument"@, get_or_null(alerts_node, "canAddNew"@)),
                        ("count"@, jnum(alerts.len() as int)),
                        (
                            "items"@,
                            JsonView::Array(keyed_values(sort_keyed(added_price_alert_entries(alerts, isin)))),
                        ),
                    ],
                ),
            )
        },
    }
}

pub fn project_broker_add_price_alert_response(
    input: &BrokerInput,
    isin: &str,
    requested_price: &str,
    response: &Json,
) -> (res: Result<Json, ErrorReport>)
    ensures
        plain_errors(res),
        json_result(res) == spec_add_price_alert_response(*input, isin@, requested_price@, *response),
{
    let node = match response.get("addPriceAlert") {
        Some(a) => match a.get("security") {
            Some(s) => s.get("priceAlerts"),
            None => None,
        },
        None => None,
    };
    let node = match node {
        Some(n) => n,
        None => {
            return Err(ErrorReport::msg("Broker response invalid: missing addPriceAlert.security.priceAlerts"));
        },
    };
    let empty: Vec<Json> = Vec::new();
    let alerts: &Vec<Json> = match node.get("items") {
        Some(v) => match v.as_array() {
            Some(a) => a,
            None => &empty,
        },
        None => &empty,
    };
    proof {
        assert(empty@ =~= Seq::<Json>::empty());
    }
    let ghost entries = added_price_alert_entries(alerts@, isin@);
    let mut list = KeyedList::new();
    let mut j: usize = 0;
    proof {
        assert(entries.take(0) =~= Seq::<(SortKey, JsonView)>::empty());
    }
    while j < alerts.len()
        invariant
            j <= alerts.len(),
            entries == added_price_alert_entries(alerts@, isin@),
            list.well_formed(),
            list.entries() == sort_keyed(entries.take(j as int)),
        decreases alerts.len() - j,
    {
        let key = member_text_or_empty(&alerts[j], "id");
        proof {
            reveal_strlit("");
            assert(entries.take(j + 1) =~= entries.take(j as int).push(entries[j as int]));
            lemma_sort_push(entries.take(j as int), entries[j as int]);
            assert(entries[j as int] == ((key@, ""@), spec_added_price_alert(alerts@[j as int], isin@)));
        }
        list.insert(key, "", map_added_price_alert(&alerts[j], isin));
        j = j + 1;
    }
    proof {
        assert(entries.take(alerts.len() as int) =~= entries);
        lemma_sort_keyed_len(entries);
    }
    let count = list.len();
    let mut out = ids_object(input);
    out.add("kind", Json::Str("security".to_owned()));
    out.add("isin", Json::Str(isin.to_owned()));
    out.add("requested_price", Json::Str(requested_price.to_owned()));
    out.add("can_add_new_for_instrument", field_or_null(node, "canAddNew"));
    out.add("count", unsigned_json(count as u64));
    out.add("items", list.into_array());
    proof {
        assert(out.members() =~= spec_add_price_alert_response(
            *input,
            isin@,
            requested_price@,
            *response,
        )->Ok_0->Object_0);
    }
    Ok(out.build())
}

/// An alert of a coin just added to, as the command reports it; the
/// requested ticker, and the coin's name, stand in where the alert names no
/// coin.
pub open spec fn spec_added_crypto_alert(alert: Json, ticker: Seq<char>, coin: Json) -> JsonView {
    let alert_coin = alert.spec_get("coin"@);
    JsonView::Object(
        seq![
            ("alert_id"@, get_or_null(alert, "id"@)),
            ("direction"@, get_or_null(alert, "direction"@)),
            ("is_active"@, get_or_null(alert, "isActive"@)),
            ("price"@, get_or_null(alert, "price"@)),
            ("triggered_timestamp_utc"@, spec_timestamp_value(alert.spec_get("triggeredTimestamp"@))),
            (
                "ticker"@,
                match opt_get(alert_coin, "ticker"@) {
                    Some(v) => v@,
                    None => jstr(ticker),
                },
            ),
            (
                "name"@,
                match opt_get(alert_coin, "name"@) {
                    Some(v) => v@,
                    None => get_or_null(coin, "name"@),
                },
            ),
        ],
    )
}

pub open spec fn added_crypto_alert_entries(alerts: Seq<Json>, ticker: Seq<char>, coin: Json) -> Seq<
    (SortKey, JsonView),
> {
    alerts.map_values(
        |a: Json| (single_key(text_or_empty(a, "id"@)), spec_added_crypto_alert(a, ticker, coin)),
    )
}

fn map_added_crypto_alert(alert: &Json, ticker: &str, coin: &Json) -> (res: Json)
    ensures
        res@ == spec_added_crypto_alert(*alert, ticker@, *coin),
{
    let alert_coin = alert.get("coin");
    let ticker_value = match alert_coin {
        Some(c) => match c.get("ticker") {
            Some(v) => v.duplicate(),
            None => Json::Str(ticker.to_owned()),
        },
        None => Json::Str(ticker.to_owned()),
    };
    let name_value = match alert_coin {
        Some(c) => match c.get("name") {
            Some(v) => v.duplicate(),
            None => field_or_null(coin, "name"),
        },
        None => field_or_null(coin, "name"),
    };
    let mut out = ObjectBuilder::new();
    out.add("alert_id", field_or_null(alert, "id"));
    out.add("direction", field_or_null(alert, "direction"));
    out.add("is_active", field_or_null(alert, "isActive"));
    out.add("price", field_or_null(alert, "price"));
    out.add("triggered_timestamp_utc", timestamp_value_or_null(alert.get("triggeredTimestamp")));
    out.add("ticker", ticker_value);
    out.add("name", name_value);
    proof {
        assert(out.members() =~= spec_added_crypto_alert(*alert, ticker@, *coin)->Object_0);
    }
    out.build()
}

/// The acknowledgement of an added crypto price alert: the alerts of the
/// coin, ordered by alert id.
pub open spec fn spec_add_crypto_price_alert_response(
    input: BrokerInput,
    ticker: Seq<char>,
    requested_price: Seq<char>,
    response: Json,
) -> Result<JsonView, Seq<char>> {
    match opt_get(opt_get(response.spec_get("addCryptoPriceAlert"@), "crypto"@), "coin"@) {
        None => Err("Broker response invalid: missing addCryptoPriceAlert.crypto.coin"@),
        Some(coin) => match coin.spec_get("priceAlerts"@) {
            None => Err("Broker response invalid: missing addCryptoPriceAlert.crypto.coin.priceAlerts"@),
            Some(alerts_node) => {
                let alerts = match array_at(alerts_node.spec_get("items"@)) {
                    Some(a) => a,
                    None => Seq::empty(),
                };
                Ok(
                    JsonView::Object(
                        ids_head(input) + seq![
                            ("kind"@, jstr("crypto"@)),
                            ("ticker"@, jstr(ticker)),
                            ("requested_price"@, jstr(requested_price)),
                            ("can_add_new_for_instrument"@, get_or_null(alerts_node, "canAddNew"@)),
                            ("count"@, jnum(alerts.len() as int)),
                            (
                                "items"@,
                                JsonView::Array(
                                    keyed_values(sort_keyed(added_crypto_alert_entries(alerts, ticker, coin))),
                                ),
                            ),
                        ],
                    ),
                )
            },
        },
    }
}

pub fn project_broker_add_crypto_price_alert_response(
    input: &BrokerInput,
    ticker: &str,
    requested_price: &str,
    response: &Json,
) -> (res: Result<Json, ErrorReport>)
    ensures
        plain_errors(res),
        json_result(res) == spec_add_crypto_price_alert_response(
            *input,
            ticker@,
            requested_price@,
            *response,
        ),
{
    let coin = match response.get("addCryptoPriceAlert") {
        Some(a) => match a.get("crypto") {
            Some(c) => c.get("coin"),
            None => None,
        },
        None => None,
    };
    let coin = match coin {
        Some(c) => c,
        None => {
            return Err(ErrorReport::msg("Broker response invalid: missing addCryptoPriceAlert.crypto.coin"));
        },
    };
    let node = match coin.get("priceAlerts") {
        Some(n) => n,
        None => {
            return Err(
                ErrorReport::msg("Broker response invalid: missing addCryptoPriceAlert.crypto.coin.priceAlerts"),
            );
        },
    };
    let empty: Vec<Json> = Vec::new();
    let alerts: &Vec<Json> = match node.get("items") {
        Some(v) => match v.as_array() {
            Some(a) => a,
            None => &empty,
        },
        None => &empty,
    };
    proof {
        assert(empty@ =~= Seq::<Json>::empty());
    }
    let ghost entries = added_crypto_alert_entries(alerts@, ticker@, *coin);
    let mut list = KeyedList::new();
    let mut j: usize = 0;
    proof {
        assert(entries.take(0) =~= Seq::<(SortKey, JsonView)>::empty());
    }
    while j < alerts.len()
        invariant
            j <= alerts.len(),
            entries == added_crypto_alert_entries(alerts@, ticker@, *coin),
            list.well_formed(),
            list.entries() == sort_keyed(entries.take(j as int)),
        decreases alerts.len() - j,
    {
        let key = member_text_or_empty(&alerts[j], "id");
        proof {
            reveal_strlit("");
            assert(entries.take(j + 1) =~= entries.take(j as int).push(entries[j as int]));
            lemma_sort_push(entries.take(j as int), entries[j as int]);
            assert(entries[j as int] == ((key@, ""@), spec_added_crypto_alert(alerts@[j as int], ticker@, *coin)));
        }
        list.insert(key, "", map_added_crypto_alert(&alerts[j], ticker, coin));
        j = j + 1;
    }
    proof {
        assert(entries.take(alerts.len() as int) =~= entries);
        lemma_sort_keyed_len(entries);
    }
    let count = list.len();
    let mut out = ids_object(input);
    out.add("kind", Json::Str("crypto".to_owned()));
    out.add("ticker", Json::Str(ticker.to_owned()));
    out.add("requested_price", Json::Str(requested_price.to_owned()));
    out.add("can_add_new_for_instrument", field_or_null(node, "canAddNew"));
    out.add("count", unsigned_json(count as u64));
    out.add("items", list.into_array());
    proof {
        assert(out.members() =~= spec_add_crypto_price_alert_response(
            *input,
            ticker@,
            requested_price@,
            *response,
        )->Ok_0->Object_0);
    }
    Ok(out.build())
}

} // verus!
