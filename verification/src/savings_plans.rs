//! The portfolio's savings plans: the securities' plans and the crypto coins'
//! plans, each ordered by its identifier.
use vstd::prelude::*;

use crate::error_report::{plain_errors};
use crate::broker_queries::BrokerInput;
use crate::broker_variables::{jnum, jstr};
use crate::error_report::ErrorReport;
use crate::json::{items_view, opt_get, opt_ref, ArrayBuilder, Json, JsonView, ObjectBuilder};
use crate::keyed::{
    insert_keyed, keyed_values, lemma_items_view_concat, lemma_items_view_index, lemma_sort_keyed_len,
    single_key, sort_keyed, KeyedList, SortKey,
};
use crate::listings::{
    array_at, ids_builder, ids_head, member_text_or_empty, opt_field, opt_field_or_null, text_or_empty,
};
use crate::projections::{field_or_null, get_or_null, json_result};

verus! {

/// The savings plan of a security, where it has one that is not null.
pub open spec fn plan_of(item: Json) -> Option<Json> {
    match opt_get(item.spec_get("inventory"@), "savingsPlan"@) {
        Some(Json::Null) => None,
        other => other,
    }
}

/// A security's savings plan as the command reports it.
pub open spec fn spec_plan_item(item: Json, plan: Json) -> JsonView {
    let next = plan.spec_get("nextExecutionDate"@);
    JsonView::Object(
        seq![
            ("kind"@, jstr("security"@)),
            ("isin"@, get_or_null(item, "isin"@)),
            ("name"@, get_or_null(item, "name"@)),
            ("security_type"@, get_or_null(item, "type"@)),
            ("amount"@, get_or_null(plan, "amount"@)),
            ("frequency"@, get_or_null(plan, "frequency"@)),
            ("day_of_month"@, get_or_null(plan, "dayOfTheMonth"@)),
            ("dynamization_rate"@, get_or_null(plan, "dynamizationRate"@)),
            ("payment_method"@, get_or_null(plan, "paymentMethod"@)),
            ("next_execution_date"@, opt_field(next, "date"@)),
            ("next_execution_epoch_day"@, opt_field(next, "epochDay"@)),
        ],
    )
}

/// The securities that have a plan, each with its ISIN, in listing order.
pub open spec fn plan_entries(items: Seq<Json>) -> Seq<(SortKey, JsonView)>
    decreases items.len(),
{
    if items.len() == 0 {
        Seq::empty()
    } else {
        let prev = plan_entries(items.drop_last());
        match plan_of(items.last()) {
            Some(plan) => prev.push(
                (single_key(text_or_empty(items.last(), "isin"@)), spec_plan_item(items.last(), plan)),
            ),
            None => prev,
        }
    }
}

/// The coins of the portfolio; none where the answer lists none.
pub open spec fn coins_of(portfolio: Json) -> Seq<Json> {
    match array_at(opt_get(portfolio.spec_get("crypto"@), "coins"@)) {
        Some(coins) => coins,
        None => Seq::empty(),
    }
}

/// The amount a coin's plan saves, or null.
pub open spec fn coin_amount(coin: Json) -> JsonView {
    get_or_null(coin, "savingsPlanAmount"@)
}

/// A coin's savings plan as the command reports it.
pub open spec fn spec_coin_item(coin: Json) -> JsonView {
    JsonView::Object(
        seq![
            ("kind"@, jstr("crypto"@)),
            ("ticker"@, get_or_null(coin, "ticker"@)),
            ("name"@, get_or_null(coin, "name"@)),
            ("amount"@, coin_amount(coin)),
        ],
    )
}

/// The coins whose plan is active, each with its ticker, in listing order.
/// The `i`th coin's plan is active where `active` holds `true` at `i`.
pub open spec fn coin_entries(coins: Seq<Json>, active: Seq<bool>) -> Seq<(SortKey, JsonView)>
    decreases coins.len(),
{
    if coins.len() == 0 {
        Seq::empty()
    } else {
        let prev = coin_entries(coins.drop_last(), active);
        let i = coins.len() - 1;
        if i < active.len() && active[i] {
            prev.push((single_key(text_or_empty(coins.last(), "ticker"@)), spec_coin_item(coins.last())))
        } else {
            prev
        }
    }
}

/// The portfolio of an answer.
pub open spec fn portfolio_of(response: Json) -> Option<Json> {
    opt_get(response.spec_get("account"@), "brokerPortfolio"@)
}

/// The amounts of the coins' plans, in listing order; none where the answer
/// has no portfolio.
pub open spec fn spec_crypto_amounts(response: Json) -> Seq<JsonView> {
    match portfolio_of(response) {
        Some(p) => coins_of(p).map_values(|c: Json| coin_amount(c)),
        None => Seq::empty(),
    }
}

/// The savings plans as the command reports them: the securities' plans by
/// ISIN, then the active coin plans by ticker.
pub open spec fn spec_savings_plans_response(input: BrokerInput, response: Json, active: Seq<bool>) -> Result<
    JsonView,
    Seq<char>,
> {
    match portfolio_of(response) {
        None => Err("Broker response invalid: missing account.brokerPortfolio"@),
        Some(p) => match array_at(opt_get(p.spec_get("inventory"@), "items"@)) {
            None => Err("Broker response invalid: missing account.brokerPortfolio.inventory.items"@),
            Some(items) => {
                let securities = keyed_values(sort_keyed(plan_entries(items)));
                let crypto = keyed_values(sort_keyed(coin_entries(coins_of(p), active)));
                Ok(
                    JsonView::Object(
                        ids_head(input) + seq![
                            ("total_savings_plan_amount"@, get_or_null(p, "totalSavingsPlanAmount"@)),
                            ("count"@, jnum((securities.len() + crypto.len()) as int)),
                            ("non_crypto_count"@, jnum(securities.len() as int)),
                            ("crypto_count"@, jnum(crypto.len() as int)),
                            ("items"@, JsonView::Array(securities + crypto)),
                        ],
                    ),
                )
            },
        },
    }
}

fn portfolio<'a>(response: &'a Json) -> (res: Option<&'a Json>)
    ensures
        opt_ref(res) == portfolio_of(*response),
{
    match response.get("account") {
        Some(a) => a.get("brokerPortfolio"),
        None => None,
    }
}

fn coins<'a>(portfolio: &'a Json) -> (res: Option<&'a Vec<Json>>)
    ensures
        match res {
            Some(v) => v@ == coins_of(*portfolio),
            None => coins_of(*portfolio) == Seq::<Json>::empty(),
        },
{
    match portfolio.get("crypto") {
        Some(c) => match c.get("coins") {
            Some(list) => list.as_array(),
            None => None,
        },
        None => None,
    }
}

/// The amount of each coin's plan, for the caller to judge which plans are
/// active.
pub fn crypto_savings_plan_amounts(response: &Json) -> (res: Json)
    ensures
        res@ == JsonView::Array(spec_crypto_amounts(*response)),
{
    let mut out = ArrayBuilder::new();
    let p = match portfolio(response) {
        Some(p) => p,
        None => {
            proof {
                assert(out.items() =~= spec_crypto_amounts(*response));
            }
            return out.build();
        },
    };
    let list = match coins(p) {
        Some(v) => v,
        None => {
            proof {
                assert(out.items() =~= spec_crypto_amounts(*response));
            }
            return out.build();
        },
    };
    let ghost amounts = coins_of(*p).map_values(|c: Json| coin_amount(c));
    let mut i: usize = 0;
    while i < list.len()
        invariant
            i <= list.len(),
            list@ == coins_of(*p),
            amounts == coins_of(*p).map_values(|c: Json| coin_amount(c)),
            out.items() == amounts.take(i as int),
        decreases list.len() - i,
    {
        out.push(field_or_null(&list[i], "savingsPlanAmount"));
        proof {
            assert(amounts.take(i + 1) =~= amounts.take(i as int).push(amounts[i as int]));
        }
        i = i + 1;
    }
    proof {
        assert(amounts.take(list.len() as int) =~= amounts);
    }
    out.build()
}

fn map_plan_item(item: &Json, plan: &Json) -> (res: Json)
    ensures
        res@ == spec_plan_item(*item, *plan),
{
    let next = plan.get("nextExecutionDate");
    let mut out = ObjectBuilder::new();
    out.add("kind", Json::Str("security".to_owned()));
    out.add("isin", field_or_null(item, "isin"));
    out.add("name", field_or_null(item, "name"));
    out.add("security_type", field_or_null(item, "type"));
    out.add("amount", field_or_null(plan, "amount"));
    out.add("frequency", field_or_null(plan, "frequency"));
    out.add("day_of_month", field_or_null(plan, "dayOfTheMonth"));
    out.add("dynamization_rate", field_or_null(plan, "dynamizationRate"));
    out.add("payment_method", field_or_null(plan, "paymentMethod"));
    out.add("next_execution_date", opt_field_or_null(next, "date"));
    out.add("next_execution_epoch_day", opt_field_or_null(next, "epochDay"));
    proof {
        reveal_strlit("security");
        assert(out.members() =~= spec_plan_item(*item, *plan)->Object_0);
    }
    out.build()
}

fn map_coin_item(coin: &Json) -> (res: Json)
    ensures
        res@ == spec_coin_item(*coin),
{
    let mut out = ObjectBuilder::new();
    out.add("kind", Json::Str("crypto".to_owned()));
    out.add("ticker", field_or_null(coin, "ticker"));
    out.add("name", field_or_null(coin, "name"));
    out.add("amount", field_or_null(coin, "savingsPlanAmount"));
    proof {
        reveal_strlit("crypto");
        assert(out.members() =~= spec_coin_item(*coin)->Object_0);
    }
    out.build()
}

proof fn lemma_sort_push(prev: Seq<(SortKey, JsonView)>, e: (SortKey, JsonView))
    ensures
        sort_keyed(prev.push(e)) == insert_keyed(sort_keyed(prev), e),
{
    assert(prev.push(e).drop_last() =~= prev);
}

fn plan_list(items: &Vec<Json>) -> (res: KeyedList)
    ensures
        res.well_formed(),
        res.entries() == sort_keyed(plan_entries(items@)),
{
    let mut list = KeyedList::new();
    let mut i: usize = 0;
    proof {
        assert(items@.take(0) =~= Seq::<Json>::empty());
    }
    while i < items.len()
        invariant
            i <= items.len(),
            list.well_formed(),
            list.entries() == sort_keyed(plan_entries(items@.take(i as int))),
        decreases items.len() - i,
    {
        let item = &items[i];
        proof {
            assert(items@.take(i + 1).drop_last() =~= items@.take(i as int));
            assert(items@.take(i + 1).last() == items@[i as int]);
        }
        let plan = match item.get("inventory") {
            Some(inv) => inv.get("savingsPlan"),
            None => None,
        };
        proof {
            assert(opt_ref(plan) == opt_get(item.spec_get("inventory"@), "savingsPlan"@));
        }
        match plan {
            Some(p) => {
                if !p.is_null() {
                    let key = member_text_or_empty(item, "isin");
                    proof {
                        reveal_strlit("");
                        lemma_sort_push(
                            plan_entries(items@.take(i as int)),
                            ((key@, ""@), spec_plan_item(*item, *p)),
                        );
                    }
                    list.insert(key, "", map_plan_item(item, p));
                    proof {
                        assert(plan_of(*item) == Some(*p));
                        reveal_strlit("");
                        assert(""@ =~= Seq::<char>::empty());
                        assert(items@.take(i + 1).last() == *item);
                        assert(plan_entries(items@.take(i + 1)) == plan_entries(items@.take(i as int)).push(
                            ((key@, ""@), spec_plan_item(*item, *p)),
                        ));
                    }
                } else {
                    proof {
                        assert(plan_of(*item) is None);
                        assert(plan_entries(items@.take(i + 1)) == plan_entries(items@.take(i as int)));
                    }
                }
            },
            None => {
                proof {
                    assert(plan_of(*item) is None);
                    assert(plan_entries(items@.take(i + 1)) == plan_entries(items@.take(i as int)));
                }
            },
        }
        i = i + 1;
    }
    proof {
        assert(items@.take(items.len() as int) =~= items@);
    }
    list
}

fn coin_list(coins: &Vec<Json>, active: &Vec<bool>) -> (res: KeyedList)
    ensures
        res.well_formed(),
        res.entries() == sort_keyed(coin_entries(coins@, active@)),
{
    let mut list = KeyedList::new();
    let mut i: usize = 0;
    proof {
        assert(coins@.take(0) =~= Seq::<Json>::empty());
    }
    while i < coins.len()
        invariant
            i <= coins.len(),
            list.well_formed(),
            list.entries() == sort_keyed(coin_entries(coins@.take(i as int), active@)),
        decreases coins.len() - i,
    {
        let coin = &coins[i];
        proof {
            assert(coins@.take(i + 1).drop_last() =~= coins@.take(i as int));
            assert(coins@.take(i + 1).last() == coins@[i as int]);
        }
        if i < active.len() && active[i] {
            let key = member_text_or_empty(coin, "ticker");
            proof {
                reveal_strlit("");
                lemma_sort_push(
                    coin_entries(coins@.take(i as int), active@),
                    ((key@, ""@), spec_coin_item(*coin)),
                );
            }
            list.insert(key, "", map_coin_item(coin));
            proof {
                reveal_strlit("");
                assert(""@ =~= Seq::<char>::empty());
                assert(coins@.take(i + 1).last() == *coin);
                assert(coin_entries(coins@.take(i + 1), active@) == coin_entries(coins@.take(i as int), active@).push(
                    ((key@, ""@), spec_coin_item(*coin)),
                ));
            }
        } else {
            proof {
                assert(coin_entries(coins@.take(i + 1), active@) == coin_entries(coins@.take(i as int), active@));
            }
        }
        i = i + 1;
    }
    proof {
        assert(coins@.take(coins.len() as int) =~= coins@);
    }
    list
}

/// The savings plans of a portfolio. `crypto_plan_active` holds, for each
/// coin in the order the answer lists them, whether its plan saves an amount
/// above zero; a coin past its end counts as having no plan.
pub fn project_broker_savings_plans_response(
    input: &BrokerInput,
    response: &Json,
    crypto_plan_active: &Vec<bool>,
) -> (res: Result<Json, ErrorReport>)
    ensures
        plain_errors(res),
        json_result(res) == spec_savings_plans_response(*input, *response, crypto_plan_active@),
{
    let p = match portfolio(response) {
        Some(p) => p,
        None => {
            return Err(ErrorReport::msg("Broker response invalid: missing account.brokerPortfolio"));
        },
    };
    let items = match p.get("inventory") {
        Some(inv) => match inv.get("items") {
            Some(list) => list.as_array(),
            None => None,
        },
        None => None,
    };
    let items = match items {
        Some(items) => items,
        None => {
            return Err(
                ErrorReport::msg("Broker response invalid: missing account.brokerPortfolio.inventory.items"),
            );
        },
    };
    let securities = plan_list(items);
    let no_coins: Vec<Json> = Vec::new();
    let coin_items = match coins(p) {
        Some(v) => v,
        None => &no_coins,
    };
    let crypto = coin_list(coin_items, crypto_plan_active);
    proof {
        lemma_sort_keyed_len(plan_entries(items@));
        lemma_sort_keyed_len(coin_entries(coins_of(*p), crypto_plan_active@));
    }
    let ghost sec_view = keyed_values(securities.entries());
    let ghost crypto_view = keyed_values(crypto.entries());
    let mut all = securities.into_values();
    let mut crypto_values = crypto.into_values();
    proof {
        lemma_items_view_index(all@);
        lemma_items_view_index(crypto_values@);
    }
    let non_crypto_count = all.len();
    let crypto_count = crypto_values.len();
    let ghost a = all@;
    let ghost b = crypto_values@;
    all.append(&mut crypto_values);
    proof {
        lemma_items_view_concat(a, b);
        lemma_items_view_index(all@);
    }
    let count = all.len();
    let mut out = ids_builder(input);
    out.add("total_savings_plan_amount", field_or_null(p, "totalSavingsPlanAmount"));
    out.add("count", crate::broker_variables::unsigned_json(count as u64));
    out.add("non_crypto_count", crate::broker_variables::unsigned_json(non_crypto_count as u64));
    out.add("crypto_count", crate::broker_variables::unsigned_json(crypto_count as u64));
    out.add("items", Json::Array(all));
    proof {
        assert(sec_view.len() == non_crypto_count);
        assert(crypto_view.len() == crypto_count);
        assert(out.members() =~= spec_savings_plans_response(*input, *response, crypto_plan_active@)->Ok_0->Object_0);
    }
    Ok(out.build())
}

/// The savings plan configuration of a security, as the broker answers it.
pub open spec fn spec_savings_plan_config_response(response: Json) -> Result<JsonView, Seq<char>> {
    match opt_get(
        opt_get(portfolio_of(response), "security"@),
        "savingsPlanConfiguration"@,
    ) {
        Some(config) => Ok(config@),
        None => Err(
            "Broker response invalid: missing account.brokerPortfolio.security.savingsPlanConfiguration"@,
        ),
    }
}

pub fn project_broker_savings_plan_config_response(response: &Json) -> (res: Result<Json, ErrorReport>)
    ensures
        plain_errors(res),
        json_result(res) == spec_savings_plan_config_response(*response),
{
    let config = match portfolio(response) {
        Some(p) => match p.get("security") {
            Some(s) => s.get("savingsPlanConfiguration"),
            None => None,
        },
        None => None,
    };
    match config {
        Some(c) => Ok(c.duplicate()),
        None => Err(
            ErrorReport::msg(
                "Broker response invalid: missing account.brokerPortfolio.security.savingsPlanConfiguration",
            ),
        ),
    }
}

} // verus!
