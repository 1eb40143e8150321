//! Reshaping the portfolio groups answer into the command line's result
//! object.
use vstd::prelude::*;

use crate::error_report::{plain_errors};
use crate::error_report::ErrorReport;
use crate::json::{opt_as_str, opt_get, opt_ref, ArrayBuilder, Json, JsonView, ObjectBuilder};
use crate::listings::{array_at, opt_field, opt_field_or_null};
use crate::portfolio_groups::{find_group, find_group_exec, group_not_found_message, not_found_report};
use crate::projections::{field_or_null, get_or_null, json_result};
use crate::text::str_eq;

verus! {

/// A holding of a group as the command reports it.
pub open spec fn spec_group_item(item: Json) -> JsonView {
    JsonView::Object(
        seq![
            ("isin"@, get_or_null(item, "isin"@)),
            ("name"@, get_or_null(item, "name"@)),
            ("security_type"@, get_or_null(item, "type"@)),
        ],
    )
}

pub fn map_group_item(item: &Json) -> (res: Json)
    ensures
        res@ == spec_group_item(*item),
{
    let mut out = ObjectBuilder::new();
    out.add("isin", field_or_null(item, "isin"));
    out.add("name", field_or_null(item, "name"));
    out.add("security_type", field_or_null(item, "type"));
    proof {
        assert(out.members() =~= spec_group_item(*item)->Object_0);
    }
    out.build()
}

/// Items mapped one by one.
pub open spec fn group_items(items: Seq<Json>) -> Seq<JsonView> {
    items.map_values(|i: Json| spec_group_item(i))
}

fn map_group_items(items: &Vec<Json>) -> (res: Json)
    ensures
        res@ == JsonView::Array(group_items(items@)),
{
    let mut out = ArrayBuilder::new();
    let mut i: usize = 0;
    while i < items.len()
        invariant
            i <= items.len(),
            out.items() == group_items(items@.take(i as int)),
        decreases items.len() - i,
    {
        out.push(map_group_item(&items[i]));
        proof {
            assert(group_items(items@.take(i + 1)) =~= group_items(items@.take(i as int)).push(
                spec_group_item(items@[i as int]),
            ));
        }
        i = i + 1;
    }
    proof {
        assert(items@.take(items.len() as int) =~= items@);
    }
    out.build()
}

/// Whether a performance entry is the one since buying.
pub open spec fn is_since_buy(entry: Json) -> bool {
    opt_as_str(entry.spec_get("timeframe"@)) == Some("SINCE_BUY"@)
}

/// The first performance entry since buying.
pub open spec fn first_since_buy(entries: Seq<Json>) -> Option<Json>
    decreases entries.len(),
{
    if entries.len() == 0 {
        None
    } else if is_since_buy(entries[0]) {
        Some(entries[0])
    } else {
        first_since_buy(entries.drop_first())
    }
}

fn find_since_buy(entries: &Vec<Json>) -> (res: Option<&Json>)
    ensures
        opt_ref(res) == first_since_buy(entries@),
{
    let mut i: usize = 0;
    proof {
        assert(entries@.skip(0) =~= entries@);
    }
    while i < entries.len()
        invariant
            i <= entries.len(),
            first_since_buy(entries@) == first_since_buy(entries@.skip(i as int)),
        decreases entries.len() - i,
    {
        let tf = match entries[i].get("timeframe") {
            Some(v) => v.as_str(),
            None => None,
        };
        let hit = match tf {
            Some(t) => str_eq(t, "SINCE_BUY"),
            None => false,
        };
        proof {
            assert(entries@.skip(i as int)[0] == entries@[i as int]);
            assert(entries@.skip(i as int).drop_first() =~= entries@.skip(i + 1));
        }
        if hit {
            return Some(&entries[i]);
        }
        i = i + 1;
    }
    None
}

/// A group's performance as the command reports it: null where there is
/// none; the valuation, and the performance since buying where reported.
pub open spec fn spec_group_performance(raw: Option<Json>) -> JsonView {
    match raw {
        None => JsonView::Null,
        Some(p) => if p is Null {
            JsonView::Null
        } else {
            JsonView::Object(
                seq![
                    ("valuation"@, get_or_null(p, "valuation"@)),
                    ("currency"@, get_or_null(p, "currency"@)),
                    (
                        "since_buy"@,
                        match array_at(p.spec_get("performancesByTimeframe"@)) {
                            Some(entries) => match first_since_buy(entries) {
                                Some(e) => JsonView::Object(
                                    seq![
                                        ("performance"@, get_or_null(e, "performance"@)),
                                        ("simple_absolute_return"@, get_or_null(e, "simpleAbsoluteReturn"@)),
                                    ],
                                ),
                                None => JsonView::Null,
                            },
                            None => JsonView::Null,
                        },
                    ),
                ],
            )
        },
    }
}

pub fn map_group_performance(raw: Option<&Json>) -> (res: Json)
    ensures
        res@ == spec_group_performance(opt_ref(raw)),
{
    let p = match raw {
        Some(p) => p,
        None => {
            return Json::Null;
        },
    };
    if p.is_null() {
        return Json::Null;
    }
    let since_buy = match p.get("performancesByTimeframe") {
        Some(v) => match v.as_array() {
            Some(entries) => match find_since_buy(entries) {
                Some(e) => {
                    let mut sb = ObjectBuilder::new();
                    sb.add("performance", field_or_null(e, "performance"));
                    sb.add("simple_absolute_return", field_or_null(e, "simpleAbsoluteReturn"));
                    proof {
                        assert(sb.members() =~= seq![
                            ("performance"@, get_or_null(*e, "performance"@)),
                            ("simple_absolute_return"@, get_or_null(*e, "simpleAbsoluteReturn"@)),
                        ]);
                    }
                    sb.build()
                },
                None => Json::Null,
            },
            None => Json::Null,
        },
        None => Json::Null,
    };
    let mut out = ObjectBuilder::new();
    out.add("valuation", field_or_null(p, "valuation"));
    out.add("currency", field_or_null(p, "currency"));
    out.add("since_buy", since_buy);
    proof {
        assert(out.members() =~= spec_group_performance(opt_ref(raw))->Object_0);
    }
    out.build()
}

/// A portfolio group as the command reports it.
pub open spec fn spec_portfolio_group(group: Json) -> JsonView {
    let details = group.spec_get("details"@);
    JsonView::Object(
        seq![
            ("group_id"@, get_or_null(group, "id"@)),
            ("name"@, opt_field(details, "name"@)),
            ("description"@, opt_field(details, "description"@)),
            ("number_of_pending_orders"@, get_or_null(group, "numberOfPendingOrders"@)),
            ("savings_plans_amount"@, get_or_null(group, "savingsPlansAmount"@)),
            ("performance"@, spec_group_performance(group.spec_get("performance"@))),
            (
                "items"@,
                JsonView::Array(
                    match array_at(group.spec_get("items"@)) {
                        Some(items) => group_items(items),
                        None => Seq::empty(),
                    },
                ),
            ),
        ],
    )
}

pub fn map_portfolio_group(group: &Json) -> (res: Json)
    ensures
        res@ == spec_portfolio_group(*group),
{
    let details = group.get("details");
    let items = match group.get("items") {
        Some(v) => match v.as_array() {
            Some(items) => map_group_items(items),
            None => Json::Array(Vec::new()),
        },
        None => Json::Array(Vec::new()),
    };
    proof {
        assert(crate::json::items_view(Seq::<Json>::empty()) =~= Seq::<JsonView>::empty());
    }
    let mut out = ObjectBuilder::new();
    out.add("group_id", field_or_null(group, "id"));
    out.add("name", opt_field_or_null(details, "name"));
    out.add("description", opt_field_or_null(details, "description"));
    out.add("number_of_pending_orders", field_or_null(group, "numberOfPendingOrders"));
    out.add("savings_plans_amount", field_or_null(group, "savingsPlansAmount"));
    out.add("performance", map_group_performance(group.get("performance")));
    out.add("items", items);
    proof {
        assert(out.members() =~= spec_portfolio_group(*group)->Object_0);
    }
    out.build()
}

/// The portfolio groups as the command reports them: every group and the
/// holdings in none; or, with a group id, that group alone and no ungrouped
/// holdings.
pub open spec fn spec_portfolio_groups_response(response: Json, group_id_filter: Option<Seq<char>>) -> Result<
    JsonView,
    Seq<char>,
> {
    match opt_get(opt_get(response.spec_get("account"@), "brokerPortfolio"@), "inventory"@) {
        None => Err("Broker response invalid: missing account.brokerPortfolio.inventory"@),
        Some(inventory) => match inventory.spec_get("portfolioGroups"@) {
            None => Err("Broker response invalid: missing inventory.portfolioGroups"@),
            Some(pg) => match array_at(pg.spec_get("items"@)) {
                None => Err("Broker response invalid: missing portfolioGroups.items"@),
                Some(groups) => {
                    let projected: Result<Seq<JsonView>, Seq<char>> = match group_id_filter {
                        Some(id) => match find_group(groups, id) {
                            Some(g) => Ok(seq![spec_portfolio_group(g)]),
                            None => Err(group_not_found_message(id)),
                        },
                        None => Ok(groups.map_values(|g: Json| spec_portfolio_group(g))),
                    };
                    let ungrouped: Result<Seq<JsonView>, Seq<char>> = match group_id_filter {
                        Some(_) => Ok(Seq::empty()),
                        None => match array_at(
                            opt_get(inventory.spec_get("ungroupedInventoryItems"@), "items"@),
                        ) {
                            Some(items) => Ok(group_items(items)),
                            None => Err(
                                "Broker response invalid: missing inventory.ungroupedInventoryItems.items"@,
                            ),
                        },
                    };
                    match (projected, ungrouped) {
                        (Err(e), _) => Err(e),
                        (_, Err(e)) => Err(e),
                        (Ok(p), Ok(u)) => Ok(
                            JsonView::Object(
                                seq![
                                    (
                                        "offer_allows_additional_group"@,
                                        get_or_null(pg, "offerAllowsAdditionalPortfolioGroup"@),
                                    ),
                                    (
                                        "max_groups_per_portfolio_reached"@,
                                        get_or_null(pg, "maxPortfolioGroupsPerPortfolioReached"@),
                                    ),
                                    ("portfolio_groups"@, JsonView::Array(p)),
                                    ("ungrouped_items"@, JsonView::Array(u)),
                                ],
                            ),
                        ),
                    }
                },
            },
        },
    }
}

pub fn project_broker_portfolio_groups_response(response: &Json, group_id_filter: Option<&str>) -> (res:
    Result<Json, ErrorReport>)
    ensures
        plain_errors(res),
        json_result(res) == spec_portfolio_groups_response(
            *response,
            crate::text::opt_slice(group_id_filter),
        ),
{
    let inventory = match response.get("account") {
        Some(a) => match a.get("brokerPortfolio") {
            Some(p) => p.get("inventory"),
            None => None,
        },
        None => None,
    };
    let inventory = match inventory {
        Some(i) => i,
        None => {
            return Err(ErrorReport::msg("Broker response invalid: missing account.brokerPortfolio.inventory"));
        },
    };
    let pg = match inventory.get("portfolioGroups") {
        Some(pg) => pg,
        None => {
            return Err(ErrorReport::msg("Broker response invalid: missing inventory.portfolioGroups"));
        },
    };
    let groups: &Vec<Json> = match pg.get("items") {
        Some(v) => match v.as_array() {
            Some(g) => g,
            None => {
                return Err(ErrorReport::msg("Broker response invalid: missing portfolioGroups.items"));
            },
        },
        None => {
            return Err(ErrorReport::msg("Broker response invalid: missing portfolioGroups.items"));
        },
    };
    let mut projected = ArrayBuilder::new();
    match group_id_filter {
        Some(id) => match find_group_exec(groups, id) {
            Some(g) => {
                projected.push(map_portfolio_group(g));
                proof {
                    assert(projected.items() =~= seq![spec_portfolio_group(*g)]);
                }
            },
            None => {
                return Err(not_found_report(id));
            },
        },
        None => {
            let mut i: usize = 0;
            while i < groups.len()
                invariant
                    i <= groups.len(),
                    projected.items() == groups@.take(i as int).map_values(
                        |g: Json| spec_portfolio_group(g),
                    ),
                decreases groups.len() - i,
            {
                projected.push(map_portfolio_group(&groups[i]));
                proof {
                    assert(groups@.take(i + 1).map_values(|g: Json| spec_portfolio_group(g))
                        =~= groups@.take(i as int).map_values(|g: Json| spec_portfolio_group(g)).push(
                        spec_portfolio_group(groups@[i as int]),
                    ));
                }
                i = i + 1;
            }
            proof {
                assert(groups@.take(groups.len() as int) =~= groups@);
            }
        },
    }
    let ungrouped = match group_id_filter {
        Some(_) => {
            proof {
                assert(crate::json::items_view(Seq::<Json>::empty()) =~= Seq::<JsonView>::empty());
            }
            Json::Array(Vec::new())
        },
        None => {
            let raw = match inventory.get("ungroupedInventoryItems") {
                Some(u) => u.get("items"),
                None => None,
            };
            match raw {
                Some(v) => match v.as_array() {
                    Some(items) => map_group_items(items),
                    None => {
                        return Err(
                            ErrorReport::msg(
                                "Broker response invalid: missing inventory.ungroupedInventoryItems.items",
                            ),
                        );
                    },
                },
                None => {
                    return Err(
                        ErrorReport::msg(
                            "Broker response invalid: missing inventory.ungroupedInventoryItems.items",
                        ),
                    );
                },
            }
        },
    };
    let mut out = ObjectBuilder::new();
    out.add("offer_allows_additional_group", field_or_null(pg, "offerAllowsAdditionalPortfolioGroup"));
    out.add("max_groups_per_portfolio_reached", field_or_null(pg, "maxPortfolioGroupsPerPortfolioReached"));
    out.add("portfolio_groups", projected.build());
    out.add("ungrouped_items", ungrouped);
    proof {
        assert(out.members() =~= spec_portfolio_groups_response(
            *response,
            crate::text::opt_slice(group_id_filter),
        )->Ok_0->Object_0);
    }
    Ok(out.build())
}

} // verus!
