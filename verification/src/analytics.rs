//! Reshaping the portfolio analysis into the command line's result object.
use vstd::prelude::*;

use crate::error_report::{plain_errors};
use crate::broker_queries::BrokerInput;
use crate::broker_variables::{jnum, jstr, unsigned_json};
use crate::error_report::ErrorReport;
use crate::json::{opt_get, opt_ref, ArrayBuilder, Json, JsonView, ObjectBuilder};
use crate::listings::{array_at, ids_head, opt_field, opt_field_or_null};
use crate::projections::{
    field_or_null, get_or_null, json_result, spec_timestamp_value, timestamp_value_or_null,
};

verus! {

/// The items of an array, or none.
pub open spec fn items_or_empty(o: Option<Json>) -> Seq<Json> {
    match array_at(o) {
        Some(items) => items,
        None => Seq::empty(),
    }
}

fn items_or_empty_exec<'a>(o: Option<&'a Json>, empty: &'a Vec<Json>) -> (res: &'a Vec<Json>)
    requires
        empty@.len() == 0,
    ensures
        res@ == items_or_empty(opt_ref(o)),
{
    match o {
        Some(Json::Array(items)) => items,
        _ => {
            proof {
                assert(empty@ =~= Seq::<Json>::empty());
            }
            empty
        },
    }
}

// ---------------------------------------------------------------------------
// Securities, checks, scenarios
// ---------------------------------------------------------------------------

/// A security as the analysis names it.
pub open spec fn spec_security_ref(s: Json) -> JsonView {
    JsonView::Object(
        seq![
            ("id"@, get_or_null(s, "id"@)),
            ("isin"@, get_or_null(s, "isin"@)),
            ("name"@, get_or_null(s, "name"@)),
            ("security_type"@, get_or_null(s, "type"@)),
        ],
    )
}

pub fn map_security_ref(s: &Json) -> (res: Json)
    ensures
        res@ == spec_security_ref(*s),
{
    let mut out = ObjectBuilder::new();
    out.add("id", field_or_null(s, "id"));
    out.add("isin", field_or_null(s, "isin"));
    out.add("name", field_or_null(s, "name"));
    out.add("security_type", field_or_null(s, "type"));
    proof {
        assert(out.members() =~= spec_security_ref(*s)->Object_0);
    }
    out.build()
}

pub open spec fn security_refs(items: Seq<Json>) -> Seq<JsonView> {
    items.map_values(|i: Json| spec_security_ref(i))
}

fn map_security_refs(items: &Vec<Json>) -> (res: Json)
    ensures
        res@ == JsonView::Array(security_refs(items@)),
{
    let mut out = ArrayBuilder::new();
    let mut i: usize = 0;
    while i < items.len()
        invariant
            i <= items.len(),
            out.items() == security_refs(items@.take(i as int)),
        decreases items.len() - i,
    {
        out.push(map_security_ref(&items[i]));
        proof {
            assert(security_refs(items@.take(i + 1)) =~= security_refs(items@.take(i as int)).push(
                spec_security_ref(items@[i as int]),
            ));
        }
        i = i + 1;
    }
    proof {
        assert(items@.take(items.len() as int) =~= items@);
    }
    out.build()
}

/// A health check of the portfolio.
pub open spec fn spec_health_check(h: Json) -> JsonView {
    JsonView::Object(
        seq![
            ("id"@, get_or_null(h, "id"@)),
            ("type"@, get_or_null(h, "type"@)),
            ("health_score"@, get_or_null(h, "healthScore"@)),
            ("state"@, get_or_null(h, "state"@)),
            ("color_hex"@, opt_field(h.spec_get("color"@), "sixDigitNotationValue"@)),
            ("number_of_items_in_portfolio"@, get_or_null(h, "numberOfItemsInPortfolio"@)),
            ("max_items"@, get_or_null(h, "maxItems"@)),
        ],
    )
}

pub fn map_health_check(h: &Json) -> (res: Json)
    ensures
        res@ == spec_health_check(*h),
{
    let mut out = ObjectBuilder::new();
    out.add("id", field_or_null(h, "id"));
    out.add("type", field_or_null(h, "type"));
    out.add("health_score", field_or_null(h, "healthScore"));
    out.add("state", field_or_null(h, "state"));
    out.add("color_hex", opt_field_or_null(h.get("color"), "sixDigitNotationValue"));
    out.add("number_of_items_in_portfolio", field_or_null(h, "numberOfItemsInPortfolio"));
    out.add("max_items", field_or_null(h, "maxItems"));
    proof {
        assert(out.members() =~= spec_health_check(*h)->Object_0);
    }
    out.build()
}

pub open spec fn health_checks(items: Seq<Json>) -> Seq<JsonView> {
    items.map_values(|i: Json| spec_health_check(i))
}

fn map_health_checks(items: &Vec<Json>) -> (res: Json)
    ensures
        res@ == JsonView::Array(health_checks(items@)),
{
    let mut out = ArrayBuilder::new();
    let mut i: usize = 0;
    while i < items.len()
        invariant
            i <= items.len(),
            out.items() == health_checks(items@.take(i as int)),
        decreases items.len() - i,
    {
        out.push(map_health_check(&items[i]));
        proof {
            assert(health_checks(items@.take(i + 1)) =~= health_checks(items@.take(i as int)).push(
                spec_health_check(items@[i as int]),
            ));
        }
        i = i + 1;
    }
    proof {
        assert(items@.take(items.len() as int) =~= items@);
    }
    out.build()
}

/// A market scenario and the portfolio's performance in it.
pub open spec fn spec_portfolio_scenario(s: Json) -> JsonView {
    JsonView::Object(
        seq![
            ("id"@, get_or_null(s, "id"@)),
            ("type"@, get_or_null(s, "type"@)),
            ("portfolio_performance"@, get_or_null(s, "portfolioPerformance"@)),
            ("benchmark_performance"@, get_or_null(s, "benchmarkPerformance"@)),
            ("securities"@, JsonView::Array(security_refs(items_or_empty(s.spec_get("securities"@))))),
        ],
    )
}

pub fn map_portfolio_scenario(s: &Json) -> (res: Json)
    ensures
        res@ == spec_portfolio_scenario(*s),
{
    let empty: Vec<Json> = Vec::new();
    let securities = items_or_empty_exec(s.get("securities"), &empty);
    let mut out = ObjectBuilder::new();
    out.add("id", field_or_null(s, "id"));
    out.add("type", field_or_null(s, "type"));
    out.add("portfolio_performance", field_or_null(s, "portfolioPerformance"));
    out.add("benchmark_performance", field_or_null(s, "benchmarkPerformance"));
    out.add("securities", map_security_refs(securities));
    proof {
        assert(out.members() =~= spec_portfolio_scenario(*s)->Object_0);
    }
    out.build()
}

pub open spec fn portfolio_scenarios(items: Seq<Json>) -> Seq<JsonView> {
    items.map_values(|i: Json| spec_portfolio_scenario(i))
}

fn map_portfolio_scenarios(items: &Vec<Json>) -> (res: Json)
    ensures
        res@ == JsonView::Array(portfolio_scenarios(items@)),
{
    let mut out = ArrayBuilder::new();
    let mut i: usize = 0;
    while i < items.len()
        invariant
            i <= items.len(),
            out.items() == portfolio_scenarios(items@.take(i as int)),
        decreases items.len() - i,
    {
        out.push(map_portfolio_scenario(&items[i]));
        proof {
            assert(portfolio_scenarios(items@.take(i + 1)) =~= portfolio_scenarios(items@.take(i as int)).push(
                spec_portfolio_scenario(items@[i as int]),
            ));
        }
        i = i + 1;
    }
    proof {
        assert(items@.take(items.len() as int) =~= items@);
    }
    out.build()
}

// ---------------------------------------------------------------------------
// Contributors
// ---------------------------------------------------------------------------

/// What a contributor holds: a security (with the quantity held), a coin,
/// or the answer's value as it is.
pub open spec fn spec_underlying_asset(asset: Option<Json>) -> JsonView {
    match asset {
        None => JsonView::Null,
        Some(v) => if v.spec_get("isin"@) is Some {
            JsonView::Object(
                seq![
                    ("kind"@, jstr("security"@)),
                    ("isin"@, get_or_null(v, "isin"@)),
                    ("name"@, get_or_null(v, "name"@)),
                    (
                        "filled_quantity"@,
                        opt_field(opt_get(v.spec_get("inventory"@), "position"@), "filled"@),
                    ),
                ],
            )
        } else if v.spec_get("ticker"@) is Some {
            JsonView::Object(
                seq![
                    ("kind"@, jstr("crypto"@)),
                    ("ticker"@, get_or_null(v, "ticker"@)),
                    ("name"@, get_or_null(v, "name"@)),
                ],
            )
        } else {
            v@
        },
    }
}

pub fn map_underlying_asset(asset: Option<&Json>) -> (res: Json)
    ensures
        res@ == spec_underlying_asset(opt_ref(asset)),
{
    let v = match asset {
        Some(v) => v,
        None => {
            return Json::Null;
        },
    };
    if v.get("isin").is_some() {
        let position = match v.get("inventory") {
            Some(i) => i.get("position"),
            None => None,
        };
        let mut out = ObjectBuilder::new();
        out.add("kind", Json::Str("security".to_owned()));
        out.add("isin", field_or_null(v, "isin"));
        out.add("name", field_or_null(v, "name"));
        out.add("filled_quantity", opt_field_or_null(position, "filled"));
        proof {
            assert(out.members() =~= spec_underlying_asset(opt_ref(asset))->Object_0);
        }
        out.build()
    } else if v.get("ticker").is_some() {
        let mut out = ObjectBuilder::new();
        out.add("kind", Json::Str("crypto".to_owned()));
        out.add("ticker", field_or_null(v, "ticker"));
        out.add("name", field_or_null(v, "name"));
        proof {
            assert(out.members() =~= spec_underlying_asset(opt_ref(asset))->Object_0);
        }
        out.build()
    } else {
        v.duplicate()
    }
}

/// A contributor to a position, rating or market cap.
pub open spec fn spec_allocation_contributor(c: Json) -> JsonView {
    JsonView::Object(
        seq![
            ("id"@, get_or_null(c, "id"@)),
            ("weight"@, get_or_null(c, "weight"@)),
            ("underlying_asset"@, spec_underlying_asset(c.spec_get("underlyingAsset"@))),
        ],
    )
}

pub fn map_allocation_contributor(c: &Json) -> (res: Json)
    ensures
        res@ == spec_allocation_contributor(*c),
{
    let mut out = ObjectBuilder::new();
    out.add("id", field_or_null(c, "id"));
    out.add("weight", field_or_null(c, "weight"));
    out.add("underlying_asset", map_underlying_asset(c.get("underlyingAsset")));
    proof {
        assert(out.members() =~= spec_allocation_contributor(*c)->Object_0);
    }
    out.build()
}

pub open spec fn contributors(items: Seq<Json>) -> Seq<JsonView> {
    items.map_values(|i: Json| spec_allocation_contributor(i))
}

fn map_contributors(items: &Vec<Json>) -> (res: Json)
    ensures
        res@ == JsonView::Array(contributors(items@)),
{
    let mut out = ArrayBuilder::new();
    let mut i: usize = 0;
    while i < items.len()
        invariant
            i <= items.len(),
            out.items() == contributors(items@.take(i as int)),
        decreases items.len() - i,
    {
        out.push(map_allocation_contributor(&items[i]));
        proof {
            assert(contributors(items@.take(i + 1)) =~= contributors(items@.take(i as int)).push(
                spec_allocation_contributor(items@[i as int]),
            ));
        }
        i = i + 1;
    }
    proof {
        assert(items@.take(items.len() as int) =~= items@);
    }
    out.build()
}

fn contributors_of(v: &Json) -> (res: Json)
    ensures
        res@ == JsonView::Array(contributors(items_or_empty(v.spec_get("contributors"@)))),
{
    let empty: Vec<Json> = Vec::new();
    let items = items_or_empty_exec(v.get("contributors"), &empty);
    map_contributors(items)
}

// ---------------------------------------------------------------------------
// Allocations
// ---------------------------------------------------------------------------

/// A position of an allocation, with its sub-positions at any depth.
pub open spec fn spec_allocation_position(p: Json) -> JsonView
    decreases p, 0int,
{
    JsonView::Object(
        seq![
            ("id"@, get_or_null(p, "id"@)),
            ("name"@, get_or_null(p, "name"@)),
            ("weight"@, get_or_null(p, "weight"@)),
            ("valuation"@, get_or_null(p, "valuation"@)),
            ("contributors"@, JsonView::Array(contributors(items_or_empty(p.spec_get("contributors"@))))),
            (
                "subpositions"@,
                JsonView::Array(
                    match p {
                        Json::Object(fields) => subpositions_in(fields@),
                        _ => Seq::empty(),
                    },
                ),
            ),
        ],
    )
}

/// The sub-positions under the first `subpositions` member, where it is a
/// list.
pub open spec fn subpositions_in(fields: Seq<(String, Json)>) -> Seq<JsonView>
    decreases fields, 1int,
{
    if fields.len() == 0 {
        Seq::empty()
    } else if fields[0].0@ == "subpositions"@ {
        match fields[0].1 {
            Json::Array(items) => allocation_positions(items@),
            _ => Seq::empty(),
        }
    } else {
        subpositions_in(fields.subrange(1, fields.len() as int))
    }
}

pub open spec fn allocation_positions(items: Seq<Json>) -> Seq<JsonView>
    decreases items, 1int,
{
    if items.len() == 0 {
        Seq::empty()
    } else {
        seq![spec_allocation_position(items[0])] + allocation_positions(
            items.subrange(1, items.len() as int),
        )
    }
}

proof fn lemma_allocation_positions_push(items: Seq<Json>, x: Json)
    ensures
        allocation_positions(items.push(x)) == allocation_positions(items).push(spec_allocation_position(x)),
    decreases items.len(),
{
    let all = items.push(x);
    if items.len() == 0 {
        assert(all.subrange(1, all.len() as int) =~= Seq::<Json>::empty());
        assert(allocation_positions(Seq::<Json>::empty()) == Seq::<JsonView>::empty());
        assert(all[0] == x);
        assert(allocation_positions(all) =~= seq![spec_allocation_position(x)]);
    } else {
        assert(all.subrange(1, all.len() as int) =~= items.subrange(1, items.len() as int).push(x));
        lemma_allocation_positions_push(items.subrange(1, items.len() as int), x);
        assert(all[0] == items[0]);
        assert(allocation_positions(all) =~= allocation_positions(items).push(spec_allocation_position(x)));
    }
}

/// The member `key` of an object is the first member with that key.
proof fn lemma_member_is_first(fields: Seq<(String, Json)>, key: Seq<char>)
    ensures
        crate::json::member(fields, key) is Some ==> fields.len() > 0,
        fields.len() > 0 && fields[0].0@ == key ==> crate::json::member(fields, key) == Some(fields[0].1),
        fields.len() > 0 && fields[0].0@ != key ==> crate::json::member(fields, key) == crate::json::member(
            fields.subrange(1, fields.len() as int),
            key,
        ),
{
}

pub fn map_allocation_position(p: &Json) -> (res: Json)
    ensures
        res@ == spec_allocation_position(*p),
    decreases p,
{
    let mut subs = ArrayBuilder::new();
    match p {
        Json::Object(fields) => {
            let mut i: usize = 0;
            let mut done = false;
            proof {
                assert(fields@.skip(0) =~= fields@);
            }
            while i < fields.len() && !done
                invariant
                    i <= fields.len(),
                    *p == Json::Object(*fields),
                    done ==> subs.items() == subpositions_in(fields@),
                    !done ==> subs.items() == Seq::<JsonView>::empty(),
                    !done ==> subpositions_in(fields@) == subpositions_in(fields@.skip(i as int)),
                decreases fields.len() - i + if done {
                    0int
                } else {
                    1int
                },
            {
                let ghost rest = fields@.skip(i as int);
                proof {
                    assert(rest[0] == fields@[i as int]);
                    assert(rest.subrange(1, rest.len() as int) =~= fields@.skip(i + 1));
                    reveal_strlit("subpositions");
                }
                if crate::text::str_eq(fields[i].0.as_str(), "subpositions") {
                    match &fields[i].1 {
                        Json::Array(items) => {
                            let mut k: usize = 0;
                            proof {
                                assert(items@.take(0) =~= Seq::<Json>::empty());
                            }
                            while k < items.len()
                                invariant
                                    k <= items.len(),
                                    *p == Json::Object(*fields),
                                    i < fields.len(),
                                    fields@[i as int].1 == Json::Array(*items),
                                    subs.items() == allocation_positions(items@.take(k as int)),
                                decreases items.len() - k,
                            {
                                proof {
                                    assert(decreases_to!(*p => p->Object_0));
                                    assert(decreases_to!(p->Object_0 => p->Object_0@));
                                    assert(decreases_to!(fields@ => fields@[i as int]));
                                    assert(decreases_to!(fields@[i as int] => fields@[i as int].1));
                                    assert(decreases_to!(fields@[i as int].1 => fields@[i as int].1->Array_0));
                                    assert(decreases_to!(*items => items@));
                                    assert(decreases_to!(items@ => items@[k as int]));
                                    assert(decreases_to!(*p => items@[k as int]));
                                    assert(items@.take(k + 1) =~= items@.take(k as int).push(items@[k as int]));
                                    lemma_allocation_positions_push(items@.take(k as int), items@[k as int]);
                                }
                                subs.push(map_allocation_position(&items[k]));
                                k = k + 1;
                            }
                            proof {
                                assert(items@.take(items.len() as int) =~= items@);
                            }
                        },
                        _ => {},
                    }
                    done = true;
                } else {
                    i = i + 1;
                }
            }
            proof {
                if !done {
                    assert(fields@.skip(i as int) =~= Seq::<(String, Json)>::empty());
                }
            }
        },
        _ => {},
    }
    let mut out = ObjectBuilder::new();
    out.add("id", field_or_null(p, "id"));
    out.add("name", field_or_null(p, "name"));
    out.add("weight", field_or_null(p, "weight"));
    out.add("valuation", field_or_null(p, "valuation"));
    out.add("contributors", contributors_of(p));
    out.add("subpositions", subs.build());
    proof {
        assert(out.members() =~= spec_allocation_position(*p)->Object_0);
    }
    out.build()
}

fn map_allocation_positions(items: &Vec<Json>) -> (res: Json)
    ensures
        res@ == JsonView::Array(allocation_positions(items@)),
{
    let mut out = ArrayBuilder::new();
    let mut i: usize = 0;
    proof {
        assert(items@.take(0) =~= Seq::<Json>::empty());
    }
    while i < items.len()
        invariant
            i <= items.len(),
            out.items() == allocation_positions(items@.take(i as int)),
        decreases items.len() - i,
    {
        proof {
            assert(items@.take(i + 1) =~= items@.take(i as int).push(items@[i as int]));
            lemma_allocation_positions_push(items@.take(i as int), items@[i as int]);
        }
        out.push(map_allocation_position(&items[i]));
        i = i + 1;
    }
    proof {
        assert(items@.take(items.len() as int) =~= items@);
    }
    out.build()
}

/// An allocation of the portfolio, with its positions.
pub open spec fn spec_portfolio_allocation(a: Json) -> JsonView {
    JsonView::Object(
        seq![
            ("id"@, get_or_null(a, "id"@)),
            ("type"@, get_or_null(a, "type"@)),
            ("positions"@, JsonView::Array(allocation_positions(items_or_empty(a.spec_get("positions"@))))),
        ],
    )
}

pub fn map_portfolio_allocation(a: &Json) -> (res: Json)
    ensures
        res@ == spec_portfolio_allocation(*a),
{
    let empty: Vec<Json> = Vec::new();
    let positions = items_or_empty_exec(a.get("positions"), &empty);
    let mut out = ObjectBuilder::new();
    out.add("id", field_or_null(a, "id"));
    out.add("type", field_or_null(a, "type"));
    out.add("positions", map_allocation_positions(positions));
    proof {
        assert(out.members() =~= spec_portfolio_allocation(*a)->Object_0);
    }
    out.build()
}

pub open spec fn portfolio_allocations(items: Seq<Json>) -> Seq<JsonView> {
    items.map_values(|i: Json| spec_portfolio_allocation(i))
}

fn map_portfolio_allocations(items: &Vec<Json>) -> (res: Json)
    ensures
        res@ == JsonView::Array(portfolio_allocations(items@)),
{
    let mut out = ArrayBuilder::new();
    let mut i: usize = 0;
    while i < items.len()
        invariant
            i <= items.len(),
            out.items() == portfolio_allocations(items@.take(i as int)),
        decreases items.len() - i,
    {
        out.push(map_portfolio_allocation(&items[i]));
        proof {
            assert(portfolio_allocations(items@.take(i + 1)) =~= portfolio_allocations(items@.take(i as int)).push(
                spec_portfolio_allocation(items@[i as int]),
            ));
        }
        i = i + 1;
    }
    proof {
        assert(items@.take(items.len() as int) =~= items@);
    }
    out.build()
}

// ---------------------------------------------------------------------------
// Company styles and ratings
// ---------------------------------------------------------------------------

/// An item of a market cap, with its contributors.
pub open spec fn spec_market_cap_item(item: Json) -> JsonView {
    JsonView::Object(
        seq![
            ("id"@, get_or_null(item, "id"@)),
            ("type"@, get_or_null(item, "type"@)),
            ("weight"@, get_or_null(item, "weight"@)),
            ("contributors"@, JsonView::Array(contributors(items_or_empty(item.spec_get("contributors"@))))),
        ],
    )
}

pub fn map_market_cap_item(item: &Json) -> (res: Json)
    ensures
        res@ == spec_market_cap_item(*item),
{
    let mut out = ObjectBuilder::new();
    out.add("id", field_or_null(item, "id"));
    out.add("type", field_or_null(item, "type"));
    out.add("weight", field_or_null(item, "weight"));
    out.add("contributors", contributors_of(item));
    proof {
        assert(out.members() =~= spec_market_cap_item(*item)->Object_0);
    }
    out.build()
}

pub open spec fn market_cap_items(items: Seq<Json>) -> Seq<JsonView> {
    items.map_values(|i: Json| spec_market_cap_item(i))
}

fn map_market_cap_items(items: &Vec<Json>) -> (res: Json)
    ensures
        res@ == JsonView::Array(market_cap_items(items@)),
{
    let mut out = ArrayBuilder::new();
    let mut i: usize = 0;
    while i < items.len()
        invariant
            i <= items.len(),
            out.items() == market_cap_items(items@.take(i as int)),
        decreases items.len() - i,
    {
        out.push(map_market_cap_item(&items[i]));
        proof {
            assert(market_cap_items(items@.take(i + 1)) =~= market_cap_items(items@.take(i as int)).push(
                spec_market_cap_item(items@[i as int]),
            ));
        }
        i = i + 1;
    }
    proof {
        assert(items@.take(items.len() as int) =~= items@);
    }
    out.build()
}

/// A market cap class, with its items and contributors.
pub open spec fn spec_market_cap(m: Json) -> JsonView {
    JsonView::Object(
        seq![
            ("id"@, get_or_null(m, "id"@)),
            ("type"@, get_or_null(m, "type"@)),
            ("weight"@, get_or_null(m, "weight"@)),
            ("items"@, JsonView::Array(market_cap_items(items_or_empty(m.spec_get("items"@))))),
            ("contributors"@, JsonView::Array(contributors(items_or_empty(m.spec_get("contributors"@))))),
        ],
    )
}

pub fn map_market_cap(m: &Json) -> (res: Json)
    ensures
        res@ == spec_market_cap(*m),
{
    let empty: Vec<Json> = Vec::new();
    let items = items_or_empty_exec(m.get("items"), &empty);
    let mut out = ObjectBuilder::new();
    out.add("id", field_or_null(m, "id"));
    out.add("type", field_or_null(m, "type"));
    out.add("weight", field_or_null(m, "weight"));
    out.add("items", map_market_cap_items(items));
    out.add("contributors", contributors_of(m));
    proof {
        assert(out.members() =~= spec_market_cap(*m)->Object_0);
    }
    out.build()
}

pub open spec fn market_caps(items: Seq<Json>) -> Seq<JsonView> {
    items.map_values(|i: Json| spec_market_cap(i))
}

fn map_market_caps(items: &Vec<Json>) -> (res: Json)
    ensures
        res@ == JsonView::Array(market_caps(items@)),
{
    let mut out = ArrayBuilder::new();
    let mut i: usize = 0;
    while i < items.len()
        invariant
            i <= items.len(),
            out.items() == market_caps(items@.take(i as int)),
        decreases items.len() - i,
    {
        out.push(map_market_cap(&items[i]));
        proof {
            assert(market_caps(items@.take(i + 1)) =~= market_caps(items@.take(i as int)).push(
                spec_market_cap(items@[i as int]),
            ));
        }
        i = i + 1;
    }
    proof {
        assert(items@.take(items.len() as int) =~= items@);
    }
    out.build()
}

/// The company styles of the equities; null where the analysis has none.
pub open spec fn spec_equity_company_styles(styles: Option<Json>) -> JsonView {
    match styles {
        None => JsonView::Null,
        Some(v) => JsonView::Object(
            seq![
                ("id"@, get_or_null(v, "id"@)),
                ("market_caps"@, JsonView::Array(market_caps(items_or_empty(v.spec_get("marketCaps"@))))),
            ],
        ),
    }
}

pub fn map_equity_company_styles(styles: Option<&Json>) -> (res: Json)
    ensures
        res@ == spec_equity_company_styles(opt_ref(styles)),
{
    match styles {
        Some(v) => {
            let empty: Vec<Json> = Vec::new();
            let caps = items_or_empty_exec(v.get("marketCaps"), &empty);
            let mut out = ObjectBuilder::new();
            out.add("id", field_or_null(v, "id"));
            out.add("market_caps", map_market_caps(caps));
            proof {
                assert(out.members() =~= spec_equity_company_styles(opt_ref(styles))->Object_0);
            }
            out.build()
        },
        None => Json::Null,
    }
}

/// A rating grade of the fixed income part, with its contributors.
pub open spec fn spec_rating_grade(g: Json) -> JsonView {
    JsonView::Object(
        seq![
            ("id"@, get_or_null(g, "id"@)),
            ("name"@, get_or_null(g, "name"@)),
            ("weight"@, get_or_null(g, "weight"@)),
            ("contributors"@, JsonView::Array(contributors(items_or_empty(g.spec_get("contributors"@))))),
        ],
    )
}

pub fn map_fixed_income_rating_grade(g: &Json) -> (res: Json)
    ensures
        res@ == spec_rating_grade(*g),
{
    let mut out = ObjectBuilder::new();
    out.add("id", field_or_null(g, "id"));
    out.add("name", field_or_null(g, "name"));
    out.add("weight", field_or_null(g, "weight"));
    out.add("contributors", contributors_of(g));
    proof {
        assert(out.members() =~= spec_rating_grade(*g)->Object_0);
    }
    out.build()
}

pub open spec fn rating_grades(items: Seq<Json>) -> Seq<JsonView> {
    items.map_values(|i: Json| spec_rating_grade(i))
}

fn map_rating_grades(o: Option<&Json>) -> (res: Json)
    ensures
        res@ == JsonView::Array(rating_grades(items_or_empty(opt_ref(o)))),
{
    let empty: Vec<Json> = Vec::new();
    let items = items_or_empty_exec(o, &empty);
    let mut out = ArrayBuilder::new();
    let mut i: usize = 0;
    while i < items.len()
        invariant
            i <= items.len(),
            out.items() == rating_grades(items@.take(i as int)),
        decreases items.len() - i,
    {
        out.push(map_fixed_income_rating_grade(&items[i]));
        proof {
            assert(rating_grades(items@.take(i + 1)) =~= rating_grades(items@.take(i as int)).push(
                spec_rating_grade(items@[i as int]),
            ));
        }
        i = i + 1;
    }
    proof {
        assert(items@.take(items.len() as int) =~= items@);
    }
    out.build()
}

/// The ratings of the fixed income part; null where the analysis has none.
pub open spec fn spec_fixed_income_ratings(ratings: Option<Json>) -> JsonView {
    match ratings {
        None => JsonView::Null,
        Some(v) => JsonView::Object(
            seq![
                ("id"@, get_or_null(v, "id"@)),
                ("investment_grade"@, JsonView::Array(rating_grades(items_or_empty(v.spec_get("investmentGrade"@))))),
                ("speculative_grade"@, JsonView::Array(rating_grades(items_or_empty(v.spec_get("speculativeGrade"@))))),
                ("unrated_grade"@, JsonView::Array(rating_grades(items_or_empty(v.spec_get("unratedGrade"@))))),
                ("show_speculative_investment_warning"@, get_or_null(v, "showSpeculativeInvestmentWarning"@)),
            ],
        ),
    }
}

pub fn map_fixed_income_ratings(ratings: Option<&Json>) -> (res: Json)
    ensures
        res@ == spec_fixed_income_ratings(opt_ref(ratings)),
{
    match ratings {
        Some(v) => {
            let mut out = ObjectBuilder::new();
            out.add("id", field_or_null(v, "id"));
            out.add("investment_grade", map_rating_grades(v.get("investmentGrade")));
            out.add("speculative_grade", map_rating_grades(v.get("speculativeGrade")));
            out.add("unrated_grade", map_rating_grades(v.get("unratedGrade")));
            out.add("show_speculative_investment_warning", field_or_null(v, "showSpeculativeInvestmentWarning"));
            proof {
                assert(out.members() =~= spec_fixed_income_ratings(opt_ref(ratings))->Object_0);
            }
            out.build()
        },
        None => Json::Null,
    }
}

/// The portfolio's payments; null where there are none.
pub open spec fn spec_payments(payments: Option<Json>) -> JsonView {
    match crate::group_render::non_null(payments) {
        None => JsonView::Null,
        Some(v) => JsonView::Object(
            seq![
                ("id"@, get_or_null(v, "id"@)),
                ("total_distributions"@, get_or_null(v, "totalDistributions"@)),
                ("total_interest"@, get_or_null(v, "totalInterest"@)),
            ],
        ),
    }
}

pub fn map_payments(payments: Option<&Json>) -> (res: Json)
    ensures
        res@ == spec_payments(opt_ref(payments)),
{
    match payments {
        Some(Json::Null) => Json::Null,
        Some(v) => {
            let mut out = ObjectBuilder::new();
            out.add("id", field_or_null(v, "id"));
            out.add("total_distributions", field_or_null(v, "totalDistributions"));
            out.add("total_interest", field_or_null(v, "totalInterest"));
            proof {
                assert(out.members() =~= spec_payments(opt_ref(payments))->Object_0);
            }
            out.build()
        },
        None => Json::Null,
    }
}

/// The trial period of the analysis; null where there is none.
pub open spec fn spec_trial_period(trial: Option<Json>) -> JsonView {
    match crate::group_render::non_null(trial) {
        None => JsonView::Null,
        Some(v) => JsonView::Object(
            seq![
                ("id"@, get_or_null(v, "id"@)),
                ("is_eligible"@, get_or_null(v, "isEligible"@)),
                ("is_running"@, get_or_null(v, "isRunning"@)),
                ("start_time_utc"@, spec_timestamp_value(v.spec_get("startDate"@))),
                ("duration_hours"@, get_or_null(v, "durationInHours"@)),
            ],
        ),
    }
}

pub fn map_trial_period(trial: Option<&Json>) -> (res: Json)
    ensures
        res@ == spec_trial_period(opt_ref(trial)),
{
    match trial {
        Some(Json::Null) => Json::Null,
        Some(v) => {
            let mut out = ObjectBuilder::new();
            out.add("id", field_or_null(v, "id"));
            out.add("is_eligible", field_or_null(v, "isEligible"));
            out.add("is_running", field_or_null(v, "isRunning"));
            out.add("start_time_utc", timestamp_value_or_null(v.get("startDate")));
            out.add("duration_hours", field_or_null(v, "durationInHours"));
            proof {
                assert(out.members() =~= spec_trial_period(opt_ref(trial))->Object_0);
            }
            out.build()
        },
        None => Json::Null,
    }
}

// ---------------------------------------------------------------------------
// The analysis
// ---------------------------------------------------------------------------

/// The items of `<section>.items` of the result.
pub open spec fn section_items(result: Json, section: Seq<char>) -> Seq<Json> {
    items_or_empty(opt_get(result.spec_get(section), "items"@))
}

fn section_items_exec<'a>(result: &'a Json, section: &str, empty: &'a Vec<Json>) -> (res: &'a Vec<Json>)
    requires
        empty@.len() == 0,
    ensures
        res@ == section_items(*result, section@),
{
    let node = match result.get(section) {
        Some(s) => s.get("items"),
        None => None,
    };
    items_or_empty_exec(node, empty)
}

/// The portfolio analysis as the command reports it.
pub open spec fn spec_analytics_response(input: BrokerInput, response: Json) -> Result<JsonView, Seq<char>> {
    match opt_get(opt_get(response.spec_get("account"@), "brokerPortfolio"@), "portfolioAnalysis"@) {
        None => Err("Broker response invalid: missing account.brokerPortfolio.portfolioAnalysis"@),
        Some(analysis) => match analysis.spec_get("result"@) {
            None => Err("Broker response invalid: missing account.brokerPortfolio.portfolioAnalysis.result"@),
            Some(result) => {
                let invalid = items_or_empty(analysis.spec_get("invalidSecurities"@));
                Ok(
                    JsonView::Object(
                        ids_head(input) + seq![
                            ("analysis_type"@, get_or_null(analysis, "type"@)),
                            ("portfolio_coverage"@, get_or_null(analysis, "portfolioCoverage"@)),
                            ("invalid_securities_count"@, jnum(invalid.len() as int)),
                            ("invalid_securities"@, JsonView::Array(security_refs(invalid))),
                            ("result_id"@, get_or_null(result, "id"@)),
                            ("last_updated_utc"@, spec_timestamp_value(result.spec_get("lastUpdated"@))),
                            ("health_checks"@, JsonView::Array(health_checks(section_items(result, "healthChecks"@)))),
                            ("scenarios"@, JsonView::Array(portfolio_scenarios(section_items(result, "scenarios"@)))),
                            ("allocations"@, JsonView::Array(portfolio_allocations(section_items(result, "allocations"@)))),
                            ("equity_company_styles"@, spec_equity_company_styles(result.spec_get("equityCompanyStyles"@))),
                            ("fixed_income_ratings"@, spec_fixed_income_ratings(result.spec_get("fixedIncomeRatings"@))),
                            ("payments"@, spec_payments(result.spec_get("payments"@))),
                            ("trial_period"@, spec_trial_period(result.spec_get("trialPeriod"@))),
                        ],
                    ),
                )
            },
        },
    }
}

#[verifier::rlimit(80)]
pub fn project_broker_analytics_response(input: &BrokerInput, response: &Json) -> (res: Result<
    Json,
    ErrorReport,
>)
    ensures
        plain_errors(res),
        json_result(res) == spec_analytics_response(*input, *response),
{
    let analysis = match response.get("account") {
        Some(a) => match a.get("brokerPortfolio") {
            Some(p) => p.get("portfolioAnalysis"),
            None => None,
        },
        None => None,
    };
    let analysis = match analysis {
        Some(a) => a,
        None => {
            return Err(ErrorReport::msg("Broker response invalid: missing account.brokerPortfolio.portfolioAnalysis"));
        },
    };
    let result = match analysis.get("result") {
        Some(r) => r,
        None => {
            return Err(
                ErrorReport::msg("Broker response invalid: missing account.brokerPortfolio.portfolioAnalysis.result"),
            );
        },
    };
    let empty: Vec<Json> = Vec::new();
    let invalid = items_or_empty_exec(analysis.get("invalidSecurities"), &empty);
    let mut out = ObjectBuilder::new();
    out.add("account_id", Json::Str(input.account_id().to_owned()));
    out.add("portfolio_id", Json::Str(input.portfolio_id().to_owned()));
    out.add("analysis_type", field_or_null(analysis, "type"));
    out.add("portfolio_coverage", field_or_null(analysis, "portfolioCoverage"));
    out.add("invalid_securities_count", unsigned_json(invalid.len() as u64));
    out.add("invalid_securities", map_security_refs(invalid));
    out.add("result_id", field_or_null(result, "id"));
    out.add("last_updated_utc", timestamp_value_or_null(result.get("lastUpdated")));
    out.add("health_checks", map_health_checks(section_items_exec(result, "healthChecks", &empty)));
    out.add("scenarios", map_portfolio_scenarios(section_items_exec(result, "scenarios", &empty)));
    out.add("allocations", map_portfolio_allocations(section_items_exec(result, "allocations", &empty)));
    out.add("equity_company_styles", map_equity_company_styles(result.get("equityCompanyStyles")));
    out.add("fixed_income_ratings", map_fixed_income_ratings(result.get("fixedIncomeRatings")));
    out.add("payments", map_payments(result.get("payments")));
    out.add("trial_period", map_trial_period(result.get("trialPeriod")));
    proof {
        assert(out.members() =~= spec_analytics_response(*input, *response)->Ok_0->Object_0);
    }
    Ok(out.build())
}

} // verus!
