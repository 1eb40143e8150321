//! The human-readable text of the portfolio groups and of a change to them.
use vstd::prelude::*;

use crate::json::{compact_json_text, json_text, opt_as_str, opt_get, opt_ref, Json};
use crate::numbers::{decimal, u64_to_decimal};
use crate::text::{push_chars, push_str_chars, string_of, views};

verus! {

/// The text a value is shown as: `<none>` where it is missing or null, a
/// string as it is, anything else as compact JSON.
pub open spec fn spec_display_value(v: Option<Json>) -> Seq<char> {
    match v {
        None => "<none>"@,
        Some(Json::Null) => "<none>"@,
        Some(Json::Bool(b)) => if b {
            "true"@
        } else {
            "false"@
        },
        Some(Json::Str(s)) => s@,
        Some(other) => compact_json_text(other@),
    }
}

pub fn display_value(v: Option<&Json>) -> (res: String)
    ensures
        res@ == spec_display_value(opt_ref(v)),
{
    match v {
        None => "<none>".to_owned(),
        Some(Json::Null) => "<none>".to_owned(),
        Some(Json::Bool(b)) => if *b {
            "true".to_owned()
        } else {
            "false".to_owned()
        },
        Some(Json::Str(s)) => s.clone(),
        Some(other) => json_text(other),
    }
}

/// A currency that is present and not empty.
pub open spec fn shown_currency(currency: Option<Seq<char>>) -> Option<Seq<char>> {
    match currency {
        Some(c) => if c.len() > 0 {
            Some(c)
        } else {
            None
        },
        None => None,
    }
}

/// The text an amount is shown as: like any value, followed by the currency
/// where one is known.
pub open spec fn spec_display_money(v: Option<Json>, currency: Option<Seq<char>>) -> Seq<char> {
    match v {
        None => "<none>"@,
        Some(Json::Null) => "<none>"@,
        Some(value) => {
            let shown = match value {
                Json::Str(raw) => raw@,
                other => compact_json_text(other@),
            };
            match shown_currency(currency) {
                Some(c) => shown + " "@ + c,
                None => shown,
            }
        },
    }
}

pub fn display_money(v: Option<&Json>, currency: Option<&str>) -> (res: String)
    ensures
        res@ == spec_display_money(opt_ref(v), crate::text::opt_slice(currency)),
{
    let value = match v {
        None => {
            return "<none>".to_owned();
        },
        Some(Json::Null) => {
            return "<none>".to_owned();
        },
        Some(value) => value,
    };
    let shown = match value {
        Json::Str(raw) => raw.clone(),
        other => json_text(other),
    };
    match currency {
        Some(c) => if is_non_empty(c) {
            let mut text: Vec<char> = Vec::new();
            push_str_chars(&mut text, shown.as_str());
            push_str_chars(&mut text, " ");
            push_str_chars(&mut text, c);
            string_of(&text)
        } else {
            shown
        },
        None => shown,
    }
}

/// A holding on one line: name, ISIN and type where one is given.
pub open spec fn spec_format_item(item: Json) -> Seq<char> {
    let name = spec_display_value(item.spec_get("name"@));
    let isin = spec_display_value(item.spec_get("isin"@));
    match opt_as_str(item.spec_get("security_type"@)) {
        Some(t) => if t.len() > 0 {
            name + " ("@ + isin + ", "@ + t + ")"@
        } else {
            name + " ("@ + isin + ")"@
        },
        None => name + " ("@ + isin + ")"@,
    }
}

pub fn format_item(item: &Json) -> (res: String)
    ensures
        res@ == spec_format_item(*item),
{
    let name = display_value(item.get("name"));
    let isin = display_value(item.get("isin"));
    let security_type = match item.get("security_type") {
        Some(v) => v.as_str(),
        None => None,
    };
    let mut text: Vec<char> = Vec::new();
    push_str_chars(&mut text, name.as_str());
    push_str_chars(&mut text, " (");
    push_str_chars(&mut text, isin.as_str());
    match security_type {
        Some(t) => if is_non_empty(t) {
            push_str_chars(&mut text, ", ");
            push_str_chars(&mut text, t);
        },
        None => {},
    }
    push_str_chars(&mut text, ")");
    proof {
        assert(text@ =~= spec_format_item(*item));
    }
    string_of(&text)
}

/// The items of an array, or none.
pub open spec fn array_or_empty(v: Option<Json>) -> Seq<Json> {
    match v {
        Some(Json::Array(items)) => items@,
        _ => Seq::empty(),
    }
}

fn array_or_empty_exec<'a>(v: Option<&'a Json>, empty: &'a Vec<Json>) -> (res: &'a Vec<Json>)
    requires
        empty@.len() == 0,
    ensures
        res@ == array_or_empty(opt_ref(v)),
{
    match v {
        Some(Json::Array(items)) => items,
        _ => {
            proof {
                assert(empty@ =~= Seq::<Json>::empty());
            }
            empty
        },
    }
}

/// Holdings as list lines.
pub open spec fn item_lines(items: Seq<Json>) -> Seq<Seq<char>> {
    items.map_values(|i: Json| "  - "@ + spec_format_item(i))
}

fn push_item_lines(lines: &mut Vec<String>, items: &Vec<Json>)
    ensures
        views(final(lines)@) == views(old(lines)@) + item_lines(items@),
{
    let ghost start = views(lines@);
    let mut i: usize = 0;
    proof {
        assert(item_lines(items@.take(0)) =~= Seq::<Seq<char>>::empty());
        assert(views(lines@) =~= start + item_lines(items@.take(0)));
    }
    while i < items.len()
        invariant
            i <= items.len(),
            views(lines@) == start + item_lines(items@.take(i as int)),
        decreases items.len() - i,
    {
        let mut text: Vec<char> = Vec::new();
        push_str_chars(&mut text, "  - ");
        let item_text = format_item(&items[i]);
        push_str_chars(&mut text, item_text.as_str());
        let line = string_of(&text);
        push_line(lines, line);
        proof {
            assert(item_lines(items@.take(i + 1)) =~= item_lines(items@.take(i as int)).push(
                "  - "@ + spec_format_item(items@[i as int]),
            ));
        }
        i = i + 1;
    }
    proof {
        assert(items@.take(items.len() as int) =~= items@);
    }
}

fn push_line(lines: &mut Vec<String>, line: String)
    ensures
        views(final(lines)@) == views(old(lines)@).push(line@),
{
    let ghost before = lines@;
    lines.push(line);
    proof {
        assert(views(lines@) =~= views(before).push(line@));
    }
}

fn is_non_empty(s: &str) -> (res: bool)
    ensures
        res == (s@.len() > 0),
{
    crate::text::chars_of(s).len() > 0
}

fn labeled(label: &str, value: &str) -> (res: String)
    ensures
        res@ == label@ + value@,
{
    let mut text: Vec<char> = Vec::new();
    push_str_chars(&mut text, label);
    push_str_chars(&mut text, value);
    string_of(&text)
}

fn count_line(label: &str, n: usize) -> (res: String)
    ensures
        res@ == label@ + decimal(n as nat),
{
    let mut text: Vec<char> = Vec::new();
    push_str_chars(&mut text, label);
    let digits = u64_to_decimal(n as u64);
    push_chars(&mut text, &digits);
    string_of(&text)
}

/// A present value that is not null.
pub open spec fn non_null(v: Option<Json>) -> Option<Json> {
    match v {
        Some(Json::Null) => None,
        other => other,
    }
}

/// The lines of one group.
pub open spec fn group_lines(group: Json) -> Seq<Seq<char>> {
    let items = array_or_empty(group.spec_get("items"@));
    let performance = non_null(group.spec_get("performance"@));
    let currency = opt_as_str(opt_get(performance, "currency"@));
    let since_buy = opt_get(performance, "since_buy"@);
    seq![
        ""@,
        "Group: "@ + spec_display_value(group.spec_get("name"@)) + " ("@ + spec_display_value(
            group.spec_get("group_id"@),
        ) + ")"@,
        "description: "@ + spec_display_value(group.spec_get("description"@)),
        "items: "@ + decimal(items.len()),
        "pending_orders: "@ + spec_display_value(group.spec_get("number_of_pending_orders"@)),
        "savings_plans_amount: "@ + spec_display_value(group.spec_get("savings_plans_amount"@)),
        "valuation: "@ + spec_display_money(opt_get(performance, "valuation"@), currency),
        "since_buy_performance: "@ + spec_display_value(opt_get(since_buy, "performance"@)),
        "since_buy_simple_absolute_return: "@ + spec_display_money(
            opt_get(since_buy, "simple_absolute_return"@),
            currency,
        ),
        "holdings:"@,
    ] + item_lines(items)
}

/// The lines of all groups, in order.
pub open spec fn all_group_lines(groups: Seq<Json>) -> Seq<Seq<char>>
    decreases groups.len(),
{
    if groups.len() == 0 {
        Seq::empty()
    } else {
        all_group_lines(groups.drop_last()) + group_lines(groups.last())
    }
}

fn push_group_lines(lines: &mut Vec<String>, group: &Json)
    ensures
        views(final(lines)@) == views(old(lines)@) + group_lines(*group),
{
    let ghost start = views(lines@);
    let empty: Vec<Json> = Vec::new();
    let items = array_or_empty_exec(group.get("items"), &empty);
    let performance = match group.get("performance") {
        Some(Json::Null) => None,
        other => other,
    };
    let currency = match performance {
        Some(p) => match p.get("currency") {
            Some(c) => c.as_str(),
            None => None,
        },
        None => None,
    };
    let since_buy = match performance {
        Some(p) => p.get("since_buy"),
        None => None,
    };
    let valuation = match performance {
        Some(p) => p.get("valuation"),
        None => None,
    };
    let since_performance = match since_buy {
        Some(s) => s.get("performance"),
        None => None,
    };
    let since_return = match since_buy {
        Some(s) => s.get("simple_absolute_return"),
        None => None,
    };
    let mut head: Vec<char> = Vec::new();
    push_str_chars(&mut head, "Group: ");
    let name = display_value(group.get("name"));
    push_str_chars(&mut head, name.as_str());
    push_str_chars(&mut head, " (");
    let id = display_value(group.get("group_id"));
    push_str_chars(&mut head, id.as_str());
    push_str_chars(&mut head, ")");
    push_line(lines, String::new());
    push_line(lines, string_of(&head));
    let description = display_value(group.get("description"));
    push_line(lines, labeled("description: ", description.as_str()));
    push_line(lines, count_line("items: ", items.len()));
    let pending = display_value(group.get("number_of_pending_orders"));
    push_line(lines, labeled("pending_orders: ", pending.as_str()));
    let savings = display_value(group.get("savings_plans_amount"));
    push_line(lines, labeled("savings_plans_amount: ", savings.as_str()));
    let valuation_text = display_money(valuation, currency);
    push_line(lines, labeled("valuation: ", valuation_text.as_str()));
    let perf_text = display_value(since_performance);
    push_line(lines, labeled("since_buy_performance: ", perf_text.as_str()));
    let return_text = display_money(since_return, currency);
    push_line(lines, labeled("since_buy_simple_absolute_return: ", return_text.as_str()));
    push_line(lines, "holdings:".to_owned());
    proof {
        reveal_strlit("");
        let v = views(lines@);
        assert(v.len() == start.len() + 10);
        assert(v[start.len() as int] == ""@);
        assert(v[start.len() + 1int] == "Group: "@ + spec_display_value(group.spec_get("name"@)) + " ("@ + spec_display_value(
                group.spec_get("group_id"@),
            ) + ")"@);
        assert(v[start.len() + 3int] == "items: "@ + decimal(items@.len()));
        assert(v[start.len() + 9int] == "holdings:"@);
        assert(views(lines@) =~= start + seq![
            ""@,
            "Group: "@ + spec_display_value(group.spec_get("name"@)) + " ("@ + spec_display_value(
                group.spec_get("group_id"@),
            ) + ")"@,
            "description: "@ + spec_display_value(group.spec_get("description"@)),
            "items: "@ + decimal(items@.len()),
            "pending_orders: "@ + spec_display_value(group.spec_get("number_of_pending_orders"@)),
            "savings_plans_amount: "@ + spec_display_value(group.spec_get("savings_plans_amount"@)),
            "valuation: "@ + spec_display_money(
                opt_get(non_null(group.spec_get("performance"@)), "valuation"@),
                opt_as_str(opt_get(non_null(group.spec_get("performance"@)), "currency"@)),
            ),
            "since_buy_performance: "@ + spec_display_value(
                opt_get(opt_get(non_null(group.spec_get("performance"@)), "since_buy"@), "performance"@),
            ),
            "since_buy_simple_absolute_return: "@ + spec_display_money(
                opt_get(
                    opt_get(non_null(group.spec_get("performance"@)), "since_buy"@),
                    "simple_absolute_return"@,
                ),
                opt_as_str(opt_get(non_null(group.spec_get("performance"@)), "currency"@)),
            ),
            "holdings:"@,
        ]);
    }
    push_item_lines(lines, items);
}

/// The text of the portfolio groups, as the command prints it; a payload may
/// wrap the groups in `result`.
pub open spec fn spec_render_portfolio_groups_text(payload: Json, filtered_to_group: bool) -> Seq<
    Seq<char>,
> {
    let result = match payload.spec_get("result"@) {
        Some(r) => r,
        None => payload,
    };
    let groups = array_or_empty(result.spec_get("portfolio_groups"@));
    let ungrouped = array_or_empty(result.spec_get("ungrouped_items"@));
    seq![
        "groups: "@ + decimal(groups.len()),
        "offer_allows_additional_group: "@ + spec_display_value(
            result.spec_get("offer_allows_additional_group"@),
        ),
        "max_groups_per_portfolio_reached: "@ + spec_display_value(
            result.spec_get("max_groups_per_portfolio_reached"@),
        ),
    ] + all_group_lines(groups) + if !filtered_to_group && ungrouped.len() > 0 {
        seq![""@, "Ungrouped"@, "items: "@ + decimal(ungrouped.len())] + item_lines(ungrouped)
    } else {
        Seq::empty()
    }
}

pub fn render_broker_portfolio_groups_text(payload: &Json, filtered_to_group: bool) -> (res: Vec<
    String,
>)
    ensures
        views(res@) == spec_render_portfolio_groups_text(*payload, filtered_to_group),
{
    let result = match payload.get("result") {
        Some(r) => r,
        None => payload,
    };
    let empty: Vec<Json> = Vec::new();
    let groups = array_or_empty_exec(result.get("portfolio_groups"), &empty);
    let ungrouped = array_or_empty_exec(result.get("ungrouped_items"), &empty);
    let mut lines: Vec<String> = Vec::new();
    push_line(&mut lines, count_line("groups: ", groups.len()));
    let offer = display_value(result.get("offer_allows_additional_group"));
    push_line(&mut lines, labeled("offer_allows_additional_group: ", offer.as_str()));
    let reached = display_value(result.get("max_groups_per_portfolio_reached"));
    push_line(&mut lines, labeled("max_groups_per_portfolio_reached: ", reached.as_str()));
    let ghost head = views(lines@);
    proof {
        assert(head =~= seq![
            "groups: "@ + decimal(groups@.len()),
            "offer_allows_additional_group: "@ + spec_display_value(
                result.spec_get("offer_allows_additional_group"@),
            ),
            "max_groups_per_portfolio_reached: "@ + spec_display_value(
                result.spec_get("max_groups_per_portfolio_reached"@),
            ),
        ]);
    }
    let mut i: usize = 0;
    proof {
        assert(groups@.take(0) =~= Seq::<Json>::empty());
        assert(views(lines@) =~= head + all_group_lines(groups@.take(0)));
    }
    while i < groups.len()
        invariant
            i <= groups.len(),
            views(lines@) == head + all_group_lines(groups@.take(i as int)),
        decreases groups.len() - i,
    {
        push_group_lines(&mut lines, &groups[i]);
        proof {
            assert(groups@.take(i + 1).drop_last() =~= groups@.take(i as int));
            assert(groups@.take(i + 1).last() == groups@[i as int]);
        }
        i = i + 1;
    }
    proof {
        assert(groups@.take(groups.len() as int) =~= groups@);
    }
    let ghost body = views(lines@);
    if !filtered_to_group && ungrouped.len() > 0 {
        push_line(&mut lines, String::new());
        push_line(&mut lines, "Ungrouped".to_owned());
        push_line(&mut lines, count_line("items: ", ungrouped.len()));
        proof {
            reveal_strlit("");
            let v = views(lines@);
            assert(v.len() == body.len() + 3);
            assert(v[body.len() as int] == ""@);
            assert(v[body.len() + 1int] == "Ungrouped"@);
            assert(v[body.len() + 2int] == "items: "@ + decimal(ungrouped@.len()));
            assert(views(lines@) =~= body + seq![""@, "Ungrouped"@, "items: "@ + decimal(ungrouped@.len())]);
        }
        push_item_lines(&mut lines, ungrouped);
        proof {
            reveal_strlit("");
            assert(views(lines@) =~= body + (seq![""@, "Ungrouped"@, "items: "@ + decimal(ungrouped@.len())]
                + item_lines(ungrouped@)));
        }
    } else {
        proof {
            assert(views(lines@) =~= body + Seq::<Seq<char>>::empty());
        }
    }
    proof {
        reveal_strlit("");
        assert(views(lines@) =~= spec_render_portfolio_groups_text(*payload, filtered_to_group));
    }
    lines
}

/// The text of a change to the portfolio groups: the action, what it named,
/// and the groups as they are afterwards where the payload holds them.
pub open spec fn spec_render_portfolio_groups_mutation_text(payload: Json) -> Seq<Seq<char>> {
    let result = match payload.spec_get("result"@) {
        Some(r) => r,
        None => payload,
    };
    seq!["action: "@ + spec_display_value(result.spec_get("action"@))] + (match result.spec_get(
        "group_id"@,
    ) {
        Some(g) => seq!["group_id: "@ + spec_display_value(Some(g))],
        None => Seq::empty(),
    }) + (match result.spec_get("name"@) {
        Some(n) => seq!["name: "@ + spec_display_value(Some(n))],
        None => Seq::empty(),
    }) + (match result.spec_get("description"@) {
        Some(d) => seq!["description: "@ + spec_display_value(Some(d))],
        None => Seq::empty(),
    }) + (match result.spec_get("isins"@) {
        Some(Json::Array(isins)) => seq![
            "isins: "@ + crate::text::join(string_items(isins@), ", "@),
        ],
        _ => Seq::empty(),
    }) + (match result.spec_get("portfolio_groups_state"@) {
        Some(state) => seq![""@] + spec_render_portfolio_groups_text(state, false),
        None => Seq::empty(),
    })
}

/// The strings among JSON values, in order.
pub open spec fn string_items(items: Seq<Json>) -> Seq<Seq<char>>
    decreases items.len(),
{
    if items.len() == 0 {
        Seq::empty()
    } else {
        string_items(items.drop_last()) + match items.last() {
            Json::Str(s) => seq![s@],
            _ => Seq::empty(),
        }
    }
}

fn string_item_values(items: &Vec<Json>) -> (res: Vec<String>)
    ensures
        views(res@) == string_items(items@),
{
    let mut out: Vec<String> = Vec::new();
    let mut i: usize = 0;
    proof {
        assert(items@.take(0) =~= Seq::<Json>::empty());
        assert(views(out@) =~= Seq::<Seq<char>>::empty());
    }
    while i < items.len()
        invariant
            i <= items.len(),
            views(out@) == string_items(items@.take(i as int)),
        decreases items.len() - i,
    {
        let ghost before = out@;
        match &items[i] {
            Json::Str(s) => {
                out.push(s.clone());
                proof {
                    assert(views(out@) =~= views(before).push(s@));
                }
            },
            _ => {},
        }
        proof {
            assert(items@.take(i + 1).drop_last() =~= items@.take(i as int));
            assert(items@.take(i + 1).last() == items@[i as int]);
            assert(views(out@) =~= string_items(items@.take(i + 1)));
        }
        i = i + 1;
    }
    proof {
        assert(items@.take(items.len() as int) =~= items@);
    }
    out
}

pub fn render_broker_portfolio_groups_mutation_text(payload: &Json) -> (res: Vec<String>)
    ensures
        views(res@) == spec_render_portfolio_groups_mutation_text(*payload),
{
    let result = match payload.get("result") {
        Some(r) => r,
        None => payload,
    };
    let mut lines: Vec<String> = Vec::new();
    let action = display_value(result.get("action"));
    push_line(&mut lines, labeled("action: ", action.as_str()));
    let ghost l1 = views(lines@);
    proof {
        assert(l1 =~= seq!["action: "@ + spec_display_value(result.spec_get("action"@))]);
    }
    match result.get("group_id") {
        Some(g) => {
            let t = display_value(Some(g));
            push_line(&mut lines, labeled("group_id: ", t.as_str()));
            proof {
                assert(views(lines@) =~= l1 + seq!["group_id: "@ + spec_display_value(Some(*g))]);
            }
        },
        None => {
            proof {
                assert(views(lines@) =~= l1 + Seq::<Seq<char>>::empty());
            }
        },
    }
    let ghost l2 = views(lines@);
    match result.get("name") {
        Some(n) => {
            let t = display_value(Some(n));
            push_line(&mut lines, labeled("name: ", t.as_str()));
            proof {
                assert(views(lines@) =~= l2 + seq!["name: "@ + spec_display_value(Some(*n))]);
            }
        },
        None => {
            proof {
                assert(views(lines@) =~= l2 + Seq::<Seq<char>>::empty());
            }
        },
    }
    let ghost l3 = views(lines@);
    match result.get("description") {
        Some(d) => {
            let t = display_value(Some(d));
            push_line(&mut lines, labeled("description: ", t.as_str()));
            proof {
                assert(views(lines@) =~= l3 + seq!["description: "@ + spec_display_value(Some(*d))]);
            }
        },
        None => {
            proof {
                assert(views(lines@) =~= l3 + Seq::<Seq<char>>::empty());
            }
        },
    }
    let ghost l4 = views(lines@);
    match result.get("isins") {
        Some(Json::Array(isins)) => {
            let values = string_item_values(isins);
            let joined = crate::text::join_strings(&values, ", ");
            push_line(&mut lines, labeled("isins: ", joined.as_str()));
            proof {
                assert(views(lines@) =~= l4 + seq!["isins: "@ + crate::text::join(string_items(isins@), ", "@)]);
            }
        },
        _ => {
            proof {
                assert(views(lines@) =~= l4 + Seq::<Seq<char>>::empty());
            }
        },
    }
    let ghost l5 = views(lines@);
    match result.get("portfolio_groups_state") {
        Some(state) => {
            let blank = String::new();
            proof {
                assert(blank@ == Seq::<char>::empty());
            }
            push_line(&mut lines, blank);
            proof {
                assert(views(lines@) == l5.push(Seq::<char>::empty()));
            }
            let rendered = render_broker_portfolio_groups_text(state, false);
            let ghost before = lines@;
            proof {
                assert(views(before) == l5.push(Seq::<char>::empty()));
                reveal_strlit("");
                assert(""@ == Seq::<char>::empty());
                assert(views(before) =~= l5 + seq![""@]);
            }
            let mut k: usize = 0;
            while k < rendered.len()
                invariant
                    k <= rendered.len(),
                    views(lines@) == views(before) + views(rendered@).take(k as int),
                decreases rendered.len() - k,
            {
                push_line(&mut lines, rendered[k].clone());
                proof {
                    assert(views(rendered@).take(k + 1) =~= views(rendered@).take(k as int).push(
                        rendered@[k as int]@,
                    ));
                }
                k = k + 1;
            }
            proof {
                reveal_strlit("");
                assert(views(rendered@).take(rendered.len() as int) =~= views(rendered@));
                assert(views(lines@) =~= l5 + (seq![""@] + spec_render_portfolio_groups_text(*state, false)));
            }
        },
        None => {
            proof {
                assert(views(lines@) =~= l5 + Seq::<Seq<char>>::empty());
            }
        },
    }
    proof {
        reveal_strlit("");
        assert(views(lines@) =~= spec_render_portfolio_groups_mutation_text(*payload));
    }
    lines
}

} // verus!
