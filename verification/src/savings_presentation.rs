//! The cost disclosure shown before a savings plan is created: the
//! presentation object, and its human-readable text.
use vstd::prelude::*;

use crate::error_report::{plain_errors};
use crate::broker_variables::{jstr, str_array};
use crate::error_report::ErrorReport;
use crate::fingerprint::{canonical, canonicalize_json};
use crate::json::{
    compact_json_text, json_text, json_view, lemma_members_view_push, members_view, opt_as_str,
    ArrayBuilder, Json, JsonView, ObjectBuilder,
};
use crate::projections::{get_or_null, json_result};
use crate::text::{push_chars, push_str_chars, string_of, views};

verus! {

pub const PRESENTATION_FORMAT: &'static str = "markdown_sections";

pub const COMPLIANCE_RULE_ID: &'static str = "savings_plan_ex_ante_full_disclosure_v1";

pub const CONFIRMATION_INSTRUCTION: &'static str = "Present every value in this disclosure to the client in a human-readable summary. Obtain an explicit affirmative confirmation in a separate interaction before running phase 2.";

pub const CLOSING_INSTRUCTION: &'static str = "Present every value above to the client, then obtain an explicit affirmative confirmation in a separate interaction before running the printed phase-2 command.";

/// The value paths a client must be shown, every cost value among them.
pub open spec fn spec_required_leaf_paths() -> Seq<Seq<char>> {
    seq![
        "savings_plan.security.isin"@,
        "savings_plan.amount"@,
        "savings_plan.effective_configuration.frequency"@,
        "savings_plan.effective_configuration.day_of_month"@,
        "savings_plan.effective_configuration.year_month"@,
        "savings_plan.effective_configuration.dynamization_rate"@,
        "savings_plan.effective_configuration.payment_method"@,
        "savings_plan.cost_venue"@,
        "ex_ante_costs.id"@,
        "ex_ante_costs.entryCosts.productCosts.amount"@,
        "ex_ante_costs.entryCosts.productCosts.percentage"@,
        "ex_ante_costs.entryCosts.serviceCosts.amount"@,
        "ex_ante_costs.entryCosts.serviceCosts.percentage"@,
        "ex_ante_costs.entryCosts.total.amount"@,
        "ex_ante_costs.entryCosts.total.percentage"@,
        "ex_ante_costs.ongoingCosts.productCosts.amount"@,
        "ex_ante_costs.ongoingCosts.productCosts.percentage"@,
        "ex_ante_costs.ongoingCosts.serviceCosts.amount"@,
        "ex_ante_costs.ongoingCosts.serviceCosts.percentage"@,
        "ex_ante_costs.ongoingCosts.total.amount"@,
        "ex_ante_costs.ongoingCosts.total.percentage"@,
        "ex_ante_costs.exitCosts.productCosts.amount"@,
        "ex_ante_costs.exitCosts.productCosts.percentage"@,
        "ex_ante_costs.exitCosts.serviceCosts.amount"@,
        "ex_ante_costs.exitCosts.serviceCosts.percentage"@,
        "ex_ante_costs.exitCosts.total.amount"@,
        "ex_ante_costs.exitCosts.total.percentage"@,
        "ex_ante_costs.effectOnReturn.initialYearCosts.amount"@,
        "ex_ante_costs.effectOnReturn.initialYearCosts.percentage"@,
        "ex_ante_costs.effectOnReturn.followingYearsCosts.amount"@,
        "ex_ante_costs.effectOnReturn.followingYearsCosts.percentage"@,
        "ex_ante_costs.effectOnReturn.finalYearCosts.amount"@,
        "ex_ante_costs.effectOnReturn.finalYearCosts.percentage"@,
        "ex_ante_costs.fiveYearsCosts.amount"@,
        "ex_ante_costs.fiveYearsCosts.percentage"@,
        "ex_ante_costs.incidentalCosts.amount"@,
        "ex_ante_costs.incidentalCosts.percentage"@,
        "confirmation.id"@,
        "confirmation.expires_at_epoch"@,
        "confirmation.command_template"@,
        "confirmation.instruction"@,
    ]
}

pub fn required_leaf_paths() -> (res: Vec<String>)
    ensures
        views(res@) == spec_required_leaf_paths(),
{
    let res: Vec<String> = vec![
        "savings_plan.security.isin".to_owned(),
        "savings_plan.amount".to_owned(),
        "savings_plan.effective_configuration.frequency".to_owned(),
        "savings_plan.effective_configuration.day_of_month".to_owned(),
        "savings_plan.effective_configuration.year_month".to_owned(),
        "savings_plan.effective_configuration.dynamization_rate".to_owned(),
        "savings_plan.effective_configuration.payment_method".to_owned(),
        "savings_plan.cost_venue".to_owned(),
        "ex_ante_costs.id".to_owned(),
        "ex_ante_costs.entryCosts.productCosts.amount".to_owned(),
        "ex_ante_costs.entryCosts.productCosts.percentage".to_owned(),
        "ex_ante_costs.entryCosts.serviceCosts.amount".to_owned(),
        "ex_ante_costs.entryCosts.serviceCosts.percentage".to_owned(),
        "ex_ante_costs.entryCosts.total.amount".to_owned(),
        "ex_ante_costs.entryCosts.total.percentage".to_owned(),
        "ex_ante_costs.ongoingCosts.productCosts.amount".to_owned(),
        "ex_ante_costs.ongoingCosts.productCosts.percentage".to_owned(),
        "ex_ante_costs.ongoingCosts.serviceCosts.amount".to_owned(),
        "ex_ante_costs.ongoingCosts.serviceCosts.percentage".to_owned(),
        "ex_ante_costs.ongoingCosts.total.amount".to_owned(),
        "ex_ante_costs.ongoingCosts.total.percentage".to_owned(),
        "ex_ante_costs.exitCosts.productCosts.amount".to_owned(),
        "ex_ante_costs.exitCosts.productCosts.percentage".to_owned(),
        "ex_ante_costs.exitCosts.serviceCosts.amount".to_owned(),
        "ex_ante_costs.exitCosts.serviceCosts.percentage".to_owned(),
        "ex_ante_costs.exitCosts.total.amount".to_owned(),
        "ex_ante_costs.exitCosts.total.percentage".to_owned(),
        "ex_ante_costs.effectOnReturn.initialYearCosts.amount".to_owned(),
        "ex_ante_costs.effectOnReturn.initialYearCosts.percentage".to_owned(),
        "ex_ante_costs.effectOnReturn.followingYearsCosts.amount".to_owned(),
        "ex_ante_costs.effectOnReturn.followingYearsCosts.percentage".to_owned(),
        "ex_ante_costs.effectOnReturn.finalYearCosts.amount".to_owned(),
        "ex_ante_costs.effectOnReturn.finalYearCosts.percentage".to_owned(),
        "ex_ante_costs.fiveYearsCosts.amount".to_owned(),
        "ex_ante_costs.fiveYearsCosts.percentage".to_owned(),
        "ex_ante_costs.incidentalCosts.amount".to_owned(),
        "ex_ante_costs.incidentalCosts.percentage".to_owned(),
        "confirmation.id".to_owned(),
        "confirmation.expires_at_epoch".to_owned(),
        "confirmation.command_template".to_owned(),
        "confirmation.instruction".to_owned(),
    ];
    proof {
        assert(views(res@) =~= spec_required_leaf_paths());
    }
    res
}

/// The presentation of a savings plan's costs before it is confirmed: the
/// plan, its costs as the broker gave them, and the confirmation to ask for;
/// the confirmation needs a non-empty id.
pub open spec fn spec_build_phase1_presentation(
    security: JsonView,
    amount: Seq<char>,
    effective_configuration: JsonView,
    venue: Seq<char>,
    costs: JsonView,
    confirmation: Json,
) -> Result<JsonView, Seq<char>> {
    match opt_as_str(confirmation.spec_get("id"@)) {
        Some(id) => if id.len() > 0 {
            Ok(
                JsonView::Object(
                    seq![
                        ("format"@, jstr(PRESENTATION_FORMAT@)),
                        (
                            "section_order"@,
                            str_array(seq!["savings_plan"@, "ex_ante_costs"@, "confirmation"@]),
                        ),
                        ("required_leaf_paths"@, str_array(spec_required_leaf_paths())),
                        (
                            "savings_plan"@,
                            JsonView::Object(
                                seq![
                                    ("security"@, security),
                                    ("amount"@, jstr(amount)),
                                    ("effective_configuration"@, effective_configuration),
                                    ("cost_venue"@, jstr(venue)),
                                ],
                            ),
                        ),
                        ("ex_ante_costs"@, costs),
                        (
                            "confirmation"@,
                            JsonView::Object(
                                seq![
                                    ("id"@, jstr(id)),
                                    ("expires_at_epoch"@, get_or_null(confirmation, "expires_at_epoch"@)),
                                    ("command_template"@, get_or_null(confirmation, "command_template"@)),
                                    ("instruction"@, jstr(CONFIRMATION_INSTRUCTION@)),
                                ],
                            ),
                        ),
                    ],
                ),
            )
        } else {
            Err("SAVINGS_PLAN_EX_ANTE_COST_UNAVAILABLE: missing confirmation id"@)
        },
        None => Err("SAVINGS_PLAN_EX_ANTE_COST_UNAVAILABLE: missing confirmation id"@),
    }
}

pub fn build_phase1_presentation(
    security: &Json,
    amount: &str,
    effective_configuration: &Json,
    venue: &str,
    costs: &Json,
    confirmation: &Json,
) -> (res: Result<Json, ErrorReport>)
    ensures
        plain_errors(res),
        json_result(res) == spec_build_phase1_presentation(
            security@,
            amount@,
            effective_configuration@,
            venue@,
            costs@,
            *confirmation,
        ),
{
    let id: &str = match confirmation.get("id") {
        Some(v) => match v.as_str() {
            Some(i) => i,
            None => {
                return Err(ErrorReport::msg("SAVINGS_PLAN_EX_ANTE_COST_UNAVAILABLE: missing confirmation id"));
            },
        },
        None => {
            return Err(ErrorReport::msg("SAVINGS_PLAN_EX_ANTE_COST_UNAVAILABLE: missing confirmation id"));
        },
    };
    if crate::text::chars_of(id).len() == 0 {
        return Err(ErrorReport::msg("SAVINGS_PLAN_EX_ANTE_COST_UNAVAILABLE: missing confirmation id"));
    }
    let mut order: Vec<String> = Vec::new();
    order.push("savings_plan".to_owned());
    order.push("ex_ante_costs".to_owned());
    order.push("confirmation".to_owned());
    proof {
        assert(views(order@) =~= seq!["savings_plan"@, "ex_ante_costs"@, "confirmation"@]);
    }
    let paths = required_leaf_paths();
    let mut plan = ObjectBuilder::new();
    plan.add("security", security.duplicate());
    plan.add("amount", Json::Str(amount.to_owned()));
    plan.add("effective_configuration", effective_configuration.duplicate());
    plan.add("cost_venue", Json::Str(venue.to_owned()));
    let mut confirm = ObjectBuilder::new();
    confirm.add("id", Json::Str(id.to_owned()));
    confirm.add("expires_at_epoch", crate::projections::field_or_null(confirmation, "expires_at_epoch"));
    confirm.add("command_template", crate::projections::field_or_null(confirmation, "command_template"));
    confirm.add("instruction", Json::Str(CONFIRMATION_INSTRUCTION.to_owned()));
    proof {
        assert(plan.members() =~= seq![
            ("security"@, security@),
            ("amount"@, jstr(amount@)),
            ("effective_configuration"@, effective_configuration@),
            ("cost_venue"@, jstr(venue@)),
        ]);
        assert(confirm.members() =~= seq![
            ("id"@, jstr(id@)),
            ("expires_at_epoch"@, get_or_null(*confirmation, "expires_at_epoch"@)),
            ("command_template"@, get_or_null(*confirmation, "command_template"@)),
            ("instruction"@, jstr(CONFIRMATION_INSTRUCTION@)),
        ]);
    }
    let mut out = ObjectBuilder::new();
    out.add("format", Json::Str(PRESENTATION_FORMAT.to_owned()));
    out.add("section_order", crate::broker_variables::string_array_json(&order));
    out.add("required_leaf_paths", crate::broker_variables::string_array_json(&paths));
    out.add("savings_plan", plan.build());
    out.add("ex_ante_costs", costs.duplicate());
    out.add("confirmation", confirm.build());
    proof {
        assert(out.members() =~= spec_build_phase1_presentation(
            security@,
            amount@,
            effective_configuration@,
            venue@,
            costs@,
            *confirmation,
        )->Ok_0->Object_0);
    }
    Ok(out.build())
}

// ---------------------------------------------------------------------------
// The text of the disclosure
// ---------------------------------------------------------------------------

/// `key: ` before a value, or nothing.
pub open spec fn label(key: Option<Seq<char>>) -> Seq<char> {
    match key {
        Some(k) => k + ": "@,
        None => Seq::empty(),
    }
}

/// The lines of a value: an object's members one by one (under a heading
/// where the object has a key, indented one step further), anything else on
/// one line.
pub open spec fn render_value(v: JsonView, indent: Seq<char>, key: Option<Seq<char>>) -> Seq<
    Seq<char>,
>
    decreases v, 0int,
{
    match v {
        JsonView::Object(ms) => match key {
            Some(k) => seq![indent + k + ":"@] + render_members(ms, indent + "  "@),
            None => render_members(ms, indent),
        },
        JsonView::Str(s) => seq![indent + label(key) + s],
        JsonView::Bool(b) => seq![indent + label(key) + if b {
            "true"@
        } else {
            "false"@
        }],
        JsonView::Null => seq![indent + label(key) + "null"@],
        _ => seq![indent + label(key) + compact_json_text(v)],
    }
}

pub open spec fn render_members(ms: Seq<(Seq<char>, JsonView)>, indent: Seq<char>) -> Seq<Seq<char>>
    decreases ms, 1int,
{
    if ms.len() == 0 {
        Seq::empty()
    } else {
        render_value(ms[0].1, indent, Some(ms[0].0)) + render_members(
            ms.subrange(1, ms.len() as int),
            indent,
        )
    }
}

proof fn lemma_render_members_push(
    ms: Seq<(Seq<char>, JsonView)>,
    x: (Seq<char>, JsonView),
    indent: Seq<char>,
)
    ensures
        render_members(ms.push(x), indent) == render_members(ms, indent) + render_value(
            x.1,
            indent,
            Some(x.0),
        ),
    decreases ms.len(),
{
    let all = ms.push(x);
    if ms.len() == 0 {
        assert(all.subrange(1, all.len() as int) =~= Seq::<(Seq<char>, JsonView)>::empty());
        assert(render_members(Seq::<(Seq<char>, JsonView)>::empty(), indent) == Seq::<Seq<char>>::empty());
        assert(all[0] == x);
        assert(render_members(all, indent) =~= render_value(x.1, indent, Some(x.0)));
        assert(render_members(ms, indent) =~= Seq::<Seq<char>>::empty());
    } else {
        let rest = ms.subrange(1, ms.len() as int);
        assert(all.subrange(1, all.len() as int) =~= rest.push(x));
        lemma_render_members_push(rest, x, indent);
        assert(all[0] == ms[0]);
        assert(render_members(all, indent) =~= render_members(ms, indent) + render_value(
            x.1,
            indent,
            Some(x.0),
        ));
    }
}

fn push_line(lines: &mut Vec<String>, line: String)
    ensures
        views(final(lines)@) == views(old(lines)@).push(line@),
{
    let ghost before = lines@;
    lines.push(line);
    proof {
        assert(views(lines@) =~= views(before).push(line@));
    }
}

fn line_of(indent: &Vec<char>, key: Option<&str>, value: &str) -> (res: String)
    ensures
        res@ == indent@ + label(crate::text::opt_slice(key)) + value@,
{
    let mut text: Vec<char> = Vec::new();
    push_chars(&mut text, indent);
    match key {
        Some(k) => {
            push_str_chars(&mut text, k);
            push_str_chars(&mut text, ": ");
        },
        None => {},
    }
    push_str_chars(&mut text, value);
    proof {
        assert(text@ =~= indent@ + label(crate::text::opt_slice(key)) + value@);
    }
    string_of(&text)
}

fn append_value_lines(lines: &mut Vec<String>, value: &Json, indent: &Vec<char>, key: Option<&str>)
    ensures
        views(final(lines)@) == views(old(lines)@) + render_value(
            value@,
            indent@,
            crate::text::opt_slice(key),
        ),
    decreases value,
{
    match value {
        Json::Object(fields) => {
            let child: Vec<char> = match key {
                Some(k) => {
                    let mut head: Vec<char> = Vec::new();
                    push_chars(&mut head, indent);
                    push_str_chars(&mut head, k);
                    push_str_chars(&mut head, ":");
                    push_line(lines, string_of(&head));
                    let mut deeper: Vec<char> = Vec::new();
                    push_chars(&mut deeper, indent);
                    push_str_chars(&mut deeper, "  ");
                    deeper
                },
                None => {
                    let mut same: Vec<char> = Vec::new();
                    push_chars(&mut same, indent);
                    same
                },
            };
            let ghost start = views(lines@);
            let mut i: usize = 0;
            proof {
                assert(fields@.take(0) =~= Seq::<(String, Json)>::empty());
                assert(members_view(fields@.take(0)) =~= Seq::<(Seq<char>, JsonView)>::empty());
                assert(render_members(Seq::<(Seq<char>, JsonView)>::empty(), child@) =~= Seq::<
                    Seq<char>,
                >::empty());
                assert(views(lines@) =~= start + render_members(members_view(fields@.take(0)), child@));
            }
            while i < fields.len()
                invariant
                    i <= fields.len(),
                    *value == Json::Object(*fields),
                    views(lines@) == start + render_members(members_view(fields@.take(i as int)), child@),
                decreases fields.len() - i,
            {
                proof {
                    assert(decreases_to!(*value => value->Object_0));
                    assert(decreases_to!(value->Object_0 => value->Object_0@));
                    assert(decreases_to!(fields@ => fields@[i as int]));
                    assert(decreases_to!(fields@[i as int] => fields@[i as int].1));
                    assert(decreases_to!(*value => fields@[i as int].1));
                    assert(fields@.take(i + 1) =~= fields@.take(i as int).push(fields@[i as int]));
                    lemma_members_view_push(fields@.take(i as int), fields@[i as int]);
                    lemma_render_members_push(
                        members_view(fields@.take(i as int)),
                        (fields@[i as int].0@, json_view(fields@[i as int].1)),
                        child@,
                    );
                }
                append_value_lines(lines, &fields[i].1, &child, Some(fields[i].0.as_str()));
                i = i + 1;
            }
            proof {
                assert(fields@.take(fields.len() as int) =~= fields@);
                reveal_strlit(":");
                reveal_strlit("  ");
            }
        },
        Json::Str(s) => {
            push_line(lines, line_of(indent, key, s.as_str()));
        },
        Json::Bool(b) => {
            if *b {
                push_line(lines, line_of(indent, key, "true"));
            } else {
                push_line(lines, line_of(indent, key, "false"));
            }
        },
        Json::Null => {
            push_line(lines, line_of(indent, key, "null"));
        },
        other => {
            let text = json_text(other);
            push_line(lines, line_of(indent, key, text.as_str()));
        },
    }
}

/// The lines of one section of the disclosure.
pub open spec fn section_lines(title: Seq<char>, value: Option<Json>) -> Seq<Seq<char>> {
    seq![title + ":"@] + match value {
        Some(v) => render_value(canonical(v@), "  "@, None),
        None => seq!["  <missing>"@],
    }
}

fn append_section(lines: &mut Vec<String>, title: &str, value: Option<&Json>)
    ensures
        views(final(lines)@) == views(old(lines)@) + section_lines(title@, crate::json::opt_ref(value)),
{
    let ghost start = views(lines@);
    let mut head: Vec<char> = Vec::new();
    push_str_chars(&mut head, title);
    push_str_chars(&mut head, ":");
    push_line(lines, string_of(&head));
    match value {
        Some(v) => {
            let sorted = canonicalize_json(v);
            let mut indent: Vec<char> = Vec::new();
            push_str_chars(&mut indent, "  ");
            append_value_lines(lines, &sorted, &indent, None);
        },
        None => {
            push_line(lines, "  <missing>".to_owned());
        },
    }
    proof {
        reveal_strlit(":");
        reveal_strlit("  ");
        assert(views(lines@) =~= start + section_lines(title@, crate::json::opt_ref(value)));
    }
}

/// Where the presentation is: under `result.presentation`, under
/// `presentation`, or the payload itself.
pub open spec fn presentation_of(payload: Json) -> Json {
    match crate::json::opt_get(payload.spec_get("result"@), "presentation"@) {
        Some(p) => p,
        None => match payload.spec_get("presentation"@) {
            Some(p) => p,
            None => payload,
        },
    }
}

/// The text of the disclosure: a title, the plan, the costs and the
/// confirmation, each under a heading with its members sorted by key, and
/// the instruction to the client.
pub open spec fn spec_render_phase1_text(payload: Json) -> Seq<Seq<char>> {
    let p = presentation_of(payload);
    seq!["Savings-plan ex-ante cost disclosure"@, Seq::empty()] + section_lines(
        "Savings plan"@,
        p.spec_get("savings_plan"@),
    ) + seq![Seq::empty()] + section_lines("Ex-ante costs"@, p.spec_get("ex_ante_costs"@))
        + seq![Seq::empty()] + section_lines("Confirmation"@, p.spec_get("confirmation"@)) + seq![
        Seq::empty(),
        CLOSING_INSTRUCTION@,
    ]
}

pub fn render_phase1_text(payload: &Json) -> (res: Vec<String>)
    ensures
        views(res@) == spec_render_phase1_text(*payload),
{
    let nested = match payload.get("result") {
        Some(r) => r.get("presentation"),
        None => None,
    };
    let presentation = match nested {
        Some(p) => p,
        None => match payload.get("presentation") {
            Some(p) => p,
            None => payload,
        },
    };
    let mut lines: Vec<String> = Vec::new();
    push_line(&mut lines, "Savings-plan ex-ante cost disclosure".to_owned());
    push_line(&mut lines, String::new());
    let ghost l0 = views(lines@);
    append_section(&mut lines, "Savings plan", presentation.get("savings_plan"));
    let ghost l1 = views(lines@);
    push_line(&mut lines, String::new());
    append_section(&mut lines, "Ex-ante costs", presentation.get("ex_ante_costs"));
    let ghost l2 = views(lines@);
    push_line(&mut lines, String::new());
    append_section(&mut lines, "Confirmation", presentation.get("confirmation"));
    let ghost l3 = views(lines@);
    push_line(&mut lines, String::new());
    push_line(&mut lines, CLOSING_INSTRUCTION.to_owned());
    proof {
        assert(l0 =~= seq!["Savings-plan ex-ante cost disclosure"@, Seq::<char>::empty()]);
        assert(views(lines@) =~= spec_render_phase1_text(*payload));
    }
    lines
}

} // verus!
