//! The variables of the overnight savings account queries, and the text of
//! an account summary.
use vstd::prelude::*;

use crate::error_report::{plain_errors};
use crate::broker_queries::opt_views;
use crate::broker_variables::{
    jnum, jstr, opt_jnum, opt_jstr, opt_number_json, opt_str_array, opt_string_array_json,
    opt_string_json, unsigned_json,
};
use crate::error_report::ErrorReport;
use crate::group_render::{display_value, spec_display_value};
use crate::json::{Json, JsonView, ObjectBuilder};
use crate::overnight::{
    required_non_empty, spec_required_non_empty, OvernightSummaryInput, OvernightTransactionsInput,
};
use crate::projections::json_result;
use crate::text::{opt_str, push_str_chars, string_of, views};

verus! {

/// The variables of the account discovery query: the account id, trimmed
/// and required.
pub open spec fn spec_overnight_discovery_variables(account_id: Seq<char>) -> Result<JsonView, Seq<char>> {
    match spec_required_non_empty(account_id, "account_id"@) {
        Err(m) => Err(m),
        Ok(a) => Ok(JsonView::Object(seq![("accountId"@, jstr(a))])),
    }
}

pub fn overnight_discovery_variables(account_id: &str) -> (res: Result<Json, ErrorReport>)
    ensures
        plain_errors(res),
        json_result(res) == spec_overnight_discovery_variables(account_id@),
{
    let a = required_non_empty(account_id, "account_id")?;
    let mut out = ObjectBuilder::new();
    out.add("accountId", Json::Str(a));
    proof {
        assert(out.members() =~= spec_overnight_discovery_variables(account_id@)->Ok_0->Object_0);
    }
    Ok(out.build())
}

/// The variables of the summary query: both ids, trimmed and required.
pub open spec fn spec_overnight_summary_variables(input: OvernightSummaryInput) -> Result<
    JsonView,
    Seq<char>,
> {
    match spec_required_non_empty(input.spec_account_id(), "account_id"@) {
        Err(m) => Err(m),
        Ok(a) => match spec_required_non_empty(input.spec_savings_account_id(), "savings_account_id"@) {
            Err(m) => Err(m),
            Ok(s) => Ok(JsonView::Object(seq![("accountId"@, jstr(a)), ("savingsAccountId"@, jstr(s))])),
        },
    }
}

pub fn overnight_summary_variables(input: &OvernightSummaryInput) -> (res: Result<Json, ErrorReport>)
    ensures
        plain_errors(res),
        json_result(res) == spec_overnight_summary_variables(*input),
{
    let a = required_non_empty(input.account_id(), "account_id")?;
    let s = required_non_empty(input.savings_account_id(), "savings_account_id")?;
    let mut out = ObjectBuilder::new();
    out.add("accountId", Json::Str(a));
    out.add("savingsAccountId", Json::Str(s));
    proof {
        assert(out.members() =~= spec_overnight_summary_variables(*input)->Ok_0->Object_0);
    }
    Ok(out.build())
}

/// The variables of the transactions query: the ids and the checked list
/// options.
pub open spec fn spec_overnight_transactions_variables(input: OvernightTransactionsInput) -> JsonView {
    let o = input.spec_options();
    JsonView::Object(
        seq![
            ("accountId"@, jstr(input.spec_account_id())),
            ("savingsAccountId"@, jstr(input.spec_savings_account_id())),
            (
                "input"@,
                JsonView::Object(
                    seq![
                        ("pageSize"@, jnum(o.page_size as int)),
                        ("cursor"@, opt_jstr(opt_str(o.cursor))),
                        ("type"@, opt_str_array(opt_views(o.type_filter))),
                        ("searchTerm"@, opt_jstr(opt_str(o.search_term))),
                        ("fromTime"@, opt_jnum(crate::broker_queries::opt_int(o.from_time_seconds))),
                        ("toTime"@, opt_jnum(crate::broker_queries::opt_int(o.to_time_seconds))),
                    ],
                ),
            ),
        ],
    )
}

pub fn overnight_transactions_variables(input: &OvernightTransactionsInput) -> (res: Json)
    ensures
        res@ == spec_overnight_transactions_variables(*input),
{
    let o = input.options();
    let mut inner = ObjectBuilder::new();
    inner.add("pageSize", unsigned_json(o.page_size as u64));
    inner.add("cursor", opt_string_json(&o.cursor));
    inner.add("type", opt_string_array_json(&o.type_filter));
    inner.add("searchTerm", opt_string_json(&o.search_term));
    inner.add("fromTime", opt_number_json(o.from_time_seconds));
    inner.add("toTime", opt_number_json(o.to_time_seconds));
    let mut out = ObjectBuilder::new();
    out.add("accountId", Json::Str(input.account_id().to_owned()));
    out.add("savingsAccountId", Json::Str(input.savings_account_id().to_owned()));
    proof {
        assert(inner.members() =~= spec_overnight_transactions_variables(*input)->Object_0[2].1->Object_0);
    }
    out.add("input", inner.build());
    proof {
        assert(out.members() =~= spec_overnight_transactions_variables(*input)->Object_0);
    }
    out.build()
}

/// The text of an account summary: one line per figure, `<none>` where one
/// is missing.
pub open spec fn spec_render_overnight_summary_text(payload: Json) -> Seq<Seq<char>> {
    let account = payload.spec_get("account"@);
    let result = payload.spec_get("result"@);
    seq![
        "savings_account_id: "@ + spec_display_value(payload.spec_get("savings_account_id"@)),
        "account_name: "@ + spec_display_value(crate::json::opt_get(account, "display_name"@)),
        "owner_kind: "@ + spec_display_value(crate::json::opt_get(account, "owner_kind"@)),
        "interest_rate: "@ + spec_display_value(crate::json::opt_get(result, "interest_rate"@)),
        "balance: "@ + spec_display_value(crate::json::opt_get(result, "balance"@)),
        "current_interest_bearing_amount: "@ + spec_display_value(
            crate::json::opt_get(result, "current_interest_bearing_amount"@),
        ),
        "current_accrued_amount: "@ + spec_display_value(
            crate::json::opt_get(result, "current_accrued_amount"@),
        ),
        "estimated_next_payout_amount: "@ + spec_display_value(
            crate::json::opt_get(result, "estimated_next_payout_amount"@),
        ),
        "next_payout_date: "@ + spec_display_value(crate::json::opt_get(result, "next_payout_date"@)),
        "deposit_accrued_lifetime_amount: "@ + spec_display_value(
            crate::json::opt_get(result, "deposit_accrued_lifetime_amount"@),
        ),
    ]
}

fn summary_line(label: &str, value: Option<&Json>) -> (res: String)
    ensures
        res@ == label@ + spec_display_value(crate::json::opt_ref(value)),
{
    let shown = display_value(value);
    let mut text: Vec<char> = Vec::new();
    push_str_chars(&mut text, label);
    push_str_chars(&mut text, shown.as_str());
    string_of(&text)
}

fn member_of<'a>(value: Option<&'a Json>, key: &str) -> (res: Option<&'a Json>)
    ensures
        crate::json::opt_ref(res) == crate::json::opt_get(crate::json::opt_ref(value), key@),
{
    match value {
        Some(v) => v.get(key),
        None => None,
    }
}

pub fn render_overnight_summary_text(payload: &Json) -> (res: Vec<String>)
    ensures
        views(res@) == spec_render_overnight_summary_text(*payload),
{
    let account = payload.get("account");
    let result = payload.get("result");
    let lines: Vec<String> = vec![
        summary_line("savings_account_id: ", payload.get("savings_account_id")),
        summary_line("account_name: ", member_of(account, "display_name")),
        summary_line("owner_kind: ", member_of(account, "owner_kind")),
        summary_line("interest_rate: ", member_of(result, "interest_rate")),
        summary_line("balance: ", member_of(result, "balance")),
        summary_line("current_interest_bearing_amount: ", member_of(result, "current_interest_bearing_amount")),
        summary_line("current_accrued_amount: ", member_of(result, "current_accrued_amount")),
        summary_line("estimated_next_payout_amount: ", member_of(result, "estimated_next_payout_amount")),
        summary_line("next_payout_date: ", member_of(result, "next_payout_date")),
        summary_line("deposit_accrued_lifetime_amount: ", member_of(result, "deposit_accrued_lifetime_amount")),
    ];
    proof {
        assert(views(lines@) =~= spec_render_overnight_summary_text(*payload));
    }
    lines
}

} // verus!
