//! Checking the acknowledgements of broker mutations, and reshaping the
//! savings plan answers, into the command line's result objects.
use vstd::prelude::*;

use crate::error_report::{plain_errors, plain_report};
use crate::broker_variables::jstr;
use crate::chart::text_report;
use crate::error_report::ErrorReport;
use crate::json::{opt_get, Json, JsonView, ObjectBuilder};
use crate::listings::{isin_mismatch_message, opt_field, opt_field_or_null, reported_isin};
use crate::projections::{field_or_null, get_or_null, json_result};
use crate::text::{push_str_chars, str_eq, string_of, trim, trim_chars};

verus! {

/// The error for a missing part of a mutation's answer.
pub open spec fn missing_message(field: Seq<char>, rest: Seq<char>) -> Seq<char> {
    "Broker response invalid: missing "@ + field + rest
}

fn missing_report(field: &str, rest: &str) -> (res: ErrorReport)
    ensures
        plain_report(res),
        res.messages() == seq![missing_message(field@, rest@)],
{
    let mut text: Vec<char> = Vec::new();
    push_str_chars(&mut text, "Broker response invalid: missing ");
    push_str_chars(&mut text, field);
    push_str_chars(&mut text, rest);
    proof {
        assert(text@ =~= missing_message(field@, rest@));
    }
    text_report(&text)
}

/// Whether a value is a string that is not blank.
pub open spec fn non_blank_text(o: Option<Json>) -> bool {
    match o {
        Some(Json::Str(s)) => trim(s@).len() > 0,
        _ => false,
    }
}

fn is_non_blank_text(o: Option<&Json>) -> (res: bool)
    ensures
        res == non_blank_text(crate::json::opt_ref(o)),
{
    match o {
        Some(Json::Str(s)) => trim_chars(s.as_str()).len() > 0,
        _ => false,
    }
}

// ---------------------------------------------------------------------------
// Watchlist
// ---------------------------------------------------------------------------

/// The answer to a watchlist change: it must name the security, with a
/// non-blank ISIN and whether it is on the watchlist now.
pub open spec fn spec_watchlist_mutation_response(
    action: Seq<char>,
    requested_isin: Seq<char>,
    field: Seq<char>,
    response: Json,
) -> Result<JsonView, Seq<char>> {
    match opt_get(response.spec_get(field), "security"@) {
        None => Err(missing_message(field, ".security"@)),
        Some(security) => if !non_blank_text(security.spec_get("isin"@)) {
            Err(missing_message(field, ".security.isin"@))
        } else {
            match security.spec_get("isOnWatchlist"@) {
                None => Err(missing_message(field, ".security.isOnWatchlist"@)),
                Some(on) => Ok(
                    JsonView::Object(
                        seq![
                            ("action"@, jstr(action)),
                            ("isin"@, jstr(requested_isin)),
                            ("is_on_watchlist"@, on@),
                        ],
                    ),
                ),
            }
        },
    }
}

fn project_broker_watchlist_mutation_response(
    action: &str,
    requested_isin: &str,
    field: &str,
    response: &Json,
) -> (res: Result<Json, ErrorReport>)
    ensures
        plain_errors(res),
        json_result(res) == spec_watchlist_mutation_response(action@, requested_isin@, field@, *response),
{
    let security = match response.get(field) {
        Some(m) => m.get("security"),
        None => None,
    };
    let security = match security {
        Some(s) => s,
        None => {
            return Err(missing_report(field, ".security"));
        },
    };
    if !is_non_blank_text(security.get("isin")) {
        return Err(missing_report(field, ".security.isin"));
    }
    let on = match security.get("isOnWatchlist") {
        Some(v) => v.duplicate(),
        None => {
            return Err(missing_report(field, ".security.isOnWatchlist"));
        },
    };
    let mut out = ObjectBuilder::new();
    out.add("action", Json::Str(action.to_owned()));
    out.add("isin", Json::Str(requested_isin.to_owned()));
    out.add("is_on_watchlist", on);
    proof {
        assert(out.members() =~= spec_watchlist_mutation_response(
            action@,
            requested_isin@,
            field@,
            *response,
        )->Ok_0->Object_0);
    }
    Ok(out.build())
}

pub fn project_broker_watchlist_add_response(requested_isin: &str, response: &Json) -> (res: Result<
    Json,
    ErrorReport,
>)
    ensures
        plain_errors(res),
        json_result(res) == spec_watchlist_mutation_response(
            "add"@,
            requested_isin@,
            "addToWatchlist"@,
            *response,
        ),
{
    project_broker_watchlist_mutation_response("add", requested_isin, "addToWatchlist", response)
}

pub fn project_broker_watchlist_remove_response(requested_isin: &str, response: &Json) -> (res: Result<
    Json,
    ErrorReport,
>)
    ensures
        plain_errors(res),
        json_result(res) == spec_watchlist_mutation_response(
            "remove"@,
            requested_isin@,
            "removeFromWatchlist"@,
            *response,
        ),
{
    project_broker_watchlist_mutation_response("remove", requested_isin, "removeFromWatchlist", response)
}

// ---------------------------------------------------------------------------
// Removed price alerts
// ---------------------------------------------------------------------------

/// The answer to removing a price alert: it must carry a non-blank id; the
/// result names the requested alert and instrument.
pub open spec fn spec_remove_price_alert_mutation_response(
    field: Seq<char>,
    kind: Seq<char>,
    alert_id: Seq<char>,
    instrument_field: Seq<char>,
    instrument_value: Seq<char>,
    response: Json,
) -> Result<JsonView, Seq<char>> {
    if !non_blank_text(opt_get(response.spec_get(field), "id"@)) {
        Err(missing_message(field, ".id"@))
    } else {
        Ok(
            JsonView::Object(
                seq![
                    ("action"@, jstr("remove"@)),
                    ("kind"@, jstr(kind)),
                    ("alert_id"@, jstr(alert_id)),
                    (instrument_field, jstr(instrument_value)),
                    ("removed"@, JsonView::Bool(true)),
                ],
            ),
        )
    }
}

fn project_broker_remove_price_alert_mutation_response(
    field: &str,
    kind: &str,
    alert_id: &str,
    instrument_field: &str,
    instrument_value: &str,
    response: &Json,
) -> (res: Result<Json, ErrorReport>)
    ensures
        plain_errors(res),
        json_result(res) == spec_remove_price_alert_mutation_response(
            field@,
            kind@,
            alert_id@,
            instrument_field@,
            instrument_value@,
            *response,
        ),
{
    let id = match response.get(field) {
        Some(m) => m.get("id"),
        None => None,
    };
    if !is_non_blank_text(id) {
        return Err(missing_report(field, ".id"));
    }
    let mut out = ObjectBuilder::new();
    out.add("action", Json::Str("remove".to_owned()));
    out.add("kind", Json::Str(kind.to_owned()));
    out.add("alert_id", Json::Str(alert_id.to_owned()));
    out.add(instrument_field, Json::Str(instrument_value.to_owned()));
    out.add("removed", Json::Bool(true));
    proof {
        assert(out.members() =~= spec_remove_price_alert_mutation_response(
            field@,
            kind@,
            alert_id@,
            instrument_field@,
            instrument_value@,
            *response,
        )->Ok_0->Object_0);
    }
    Ok(out.build())
}

pub fn project_broker_remove_price_alert_response(alert_id: &str, isin: &str, response: &Json) -> (res:
    Result<Json, ErrorReport>)
    ensures
        plain_errors(res),
        json_result(res) == spec_remove_price_alert_mutation_response(
            "removePriceAlert"@,
            "security"@,
            alert_id@,
            "isin"@,
            isin@,
            *response,
        ),
{
    project_broker_remove_price_alert_mutation_response(
        "removePriceAlert",
        "security",
        alert_id,
        "isin",
        isin,
        response,
    )
}

pub fn project_broker_remove_crypto_price_alert_response(
    alert_id: &str,
    ticker: &str,
    response: &Json,
) -> (res: Result<Json, ErrorReport>)
    ensures
        plain_errors(res),
        json_result(res) == spec_remove_price_alert_mutation_response(
            "removeCryptoPriceAlert"@,
            "crypto"@,
            alert_id@,
            "ticker"@,
            ticker@,
            *response,
        ),
{
    project_broker_remove_price_alert_mutation_response(
        "removeCryptoPriceAlert",
        "crypto",
        alert_id,
        "ticker",
        ticker,
        response,
    )
}

// ---------------------------------------------------------------------------
// Savings plans
// ---------------------------------------------------------------------------

/// The answer to removing a savings plan: it must carry a non-blank id; the
/// result names the requested ISIN.
pub open spec fn spec_remove_savings_plan_response(requested_isin: Seq<char>, response: Json) -> Result<
    JsonView,
    Seq<char>,
> {
    match response.spec_get("removeSavingsPlan"@) {
        None => Err("Broker response invalid: missing removeSavingsPlan"@),
        Some(m) => if !non_blank_text(m.spec_get("id"@)) {
            Err("Broker response invalid: missing removeSavingsPlan.id"@)
        } else {
            Ok(JsonView::Object(seq![("action"@, jstr("remove"@)), ("isin"@, jstr(requested_isin))]))
        },
    }
}

pub fn project_broker_remove_savings_plan_response(requested_isin: &str, response: &Json) -> (res:
    Result<Json, ErrorReport>)
    ensures
        plain_errors(res),
        json_result(res) == spec_remove_savings_plan_response(requested_isin@, *response),
{
    let m = match response.get("removeSavingsPlan") {
        Some(m) => m,
        None => {
            return Err(ErrorReport::msg("Broker response invalid: missing removeSavingsPlan"));
        },
    };
    if !is_non_blank_text(m.get("id")) {
        return Err(ErrorReport::msg("Broker response invalid: missing removeSavingsPlan.id"));
    }
    let mut out = ObjectBuilder::new();
    out.add("action", Json::Str("remove".to_owned()));
    out.add("isin", Json::Str(requested_isin.to_owned()));
    proof {
        assert(out.members() =~= spec_remove_savings_plan_response(requested_isin@, *response)->Ok_0->Object_0);
    }
    Ok(out.build())
}

/// The answer to creating or changing a savings plan: an object with a
/// non-blank id, reported as the mutation id.
pub open spec fn spec_create_or_update_savings_plan_response(response: Json) -> Result<
    JsonView,
    Seq<char>,
> {
    match response.spec_get("createOrUpdateSavingsPlan"@) {
        Some(Json::Object(fields)) => match crate::json::member(fields@, "id"@) {
            Some(Json::Str(id)) => if trim(id@).len() > 0 {
                Ok(JsonView::Object(seq![("mutation_id"@, jstr(id@))]))
            } else {
                Err("Broker response invalid: missing createOrUpdateSavingsPlan.id"@)
            },
            _ => Err("Broker response invalid: missing createOrUpdateSavingsPlan.id"@),
        },
        _ => Err("Broker response invalid: missing createOrUpdateSavingsPlan"@),
    }
}

pub fn project_broker_create_or_update_savings_plan_response(response: &Json) -> (res: Result<
    Json,
    ErrorReport,
>)
    ensures
        plain_errors(res),
        json_result(res) == spec_create_or_update_savings_plan_response(*response),
{
    let m = match response.get("createOrUpdateSavingsPlan") {
        Some(m) => m,
        None => {
            return Err(ErrorReport::msg("Broker response invalid: missing createOrUpdateSavingsPlan"));
        },
    };
    match m {
        Json::Object(_) => {},
        _ => {
            return Err(ErrorReport::msg("Broker response invalid: missing createOrUpdateSavingsPlan"));
        },
    }
    let id = match m.get("id") {
        Some(Json::Str(id)) => id,
        _ => {
            return Err(ErrorReport::msg("Broker response invalid: missing createOrUpdateSavingsPlan.id"));
        },
    };
    if trim_chars(id.as_str()).len() == 0 {
        return Err(ErrorReport::msg("Broker response invalid: missing createOrUpdateSavingsPlan.id"));
    }
    let mut out = ObjectBuilder::new();
    out.add("mutation_id", Json::Str(id.clone()));
    proof {
        assert(out.members() =~= spec_create_or_update_savings_plan_response(*response)->Ok_0->Object_0);
    }
    Ok(out.build())
}

/// A savings plan as the command reports it.
pub open spec fn spec_savings_plan(plan: Json) -> JsonView {
    let next = plan.spec_get("nextExecutionDate"@);
    JsonView::Object(
        seq![
            ("isin"@, get_or_null(plan, "isin"@)),
            ("amount"@, get_or_null(plan, "amount"@)),
            ("frequency"@, get_or_null(plan, "frequency"@)),
            ("day_of_month"@, get_or_null(plan, "dayOfTheMonth"@)),
            ("dynamization_rate"@, get_or_null(plan, "dynamizationRate"@)),
            ("payment_method"@, get_or_null(plan, "paymentMethod"@)),
            ("next_execution_date"@, opt_field(next, "date"@)),
            ("next_execution_epoch_day"@, opt_field(next, "epochDay"@)),
        ],
    )
}

pub fn map_broker_savings_plan(plan: &Json) -> (res: Json)
    ensures
        res@ == spec_savings_plan(*plan),
{
    let next = plan.get("nextExecutionDate");
    let mut out = ObjectBuilder::new();
    out.add("isin", field_or_null(plan, "isin"));
    out.add("amount", field_or_null(plan, "amount"));
    out.add("frequency", field_or_null(plan, "frequency"));
    out.add("day_of_month", field_or_null(plan, "dayOfTheMonth"));
    out.add("dynamization_rate", field_or_null(plan, "dynamizationRate"));
    out.add("payment_method", field_or_null(plan, "paymentMethod"));
    out.add("next_execution_date", opt_field_or_null(next, "date"));
    out.add("next_execution_epoch_day", opt_field_or_null(next, "epochDay"));
    proof {
        assert(out.members() =~= spec_savings_plan(*plan)->Object_0);
    }
    out.build()
}

/// The security part of a savings plan answer.
pub open spec fn security_summary(security: Json) -> JsonView {
    JsonView::Object(
        seq![
            ("isin"@, get_or_null(security, "isin"@)),
            ("name"@, get_or_null(security, "name"@)),
            ("security_type"@, get_or_null(security, "type"@)),
        ],
    )
}

fn map_security_summary(security: &Json) -> (res: Json)
    ensures
        res@ == security_summary(*security),
{
    let mut out = ObjectBuilder::new();
    out.add("isin", field_or_null(security, "isin"));
    out.add("name", field_or_null(security, "name"));
    out.add("security_type", field_or_null(security, "type"));
    proof {
        assert(out.members() =~= security_summary(*security)->Object_0);
    }
    out.build()
}

/// The security a savings plan answer is about.
pub open spec fn answered_security(response: Json) -> Option<Json> {
    opt_get(opt_get(response.spec_get("account"@), "brokerPortfolio"@), "security"@)
}

fn find_answered_security(response: &Json) -> (res: Option<&Json>)
    ensures
        crate::json::opt_ref(res) == answered_security(*response),
{
    match response.get("account") {
        Some(a) => match a.get("brokerPortfolio") {
            Some(p) => p.get("security"),
            None => None,
        },
        None => None,
    }
}

/// The savings plan of one security: the security, and its plan where it
/// has one (null where there is none).
pub open spec fn spec_savings_plan_by_isin_response(response: Json) -> Result<JsonView, Seq<char>> {
    match answered_security(response) {
        None => Err("Broker response invalid: missing account.brokerPortfolio.security"@),
        Some(security) => Ok(
            JsonView::Object(
                seq![
                    ("security"@, security_summary(security)),
                    (
                        "savings_plan"@,
                        match opt_get(security.spec_get("inventory"@), "savingsPlan"@) {
                            Some(plan) => if plan is Null {
                                JsonView::Null
                            } else {
                                spec_savings_plan(plan)
                            },
                            None => JsonView::Null,
                        },
                    ),
                ],
            ),
        ),
    }
}

pub fn project_broker_savings_plan_by_isin_response(response: &Json) -> (res: Result<Json, ErrorReport>)
    ensures
        plain_errors(res),
        json_result(res) == spec_savings_plan_by_isin_response(*response),
{
    let security = match find_answered_security(response) {
        Some(s) => s,
        None => {
            return Err(ErrorReport::msg("Broker response invalid: missing account.brokerPortfolio.security"));
        },
    };
    let plan = match security.get("inventory") {
        Some(inv) => inv.get("savingsPlan"),
        None => None,
    };
    let mapped = match plan {
        Some(p) => if p.is_null() {
            Json::Null
        } else {
            map_broker_savings_plan(p)
        },
        None => Json::Null,
    };
    let mut out = ObjectBuilder::new();
    out.add("security", map_security_summary(security));
    out.add("savings_plan", mapped);
    proof {
        assert(out.members() =~= spec_savings_plan_by_isin_response(*response)->Ok_0->Object_0);
    }
    Ok(out.build())
}

/// The cost disclosure of a planned savings plan, as the broker gives it.
pub open spec fn spec_savings_plan_ex_ante_costs_response(response: Json) -> Result<
    JsonView,
    Seq<char>,
> {
    match opt_get(opt_get(response.spec_get("account"@), "brokerPortfolio"@), "savingsPlanExAnteCosts"@) {
        Some(costs) => Ok(costs@),
        None => Err(
            "SAVINGS_PLAN_EX_ANTE_COST_UNAVAILABLE: missing account.brokerPortfolio.savingsPlanExAnteCosts"@,
        ),
    }
}

pub fn project_broker_savings_plan_ex_ante_costs_response(response: &Json) -> (res: Result<
    Json,
    ErrorReport,
>)
    ensures
        plain_errors(res),
        json_result(res) == spec_savings_plan_ex_ante_costs_response(*response),
{
    let costs = match response.get("account") {
        Some(a) => match a.get("brokerPortfolio") {
            Some(p) => p.get("savingsPlanExAnteCosts"),
            None => None,
        },
        None => None,
    };
    match costs {
        Some(c) => Ok(c.duplicate()),
        None => Err(
            ErrorReport::msg(
                "SAVINGS_PLAN_EX_ANTE_COST_UNAVAILABLE: missing account.brokerPortfolio.savingsPlanExAnteCosts",
            ),
        ),
    }
}

/// The savings plan configuration of one security: the security must be
/// the one asked for (both ISINs trimmed).
pub open spec fn spec_savings_plan_config_details_response(requested_isin: Seq<char>, response: Json) -> Result<
    JsonView,
    Seq<char>,
> {
    match answered_security(response) {
        None => Err("Broker response invalid: missing account.brokerPortfolio.security"@),
        Some(security) => match reported_isin(security) {
            None => Err("Broker response invalid: missing account.brokerPortfolio.security.isin"@),
            Some(actual) => if actual != trim(requested_isin) {
                Err(isin_mismatch_message(trim(requested_isin), actual))
            } else {
                match security.spec_get("savingsPlanConfiguration"@) {
                    None => Err(
                        "Broker response invalid: missing account.brokerPortfolio.security.savingsPlanConfiguration"@,
                    ),
                    Some(config) => Ok(
                        JsonView::Object(
                            seq![
                                ("security"@, security_summary(security)),
                                ("savings_plan_configuration"@, config@),
                            ],
                        ),
                    ),
                }
            },
        },
    }
}

pub fn project_broker_savings_plan_config_details_response(requested_isin: &str, response: &Json) -> (res:
    Result<Json, ErrorReport>)
    ensures
        plain_errors(res),
        json_result(res) == spec_savings_plan_config_details_response(requested_isin@, *response),
{
    let security = match find_answered_security(response) {
        Some(s) => s,
        None => {
            return Err(ErrorReport::msg("Broker response invalid: missing account.brokerPortfolio.security"));
        },
    };
    let requested = string_of(&trim_chars(requested_isin));
    let raw_isin: &str = match security.get("isin") {
        Some(Json::Str(i)) => i.as_str(),
        _ => {
            return Err(
                ErrorReport::msg("Broker response invalid: missing account.brokerPortfolio.security.isin"),
            );
        },
    };
    let actual_chars = trim_chars(raw_isin);
    if actual_chars.len() == 0 {
        return Err(
            ErrorReport::msg("Broker response invalid: missing account.brokerPortfolio.security.isin"),
        );
    }
    let actual = string_of(&actual_chars);
    if !str_eq(actual.as_str(), requested.as_str()) {
        let mut text: Vec<char> = Vec::new();
        push_str_chars(&mut text, "Broker response invalid: requested isin '");
        push_str_chars(&mut text, requested.as_str());
        push_str_chars(&mut text, "' does not match returned security isin '");
        push_str_chars(&mut text, actual.as_str());
        push_str_chars(&mut text, "'");
        proof {
            assert(text@ =~= isin_mismatch_message(trim(requested_isin@), actual@));
        }
        return Err(text_report(&text));
    }
    let config = match security.get("savingsPlanConfiguration") {
        Some(c) => c.duplicate(),
        None => {
            return Err(
                ErrorReport::msg(
                    "Broker response invalid: missing account.brokerPortfolio.security.savingsPlanConfiguration",
                ),
            );
        },
    };
    let mut out = ObjectBuilder::new();
    out.add("security", map_security_summary(security));
    out.add("savings_plan_configuration", config);
    proof {
        assert(out.members() =~= spec_savings_plan_config_details_response(
            requested_isin@,
            *response,
        )->Ok_0->Object_0);
    }
    Ok(out.build())
}

} // verus!
