//! Turning errors into what the command line reports: a stable error code,
//! an exit code, hints, and a message cleaned of internal markers.
use vstd::prelude::*;

use crate::error_report::{
    format_error_chain_for_display, full_error_text, spec_display_text, spec_full_text, CauseKind,
    ErrorReport, plain_report,
};
use crate::markers::{
    BROKER_PORTFOLIO_GROUPS_LIMIT_REACHED_ERROR_PREFIX,
    BROKER_PORTFOLIO_GROUPS_QUOTA_EXCEEDED_ERROR_PREFIX,
    BROKER_PORTFOLIO_GROUP_ALREADY_EXISTS_ERROR_PREFIX,
    BROKER_PORTFOLIO_GROUP_CANNOT_BE_REMOVED_ERROR_PREFIX,
    BROKER_PORTFOLIO_GROUP_INVALID_CHARACTERS_ERROR_PREFIX,
    BROKER_PORTFOLIO_GROUP_NOT_FOUND_ERROR_PREFIX, BROKER_TRANSACTION_NOT_FOUND_ERROR_PREFIX,
    DEVICE_LOCKED_ERROR_CODE, DEVICE_LOCKED_ERROR_HINT, DEVICE_LOCKED_ERROR_MESSAGE,
    DPOP_SESSION_KEY_RELOGIN_MESSAGE, LOCAL_READ_ONLY_ERROR_PREFIX,
    LOCAL_TRADE_CONTROL_ISIN_DENIED_PREFIX, LOCAL_TRADE_CONTROL_ISIN_NOT_ALLOWED_PREFIX,
    LOCAL_TRADE_CONTROL_ORDER_NOTIONAL_EXCEEDED_PREFIX, REFRESH_RELOGIN_REQUIRED_PREFIX,
};
use crate::text::{
    chars_of, contains, contains_str, find, find_from_exec, lemma_find_contains, push_chars,
    string_of, sub_chars, to_lowercase, trim, trim_bounds, trim_start, trim_start_chars,
    unicode_lowercase, views, is_ascii_text, lower,
};

verus! {

/// The code, exit code and hints that an error is reported with.
#[derive(Debug, Clone, PartialEq, Eq)]
pub struct ClassifiedError {
    pub code: String,
    pub exit_code: i32,
    pub hints: Vec<String>,
}

/// A classification as plain values: code, exit code, hints.
pub type Outcome = (Seq<char>, i32, Seq<Seq<char>>);

impl View for ClassifiedError {
    type V = Outcome;

    open spec fn view(&self) -> Outcome {
        (self.code@, self.exit_code, views(self.hints@))
    }
}

pub open spec fn outcome(code: Seq<char>, exit_code: i32, hint: Seq<char>) -> Outcome {
    (code, exit_code, seq![hint])
}

pub open spec fn opt_view(c: Option<ClassifiedError>) -> Option<Outcome> {
    match c {
        Some(c) => Some(c@),
        None => None,
    }
}

fn classified(code: &str, exit_code: i32, hint: &str) -> (res: ClassifiedError)
    ensures
        res@ == outcome(code@, exit_code, hint@),
{
    let mut hints: Vec<String> = Vec::new();
    hints.push(hint.to_owned());
    let res = ClassifiedError { code: code.to_owned(), exit_code, hints };
    proof {
        assert(views(res.hints@) =~= seq![hint@]);
    }
    res
}

pub const SECRET_STORAGE_UNAVAILABLE_HINT: &'static str =
    "Set `session_backend = \"file\"` under `[auth]` in the scalable-cli config.toml, then run 'sc login' again.";

pub const RATE_LIMITED_HINT: &'static str = "Wait before retrying the command.";

pub const RATE_LIMITED_RETRY_AFTER_HINT: &'static str =
    "Respect backend Retry-After guidance when present.";

/// Whether lower-cased text reads like one of clap's messages about bad
/// arguments.
pub open spec fn spec_looks_like_clap_input_error(lower: Seq<char>) -> bool {
    ||| contains(lower, "required arguments were not provided"@)
    ||| contains(lower, "unexpected argument"@)
    ||| contains(lower, "unexpected value"@)
    ||| contains(lower, "unrecognized subcommand"@)
    ||| contains(lower, "invalid value"@)
    ||| contains(lower, "a value is required for"@)
    ||| contains(lower, "one of the values isn't valid"@)
}

pub fn looks_like_clap_input_error(lower: &Vec<char>) -> (res: bool)
    ensures
        res == spec_looks_like_clap_input_error(lower@),
{
    contains_str(lower, "required arguments were not provided") || contains_str(lower, "unexpected argument")
        || contains_str(lower, "unexpected value") || contains_str(lower, "unrecognized subcommand")
        || contains_str(lower, "invalid value") || contains_str(lower, "a value is required for")
        || contains_str(lower, "one of the values isn't valid")
}

/// Rules 1 to 15 of the decision list, in order.
pub open spec fn spec_rules_1(text: Seq<char>, lower: Seq<char>) -> Option<Outcome> {
    if contains(text, "Provide exactly one of --query or --query-file"@) || contains(text, "Provide at most one of --variables or --variables-file"@) || contains(text, "Token from stdin is empty"@) {
        Some(outcome("invalid_input"@, 10, "Check command arguments and input values."@))
    } else if spec_looks_like_clap_input_error(lower) {
        Some(outcome("invalid_input"@, 10, "Check command arguments and input values."@))
    } else if contains(lower, "installation code state"@) {
        Some(outcome("installation_code_invalid_state"@, 10, "Delete the local installation code file and rerun `sc installation-code`."@))
    } else if contains(lower, "unable to resolve broker portfolio id"@) {
        Some(outcome("broker_context_missing"@, 10, "Provide --portfolio-id or run `sc broker context select --portfolio-id ...`."@))
    } else if contains(lower, "unable to resolve overnight savings account id"@) {
        Some(outcome("overnight_selection_required"@, 10, "If multiple overnight accounts exist, rerun with `--savings-account-id <ID>`."@))
    } else if contains(lower, "overnight input invalid:"@) {
        Some(outcome("overnight_input_invalid"@, 10, "Check overnight command inputs and retry."@))
    } else if contains(text, "SAVINGS_PLAN_INPUT_INVALID:"@) {
        Some(outcome("savings_plan_input_invalid"@, 10, "Check savings-plan command inputs and retry."@))
    } else if contains(text, "SAVINGS_PLAN_CONFIG_UNAVAILABLE:"@) {
        Some(outcome("savings_plan_config_unavailable"@, 10, "Savings plan configuration is unavailable for the instrument in this context."@))
    } else if contains(text, "SAVINGS_PLAN_EX_ANTE_COST_UNAVAILABLE:"@) {
        Some(outcome("savings_plan_ex_ante_cost_unavailable"@, 30, "Ex-ante costs are unavailable. Do not submit; rerun phase 1 later."@))
    } else if contains(text, "SAVINGS_PLAN_CONFIRMATION_NOT_FOUND:"@) {
        Some(outcome("savings_plan_confirmation_not_found"@, 10, "Run savings-plan phase 1 again to obtain a new confirmation id."@))
    } else if contains(text, "SAVINGS_PLAN_CONFIRMATION_EXPIRED:"@) {
        Some(outcome("savings_plan_confirmation_expired"@, 10, "Run savings-plan phase 1 again; the confirmation expired."@))
    } else if contains(text, "SAVINGS_PLAN_CONFIRMATION_ALREADY_USED:"@) {
        Some(outcome("savings_plan_confirmation_already_used"@, 10, "Run a new savings-plan phase 1 preview for a new client instruction."@))
    } else if contains(text, "SAVINGS_PLAN_CONFIRMATION_CORRUPT:"@) {
        Some(outcome("savings_plan_confirmation_corrupt"@, 20, "Do not submit. Clear the corrupt local confirmation state and run phase 1 again."@))
    } else if contains(text, "SAVINGS_PLAN_CONFIRMATION_ENV_MISMATCH:"@) {
        Some(outcome("savings_plan_confirmation_env_mismatch"@, 10, "The preview no longer matches. Run savings-plan phase 1 again."@))
    } else if contains(text, "SAVINGS_PLAN_CONFIRMATION_ACCOUNT_MISMATCH:"@) {
        Some(outcome("savings_plan_confirmation_account_mismatch"@, 10, "The preview no longer matches. Run savings-plan phase 1 again."@))
    } else {
        None
    }
}

fn rules_1(text: &Vec<char>, lower: &Vec<char>) -> (res: Option<ClassifiedError>)
    ensures
        opt_view(res) == spec_rules_1(text@, lower@),
{
    if contains_str(text, "Provide exactly one of --query or --query-file") || contains_str(text, "Provide at most one of --variables or --variables-file") || contains_str(text, "Token from stdin is empty") {
        return Some(classified("invalid_input", 10, "Check command arguments and input values."));
    }
    if looks_like_clap_input_error(lower) {
        return Some(classified("invalid_input", 10, "Check command arguments and input values."));
    }
    if contains_str(lower, "installation code state") {
        return Some(classified("installation_code_invalid_state", 10, "Delete the local installation code file and rerun `sc installation-code`."));
    }
    if contains_str(lower, "unable to resolve broker portfolio id") {
        return Some(classified("broker_context_missing", 10, "Provide --portfolio-id or run `sc broker context select --portfolio-id ...`."));
    }
    if contains_str(lower, "unable to resolve overnight savings account id") {
        return Some(classified("overnight_selection_required", 10, "If multiple overnight accounts exist, rerun with `--savings-account-id <ID>`."));
    }
    if contains_str(lower, "overnight input invalid:") {
        return Some(classified("overnight_input_invalid", 10, "Check overnight command inputs and retry."));
    }
    if contains_str(text, "SAVINGS_PLAN_INPUT_INVALID:") {
        return Some(classified("savings_plan_input_invalid", 10, "Check savings-plan command inputs and retry."));
    }
    if contains_str(text, "SAVINGS_PLAN_CONFIG_UNAVAILABLE:") {
        return Some(classified("savings_plan_config_unavailable", 10, "Savings plan configuration is unavailable for the instrument in this context."));
    }
    if contains_str(text, "SAVINGS_PLAN_EX_ANTE_COST_UNAVAILABLE:") {
        return Some(classified("savings_plan_ex_ante_cost_unavailable", 30, "Ex-ante costs are unavailable. Do not submit; rerun phase 1 later."));
    }
    if contains_str(text, "SAVINGS_PLAN_CONFIRMATION_NOT_FOUND:") {
        return Some(classified("savings_plan_confirmation_not_found", 10, "Run savings-plan phase 1 again to obtain a new confirmation id."));
    }
    if contains_str(text, "SAVINGS_PLAN_CONFIRMATION_EXPIRED:") {
        return Some(classified("savings_plan_confirmation_expired", 10, "Run savings-plan phase 1 again; the confirmation expired."));
    }
    if contains_str(text, "SAVINGS_PLAN_CONFIRMATION_ALREADY_USED:") {
        return Some(classified("savings_plan_confirmation_already_used", 10, "Run a new savings-plan phase 1 preview for a new client instruction."));
    }
    if contains_str(text, "SAVINGS_PLAN_CONFIRMATION_CORRUPT:") {
        return Some(classified("savings_plan_confirmation_corrupt", 20, "Do not submit. Clear the corrupt local confirmation state and run phase 1 again."));
    }
    if contains_str(text, "SAVINGS_PLAN_CONFIRMATION_ENV_MISMATCH:") {
        return Some(classified("savings_plan_confirmation_env_mismatch", 10, "The preview no longer matches. Run savings-plan phase 1 again."));
    }
    if contains_str(text, "SAVINGS_PLAN_CONFIRMATION_ACCOUNT_MISMATCH:") {
        return Some(classified("savings_plan_confirmation_account_mismatch", 10, "The preview no longer matches. Run savings-plan phase 1 again."));
    }
    None
}

/// Rules 16 to 30 of the decision list, in order.
pub open spec fn spec_rules_2(text: Seq<char>, lower: Seq<char>) -> Option<Outcome> {
    if contains(text, "SAVINGS_PLAN_CONFIRMATION_PORTFOLIO_MISMATCH:"@) {
        Some(outcome("savings_plan_confirmation_portfolio_mismatch"@, 10, "The preview no longer matches. Run savings-plan phase 1 again."@))
    } else if contains(text, "SAVINGS_PLAN_CONFIRMATION_FIELDS_MISMATCH:"@) {
        Some(outcome("savings_plan_confirmation_fields_mismatch"@, 10, "The preview no longer matches. Run savings-plan phase 1 again."@))
    } else if contains(text, "SAVINGS_PLAN_SUBMISSION_FAILED:"@) {
        Some(outcome("savings_plan_submission_failed"@, 30, "The backend rejected the submission. Run a new phase 1 preview before trying again."@))
    } else if contains(text, "SAVINGS_PLAN_SUBMISSION_UNKNOWN:"@) {
        Some(outcome("savings_plan_submission_unknown"@, 30, "Do not retry the add command. Inspect `sc broker savings-plans` for the same account and portfolio first."@))
    } else if contains(lower, "broker input invalid:"@) {
        Some(outcome("broker_input_invalid"@, 10, "Check broker command inputs and retry."@))
    } else if contains(text, BROKER_TRANSACTION_NOT_FOUND_ERROR_PREFIX@) {
        Some(outcome("broker_transaction_not_found"@, 10, "Check the transaction id and selected broker portfolio, then retry."@))
    } else if contains(text, BROKER_PORTFOLIO_GROUP_NOT_FOUND_ERROR_PREFIX@) {
        Some(outcome("portfolio_group_not_found"@, 10, "Check the group id and selected broker portfolio, then retry."@))
    } else if contains(text, BROKER_PORTFOLIO_GROUP_INVALID_CHARACTERS_ERROR_PREFIX@) {
        Some(outcome("portfolio_group_invalid_characters"@, 10, "Remove the unsupported characters and retry."@))
    } else if contains(text, BROKER_PORTFOLIO_GROUPS_QUOTA_EXCEEDED_ERROR_PREFIX@) {
        Some(outcome("portfolio_groups_quota_exceeded"@, 10, "Upgrade the offer or reduce existing portfolio groups, then retry."@))
    } else if contains(text, BROKER_PORTFOLIO_GROUPS_LIMIT_REACHED_ERROR_PREFIX@) {
        Some(outcome("portfolio_groups_limit_reached"@, 10, "The technical maximum number of portfolio groups has been reached."@))
    } else if contains(text, BROKER_PORTFOLIO_GROUP_ALREADY_EXISTS_ERROR_PREFIX@) {
        Some(outcome("portfolio_group_already_exists"@, 10, "Choose a different portfolio group name and retry."@))
    } else if contains(text, BROKER_PORTFOLIO_GROUP_CANNOT_BE_REMOVED_ERROR_PREFIX@) {
        Some(outcome("portfolio_group_cannot_be_removed"@, 10, "Remove dependent items or pending activity, then retry."@))
    } else if contains(lower, "broker response invalid:"@) {
        Some(outcome("broker_response_invalid"@, 30, "Backend response shape did not match expected broker contract."@))
    } else if contains(lower, "overnight response invalid:"@) {
        Some(outcome("overnight_response_invalid"@, 30, "Backend response shape did not match expected overnight contract."@))
    } else if contains(text, "TRADE_NOT_TRADABLE:"@) {
        Some(outcome("trade_not_tradable"@, 10, "Pick another instrument or venue and retry the pre-trade checks."@))
    } else {
        None
    }
}

fn rules_2(text: &Vec<char>, lower: &Vec<char>) -> (res: Option<ClassifiedError>)
    ensures
        opt_view(res) == spec_rules_2(text@, lower@),
{
    if contains_str(text, "SAVINGS_PLAN_CONFIRMATION_PORTFOLIO_MISMATCH:") {
        return Some(classified("savings_plan_confirmation_portfolio_mismatch", 10, "The preview no longer matches. Run savings-plan phase 1 again."));
    }
    if contains_str(text, "SAVINGS_PLAN_CONFIRMATION_FIELDS_MISMATCH:") {
        return Some(classified("savings_plan_confirmation_fields_mismatch", 10, "The preview no longer matches. Run savings-plan phase 1 again."));
    }
    if contains_str(text, "SAVINGS_PLAN_SUBMISSION_FAILED:") {
        return Some(classified("savings_plan_submission_failed", 30, "The backend rejected the submission. Run a new phase 1 preview before trying again."));
    }
    if contains_str(text, "SAVINGS_PLAN_SUBMISSION_UNKNOWN:") {
        return Some(classified("savings_plan_submission_unknown", 30, "Do not retry the add command. Inspect `sc broker savings-plans` for the same account and portfolio first."));
    }
    if contains_str(lower, "broker input invalid:") {
        return Some(classified("broker_input_invalid", 10, "Check broker command inputs and retry."));
    }
    if contains_str(text, BROKER_TRANSACTION_NOT_FOUND_ERROR_PREFIX) {
        return Some(classified("broker_transaction_not_found", 10, "Check the transaction id and selected broker portfolio, then retry."));
    }
    if contains_str(text, BROKER_PORTFOLIO_GROUP_NOT_FOUND_ERROR_PREFIX) {
        return Some(classified("portfolio_group_not_found", 10, "Check the group id and selected broker portfolio, then retry."));
    }
    if contains_str(text, BROKER_PORTFOLIO_GROUP_INVALID_CHARACTERS_ERROR_PREFIX) {
        return Some(classified("portfolio_group_invalid_characters", 10, "Remove the unsupported characters and retry."));
    }
    if contains_str(text, BROKER_PORTFOLIO_GROUPS_QUOTA_EXCEEDED_ERROR_PREFIX) {
        return Some(classified("portfolio_groups_quota_exceeded", 10, "Upgrade the offer or reduce existing portfolio groups, then retry."));
    }
    if contains_str(text, BROKER_PORTFOLIO_GROUPS_LIMIT_REACHED_ERROR_PREFIX) {
        return Some(classified("portfolio_groups_limit_reached", 10, "The technical maximum number of portfolio groups has been reached."));
    }
    if contains_str(text, BROKER_PORTFOLIO_GROUP_ALREADY_EXISTS_ERROR_PREFIX) {
        return Some(classified("portfolio_group_already_exists", 10, "Choose a different portfolio group name and retry."));
    }
    if contains_str(text, BROKER_PORTFOLIO_GROUP_CANNOT_BE_REMOVED_ERROR_PREFIX) {
        return Some(classified("portfolio_group_cannot_be_removed", 10, "Remove dependent items or pending activity, then retry."));
    }
    if contains_str(lower, "broker response invalid:") {
        return Some(classified("broker_response_invalid", 30, "Backend response shape did not match expected broker contract."));
    }
    if contains_str(lower, "overnight response invalid:") {
        return Some(classified("overnight_response_invalid", 30, "Backend response shape did not match expected overnight contract."));
    }
    if contains_str(text, "TRADE_NOT_TRADABLE:") {
        return Some(classified("trade_not_tradable", 10, "Pick another instrument or venue and retry the pre-trade checks."));
    }
    None
}

/// Rules 31 to 45 of the decision list, in order.
pub open spec fn spec_rules_3(text: Seq<char>, lower: Seq<char>) -> Option<Outcome> {
    if contains(text, "CONFIRMATION_REQUIRED:"@) {
        Some(outcome("confirmation_required"@, 10, "Run phase 1 first, then repeat the same trade command with --confirm <id>."@))
    } else if contains(text, "CONFIRMATION_NOT_FOUND:"@) {
        Some(outcome("confirmation_not_found"@, 10, "Run phase 1 again to generate a fresh confirmation id."@))
    } else if contains(text, "CONFIRMATION_EXPIRED:"@) {
        Some(outcome("confirmation_expired"@, 10, "Confirmation tokens expire quickly; rerun phase 1 and retry phase 2."@))
    } else if contains(text, "CONFIRMATION_ALREADY_USED:"@) {
        Some(outcome("confirmation_already_used"@, 10, "Run phase 1 again to generate a new confirmation id."@))
    } else if contains(text, "CONFIRMATION_ENV_MISMATCH:"@) {
        Some(outcome("confirmation_env_mismatch"@, 10, "Switch to the same env used in phase 1 or generate a new confirmation id."@))
    } else if contains(text, "CONFIRMATION_FIELDS_MISMATCH:"@) {
        Some(outcome("confirmation_fields_mismatch"@, 10, "Use exactly the phase-1 trade inputs (isin/amount-or-shares/venue/order-type/limit-price/stop-price), or rerun phase 1 if market data changed."@))
    } else if contains(text, LOCAL_TRADE_CONTROL_ISIN_NOT_ALLOWED_PREFIX@) {
        Some(outcome("trade_control_isin_not_allowed"@, 10, "Choose an ISIN listed in local trade_controls.allowed_isins or update the local config."@))
    } else if contains(text, LOCAL_TRADE_CONTROL_ISIN_DENIED_PREFIX@) {
        Some(outcome("trade_control_isin_denied"@, 10, "Choose another ISIN or update local trade_controls.denied_isins."@))
    } else if contains(text, LOCAL_TRADE_CONTROL_ORDER_NOTIONAL_EXCEEDED_PREFIX@) {
        Some(outcome("trade_control_order_notional_exceeded"@, 10, "Reduce the order size or raise local trade_controls.max_order_notional, then rerun phase 1."@))
    } else if contains(text, LOCAL_READ_ONLY_ERROR_PREFIX@) {
        Some(outcome("local_read_only"@, 10, "Run `sc login` without `--local-read-only` to perform write operations."@))
    } else if contains(text, "CONFIRMATION_WARNING_VERSION_REQUIRED:"@) {
        Some(outcome("confirmation_warning_version_required"@, 10, "Rerun phase 1 and confirm again; warning context changed."@))
    } else if contains(text, "CONFIRMATION_UNSUITABLE_ACK_REQUIRED:"@) {
        Some(outcome("confirmation_unsuitable_ack_required"@, 10, "Repeat the phase-2 trade command with --accept-unsuitable."@))
    } else if contains(text, "SUITABILITY_QUESTIONNAIRE_REQUIRED:"@) {
        Some(outcome("suitability_questionnaire_required"@, 10, "Complete the required suitability questionnaire in web or mobile, then rerun phase 1."@))
    } else if contains(text, "UNSUPPORTED_TRADE_SUITABILITY_TYPE:"@) {
        Some(outcome("unsupported_trade_suitability_type"@, 10, "Use web or mobile for this product flow."@))
    } else if contains(text, "SUITABILITY_ID_MISSING:"@) {
        Some(outcome("suitability_id_missing"@, 30, "The backend omitted the suitability id needed for order submission; retry later or investigate the response contract."@))
    } else {
        None
    }
}

fn rules_3(text: &Vec<char>, lower: &Vec<char>) -> (res: Option<ClassifiedError>)
    ensures
        opt_view(res) == spec_rules_3(text@, lower@),
{
    if contains_str(text, "CONFIRMATION_REQUIRED:") {
        return Some(classified("confirmation_required", 10, "Run phase 1 first, then repeat the same trade command with --confirm <id>."));
    }
    if contains_str(text, "CONFIRMATION_NOT_FOUND:") {
        return Some(classified("confirmation_not_found", 10, "Run phase 1 again to generate a fresh confirmation id."));
    }
    if contains_str(text, "CONFIRMATION_EXPIRED:") {
        return Some(classified("confirmation_expired", 10, "Confirmation tokens expire quickly; rerun phase 1 and retry phase 2."));
    }
    if contains_str(text, "CONFIRMATION_ALREADY_USED:") {
        return Some(classified("confirmation_already_used", 10, "Run phase 1 again to generate a new confirmation id."));
    }
    if contains_str(text, "CONFIRMATION_ENV_MISMATCH:") {
        return Some(classified("confirmation_env_mismatch", 10, "Switch to the same env used in phase 1 or generate a new confirmation id."));
    }
    if contains_str(text, "CONFIRMATION_FIELDS_MISMATCH:") {
        return Some(classified("confirmation_fields_mismatch", 10, "Use exactly the phase-1 trade inputs (isin/amount-or-shares/venue/order-type/limit-price/stop-price), or rerun phase 1 if market data changed."));
    }
    if contains_str(text, LOCAL_TRADE_CONTROL_ISIN_NOT_ALLOWED_PREFIX) {
        return Some(classified("trade_control_isin_not_allowed", 10, "Choose an ISIN listed in local trade_controls.allowed_isins or update the local config."));
    }
    if contains_str(text, LOCAL_TRADE_CONTROL_ISIN_DENIED_PREFIX) {
        return Some(classified("trade_control_isin_denied", 10, "Choose another ISIN or update local trade_controls.denied_isins."));
    }
    if contains_str(text, LOCAL_TRADE_CONTROL_ORDER_NOTIONAL_EXCEEDED_PREFIX) {
        return Some(classified("trade_control_order_notional_exceeded", 10, "Reduce the order size or raise local trade_controls.max_order_notional, then rerun phase 1."));
    }
    if contains_str(text, LOCAL_READ_ONLY_ERROR_PREFIX) {
        return Some(classified("local_read_only", 10, "Run `sc login` without `--local-read-only` to perform write operations."));
    }
    if contains_str(text, "CONFIRMATION_WARNING_VERSION_REQUIRED:") {
        return Some(classified("confirmation_warning_version_required", 10, "Rerun phase 1 and confirm again; warning context changed."));
    }
    if contains_str(text, "CONFIRMATION_UNSUITABLE_ACK_REQUIRED:") {
        return Some(classified("confirmation_unsuitable_ack_required", 10, "Repeat the phase-2 trade command with --accept-unsuitable."));
    }
    if contains_str(text, "SUITABILITY_QUESTIONNAIRE_REQUIRED:") {
        return Some(classified("suitability_questionnaire_required", 10, "Complete the required suitability questionnaire in web or mobile, then rerun phase 1."));
    }
    if contains_str(text, "UNSUPPORTED_TRADE_SUITABILITY_TYPE:") {
        return Some(classified("unsupported_trade_suitability_type", 10, "Use web or mobile for this product flow."));
    }
    if contains_str(text, "SUITABILITY_ID_MISSING:") {
        return Some(classified("suitability_id_missing", 30, "The backend omitted the suitability id needed for order submission; retry later or investigate the response contract."));
    }
    None
}

/// Rules 46 to 59 of the decision list, in order.
pub open spec fn spec_rules_4(text: Seq<char>, lower: Seq<char>) -> Option<Outcome> {
    if contains(text, "PRESENTATION_MAPPING_INCOMPLETE:"@) {
        Some(outcome("presentation_mapping_incomplete"@, 10, "Phase 1 presentation mapping is incomplete; retry or update the client."@))
    } else if contains(text, "APPROPRIATENESS_REQUIRED:"@) {
        Some(outcome("appropriateness_required"@, 10, "Complete appropriateness questionnaire flow before retrying trade."@))
    } else if contains(text, "APPROPRIATENESS_WARNING_ACK_REQUIRED:"@) {
        Some(outcome("appropriateness_warning_ack_required"@, 10, "Provide the exact acknowledgement text when prompted."@))
    } else if contains(text, "EX_ANTE_COST_UNAVAILABLE:"@) {
        Some(outcome("ex_ante_cost_unavailable"@, 10, "Quote or ex-ante costs are unavailable for this trade attempt."@))
    } else if contains(text, "DISCLOSURE_NOT_ACKNOWLEDGED:"@) {
        Some(outcome("disclosure_not_acknowledged"@, 10, "Confirm the ex-ante disclosure acknowledgement exactly as prompted."@))
    } else if contains(text, "ORDER_CONFIRMATION_REQUIRED:"@) {
        Some(outcome("order_confirmation_required"@, 10, "Provide exact PLACE ORDER confirmation when prompted."@))
    } else if contains(text, "ORDER_SUBMISSION_FAILED:"@) {
        Some(outcome("order_submission_failed"@, 30, "Check the error details before retrying; if the outcome may be ambiguous, check transactions or order status first. Idempotency key reuse still protects an intentional retry."@))
    } else if contains(lower, "trade input invalid:"@) {
        Some(outcome("trade_input_invalid"@, 10, "Check trade arguments and retry."@))
    } else if contains(lower, "trade response invalid:"@) {
        Some(outcome("trade_response_invalid"@, 30, "Backend response shape did not match trade contract."@))
    } else if contains(text, "No active session"@) {
        Some(outcome("no_session"@, 20, "Run 'sc login' first to create a session."@))
    } else if contains(text, REFRESH_RELOGIN_REQUIRED_PREFIX@) {
        Some(outcome("refresh_relogin_required"@, 20, "Run 'sc login' again to create a fresh session."@))
    } else if contains(text, DPOP_SESSION_KEY_RELOGIN_MESSAGE@) {
        Some(outcome("refresh_relogin_required"@, 20, "Run 'sc login' again to create a fresh session."@))
    } else if contains(lower, "grant type"@) || contains(lower, "unauthorized_client"@) || contains(lower, "unsupported_grant_type"@) {
        Some(outcome("auth_grant_not_enabled"@, 20, "Enable required grants (Device Code, Refresh Token) for the OAuth app."@))
    } else if contains(lower, "failed to call graphql endpoint"@) || contains(lower, "failed to fetch"@) || contains(lower, "error sending request"@) {
        Some(outcome("network_error"@, 30, "Check network connectivity and endpoint reachability."@))
    } else {
        None
    }
}

fn rules_4(text: &Vec<char>, lower: &Vec<char>) -> (res: Option<ClassifiedError>)
    ensures
        opt_view(res) == spec_rules_4(text@, lower@),
{
    if contains_str(text, "PRESENTATION_MAPPING_INCOMPLETE:") {
        return Some(classified("presentation_mapping_incomplete", 10, "Phase 1 presentation mapping is incomplete; retry or update the client."));
    }
    if contains_str(text, "APPROPRIATENESS_REQUIRED:") {
        return Some(classified("appropriateness_required", 10, "Complete appropriateness questionnaire flow before retrying trade."));
    }
    if contains_str(text, "APPROPRIATENESS_WARNING_ACK_REQUIRED:") {
        return Some(classified("appropriateness_warning_ack_required", 10, "Provide the exact acknowledgement text when prompted."));
    }
    if contains_str(text, "EX_ANTE_COST_UNAVAILABLE:") {
        return Some(classified("ex_ante_cost_unavailable", 10, "Quote or ex-ante costs are unavailable for this trade attempt."));
    }
    if contains_str(text, "DISCLOSURE_NOT_ACKNOWLEDGED:") {
        return Some(classified("disclosure_not_acknowledged", 10, "Confirm the ex-ante disclosure acknowledgement exactly as prompted."));
    }
    if contains_str(text, "ORDER_CONFIRMATION_REQUIRED:") {
        return Some(classified("order_confirmation_required", 10, "Provide exact PLACE ORDER confirmation when prompted."));
    }
    if contains_str(text, "ORDER_SUBMISSION_FAILED:") {
        return Some(classified("order_submission_failed", 30, "Check the error details before retrying; if the outcome may be ambiguous, check transactions or order status first. Idempotency key reuse still protects an intentional retry."));
    }
    if contains_str(lower, "trade input invalid:") {
        return Some(classified("trade_input_invalid", 10, "Check trade arguments and retry."));
    }
    if contains_str(lower, "trade response invalid:") {
        return Some(classified("trade_response_invalid", 30, "Backend response shape did not match trade contract."));
    }
    if contains_str(text, "No active session") {
        return Some(classified("no_session", 20, "Run 'sc login' first to create a session."));
    }
    if contains_str(text, REFRESH_RELOGIN_REQUIRED_PREFIX) {
        return Some(classified("refresh_relogin_required", 20, "Run 'sc login' again to create a fresh session."));
    }
    if contains_str(text, DPOP_SESSION_KEY_RELOGIN_MESSAGE) {
        return Some(classified("refresh_relogin_required", 20, "Run 'sc login' again to create a fresh session."));
    }
    if contains_str(lower, "grant type") || contains_str(lower, "unauthorized_client") || contains_str(lower, "unsupported_grant_type") {
        return Some(classified("auth_grant_not_enabled", 20, "Enable required grants (Device Code, Refresh Token) for the OAuth app."));
    }
    if contains_str(lower, "failed to call graphql endpoint") || contains_str(lower, "failed to fetch") || contains_str(lower, "error sending request") {
        return Some(classified("network_error", 30, "Check network connectivity and endpoint reachability."));
    }
    None
}
/// The last rules: rate limiting, plain HTTP errors, and the fallback.
pub open spec fn spec_final_rules(text: Seq<char>, lower: Seq<char>) -> Outcome {
    if contains(text, "RATE_LIMITED:"@) {
        if contains(lower, "retry after"@) {
            (
                "rate_limited"@,
                30,
                seq![RATE_LIMITED_HINT@, RATE_LIMITED_RETRY_AFTER_HINT@],
            )
        } else {
            outcome("rate_limited"@, 30, RATE_LIMITED_HINT@)
        }
    } else if contains(lower, "graphql http error"@) {
        outcome("backend_http_error"@, 30, "Inspect backend response and token validity."@)
    } else {
        ("internal_error"@, 1, Seq::empty())
    }
}

/// How an error is classified, given its one-line text, the lower-cased text,
/// and whether its chain holds a secret-store failure or a locked-device
/// marker: the first rule that applies decides.
pub open spec fn spec_classify(
    text: Seq<char>,
    lower: Seq<char>,
    secret_store_unavailable: bool,
    secure_enclave_locked: bool,
) -> Outcome {
    if secret_store_unavailable {
        outcome("secret_storage_unavailable"@, 20, SECRET_STORAGE_UNAVAILABLE_HINT@)
    } else if secure_enclave_locked {
        outcome(DEVICE_LOCKED_ERROR_CODE@, 20, DEVICE_LOCKED_ERROR_HINT@)
    } else {
        match spec_rules_1(text, lower) {
            Some(o) => o,
            None => match spec_rules_2(text, lower) {
                Some(o) => o,
                None => match spec_rules_3(text, lower) {
                    Some(o) => o,
                    None => match spec_rules_4(text, lower) {
                        Some(o) => o,
                        None => spec_final_rules(text, lower),
                    },
                },
            },
        }
    }
}

fn final_rules(text: &Vec<char>, lower: &Vec<char>) -> (res: ClassifiedError)
    ensures
        res@ == spec_final_rules(text@, lower@),
{
    if contains_str(text, "RATE_LIMITED:") {
        let mut hints: Vec<String> = Vec::new();
        hints.push(RATE_LIMITED_HINT.to_owned());
        if contains_str(lower, "retry after") {
            hints.push(RATE_LIMITED_RETRY_AFTER_HINT.to_owned());
        }
        let res = ClassifiedError { code: "rate_limited".to_owned(), exit_code: 30, hints };
        proof {
            if contains(lower@, "retry after"@) {
                assert(views(res.hints@) =~= seq![
                    RATE_LIMITED_HINT@,
                    RATE_LIMITED_RETRY_AFTER_HINT@,
                ]);
            } else {
                assert(views(res.hints@) =~= seq![RATE_LIMITED_HINT@]);
            }
        }
        return res;
    }
    if contains_str(lower, "graphql http error") {
        return classified("backend_http_error", 30, "Inspect backend response and token validity.");
    }
    let res = ClassifiedError {
        code: "internal_error".to_owned(),
        exit_code: 1,
        hints: Vec::new(),
    };
    proof {
        assert(views(res.hints@) =~= Seq::<Seq<char>>::empty());
    }
    res
}

/// Classifies an error from its one-line text `text`, the lower-cased text
/// `lower`, and the two markers that are found by kind rather than by text.
pub fn classify_error_text(
    text: &str,
    lower: &str,
    secret_store_unavailable: bool,
    secure_enclave_locked: bool,
) -> (res: ClassifiedError)
    ensures
        res@ == spec_classify(text@, lower@, secret_store_unavailable, secure_enclave_locked),
{
    if secret_store_unavailable {
        return classified("secret_storage_unavailable", 20, SECRET_STORAGE_UNAVAILABLE_HINT);
    }
    if secure_enclave_locked {
        return classified(DEVICE_LOCKED_ERROR_CODE, 20, DEVICE_LOCKED_ERROR_HINT);
    }
    let t = chars_of(text);
    let l = chars_of(lower);
    if let Some(c) = rules_1(&t, &l) {
        return c;
    }
    if let Some(c) = rules_2(&t, &l) {
        return c;
    }
    if let Some(c) = rules_3(&t, &l) {
        return c;
    }
    if let Some(c) = rules_4(&t, &l) {
        return c;
    }
    final_rules(&t, &l)
}

/// Classifies an error: its text is the whole chain on one line, lower-cased
/// by `str::to_lowercase` for the rules that ignore case; a secret-store
/// failure or a locked-device marker anywhere in the chain decides first.
pub fn classify_error(err: &ErrorReport) -> (res: ClassifiedError)
    ensures
        res@ == spec_classify(
            spec_full_text(err.messages()),
            unicode_lowercase(spec_full_text(err.messages())),
            err.kinds().contains(CauseKind::SecretStoreUnavailable),
            err.kinds().contains(CauseKind::SecureEnclaveKeyLocked),
        ),
        is_ascii_text(spec_full_text(err.messages())) ==> res@ == spec_classify(
            spec_full_text(err.messages()),
            lower(spec_full_text(err.messages())),
            err.kinds().contains(CauseKind::SecretStoreUnavailable),
            err.kinds().contains(CauseKind::SecureEnclaveKeyLocked),
        ),
        plain_report(*err) ==> res@ == spec_classify(
            spec_full_text(err.messages()),
            unicode_lowercase(spec_full_text(err.messages())),
            false,
            false,
        ),
{
    let storage = err.has_kind(CauseKind::SecretStoreUnavailable);
    let locked = err.has_kind(CauseKind::SecureEnclaveKeyLocked);
    let text = full_error_text(err);
    let lower = to_lowercase(text.as_str());
    classify_error_text(text.as_str(), lower.as_str(), storage, locked)
}


// ---------------------------------------------------------------------------
// Message sanitizing
// ---------------------------------------------------------------------------

/// The pieces after the first occurrence of a marker: each piece between two
/// occurrences loses its leading whitespace.
pub open spec fn strip_marker_tail(t: Seq<char>, marker: Seq<char>) -> Seq<char>
    decreases t.len(),
{
    if marker.len() == 0 {
        t
    } else {
        match find(t, marker) {
            None => trim_start(t),
            Some(j) => {
                proof {
                    lemma_find_contains(t, marker);
                }
                trim_start(t.take(j)) + strip_marker_tail(t.skip(j + marker.len()), marker)
            },
        }
    }
}

/// The text with every occurrence of `marker` removed, and the whitespace that
/// followed each occurrence removed with it.
pub open spec fn remove_marker(s: Seq<char>, marker: Seq<char>) -> Seq<char> {
    if marker.len() == 0 {
        s
    } else {
        match find(s, marker) {
            None => s,
            Some(i) => s.take(i) + strip_marker_tail(s.skip(i + marker.len()), marker),
        }
    }
}

/// A message with the internal markers removed: the re-login marker, the
/// read-only marker and the three local trade-control markers, in that order.
pub open spec fn spec_sanitize(message: Seq<char>) -> Seq<char> {
    remove_marker(
        remove_marker(
            remove_marker(
                remove_marker(
                    remove_marker(message, REFRESH_RELOGIN_REQUIRED_PREFIX@),
                    LOCAL_READ_ONLY_ERROR_PREFIX@,
                ),
                LOCAL_TRADE_CONTROL_ISIN_NOT_ALLOWED_PREFIX@,
            ),
            LOCAL_TRADE_CONTROL_ISIN_DENIED_PREFIX@,
        ),
        LOCAL_TRADE_CONTROL_ORDER_NOTIONAL_EXCEEDED_PREFIX@,
    )
}

/// A text without the marker is left as it is.
pub proof fn lemma_remove_absent_marker(s: Seq<char>, marker: Seq<char>)
    requires
        !contains(s, marker),
    ensures
        remove_marker(s, marker) == s,
{
    lemma_find_contains(s, marker);
}

/// After removal the marker no longer starts right where a kept piece ends
/// only if it was there before; in particular a text free of the marker is
/// unchanged, and removing twice is removing once when the result is free of it.
pub proof fn lemma_remove_marker_idempotent(s: Seq<char>, marker: Seq<char>)
    requires
        !contains(remove_marker(s, marker), marker),
    ensures
        remove_marker(remove_marker(s, marker), marker) == remove_marker(s, marker),
{
    lemma_remove_absent_marker(remove_marker(s, marker), marker);
}

fn remove_marker_exec(v: &Vec<char>, marker: &Vec<char>) -> (res: Vec<char>)
    ensures
        res@ == remove_marker(v@, marker@),
{
    if marker.len() == 0 {
        return sub_chars(v, 0, v.len());
    }
    proof {
        assert(v@.subrange(0, v.len() as int) =~= v@);
        lemma_find_contains(v@, marker@);
    }
    let first = find_from_exec(v, marker, 0);
    match first {
        None => sub_chars(v, 0, v.len()),
        Some(i) => {
            let mut out = sub_chars(v, 0, i);
            let mut rest = sub_chars(v, i + marker.len(), v.len());
            proof {
                assert(out@ =~= v@.take(i as int));
                assert(rest@ =~= v@.skip(i + marker@.len()));
            }
            loop
                invariant
                    marker@.len() > 0,
                    out@ + strip_marker_tail(rest@, marker@) == remove_marker(v@, marker@),
                decreases rest.len(),
            {
                proof {
                    lemma_find_contains(rest@, marker@);
                }
                match find_from_exec(&rest, marker, 0) {
                    None => {
                        let tail = trim_start_chars(&rest);
                        push_chars(&mut out, &tail);
                        return out;
                    },
                    Some(j) => {
                        let piece = sub_chars(&rest, 0, j);
                        let trimmed_piece = trim_start_chars(&piece);
                        let ghost old_out = out@;
                        push_chars(&mut out, &trimmed_piece);
                        let next = sub_chars(&rest, j + marker.len(), rest.len());
                        proof {
                            assert(piece@ =~= rest@.take(j as int));
                            assert(next@ =~= rest@.skip(j + marker@.len()));
                            assert(out@ + strip_marker_tail(next@, marker@) =~= old_out
                                + strip_marker_tail(rest@, marker@));
                        }
                        rest = next;
                    },
                }
            }
        },
    }
}

/// `message` with the internal markers removed.
pub fn sanitize_error_message(message: &str) -> (res: String)
    ensures
        res@ == spec_sanitize(message@),
{
    let v = chars_of(message);
    let m1 = chars_of(REFRESH_RELOGIN_REQUIRED_PREFIX);
    let m2 = chars_of(LOCAL_READ_ONLY_ERROR_PREFIX);
    let m3 = chars_of(LOCAL_TRADE_CONTROL_ISIN_NOT_ALLOWED_PREFIX);
    let m4 = chars_of(LOCAL_TRADE_CONTROL_ISIN_DENIED_PREFIX);
    let m5 = chars_of(LOCAL_TRADE_CONTROL_ORDER_NOTIONAL_EXCEEDED_PREFIX);
    let s1 = remove_marker_exec(&v, &m1);
    let s2 = remove_marker_exec(&s1, &m2);
    let s3 = remove_marker_exec(&s2, &m3);
    let s4 = remove_marker_exec(&s3, &m4);
    let s5 = remove_marker_exec(&s4, &m5);
    string_of(&s5)
}

// ---------------------------------------------------------------------------
// Messages for people and for machines
// ---------------------------------------------------------------------------

/// The longest first line, in characters, that a machine message keeps whole.
pub const MACHINE_MESSAGE_MAX_CHARS: usize = 280;

/// The text before the first line break.
pub open spec fn first_line(s: Seq<char>) -> Seq<char> {
    match find(s, seq!['\n']) {
        Some(i) => s.take(i),
        None => s,
    }
}

/// The first line of the sanitized message, trimmed, and cut to 280
/// characters followed by `...` when it is longer.
pub open spec fn spec_concise(message: Seq<char>) -> Seq<char> {
    let line = trim(first_line(spec_sanitize(message)));
    if line.len() <= MACHINE_MESSAGE_MAX_CHARS {
        line
    } else {
        line.take(MACHINE_MESSAGE_MAX_CHARS as int) + "..."@
    }
}

/// The first line of the sanitized message, trimmed, and cut to 280
/// characters followed by `...` when it is longer.
pub fn concise_error_message(message: &str) -> (res: String)
    ensures
        res@ == spec_concise(message@),
{
    let sanitized = chars_of(sanitize_error_message(message).as_str());
    let newline: Vec<char> = vec!['\n'];
    proof {
        assert(newline@ =~= seq!['\n']);
    }
    let line_end = match find_from_exec(&sanitized, &newline, 0) {
        Some(i) => {
            proof {
                lemma_find_contains(sanitized@, seq!['\n']);
            }
            i
        },
        None => sanitized.len(),
    };
    let line = sub_chars(&sanitized, 0, line_end);
    proof {
        assert(line@ =~= first_line(sanitized@));
    }
    let (a, b) = trim_bounds(&line);
    if b - a <= MACHINE_MESSAGE_MAX_CHARS {
        let kept = sub_chars(&line, a, b);
        string_of(&kept)
    } else {
        let mut kept = sub_chars(&line, a, a + MACHINE_MESSAGE_MAX_CHARS);
        kept.push('.');
        kept.push('.');
        kept.push('.');
        proof {
            assert(kept@ =~= trim(line@).take(MACHINE_MESSAGE_MAX_CHARS as int) + "..."@) by {
                reveal_strlit("...");
            }
        }
        string_of(&kept)
    }
}

/// The message of a machine error envelope: a fixed text for a locked device,
/// the concise form of the message otherwise.
pub open spec fn spec_machine_error_message(message: Seq<char>, code: Seq<char>) -> Seq<char> {
    if code == DEVICE_LOCKED_ERROR_CODE@ {
        DEVICE_LOCKED_ERROR_MESSAGE@
    } else {
        spec_concise(message)
    }
}

pub fn machine_error_message(message: &str, classified: &ClassifiedError) -> (res: String)
    ensures
        res@ == spec_machine_error_message(message@, classified.code@),
{
    if crate::text::str_eq(classified.code.as_str(), DEVICE_LOCKED_ERROR_CODE) {
        DEVICE_LOCKED_ERROR_MESSAGE.to_owned()
    } else {
        concise_error_message(message)
    }
}

/// The error on one line, markers removed: for embedding in other text.
pub fn user_error_message(err: &ErrorReport) -> (res: String)
    ensures
        res@ == spec_sanitize(spec_full_text(err.messages())),
{
    let text = full_error_text(err);
    sanitize_error_message(text.as_str())
}

/// The error laid out for a person, causes on their own lines, markers removed.
pub fn human_error_message(err: &ErrorReport) -> (res: String)
    ensures
        res@ == spec_sanitize(spec_display_text(err.messages())),
{
    let text = format_error_chain_for_display(err);
    sanitize_error_message(text.as_str())
}

/// The failure half of the machine-readable envelope: the command, the error
/// code and message, and the hints.
#[derive(Debug, Clone)]
pub struct MachineErrorEnvelope {
    pub command: String,
    pub code: String,
    pub message: String,
    pub hints: Vec<String>,
}

/// The envelope for a classified error.
pub fn classified_error_envelope(
    command: &str,
    message: &str,
    classified: &ClassifiedError,
) -> (res: MachineErrorEnvelope)
    ensures
        res.command@ == command@,
        res.code@ == classified.code@,
        res.message@ == spec_machine_error_message(message@, classified.code@),
        views(res.hints@) == views(classified.hints@),
{
    let hints = crate::text::clone_strings(&classified.hints);
    MachineErrorEnvelope {
        command: command.to_owned(),
        code: classified.code.clone(),
        message: machine_error_message(message, classified),
        hints,
    }
}

/// The classification of an error chain.
pub open spec fn spec_classify_report(err: ErrorReport) -> Outcome {
    spec_classify(
        spec_full_text(err.messages()),
        unicode_lowercase(spec_full_text(err.messages())),
        err.kinds().contains(CauseKind::SecretStoreUnavailable),
        err.kinds().contains(CauseKind::SecureEnclaveKeyLocked),
    )
}

/// What a failed command reports: the envelope to print and the exit code.
pub fn error_outcome(command: &str, err: &ErrorReport) -> (res: (MachineErrorEnvelope, i32))
    ensures
        res.1 == spec_classify_report(*err).1,
        res.0.command@ == command@,
        res.0.code@ == spec_classify_report(*err).0,
        views(res.0.hints@) == spec_classify_report(*err).2,
        res.0.message@ == spec_machine_error_message(
            spec_sanitize(spec_full_text(err.messages())),
            spec_classify_report(*err).0,
        ),
{
    let classified = classify_error(err);
    let message = user_error_message(err);
    let envelope = classified_error_envelope(command, message.as_str(), &classified);
    (envelope, classified.exit_code)
}


// ---------------------------------------------------------------------------
// Argument-parser errors
// ---------------------------------------------------------------------------

/// The kinds of error that the command-line argument parser reports.
#[derive(Debug, Clone, Copy, PartialEq, Eq, Structural)]
pub enum ClapErrorKind {
    InvalidValue,
    UnknownArgument,
    InvalidSubcommand,
    NoEquals,
    ValueValidation,
    TooManyValues,
    TooFewValues,
    WrongNumberOfValues,
    ArgumentConflict,
    MissingRequiredArgument,
    MissingSubcommand,
    InvalidUtf8,
    DisplayHelp,
    DisplayHelpOnMissingArgumentOrSubcommand,
    DisplayVersion,
    Io,
    Format,
}

/// The argument-parser error kinds that are the user's input mistakes.
pub open spec fn is_clap_input_error(kind: ClapErrorKind) -> bool {
    match kind {
        ClapErrorKind::ArgumentConflict
        | ClapErrorKind::NoEquals
        | ClapErrorKind::InvalidValue
        | ClapErrorKind::InvalidSubcommand
        | ClapErrorKind::MissingRequiredArgument
        | ClapErrorKind::MissingSubcommand
        | ClapErrorKind::InvalidUtf8
        | ClapErrorKind::TooManyValues
        | ClapErrorKind::TooFewValues
        | ClapErrorKind::ValueValidation
        | ClapErrorKind::WrongNumberOfValues
        | ClapErrorKind::UnknownArgument => true,
        _ => false,
    }
}

/// Input mistakes are `invalid_input` with exit code 10 and one hint; every
/// other parser error is an `internal_error` with exit code 1 and no hint.
pub fn classify_clap_error(kind: ClapErrorKind) -> (res: ClassifiedError)
    ensures
        is_clap_input_error(kind) ==> res@ == outcome(
            "invalid_input"@,
            10,
            "Check command arguments and input values."@,
        ),
        !is_clap_input_error(kind) ==> res@ == ("internal_error"@, 1i32, Seq::<Seq<char>>::empty()),
{
    match kind {
        ClapErrorKind::ArgumentConflict
        | ClapErrorKind::NoEquals
        | ClapErrorKind::InvalidValue
        | ClapErrorKind::InvalidSubcommand
        | ClapErrorKind::MissingRequiredArgument
        | ClapErrorKind::MissingSubcommand
        | ClapErrorKind::InvalidUtf8
        | ClapErrorKind::TooManyValues
        | ClapErrorKind::TooFewValues
        | ClapErrorKind::ValueValidation
        | ClapErrorKind::WrongNumberOfValues
        | ClapErrorKind::UnknownArgument => classified(
            "invalid_input",
            10,
            "Check command arguments and input values.",
        ),
        _ => {
            let res = ClassifiedError {
                code: "internal_error".to_owned(),
                exit_code: 1,
                hints: Vec::new(),
            };
            proof {
                assert(views(res.hints@) =~= Seq::<Seq<char>>::empty());
            }
            res
        },
    }
}

/// What a failed argument parse reports: the envelope for the parser's
/// message and the exit code of its classification.
pub fn clap_error_outcome(command: &str, kind: ClapErrorKind, message: &str) -> (res: (
    MachineErrorEnvelope,
    i32,
))
    ensures
        res.1 == classify_clap_error_spec(kind).1,
        res.0.command@ == command@,
        res.0.code@ == classify_clap_error_spec(kind).0,
        views(res.0.hints@) == classify_clap_error_spec(kind).2,
        res.0.message@ == spec_machine_error_message(message@, classify_clap_error_spec(kind).0),
{
    let classified = classify_clap_error(kind);
    let envelope = classified_error_envelope(command, message, &classified);
    (envelope, classified.exit_code)
}

/// The classification of an argument-parser error kind.
pub open spec fn classify_clap_error_spec(kind: ClapErrorKind) -> Outcome {
    if is_clap_input_error(kind) {
        outcome("invalid_input"@, 10, "Check command arguments and input values."@)
    } else {
        ("internal_error"@, 1, Seq::empty())
    }
}


// ---------------------------------------------------------------------------
// The shape of every classification
// ---------------------------------------------------------------------------

/// What every classification keeps: the exit code is 1, 10, 20 or 30; it is 1
/// exactly for `internal_error`, which alone comes without hints; the code is
/// never empty.
pub open spec fn consistent_outcome(o: Outcome) -> bool {
    &&& (o.1 == 1 || o.1 == 10 || o.1 == 20 || o.1 == 30)
    &&& (o.1 == 1 <==> o.0 == "internal_error"@)
    &&& (o.2.len() == 0 <==> o.0 == "internal_error"@)
    &&& o.0.len() > 0
}

proof fn lemma_rules_1_consistent(text: Seq<char>, lower: Seq<char>)
    ensures
        spec_rules_1(text, lower) matches Some(o) ==> consistent_outcome(o),
{
    reveal_strlit("internal_error");
    reveal_strlit("invalid_input");
    reveal_strlit("broker_context_missing");
    reveal_strlit("installation_code_invalid_state");
    reveal_strlit("overnight_input_invalid");
    reveal_strlit("overnight_selection_required");
    reveal_strlit("savings_plan_config_unavailable");
    reveal_strlit("savings_plan_confirmation_account_mismatch");
    reveal_strlit("savings_plan_confirmation_already_used");
    reveal_strlit("savings_plan_confirmation_corrupt");
    reveal_strlit("savings_plan_confirmation_env_mismatch");
    reveal_strlit("savings_plan_confirmation_expired");
    reveal_strlit("savings_plan_confirmation_not_found");
    reveal_strlit("savings_plan_ex_ante_cost_unavailable");
    reveal_strlit("savings_plan_input_invalid");
    assert("internal_error"@.len() == 14);
    assert("invalid_input"@.len() == 13);
    assert("broker_context_missing"@.len() == 22);
    assert("installation_code_invalid_state"@.len() == 31);
    assert("overnight_input_invalid"@.len() == 23);
    assert("overnight_selection_required"@.len() == 28);
    assert("savings_plan_config_unavailable"@.len() == 31);
    assert("savings_plan_confirmation_account_mismatch"@.len() == 42);
    assert("savings_plan_confirmation_already_used"@.len() == 38);
    assert("savings_plan_confirmation_corrupt"@.len() == 33);
    assert("savings_plan_confirmation_env_mismatch"@.len() == 38);
    assert("savings_plan_confirmation_expired"@.len() == 33);
    assert("savings_plan_confirmation_not_found"@.len() == 35);
    assert("savings_plan_ex_ante_cost_unavailable"@.len() == 37);
    assert("savings_plan_input_invalid"@.len() == 26);
}

proof fn lemma_rules_2_consistent(text: Seq<char>, lower: Seq<char>)
    ensures
        spec_rules_2(text, lower) matches Some(o) ==> consistent_outcome(o),
{
    reveal_strlit("internal_error");
    reveal_strlit("broker_input_invalid");
    reveal_strlit("broker_response_invalid");
    reveal_strlit("broker_transaction_not_found");
    reveal_strlit("overnight_response_invalid");
    reveal_strlit("portfolio_group_already_exists");
    reveal_strlit("portfolio_group_cannot_be_removed");
    reveal_strlit("portfolio_group_invalid_characters");
    reveal_strlit("portfolio_group_not_found");
    reveal_strlit("portfolio_groups_limit_reached");
    reveal_strlit("portfolio_groups_quota_exceeded");
    reveal_strlit("savings_plan_confirmation_fields_mismatch");
    reveal_strlit("savings_plan_confirmation_portfolio_mismatch");
    reveal_strlit("savings_plan_submission_failed");
    reveal_strlit("savings_plan_submission_unknown");
    reveal_strlit("trade_not_tradable");
    assert("internal_error"@.len() == 14);
    assert("broker_input_invalid"@.len() == 20);
    assert("broker_response_invalid"@.len() == 23);
    assert("broker_transaction_not_found"@.len() == 28);
    assert("overnight_response_invalid"@.len() == 26);
    assert("portfolio_group_already_exists"@.len() == 30);
    assert("portfolio_group_cannot_be_removed"@.len() == 33);
    assert("portfolio_group_invalid_characters"@.len() == 34);
    assert("portfolio_group_not_found"@.len() == 25);
    assert("portfolio_groups_limit_reached"@.len() == 30);
    assert("portfolio_groups_quota_exceeded"@.len() == 31);
    assert("savings_plan_confirmation_fields_mismatch"@.len() == 41);
    assert("savings_plan_confirmation_portfolio_mismatch"@.len() == 44);
    assert("savings_plan_submission_failed"@.len() == 30);
    assert("savings_plan_submission_unknown"@.len() == 31);
    assert("trade_not_tradable"@.len() == 18);
}

proof fn lemma_rules_3_consistent(text: Seq<char>, lower: Seq<char>)
    ensures
        spec_rules_3(text, lower) matches Some(o) ==> consistent_outcome(o),
{
    reveal_strlit("internal_error");
    reveal_strlit("confirmation_already_used");
    reveal_strlit("confirmation_env_mismatch");
    reveal_strlit("confirmation_expired");
    reveal_strlit("confirmation_fields_mismatch");
    reveal_strlit("confirmation_not_found");
    reveal_strlit("confirmation_required");
    reveal_strlit("confirmation_unsuitable_ack_required");
    reveal_strlit("confirmation_warning_version_required");
    reveal_strlit("local_read_only");
    reveal_strlit("suitability_id_missing");
    reveal_strlit("suitability_questionnaire_required");
    reveal_strlit("trade_control_isin_denied");
    reveal_strlit("trade_control_isin_not_allowed");
    reveal_strlit("trade_control_order_notional_exceeded");
    reveal_strlit("unsupported_trade_suitability_type");
    assert("internal_error"@.len() == 14);
    assert("confirmation_already_used"@.len() == 25);
    assert("confirmation_env_mismatch"@.len() == 25);
    assert("confirmation_expired"@.len() == 20);
    assert("confirmation_fields_mismatch"@.len() == 28);
    assert("confirmation_not_found"@.len() == 22);
    assert("confirmation_required"@.len() == 21);
    assert("confirmation_unsuitable_ack_required"@.len() == 36);
    assert("confirmation_warning_version_required"@.len() == 37);
    assert("local_read_only"@.len() == 15);
    assert("suitability_id_missing"@.len() == 22);
    assert("suitability_questionnaire_required"@.len() == 34);
    assert("trade_control_isin_denied"@.len() == 25);
    assert("trade_control_isin_not_allowed"@.len() == 30);
    assert("trade_control_order_notional_exceeded"@.len() == 37);
    assert("unsupported_trade_suitability_type"@.len() == 34);
}

proof fn lemma_rules_4_consistent(text: Seq<char>, lower: Seq<char>)
    ensures
        spec_rules_4(text, lower) matches Some(o) ==> consistent_outcome(o),
{
    reveal_strlit("internal_error");
    reveal_strlit("appropriateness_required");
    reveal_strlit("appropriateness_warning_ack_required");
    reveal_strlit("auth_grant_not_enabled");
    reveal_strlit("disclosure_not_acknowledged");
    reveal_strlit("ex_ante_cost_unavailable");
    reveal_strlit("network_error");
    reveal_strlit("no_session");
    reveal_strlit("order_confirmation_required");
    reveal_strlit("order_submission_failed");
    reveal_strlit("presentation_mapping_incomplete");
    reveal_strlit("refresh_relogin_required");
    reveal_strlit("trade_input_invalid");
    reveal_strlit("trade_response_invalid");
    assert("internal_error"@.len() == 14);
    assert("appropriateness_required"@.len() == 24);
    assert("appropriateness_warning_ack_required"@.len() == 36);
    assert("auth_grant_not_enabled"@.len() == 22);
    assert("disclosure_not_acknowledged"@.len() == 27);
    assert("ex_ante_cost_unavailable"@.len() == 24);
    assert("network_error"@.len() == 13);
    assert("no_session"@.len() == 10);
    assert("order_confirmation_required"@.len() == 27);
    assert("order_submission_failed"@.len() == 23);
    assert("presentation_mapping_incomplete"@.len() == 31);
    assert("refresh_relogin_required"@.len() == 24);
    assert("trade_input_invalid"@.len() == 19);
    assert("trade_response_invalid"@.len() == 22);
}

/// Every classification is consistent: exit codes 1, 10, 20 or 30;
/// `internal_error` exactly with exit code 1 and exactly without hints; never
/// an empty code.
pub proof fn classifications_are_consistent(
    text: Seq<char>,
    lower: Seq<char>,
    secret_store_unavailable: bool,
    secure_enclave_locked: bool,
)
    ensures
        consistent_outcome(spec_classify(text, lower, secret_store_unavailable, secure_enclave_locked)),
{
    reveal_strlit("internal_error");
    reveal_strlit("secret_storage_unavailable");
    reveal_strlit("device_locked");
    reveal_strlit("rate_limited");
    reveal_strlit("backend_http_error");
    assert("internal_error"@.len() == 14);
    assert("secret_storage_unavailable"@.len() == 26);
    assert("device_locked"@.len() == 13);
    assert("rate_limited"@.len() == 12);
    assert("backend_http_error"@.len() == 18);
    lemma_rules_1_consistent(text, lower);
    lemma_rules_2_consistent(text, lower);
    lemma_rules_3_consistent(text, lower);
    lemma_rules_4_consistent(text, lower);
}

} // verus!
