use scalable_cli::dpop::map_secure_enclave_signing_error;
use scalable_cli::error_report::{CauseKind, ErrorReport};
use scalable_cli::machine::{
    classified_error_envelope, classify_clap_error, classify_error, concise_error_message,
    human_error_message, user_error_message, ClapErrorKind,
};
use scalable_cli::markers::{
    DPOP_SESSION_KEY_RELOGIN_MESSAGE, LOCAL_READ_ONLY_ERROR_PREFIX,
    LOCAL_TRADE_CONTROL_ISIN_DENIED_PREFIX, LOCAL_TRADE_CONTROL_ISIN_NOT_ALLOWED_PREFIX,
    LOCAL_TRADE_CONTROL_ORDER_NOTIONAL_EXCEEDED_PREFIX, REFRESH_RELOGIN_REQUIRED_PREFIX,
};

fn report(message: &str) -> ErrorReport {
    ErrorReport::msg(message)
}

fn locked_secure_enclave_error() -> ErrorReport {
    map_secure_enclave_signing_error(-25308, "OSStatus error -25308")
        .context("Failed generating DPoP proof for GraphQL request")
}

#[test]
fn classify_locked_secure_enclave_key_error() {
    let err = locked_secure_enclave_error();

    let classified = classify_error(&err);

    assert_eq!(classified.code, "device_locked");
    assert_eq!(classified.exit_code, 20);
    assert_eq!(
        classified.hints,
        vec!["If the Mac is already unlocked, check Secure Enclave and keychain access."]
    );
}

#[test]
fn locked_secure_enclave_key_uses_fixed_machine_envelope_message() {
    let err = locked_secure_enclave_error();
    let classified = classify_error(&err);
    let envelope =
        classified_error_envelope("broker.quote", &user_error_message(&err), &classified);

    assert_eq!(envelope.command, "broker.quote");
    assert_eq!(envelope.code, "device_locked");
    assert_eq!(
        envelope.message,
        "The Mac is locked, so the Secure Enclave signing key cannot be used. Unlock the Mac and retry."
    );
    assert_eq!(
        envelope.hints,
        vec!["If the Mac is already unlocked, check Secure Enclave and keychain access."]
    );
    assert!(!envelope.message.contains("OSStatus"));
}

#[test]
fn generic_osstatus_interaction_not_allowed_text_remains_internal_error() {
    let err =
        report(&format!("Failed generating DPoP proof for GraphQL request: OSStatus error -25308"));

    let classified = classify_error(&err);

    assert_eq!(classified.code, "internal_error");
    assert_eq!(classified.exit_code, 1);
}

#[test]
fn unmarked_secure_enclave_error_remains_internal_error() {
    let err = map_secure_enclave_signing_error(
        -25309,
        "native Secure Enclave signing failure",
    )
    .context("Failed generating DPoP proof for GraphQL request");

    let classified = classify_error(&err);

    assert_eq!(classified.code, "internal_error");
    assert_eq!(classified.exit_code, 1);
}

#[test]
fn human_error_message_retains_locked_secure_enclave_guidance() {
    let message = human_error_message(&locked_secure_enclave_error());

    assert!(message.contains(
        "The Mac is locked, so the Secure Enclave signing key cannot be used. Unlock the Mac and retry."
    ));
}

#[test]
fn classify_no_session_error() {
    let err = report(&format!("No active session for dev."));
    let c = classify_error(&err);
    assert_eq!(c.code, "no_session");
    assert_eq!(c.exit_code, 20);
    assert_eq!(c.hints, vec!["Run 'sc login' first to create a session."]);
}

#[test]
fn classify_broker_context_missing_error() {
    let err = report(&format!("Unable to resolve broker portfolio id."));
    let c = classify_error(&err);
    assert_eq!(c.code, "broker_context_missing");
    assert_eq!(c.exit_code, 10);
}

#[test]
fn portfolio_group_membership_validation_uses_machine_input_error_envelope() {
    let err = report(&format!(
        "Broker input invalid: ISINs already assigned to portfolio group 'group-1': [US0378331005]"
    ));
    let classified = classify_error(&err);
    let envelope = classified_error_envelope(
        "broker.portfolio-groups.assign",
        &user_error_message(&err),
        &classified,
    );

    assert_eq!(envelope.command, "broker.portfolio-groups.assign");
    assert_eq!(envelope.code, "broker_input_invalid");
    assert_eq!(
        envelope.message,
        "Broker input invalid: ISINs already assigned to portfolio group 'group-1': [US0378331005]"
    );
}

#[test]
fn classify_clap_missing_required_argument_error() {
    let err = report(&format!(
        "error: the following required arguments were not provided:\n  --portfolio-id <PORTFOLIO_ID>\n\nUsage: sc broker context select --portfolio-id <PORTFOLIO_ID>"
    ));
    let c = classify_error(&err);
    assert_eq!(c.code, "invalid_input");
    assert_eq!(c.exit_code, 10);
}

#[test]
fn classify_clap_invalid_subcommand_error() {
    let err = report(&format!("error: unrecognized subcommand 'bogus'\n\nUsage: sc broker <COMMAND>"));
    let c = classify_error(&err);
    assert_eq!(c.code, "invalid_input");
    assert_eq!(c.exit_code, 10);
}

#[test]
fn classify_non_clap_subcommand_text_does_not_match_invalid_input() {
    let err = report(&format!("downstream service reported that the subcommand failed unexpectedly"));
    let c = classify_error(&err);
    assert_eq!(c.code, "internal_error");
    assert_eq!(c.exit_code, 1);
}

#[test]
fn classify_common_clap_kinds_as_invalid_input() {
    for kind in [
        ClapErrorKind::UnknownArgument,
        ClapErrorKind::InvalidValue,
        ClapErrorKind::TooManyValues,
        ClapErrorKind::TooFewValues,
        ClapErrorKind::WrongNumberOfValues,
        ClapErrorKind::ArgumentConflict,
        ClapErrorKind::NoEquals,
        ClapErrorKind::ValueValidation,
    ] {
        let classified = classify_clap_error(kind);
        assert_eq!(classified.code, "invalid_input");
        assert_eq!(classified.exit_code, 10);
        assert_eq!(
            classified.hints,
            vec!["Check command arguments and input values."]
        );
    }
}

#[test]
fn classify_broker_response_invalid_error() {
    let err =
        report(&format!("Broker response invalid: missing account.brokerPortfolio.watchlist.items"));
    let c = classify_error(&err);
    assert_eq!(c.code, "broker_response_invalid");
    assert_eq!(c.exit_code, 30);
}

#[test]
fn classify_broker_transaction_not_found_error() {
    let err = report(&format!("Broker transaction not found: field 'transaction_id' was not found"));
    let c = classify_error(&err);
    assert_eq!(c.code, "broker_transaction_not_found");
    assert_eq!(c.exit_code, 10);
    assert!(
        c.hints
            .iter()
            .any(|hint| hint.contains("selected broker portfolio"))
    );
}

#[test]
fn classify_portfolio_group_not_found_error() {
    let err = report(&format!(
        "Broker portfolio group not found: portfolio group 'group-1' was not found in the active portfolio"
    ));
    let c = classify_error(&err);
    assert_eq!(c.code, "portfolio_group_not_found");
    assert_eq!(c.exit_code, 10);
    assert!(
        c.hints
            .iter()
            .any(|hint| hint.contains("selected broker portfolio"))
    );
}

#[test]
fn classify_portfolio_group_lifecycle_validation_errors() {
    let cases = [
        (
            "Broker portfolio group invalid characters: name contains '@'",
            "portfolio_group_invalid_characters",
        ),
        (
            "Broker portfolio groups quota exceeded: offer does not allow another group",
            "portfolio_groups_quota_exceeded",
        ),
        (
            "Broker portfolio groups limit reached: technical maximum reached",
            "portfolio_groups_limit_reached",
        ),
        (
            "Broker portfolio group already exists: Group already exists",
            "portfolio_group_already_exists",
        ),
        (
            "Broker portfolio group cannot be removed: The portfolio group cannot be removed",
            "portfolio_group_cannot_be_removed",
        ),
    ];

    for (message, code) in cases {
        assert_eq!(classify_error(&report(message)).code, code);
    }
}

#[test]
fn classify_installation_code_invalid_state_error() {
    let err = report(&format!(
        "Invalid installation code state at /tmp/sc-installation_code.json: invalid JSON. Delete /tmp/sc-installation_code.json and rerun `sc installation-code`."
    ));
    let c = classify_error(&err);
    assert_eq!(c.code, "installation_code_invalid_state");
    assert_eq!(c.exit_code, 10);
}

#[test]
fn classify_refresh_relogin_required_error() {
    let err = report(&format!(
        "{REFRESH_RELOGIN_REQUIRED_PREFIX} Token refresh requires a new login (OAuth 400 - invalid_grant). Run 'sc login'."
    ));
    let c = classify_error(&err);
    assert_eq!(c.code, "refresh_relogin_required");
    assert_eq!(c.exit_code, 20);
}

#[test]
fn classify_local_read_only_error() {
    let err = report(&format!(
        "{LOCAL_READ_ONLY_ERROR_PREFIX} local read-only mode blocks write operation 'BrokerAddToWatchlist'. Re-login without --local-read-only to perform write operations."
    ));
    let c = classify_error(&err);
    assert_eq!(c.code, "local_read_only");
    assert_eq!(c.exit_code, 10);
    assert_eq!(
        c.hints,
        vec!["Run `sc login` without `--local-read-only` to perform write operations."]
    );
}

#[test]
fn classify_trade_control_isin_not_allowed_error() {
    let err = report(&format!(
        "{LOCAL_TRADE_CONTROL_ISIN_NOT_ALLOWED_PREFIX} local trade controls require ISIN 'US0378331005' to be present in allowed_isins"
    ));
    let c = classify_error(&err);
    assert_eq!(c.code, "trade_control_isin_not_allowed");
    assert_eq!(c.exit_code, 10);
}

#[test]
fn classify_trade_control_isin_denied_error() {
    let err = report(&format!(
        "{LOCAL_TRADE_CONTROL_ISIN_DENIED_PREFIX} local trade controls deny ISIN 'US0378331005' via denied_isins"
    ));
    let c = classify_error(&err);
    assert_eq!(c.code, "trade_control_isin_denied");
    assert_eq!(c.exit_code, 10);
}

#[test]
fn classify_trade_control_order_notional_exceeded_error() {
    let err = report(&format!(
        "{LOCAL_TRADE_CONTROL_ORDER_NOTIONAL_EXCEEDED_PREFIX} local trade controls block estimated order notional '1200' because it exceeds max_order_notional '1000'"
    ));
    let c = classify_error(&err);
    assert_eq!(c.code, "trade_control_order_notional_exceeded");
    assert_eq!(c.exit_code, 10);
}

#[test]
fn classify_secret_storage_unavailable_error() {
    let err = ErrorReport::marked(
        "DBus error: org.freedesktop.secrets",
        CauseKind::SecretStoreUnavailable,
    )
    .context("outer context");
    let c = classify_error(&err);
    assert_eq!(c.code, "secret_storage_unavailable");
    assert_eq!(c.exit_code, 20);
    assert!(c.hints[0].contains("session_backend = \"file\""));
}

#[test]
fn classify_dpop_session_key_relogin_error() {
    let err = report(DPOP_SESSION_KEY_RELOGIN_MESSAGE);
    let c = classify_error(&err);
    assert_eq!(c.code, "refresh_relogin_required");
    assert_eq!(c.exit_code, 20);
    assert_eq!(
        c.hints,
        vec!["Run 'sc login' again to create a fresh session."]
    );
}

#[test]
fn classify_rate_limited_error_without_retry_after() {
    let err =
        report(&format!("RATE_LIMITED: backend rate limit exceeded during BrokerOverview; retry later"));
    let c = classify_error(&err);
    assert_eq!(c.code, "rate_limited");
    assert_eq!(c.exit_code, 30);
    assert_eq!(c.hints, vec!["Wait before retrying the command."]);
}

#[test]
fn classify_rate_limited_error_with_retry_after_guidance() {
    let err = report(&format!(
        "RATE_LIMITED: backend rate limit exceeded during BrokerOverview; retry after 30s"
    ));
    let c = classify_error(&err);
    assert_eq!(c.code, "rate_limited");
    assert_eq!(c.exit_code, 30);
    assert_eq!(
        c.hints,
        vec![
            "Wait before retrying the command.",
            "Respect backend Retry-After guidance when present."
        ]
    );
}

#[test]
fn classify_savings_plan_input_invalid_error() {
    let err = report(&format!("SAVINGS_PLAN_INPUT_INVALID: field 'amount' must be a positive decimal"));
    let c = classify_error(&err);
    assert_eq!(c.code, "savings_plan_input_invalid");
    assert_eq!(c.exit_code, 10);
}

#[test]
fn classify_wrapped_savings_plan_input_invalid_error() {
    let err = report(&format!(
        "SAVINGS_PLAN_INPUT_INVALID: Broker input invalid: field 'isin' must be a valid ISIN"
    ));
    let c = classify_error(&err);
    assert_eq!(c.code, "savings_plan_input_invalid");
    assert_eq!(c.exit_code, 10);
}

#[test]
fn classify_savings_plan_config_unavailable_error() {
    let err = report(&format!("SAVINGS_PLAN_CONFIG_UNAVAILABLE: missing schedules in config"));
    let c = classify_error(&err);
    assert_eq!(c.code, "savings_plan_config_unavailable");
    assert_eq!(c.exit_code, 10);
}

#[test]
fn classify_new_savings_plan_confirmation_errors() {
    for (message, code, exit_code) in [
        (
            "SAVINGS_PLAN_EX_ANTE_COST_UNAVAILABLE: missing total",
            "savings_plan_ex_ante_cost_unavailable",
            30,
        ),
        (
            "SAVINGS_PLAN_CONFIRMATION_NOT_FOUND: missing",
            "savings_plan_confirmation_not_found",
            10,
        ),
        (
            "SAVINGS_PLAN_CONFIRMATION_EXPIRED: expired",
            "savings_plan_confirmation_expired",
            10,
        ),
        (
            "SAVINGS_PLAN_CONFIRMATION_ALREADY_USED: consumed",
            "savings_plan_confirmation_already_used",
            10,
        ),
        (
            "SAVINGS_PLAN_CONFIRMATION_CORRUPT: invalid JSON",
            "savings_plan_confirmation_corrupt",
            20,
        ),
        (
            "SAVINGS_PLAN_CONFIRMATION_ENV_MISMATCH: wrong env",
            "savings_plan_confirmation_env_mismatch",
            10,
        ),
        (
            "SAVINGS_PLAN_CONFIRMATION_ACCOUNT_MISMATCH: wrong account",
            "savings_plan_confirmation_account_mismatch",
            10,
        ),
        (
            "SAVINGS_PLAN_CONFIRMATION_PORTFOLIO_MISMATCH: wrong portfolio",
            "savings_plan_confirmation_portfolio_mismatch",
            10,
        ),
        (
            "SAVINGS_PLAN_CONFIRMATION_FIELDS_MISMATCH: costs changed",
            "savings_plan_confirmation_fields_mismatch",
            10,
        ),
        (
            "SAVINGS_PLAN_SUBMISSION_FAILED: backend rejected",
            "savings_plan_submission_failed",
            30,
        ),
        (
            "SAVINGS_PLAN_SUBMISSION_UNKNOWN: timeout",
            "savings_plan_submission_unknown",
            30,
        ),
    ] {
        let classified = classify_error(&report(message));
        assert_eq!(classified.code, code, "{message}");
        assert_eq!(classified.exit_code, exit_code, "{message}");
    }
}

#[test]
fn classify_trade_not_tradable_error() {
    let err = report(&format!("TRADE_NOT_TRADABLE: buy trading is not available on venue 'MUNC'"));
    let c = classify_error(&err);
    assert_eq!(c.code, "trade_not_tradable");
    assert_eq!(c.exit_code, 10);
}

#[test]
fn classify_disclosure_not_acknowledged_error() {
    let err =
        report(&format!("DISCLOSURE_NOT_ACKNOWLEDGED: ex-ante disclosure acknowledgement required"));
    let c = classify_error(&err);
    assert_eq!(c.code, "disclosure_not_acknowledged");
    assert_eq!(c.exit_code, 10);
}

#[test]
fn classify_order_submission_failed_error() {
    let err = report(&format!("ORDER_SUBMISSION_FAILED: timeout"));
    let c = classify_error(&err);
    assert_eq!(c.code, "order_submission_failed");
    assert_eq!(c.exit_code, 30);
    assert!(
        c.hints
            .iter()
            .any(|hint| hint.contains("check transactions or order status first"))
    );
}

#[test]
fn classify_confirmation_unsuitable_ack_required_error() {
    let err = report(&format!(
        "CONFIRMATION_UNSUITABLE_ACK_REQUIRED: phase 1 marked this instrument as not suitable"
    ));
    let c = classify_error(&err);
    assert_eq!(c.code, "confirmation_unsuitable_ack_required");
    assert_eq!(c.exit_code, 10);
    assert!(
        c.hints
            .iter()
            .any(|hint| hint.contains("--accept-unsuitable"))
    );
}

#[test]
fn classify_suitability_questionnaire_required_error() {
    let err = report(&format!(
        "SUITABILITY_QUESTIONNAIRE_REQUIRED: complete the required KNOCKOUT questionnaire outside the CLI before trading"
    ));
    let c = classify_error(&err);
    assert_eq!(c.code, "suitability_questionnaire_required");
    assert_eq!(c.exit_code, 10);
}

#[test]
fn classify_unsupported_trade_suitability_type_error() {
    let err = report(&format!(
        "UNSUPPORTED_TRADE_SUITABILITY_TYPE: ELTIF suitability is not supported in sc broker trade; use web or mobile for this product flow."
    ));
    let c = classify_error(&err);
    assert_eq!(c.code, "unsupported_trade_suitability_type");
    assert_eq!(c.exit_code, 10);
    assert!(c.hints.iter().any(|hint| hint.contains("web or mobile")));
}

#[test]
fn classify_suitability_id_missing_error() {
    let err = report(&format!(
        "SUITABILITY_ID_MISSING: suitabilityId is missing for proceedable KNOCKOUT trade"
    ));
    let c = classify_error(&err);
    assert_eq!(c.code, "suitability_id_missing");
    assert_eq!(c.exit_code, 30);
}

#[test]
fn classify_presentation_mapping_incomplete_error() {
    let err =
        report(&format!("PRESENTATION_MAPPING_INCOMPLETE: missing required path '/result/intent'"));
    let c = classify_error(&err);
    assert_eq!(c.code, "presentation_mapping_incomplete");
    assert_eq!(c.exit_code, 10);
}

#[test]
fn concise_error_message_uses_first_line_only() {
    let text = "first line\nsecond line";
    assert_eq!(concise_error_message(text), "first line");
}

#[test]
fn human_error_message_formats_causes_on_separate_lines() {
    let err = report(&format!("inner failure")).context("outer context.");

    assert_eq!(
        human_error_message(&err),
        "outer context.\n\nCaused by:\n  inner failure"
    );
}

#[test]
fn human_error_message_formats_multiple_causes_in_order() {
    let err = report(&format!("module load failed"))
        .context("Failed to load PKCS#11 module")
        .context("Failed to load PKCS#11 DPoP key material")
        .context(DPOP_SESSION_KEY_RELOGIN_MESSAGE);

    assert_eq!(
        human_error_message(&err),
        "The DPoP signing key for the current session is missing or changed; run 'sc login' again.\n\nCaused by:\n  Failed to load PKCS#11 DPoP key material\n  Failed to load PKCS#11 module\n  module load failed"
    );
}

#[test]
fn human_error_message_does_not_join_sentence_context_with_colon() {
    let err = report(&format!("inner failure")).context(
        "The DPoP signing key for the current session is missing or changed; run 'sc login' again.",
    );

    let message = human_error_message(&err);

    assert!(!message.contains(".:"));
    assert_eq!(
        message,
        "The DPoP signing key for the current session is missing or changed; run 'sc login' again.\n\nCaused by:\n  inner failure"
    );
}

#[test]
fn user_error_message_remains_single_line_for_embedding() {
    let err = report(&format!("inner failure")).context("outer context");

    assert_eq!(user_error_message(&err), "outer context: inner failure");
}

#[test]
fn concise_error_message_truncates_long_lines() {
    let text = "x".repeat(400);
    let out = concise_error_message(&text);
    assert!(out.len() < 400);
    assert!(out.ends_with("..."));
}

#[test]
fn concise_error_message_strips_refresh_relogin_prefix() {
    let text = format!("{REFRESH_RELOGIN_REQUIRED_PREFIX} Token refresh requires a new login.");
    assert_eq!(
        concise_error_message(&text),
        "Token refresh requires a new login."
    );
}

#[test]
fn concise_error_message_strips_local_read_only_prefix() {
    let text = format!(
        "{LOCAL_READ_ONLY_ERROR_PREFIX} local read-only mode blocks write operation 'BrokerAddToWatchlist'."
    );
    assert_eq!(
        concise_error_message(&text),
        "local read-only mode blocks write operation 'BrokerAddToWatchlist'."
    );
}

#[test]
fn concise_error_message_strips_trade_control_prefix_and_reason_token() {
    let text = format!(
        "{LOCAL_TRADE_CONTROL_ISIN_DENIED_PREFIX} local trade controls deny ISIN 'US0378331005' via denied_isins"
    );
    assert_eq!(
        concise_error_message(&text),
        "local trade controls deny ISIN 'US0378331005' via denied_isins"
    );
}

#[test]
fn user_error_message_strips_refresh_relogin_prefix_from_contextualized_errors() {
    let err = report(&format!(
        "Token refresh after unauthorized response failed: {REFRESH_RELOGIN_REQUIRED_PREFIX} Token refresh requires a new login."
    ));
    assert_eq!(
        user_error_message(&err),
        "Token refresh after unauthorized response failed: Token refresh requires a new login."
    );
}

#[test]
fn concise_error_message_strips_refresh_relogin_prefix_from_contextualized_errors() {
    let text = format!(
        "Token refresh after unauthorized response failed: {REFRESH_RELOGIN_REQUIRED_PREFIX} Token refresh requires a new login."
    );
    assert_eq!(
        concise_error_message(&text),
        "Token refresh after unauthorized response failed: Token refresh requires a new login."
    );
}

#[test]
fn classify_refresh_relogin_required_error_from_error_chain() {
    let err = report(&format!("Token refresh requires a new login."))
        .context(&format!("{REFRESH_RELOGIN_REQUIRED_PREFIX} refresh marker"));
    assert_eq!(classify_error(&err).code, "refresh_relogin_required");
}
