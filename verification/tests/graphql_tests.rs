use scalable_cli::graphql::dpop_authorization_header;
use scalable_cli::graphql::graphql_request_body;
use scalable_cli::json::json_text;
use scalable_cli::graphql::{
    dpop_troubleshooting_hint, enforce_graphql_access_policy, graphql_http_error_message,
    graphql_http_failure_step, graphql_rate_limited_message, graphql_response_outcome,
    is_graphql_mutation, retry_after_delta_seconds, should_retry_with_dpop_nonce,
    GraphqlAccessContext, HttpFailureStep, SessionMode,
};
use scalable_cli::graphql_errors::graphql_application_error_message;
use scalable_cli::json::{parse_json, Json};
use scalable_cli::markers::LOCAL_READ_ONLY_ERROR_PREFIX;

fn json(text: &str) -> Json {
    parse_json(text).expect("test JSON should parse")
}

#[test]
fn local_read_only_allows_queries() {
    let result = enforce_graphql_access_policy(
        "query BrokerOverview { ok }",
        Some("BrokerOverview"),
        GraphqlAccessContext::with_session_mode(Some(SessionMode::LocalReadOnly)),
    );

    assert!(result.is_ok());
}

#[test]
fn local_read_only_allows_explicit_allowlisted_mutations() {
    for operation_name in [
        "Start2faOnLogin",
        "Validate2faOnLogin",
        "revokeAuthAccessToken",
    ] {
        let result = enforce_graphql_access_policy(
            "mutation AllowedMutation { ok }",
            Some(operation_name),
            GraphqlAccessContext::with_session_mode(Some(SessionMode::LocalReadOnly)),
        );

        assert!(result.is_ok(), "{operation_name} should be allowlisted");
    }
}

#[test]
fn local_read_only_blocks_non_allowlisted_mutations() {
    let err = enforce_graphql_access_policy(
        "mutation BrokerAddToWatchlist { ok }",
        Some("BrokerAddToWatchlist"),
        GraphqlAccessContext::with_session_mode(Some(SessionMode::LocalReadOnly)),
    )
    .expect_err("mutation should be blocked");

    assert!(err.to_string().contains(LOCAL_READ_ONLY_ERROR_PREFIX));
    assert!(err.to_string().contains("BrokerAddToWatchlist"));
}

#[test]
fn local_read_only_blocks_mutations_without_operation_name() {
    let err = enforce_graphql_access_policy(
        "mutation { ok }",
        None,
        GraphqlAccessContext::with_session_mode(Some(SessionMode::LocalReadOnly)),
    )
    .expect_err("unnamed mutation should be blocked");

    assert!(err.to_string().contains(LOCAL_READ_ONLY_ERROR_PREFIX));
    assert!(
        err.to_string()
            .contains("explicit allowlisted operation name")
    );
}

#[test]
fn standard_sessions_may_send_mutations() {
    let result = enforce_graphql_access_policy(
        "mutation BrokerAddToWatchlist { ok }",
        Some("BrokerAddToWatchlist"),
        GraphqlAccessContext::with_session_mode(Some(SessionMode::Standard)),
    );
    assert!(result.is_ok());
    let result = enforce_graphql_access_policy(
        "mutation BrokerAddToWatchlist { ok }",
        None,
        GraphqlAccessContext::with_session_mode(None),
    );
    assert!(result.is_ok());
}

#[test]
fn read_only_policy_trims_the_operation_name() {
    let result = enforce_graphql_access_policy(
        "  \n mutation Start2faOnLogin { ok }",
        Some("  Start2faOnLogin "),
        GraphqlAccessContext::with_session_mode(Some(SessionMode::LocalReadOnly)),
    );
    assert!(result.is_ok());
    let err = enforce_graphql_access_policy(
        "mutation X { ok }",
        Some("   "),
        GraphqlAccessContext::with_session_mode(Some(SessionMode::LocalReadOnly)),
    )
    .expect_err("blank operation name should be blocked");
    assert!(err.to_string().contains("explicit allowlisted operation name"));
}

#[test]
fn mutation_detection_skips_leading_white_space() {
    assert!(is_graphql_mutation("\n  mutation Foo { ok }"));
    assert!(!is_graphql_mutation("query Foo { ok }"));
    assert!(!is_graphql_mutation(""));
}

#[test]
fn rate_limited_message_reports_retry_after_seconds() {
    assert_eq!(
        graphql_rate_limited_message(Some("BrokerOverview"), Some(" 30 ")),
        "RATE_LIMITED: backend rate limit exceeded during BrokerOverview; retry after 30s"
    );
    assert_eq!(
        graphql_rate_limited_message(Some("BrokerOverview"), Some("Wed, 21 Oct 2015 07:28:00 GMT")),
        "RATE_LIMITED: backend rate limit exceeded during BrokerOverview; retry later"
    );
    assert_eq!(
        graphql_rate_limited_message(None, None),
        "RATE_LIMITED: backend rate limit exceeded; retry later"
    );
}

#[test]
fn retry_after_reads_plain_numbers_only() {
    assert_eq!(retry_after_delta_seconds(Some("120")), Some(120));
    assert_eq!(retry_after_delta_seconds(Some("+7")), Some(7));
    assert_eq!(retry_after_delta_seconds(Some("18446744073709551615")), Some(u64::MAX));
    assert_eq!(retry_after_delta_seconds(Some("18446744073709551616")), None);
    assert_eq!(retry_after_delta_seconds(Some("-1")), None);
    assert_eq!(retry_after_delta_seconds(Some("   ")), None);
    assert_eq!(retry_after_delta_seconds(None), None);
}

#[test]
fn dpop_nonce_retry_needs_a_nonce_and_a_challenge() {
    assert!(should_retry_with_dpop_nonce(401, Some("n-1"), ""));
    assert!(should_retry_with_dpop_nonce(400, Some("n-1"), "{\"error\":\"USE_DPOP_NONCE\"}"));
    assert!(!should_retry_with_dpop_nonce(401, None, ""));
    assert!(!should_retry_with_dpop_nonce(401, Some(""), ""));
    assert!(!should_retry_with_dpop_nonce(500, Some("n-1"), "boom"));
}

#[test]
fn dpop_hint_only_for_unauthorized_dpop_failures() {
    assert!(dpop_troubleshooting_hint(401, "{\"error\":\"invalid_dpop_proof\"}").is_some());
    assert!(dpop_troubleshooting_hint(401, "plain").is_none());
    assert!(dpop_troubleshooting_hint(403, "{\"error\":\"invalid_dpop_proof\"}").is_none());
}

#[test]
fn http_error_message_names_status_operation_code_and_hint() {
    assert_eq!(
        graphql_http_error_message(500, Some("BrokerOverview"), "{\"error\":\"server_error\",\"secret\":\"x\"}"),
        "GraphQL HTTP error 500 during BrokerOverview (server_error)"
    );
    assert_eq!(
        graphql_http_error_message(401, None, "{\"error\":\"invalid_dpop_proof\"}"),
        "GraphQL HTTP error 401 (invalid_dpop_proof). DPoP validation failed; verify your system clock is in sync and retry"
    );
    assert_eq!(graphql_http_error_message(502, None, "<html>bad gateway</html>"), "GraphQL HTTP error 502");
}

#[test]
fn failure_step_retries_nonce_challenge_once() {
    match graphql_http_failure_step(401, Some("Op"), None, Some(" nonce-1 "), "", true) {
        HttpFailureStep::RetryWithNonce(nonce) => assert_eq!(nonce, "nonce-1"),
        HttpFailureStep::Fail(message) => panic!("unexpected failure {message}"),
    }
    match graphql_http_failure_step(401, Some("Op"), None, Some("nonce-1"), "", false) {
        HttpFailureStep::RetryWithNonce(_) => panic!("no second retry"),
        HttpFailureStep::Fail(message) => assert_eq!(message, "GraphQL HTTP error 401 during Op"),
    }
    match graphql_http_failure_step(429, Some("Op"), Some("5"), Some("nonce-1"), "", true) {
        HttpFailureStep::RetryWithNonce(_) => panic!("rate limits are not retried"),
        HttpFailureStep::Fail(message) => assert_eq!(
            message,
            "RATE_LIMITED: backend rate limit exceeded during Op; retry after 5s"
        ),
    }
}

#[test]
fn response_outcome_prefers_errors_then_requires_data() {
    let errors = json(r#"[{"message":"nope","extensions":{"code":"UNAUTHENTICATED"}}]"#);
    let err = graphql_response_outcome(Some("WhoAmI"), Some(Json::Null), Some(errors))
        .expect_err("errors win");
    assert_eq!(err, "GraphQL returned errors for WhoAmI (code: UNAUTHENTICATED)");
    let err = graphql_response_outcome(None, None, None).expect_err("data required");
    assert_eq!(err, "GraphQL response missing data");
    assert!(graphql_response_outcome(None, Some(json(r#"{"ok":true}"#)), None).is_ok());
}

#[test]
fn graphql_application_error_message_maps_broker_quote_bad_user_input() {
    let message = graphql_application_error_message(
        Some("BrokerQuote"),
        &json(r#"[{"message": "Invalid ISIN provided", "extensions": {"code": "BAD_USER_INPUT"}}]"#),
    );

    assert_eq!(
        message,
        "Broker input invalid: field 'isin' must be a valid ISIN"
    );
}

#[test]
fn graphql_application_error_message_maps_savings_plan_bad_user_input() {
    for operation_name in [
        "BrokerSavingsPlanConfig",
        "BrokerSavingsPlanByIsin",
        "BrokerCreateOrUpdateSavingsPlan",
        "BrokerRemoveSavingsPlan",
    ] {
        let message = graphql_application_error_message(
            Some(operation_name),
            &json(r#"[{"message": "Invalid ISIN provided", "extensions": {"code": "BAD_USER_INPUT"}}]"#),
        );

        assert_eq!(
            message,
            "SAVINGS_PLAN_INPUT_INVALID: field 'isin' must be a valid ISIN"
        );
    }
}

#[test]
fn graphql_application_error_message_preserves_generic_broker_quote_bad_user_input_without_isin_marker() {
    let message = graphql_application_error_message(
        Some("BrokerQuote"),
        &json(r#"[{"message": "Some other quote validation failure", "extensions": {"code": "BAD_USER_INPUT"}}]"#),
    );

    assert_eq!(
        message,
        "GraphQL returned errors for BrokerQuote (code: BAD_USER_INPUT)"
    );
}

#[test]
fn graphql_application_error_message_maps_transaction_not_found_marker() {
    let message = graphql_application_error_message(
        Some("BrokerTransactionDetails"),
        &json(
            r#"[{"message": "Transaction with ID tx-1 not found", "extensions": {"code": "BAD_REQUEST"}, "validationErrors": {"errorCode": "TransactionNotFound"}}]"#,
        ),
    );

    assert_eq!(
        message,
        "Broker transaction not found: field 'transaction_id' was not found"
    );
}

#[test]
fn graphql_application_error_message_maps_portfolio_group_validation_codes() {
    let cases = [
        (
            "PortfolioGroupNotFound",
            "field 'group_id' was not found",
            "Broker portfolio group not found: field 'group_id' was not found",
        ),
        (
            "PortfolioGroupDisallowedCharacters",
            "name contains '@'",
            "Broker portfolio group invalid characters: field '<unspecified>', disallowed_characters '<unspecified>': name contains '@'",
        ),
        (
            "PortfolioGroupValidation",
            "name is invalid",
            "Broker input invalid: name is invalid",
        ),
        (
            "PortfolioGroupsQuotaExceeded",
            "offer does not allow another group",
            "Broker portfolio groups quota exceeded: offer does not allow another group",
        ),
        (
            "PortfolioGroupsLimitReached",
            "technical maximum reached",
            "Broker portfolio groups limit reached: technical maximum reached",
        ),
        (
            "GroupAlreadyExists",
            "Group already exists",
            "Broker portfolio group already exists: Group already exists",
        ),
        (
            "PortfolioGroupCannotBeRemoved",
            "The portfolio group cannot be removed",
            "Broker portfolio group cannot be removed: The portfolio group cannot be removed",
        ),
        (
            "BAD_REQUEST",
            "Bad Request",
            "Broker input invalid: Bad Request",
        ),
    ];

    for operation_name in [
        "BrokerCreatePortfolioGroup",
        "BrokerAssignPortfolioGroupItems",
        "BrokerUnassignPortfolioGroupItems",
    ] {
        for (error_code, backend_message, expected) in cases {
            let text = format!(
                "[{{\"message\": \"{backend_message}\", \"extensions\": {{\"validationErrors\": {{\"errorCode\": \"{error_code}\"}}}}}}]"
            );
            let message = graphql_application_error_message(Some(operation_name), &json(&text));
            assert_eq!(message, expected);
        }
    }
}

#[test]
fn graphql_application_error_message_surfaces_portfolio_group_character_details() {
    let message = graphql_application_error_message(
        Some("BrokerUpdatePortfolioGroup"),
        &json(
            r#"[{"message": "The `name` has invalid characters.", "validationErrors": {"errorCode": "PortfolioGroupDisallowedCharacters", "field": "name", "disallowedCharacters": "123!@"}}]"#,
        ),
    );

    assert_eq!(
        message,
        "Broker portfolio group invalid characters: field 'name', disallowed_characters '123!@': The `name` has invalid characters."
    );
}

#[test]
fn graphql_application_error_message_preserves_generic_bad_request_for_other_broker_queries() {
    let message = graphql_application_error_message(
        Some("BrokerTransactions"),
        &json(r#"[{"message": "Some other bad request", "extensions": {"code": "BAD_REQUEST"}}]"#),
    );

    assert_eq!(
        message,
        "GraphQL returned errors for BrokerTransactions (code: BAD_REQUEST)"
    );
}

#[test]
fn validation_details_are_found_nested_in_arrays() {
    let message = graphql_application_error_message(
        Some("BrokerCreatePortfolioGroup"),
        &json(
            r##"[{"message": "bad", "extensions": {"validationErrors": [{"errorCode": "PortfolioGroupDisallowedCharacters", "details": {"field": "name", "disallowedCharacters": "#"}}]}}]"##,
        ),
    );
    assert_eq!(
        message,
        "Broker portfolio group invalid characters: field 'name', disallowed_characters '#': bad"
    );
}

#[test]
fn request_body_names_the_operation_only_when_given() {
    let with_name = graphql_request_body("query A { a }", json(r#"{"id":"p-1"}"#), Some("A"));
    assert_eq!(
        json_text(&with_name),
        r#"{"operation_name":"A","query":"query A { a }","variables":{"id":"p-1"}}"#
    );
    let without = graphql_request_body("{ a }", json("{}"), None);
    assert_eq!(json_text(&without), r#"{"query":"{ a }","variables":{}}"#);
}

#[test]
fn authorization_header_binds_the_token_to_dpop() {
    assert_eq!(dpop_authorization_header("tok-1"), "DPoP tok-1");
}
