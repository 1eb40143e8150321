use scalable_cli::graphql::graphql_response_outcome;
use scalable_cli::json::{json_text, parse_json, Json};
use scalable_cli::login_flow::{
    login_2fa_state_variables, parse_login_2fa_state, parse_start_2fa_session_id,
    parse_validate_2fa_status, start_2fa_variables, validate_2fa_variables, whoami_variables,
    Login2faState,
};

fn json(text: &str) -> Json {
    parse_json(text).expect("test JSON should parse")
}

/// The data of a GraphQL answer body, as the request loop hands it on.
fn answer_data(operation: &str, body: &str) -> Json {
    let body = json(body);
    graphql_response_outcome(
        Some(operation),
        body.get("data").map(|d| d.duplicate()),
        body.get("errors").map(|e| e.duplicate()),
    )
    .expect("data")
}

#[test]
fn fetch_login_2fa_state_parses_enabled_and_approved_session() {
    let variables = login_2fa_state_variables("p-1");
    assert_eq!(json_text(&variables), r#"{"input":{"userId":"p-1"}}"#);

    let data = answer_data(
        "Is2faOnLoginEnabled",
        r#"{"data":{"is2faOnLoginEnabled":{"enabled":true,"hasApprovedSession":true}}}"#,
    );
    let state = parse_login_2fa_state(&data);

    assert_eq!(
        state,
        Login2faState {
            enabled: Some(true),
            has_approved_session: Some(true),
        }
    );
}

#[test]
fn fetch_login_2fa_state_tolerates_missing_flags() {
    let variables = login_2fa_state_variables("p-1");
    assert_eq!(json_text(&variables), r#"{"input":{"userId":"p-1"}}"#);

    let data = answer_data(
        "Is2faOnLoginEnabled",
        r#"{"data":{"is2faOnLoginEnabled":{}}}"#,
    );
    let state = parse_login_2fa_state(&data);

    assert_eq!(
        state,
        Login2faState {
            enabled: None,
            has_approved_session: None,
        }
    );
}

#[test]
fn login_2fa_state_ignores_flags_that_are_not_booleans() {
    let data = json(r#"{"is2faOnLoginEnabled":{"enabled":"yes","hasApprovedSession":false}}"#);
    assert_eq!(
        parse_login_2fa_state(&data),
        Login2faState {
            enabled: None,
            has_approved_session: Some(false),
        }
    );
}

#[test]
fn whoami_variables_carry_the_person_id() {
    assert_eq!(json_text(&whoami_variables("person-9")), r#"{"id":"person-9"}"#);
}

#[test]
fn start_2fa_names_the_cli_device() {
    assert_eq!(
        json_text(&start_2fa_variables("p-1")),
        r#"{"input":{"deviceName":"CLI","deviceType":"CLI","userId":"p-1"}}"#
    );
}

#[test]
fn start_2fa_reads_the_session_id() {
    let data = json(r#"{"start2faOnLogin":{"mfaSessionId":"mfa-1"}}"#);
    assert_eq!(parse_start_2fa_session_id(&data), Some("mfa-1".to_string()));
    let missing = json(r#"{"start2faOnLogin":{"mfaSessionId":7}}"#);
    assert_eq!(parse_start_2fa_session_id(&missing), None);
}

#[test]
fn validate_2fa_sends_user_and_session_and_reads_status() {
    assert_eq!(
        json_text(&validate_2fa_variables("p-1", "mfa-1")),
        r#"{"input":{"mfaSessionId":"mfa-1","userId":"p-1"}}"#
    );
    let data = json(r#"{"validate2faOnLogin":{"status":"APPROVED"}}"#);
    assert_eq!(parse_validate_2fa_status(&data), Some("APPROVED".to_string()));
    assert_eq!(parse_validate_2fa_status(&json("{}")), None);
}
