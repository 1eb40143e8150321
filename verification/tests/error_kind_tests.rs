use scalable_cli::broker_queries::{normalize_broker_isin, BrokerInput};
use scalable_cli::broker_shared::resolve_portfolio_id_from_candidates;
use scalable_cli::enum_filter::normalize_enum_value;
use scalable_cli::error_report::CauseKind;
use scalable_cli::fingerprint::input_fingerprint;
use scalable_cli::graphql::{
    enforce_graphql_access_policy, nonce_retry_allowed, GraphqlAccessContext, SessionMode,
};
use scalable_cli::json::parse_json;
use scalable_cli::machine::classify_error;

#[test]
fn blank_broker_ids_are_input_errors() {
    let err = BrokerInput::new(" ", "port-1", false, None).unwrap_err();
    assert_eq!(
        err.to_string(),
        "Broker input invalid: field 'account_id' must be a non-empty string"
    );
    assert!(!err.has_kind(CauseKind::SecretStoreUnavailable));
    let classified = classify_error(&err);
    assert_eq!(classified.code, "broker_input_invalid");
    assert_eq!(classified.exit_code, 10);
}

#[test]
fn read_only_refusals_are_classified_as_read_only() {
    let err = enforce_graphql_access_policy(
        "mutation BrokerAddToWatchlist { ok }",
        Some("BrokerAddToWatchlist"),
        GraphqlAccessContext::with_session_mode(Some(SessionMode::LocalReadOnly)),
    )
    .unwrap_err();
    assert_eq!(classify_error(&err).code, "local_read_only");
}

#[test]
fn several_portfolios_need_an_explicit_choice() {
    let err = resolve_portfolio_id_from_candidates(vec!["b".to_string(), "a".to_string()])
        .unwrap_err();
    assert!(err
        .to_string()
        .starts_with("Unable to resolve broker portfolio id: multiple portfolios found [a, b]"));
    assert_eq!(classify_error(&err).code, "broker_context_missing");
}

#[test]
fn a_normalized_isin_normalizes_to_itself() {
    let once = normalize_broker_isin("  us0378331005 ", "isin").expect("valid");
    assert_eq!(once, "US0378331005");
    assert_eq!(normalize_broker_isin(&once, "isin").expect("valid"), once);
}

#[test]
fn enum_normalization_splits_camel_case_only_once_it_sees_it() {
    let once = normalize_enum_value("a1b").expect("value");
    assert_eq!(once, "A1B");
    assert_eq!(normalize_enum_value(&once).expect("value"), "A1_B");
}

#[test]
fn fingerprint_ignores_member_order_at_any_depth() {
    let a = parse_json(r#"{"filter":{"x":1,"y":[{"p":1,"q":2}]},"cursor":"c1"}"#).expect("json");
    let b = parse_json(r#"{"cursor":"c2","filter":{"y":[{"q":2,"p":1}],"x":1}}"#).expect("json");
    assert_eq!(input_fingerprint(&a), input_fingerprint(&b));
}

#[test]
fn a_nonce_retry_is_allowed_only_on_the_first_attempt_of_a_replaying_path() {
    assert!(nonce_retry_allowed(true, 0));
    assert!(!nonce_retry_allowed(true, 1));
    assert!(!nonce_retry_allowed(false, 0));
}

#[test]
fn one_distinct_non_blank_portfolio_is_chosen() {
    let chosen = resolve_portfolio_id_from_candidates(vec![
        " ".to_string(),
        "port-1".to_string(),
        "port-1".to_string(),
    ])
    .expect("one portfolio");
    assert_eq!(chosen, Some("port-1".to_string()));
    let none = resolve_portfolio_id_from_candidates(vec!["  ".to_string()]).expect("no portfolio");
    assert_eq!(none, None);
}

#[test]
fn blank_portfolio_id_is_a_broker_input_error() {
    let err = BrokerInput::new("acc-1", "  ", false, None).unwrap_err();
    let classified = classify_error(&err);
    assert_eq!(classified.code, "broker_input_invalid");
    assert_eq!(classified.exit_code, 10);
    assert_eq!(classified.hints, vec!["Check broker command inputs and retry.".to_string()]);
}
