use scalable_cli::json::{parse_json, Json};
use scalable_cli::machine::classify_error;
use scalable_cli::portfolio_groups::{
    current_portfolio_group_details, merged_portfolio_group_details, normalize_group_id_filter,
    normalize_portfolio_group_isins, validate_portfolio_group_membership,
    CurrentPortfolioGroupDetails, PortfolioGroupMembershipAction,
};

fn json(text: &str) -> Json {
    parse_json(text).expect("test JSON should parse")
}

fn grouped_response() -> Json {
    json(
        r#"{
        "account": {"brokerPortfolio": {"inventory": {
            "portfolioGroups": {
                "offerAllowsAdditionalPortfolioGroup": true,
                "maxPortfolioGroupsPerPortfolioReached": false,
                "items": [{
                    "id": "group-1",
                    "details": {"id": "group-1", "name": "AI portfolio", "description": "tracked"},
                    "numberOfPendingOrders": 0,
                    "savingsPlansAmount": "0",
                    "performance": null,
                    "items": [{
                        "id": "item-apple",
                        "isin": "US0378331005",
                        "name": "Apple Inc.",
                        "type": "STOCK"
                    }]
                }, {
                    "id": "group-2",
                    "details": {"id": "group-2", "name": "Former owner", "description": null},
                    "numberOfPendingOrders": 0,
                    "savingsPlansAmount": "0",
                    "performance": null,
                    "items": [{
                        "id": "item-world-etf",
                        "isin": "IE00B4ND3602",
                        "name": "MSCI World ETF",
                        "type": "ETF"
                    }]
                }]
            },
            "ungroupedInventoryItems": {"items": []}
        }}}
    }"#,
    )
}

fn response_with_group(name: &str, description: &str) -> Json {
    json(&format!(
        "{{\"account\": {{\"brokerPortfolio\": {{\"inventory\": {{\"portfolioGroups\": {{\"items\": [{{\"id\": \"group-1\", \"details\": {{\"name\": {name}, \"description\": {description}}}}}]}}}}}}}}}}"
    ))
}

#[test]
fn normalize_group_id_filter_rejects_blank_value() {
    let err = normalize_group_id_filter(Some("   ")).expect_err("blank group id should fail");

    assert_eq!(classify_error(&err).code, "broker_input_invalid");
    assert!(err.to_string().contains("field 'group_id'"));
}

#[test]
fn normalize_portfolio_group_isins_canonicalizes_validates_and_deduplicates() {
    let normalized = normalize_portfolio_group_isins(&vec![
        " us0378331005 ".to_string(),
        "IE00B4ND3602".to_string(),
        "US0378331005".to_string(),
    ])
    .expect("ISINs should normalize");

    assert_eq!(normalized, ["US0378331005", "IE00B4ND3602"]);
    let err = normalize_portfolio_group_isins(&vec!["US0378331006".to_string()])
        .expect_err("invalid checksum should fail");
    assert_eq!(classify_error(&err).code, "broker_input_invalid");
}

#[test]
fn membership_action_labels_remain_stable() {
    assert_eq!(
        PortfolioGroupMembershipAction::Assign.result_label(),
        "assign"
    );
    assert_eq!(
        PortfolioGroupMembershipAction::Unassign.result_label(),
        "unassign"
    );
}

#[test]
fn membership_validation_accepts_real_transitions_and_rejects_no_ops() {
    let state = grouped_response();

    validate_portfolio_group_membership(
        &state,
        "group-1",
        &vec!["IE00B4ND3602".to_string()],
        PortfolioGroupMembershipAction::Assign,
    )
    .expect("assigning an item outside the target group should be valid");
    validate_portfolio_group_membership(
        &state,
        "group-1",
        &vec!["US0378331005".to_string()],
        PortfolioGroupMembershipAction::Unassign,
    )
    .expect("unassigning an item in the target group should be valid");
    validate_portfolio_group_membership(
        &state,
        "group-1",
        &vec!["DE0007100000".to_string()],
        PortfolioGroupMembershipAction::Unassign,
    )
    .expect("an unknown item should remain a backend validation concern");

    let assign_err = validate_portfolio_group_membership(
        &state,
        "group-1",
        &vec!["US0378331005".to_string()],
        PortfolioGroupMembershipAction::Assign,
    )
    .expect_err("assigning an item already in the target group should fail");
    assert_eq!(classify_error(&assign_err).code, "broker_input_invalid");
    assert!(assign_err.to_string().contains("US0378331005"));

    let unassign_err = validate_portfolio_group_membership(
        &state,
        "group-1",
        &vec!["IE00B4ND3602".to_string()],
        PortfolioGroupMembershipAction::Unassign,
    )
    .expect_err("unassigning an item outside the target group should fail");
    assert_eq!(classify_error(&unassign_err).code, "broker_input_invalid");
    assert!(unassign_err.to_string().contains("IE00B4ND3602"));
}

#[test]
fn membership_validation_preserves_not_found_and_rejects_malformed_state() {
    let missing_group = validate_portfolio_group_membership(
        &grouped_response(),
        "missing-group",
        &vec!["US0378331005".to_string()],
        PortfolioGroupMembershipAction::Unassign,
    )
    .expect_err("missing group should fail");
    assert_eq!(
        classify_error(&missing_group).code,
        "portfolio_group_not_found"
    );

    let malformed_state = json(
        r#"{"account": {"brokerPortfolio": {"inventory": {"portfolioGroups": {"items": [{"id": "group-1"}]}}}}}"#,
    );
    let malformed = validate_portfolio_group_membership(
        &malformed_state,
        "group-1",
        &vec!["US0378331005".to_string()],
        PortfolioGroupMembershipAction::Unassign,
    )
    .expect_err("missing group items should fail");
    assert_eq!(classify_error(&malformed).code, "broker_response_invalid");
}

#[test]
fn membership_validation_lists_every_no_op_isin() {
    let err = validate_portfolio_group_membership(
        &grouped_response(),
        "group-1",
        &vec!["US0378331005".to_string(), "IE00B4ND3602".to_string(), "US0378331005".to_string()],
        PortfolioGroupMembershipAction::Assign,
    )
    .expect_err("already assigned");
    assert_eq!(
        err.to_string(),
        "Broker input invalid: ISINs already assigned to portfolio group 'group-1': [US0378331005, US0378331005]"
    );
}

#[test]
fn update_merge_extracts_required_name_and_nullable_description() {
    let details = current_portfolio_group_details(
        &response_with_group("\"AI portfolio\"", "null"),
        "group-1",
    )
    .expect("details should parse");

    assert_eq!(details.name, "AI portfolio");
    assert_eq!(details.description, None);
}

#[test]
fn update_merge_rejects_missing_or_invalid_current_name() {
    let err = current_portfolio_group_details(
        &response_with_group("null", "\"tracked\""),
        "group-1",
    )
    .expect_err("name is required by the backend");

    assert_eq!(classify_error(&err).code, "broker_response_invalid");
}

#[test]
fn update_merge_reuses_stable_not_found_contract() {
    let err = current_portfolio_group_details(
        &response_with_group("\"AI portfolio\"", "null"),
        "missing-group",
    )
    .expect_err("missing group should fail");

    assert_eq!(classify_error(&err).code, "portfolio_group_not_found");
}

#[test]
fn update_merge_rejects_non_string_description() {
    let err = current_portfolio_group_details(&response_with_group("\"AI\"", "3"), "group-1")
        .expect_err("description must be a string or null");
    assert!(err.to_string().contains("details.description must be a string or null"));
}

#[test]
fn update_merge_preserves_unspecified_values_and_supports_clear_description() {
    let current = || CurrentPortfolioGroupDetails {
        name: "AI portfolio".to_string(),
        description: Some("tracked".to_string()),
    };

    assert_eq!(
        merged_portfolio_group_details(Some("Renamed"), None, false, current())
            .expect("name-only merge"),
        ("Renamed".to_string(), Some("tracked".to_string()))
    );
    assert_eq!(
        merged_portfolio_group_details(None, Some("updated"), false, current())
            .expect("description-only merge"),
        ("AI portfolio".to_string(), Some("updated".to_string()))
    );
    assert_eq!(
        merged_portfolio_group_details(None, None, true, current())
            .expect("clear-description merge"),
        ("AI portfolio".to_string(), None)
    );
}

#[test]
fn update_merge_rejects_blank_requested_name() {
    let current = CurrentPortfolioGroupDetails { name: "AI".to_string(), description: None };
    let err = merged_portfolio_group_details(Some("  "), None, false, current)
        .expect_err("blank name");
    assert!(err.to_string().contains("field 'name'"));
}
