use scalable_cli::portfolio_group_queries::created_portfolio_group_id;
use scalable_cli::portfolio_group_queries::{
        membership_document, membership_operation_name, membership_variables,
        portfolio_group_created_result, portfolio_group_deleted_result,
        portfolio_group_membership_result, portfolio_group_updated_result,
    };
use scalable_cli::portfolio_groups::PortfolioGroupMembershipAction;
use graphql_parser::query::parse_query;
use scalable_cli::broker_queries::BrokerInput;
use scalable_cli::json::{json_text, parse_json, Json};
use scalable_cli::documents::{
    BROKER_ASSIGN_PORTFOLIO_GROUP_ITEMS_MUTATION, BROKER_CREATE_PORTFOLIO_GROUP_MUTATION,
    BROKER_DELETE_PORTFOLIO_GROUP_MUTATION, BROKER_PORTFOLIO_GROUPS_QUERY,
    BROKER_UNASSIGN_PORTFOLIO_GROUP_ITEMS_MUTATION, BROKER_UPDATE_PORTFOLIO_GROUP_MUTATION,
};
use scalable_cli::portfolio_group_queries::{
    broker_assign_portfolio_group_items_variables, broker_create_portfolio_group_variables,
    broker_delete_portfolio_group_variables, broker_portfolio_groups_variables,
    broker_unassign_portfolio_group_items_variables, broker_update_portfolio_group_variables,
};

/// Both sides as canonical JSON text, so that member order does not count.
fn same(actual: &Json, expected: &str) {
    let expected = parse_json(expected).expect("expected JSON should parse");
    assert_eq!(json_text(actual), json_text(&expected));
}

#[test]
fn broker_portfolio_groups_variables_map_input() {
    let input = BrokerInput::new("acc-1", "port-1", false, None).expect("input");

    let variables = broker_portfolio_groups_variables(&input).expect("variables");

    same(
        &variables,
        r#"{
            "accountId": "acc-1",
            "portfolioId": "port-1"
        }"#,
    );
}

#[test]
fn broker_portfolio_groups_query_parses_as_graphql_document() {
    parse_query::<String>(BROKER_PORTFOLIO_GROUPS_QUERY)
        .expect("query should parse as valid GraphQL");
}

#[test]
fn lifecycle_mutation_documents_parse_as_graphql_documents() {
    for document in [
        BROKER_CREATE_PORTFOLIO_GROUP_MUTATION,
        BROKER_UPDATE_PORTFOLIO_GROUP_MUTATION,
        BROKER_DELETE_PORTFOLIO_GROUP_MUTATION,
        BROKER_ASSIGN_PORTFOLIO_GROUP_ITEMS_MUTATION,
        BROKER_UNASSIGN_PORTFOLIO_GROUP_ITEMS_MUTATION,
    ] {
        parse_query::<String>(document).expect("mutation should parse as valid GraphQL");
    }
}

#[test]
fn lifecycle_mutation_variables_preserve_expected_backend_shapes() {
    same(
        &broker_create_portfolio_group_variables("port-1", "AI portfolio", Some("tracked")),
        r#"{
            "portfolioId": "port-1",
            "input": {"name": "AI portfolio", "description": "tracked"}
        }"#,
    );
    same(
        &broker_update_portfolio_group_variables("port-1", "group-1", "Renamed", None),
        r#"{
            "portfolioId": "port-1",
            "input": {
                "id": "group-1",
                "portfolioGroupDetails": {"name": "Renamed", "description": null}
            }
        }"#,
    );
    same(
        &broker_delete_portfolio_group_variables("port-1", "group-1"),
        r#"{"portfolioId": "port-1", "input": {"id": "group-1"}}"#,
    );
    let isins = vec!["US0378331005".to_string(), "IE00B4ND3602".to_string()];
    same(
        &broker_assign_portfolio_group_items_variables("port-1", "group-1", &isins),
        r#"{
            "portfolioId": "port-1",
            "input": {"id": "group-1", "portfolioGroupItems": {
                "itemsToAdd": ["US0378331005", "IE00B4ND3602"],
                "itemsToRemove": []
            }}
        }"#,
    );
    same(
        &broker_unassign_portfolio_group_items_variables("port-1", "group-1", &isins),
        r#"{
            "portfolioId": "port-1",
            "input": {"id": "group-1", "portfolioGroupItems": {
                "itemsToAdd": [],
                "itemsToRemove": ["US0378331005", "IE00B4ND3602"]
            }}
        }"#,
    );
}

#[test]
fn created_group_id_is_read_from_the_mutation_answer() {
    let answer = parse_json(r#"{"createPortfolioGroup":{"portfolioGroup":{"id":"group-2"}}}"#)
        .expect("json");
    assert_eq!(created_portfolio_group_id(&answer).expect("id"), "group-2");
    for bad in [
        r#"{"createPortfolioGroup":{"portfolioGroup":{"id":""}}}"#,
        r#"{"createPortfolioGroup":{}}"#,
        r#"{"createPortfolioGroup":{"portfolioGroup":{"id":7}}}"#,
    ] {
        let err = created_portfolio_group_id(&parse_json(bad).expect("json")).unwrap_err();
        assert_eq!(
            err.to_string(),
            "Broker response invalid: missing createPortfolioGroup.portfolioGroup.id"
        );
    }
}

#[test]
fn group_command_results_carry_the_change_and_the_readback() {

    let state = || parse_json(r#"{"count":1}"#).expect("json");
    same(
        &portfolio_group_created_result("group-2", "New group", Some("new"), state()),
        r#"{"action":"create","group_id":"group-2","name":"New group","description":"new",
            "portfolio_groups_state":{"count":1}}"#,
    );
    same(
        &portfolio_group_updated_result("group-2", "Renamed", None, state()),
        r#"{"action":"update","group_id":"group-2","name":"Renamed","description":null,
            "portfolio_groups_state":{"count":1}}"#,
    );
    same(
        &portfolio_group_deleted_result("group-2", state()),
        r#"{"action":"delete","group_id":"group-2","portfolio_groups_state":{"count":1}}"#,
    );
    let isins = vec!["US0378331005".to_string()];
    same(
        &portfolio_group_membership_result(
            PortfolioGroupMembershipAction::Unassign,
            "group-1",
            &isins,
            state(),
        ),
        r#"{"action":"unassign","group_id":"group-1","isins":["US0378331005"],
            "portfolio_groups_state":{"count":1}}"#,
    );
    assert_eq!(
        membership_document(PortfolioGroupMembershipAction::Assign),
        BROKER_ASSIGN_PORTFOLIO_GROUP_ITEMS_MUTATION
    );
    assert_eq!(
        membership_operation_name(PortfolioGroupMembershipAction::Unassign),
        "BrokerUnassignPortfolioGroupItems"
    );
    same(
        &membership_variables(PortfolioGroupMembershipAction::Unassign, "p", "g", &isins),
        r#"{"portfolioId":"p","input":{"id":"g","portfolioGroupItems":{
            "itemsToAdd":[],"itemsToRemove":["US0378331005"]}}}"#,
    );
}
