use scalable_cli::group_projections::project_broker_portfolio_groups_response;
use scalable_cli::group_render::{
    render_broker_portfolio_groups_mutation_text, render_broker_portfolio_groups_text,
};
use scalable_cli::json::{json_text, parse_json, Json};
use scalable_cli::machine::classify_error;

fn json(text: &str) -> Json {
    parse_json(text).expect("test JSON should parse")
}

fn at<'a>(value: &'a Json, path: &[&str]) -> Option<&'a Json> {
    let mut current = value;
    for key in path {
        current = match current {
            Json::Array(items) => items.get(key.parse::<usize>().ok()?)?,
            _ => current.get(key)?,
        };
    }
    Some(current)
}

fn same(value: Option<&Json>, expected: &str) {
    let null = Json::Null;
    assert_eq!(json_text(value.unwrap_or(&null)), json_text(&json(expected)));
}

const SAMPLE_RESPONSE: &str = r#"{
    "account": {
        "brokerPortfolio": {
            "inventory": {
                "portfolioGroups": {
                    "offerAllowsAdditionalPortfolioGroup": true,
                    "maxPortfolioGroupsPerPortfolioReached": false,
                    "items": [
                        {
                            "id": "group-1",
                            "details": {
                                "id": "group-1",
                                "name": "AI portfolio",
                                "description": "tracked by agent"
                            },
                            "numberOfPendingOrders": 1,
                            "savingsPlansAmount": "25.00",
                            "performance": {
                                "id": "performance-1",
                                "valuation": "1234.56",
                                "currency": "EUR",
                                "performancesByTimeframe": [
                                    {
                                        "timeframe": "SINCE_BUY",
                                        "performance": "0.12",
                                        "simpleAbsoluteReturn": "132.45"
                                    },
                                    {
                                        "timeframe": "ONE_DAY",
                                        "performance": "0.01",
                                        "simpleAbsoluteReturn": "10.00"
                                    }
                                ]
                            },
                            "items": [
                                {
                                    "id": "security-1",
                                    "isin": "US0378331005",
                                    "name": "Apple Inc.",
                                    "type": "STOCK"
                                }
                            ]
                        },
                        {
                            "id": "group-2",
                            "details": {
                                "id": "group-2",
                                "name": "Long term",
                                "description": null
                            },
                            "numberOfPendingOrders": 0,
                            "savingsPlansAmount": "0",
                            "performance": null,
                            "items": []
                        }
                    ]
                },
                "ungroupedInventoryItems": {
                    "items": [
                        {
                            "id": "security-2",
                            "isin": "IE00B4ND3602",
                            "name": "MSCI World ETF",
                            "type": "ETF"
                        }
                    ]
                }
            }
        }
    }
}"#;

const SAMPLE_PAYLOAD: &str = r#"{
    "result": {
        "offer_allows_additional_group": true,
        "max_groups_per_portfolio_reached": false,
        "portfolio_groups": [
            {
                "group_id": "group-1",
                "name": "AI portfolio",
                "description": "tracked by agent",
                "number_of_pending_orders": 1,
                "savings_plans_amount": "25.00",
                "performance": {
                    "valuation": "1234.56",
                    "currency": "EUR",
                    "since_buy": {
                        "performance": "0.12",
                        "simple_absolute_return": "132.45"
                    }
                },
                "items": [
                    {
                        "isin": "US0378331005",
                        "name": "Apple Inc.",
                        "security_type": "STOCK"
                    }
                ]
            }
        ],
        "ungrouped_items": [
            {
                "isin": "IE00B4ND3602",
                "name": "MSCI World ETF",
                "security_type": "ETF"
            }
        ]
    }
}"#;

#[test]
fn project_portfolio_groups_maps_groups_and_since_buy_performance() {
    let projected =
        project_broker_portfolio_groups_response(&json(SAMPLE_RESPONSE), None).expect("project");

    same(at(&projected, &["offer_allows_additional_group"]), "true");
    same(at(&projected, &["max_groups_per_portfolio_reached"]), "false");
    same(
        at(&projected, &["portfolio_groups", "0"]),
        r#"{
            "group_id": "group-1",
            "name": "AI portfolio",
            "description": "tracked by agent",
            "number_of_pending_orders": 1,
            "savings_plans_amount": "25.00",
            "performance": {
                "valuation": "1234.56",
                "currency": "EUR",
                "since_buy": {
                    "performance": "0.12",
                    "simple_absolute_return": "132.45"
                }
            },
            "items": [
                {
                    "isin": "US0378331005",
                    "name": "Apple Inc.",
                    "security_type": "STOCK"
                }
            ]
        }"#,
    );
    same(at(&projected, &["portfolio_groups", "1", "performance"]), "null");
    assert!(at(&projected, &["portfolio_groups", "0", "items", "0", "id"]).is_none());
    same(at(&projected, &["ungrouped_items", "0", "isin"]), r#""IE00B4ND3602""#);
    assert!(at(&projected, &["ungrouped_items", "0", "id"]).is_none());
}

#[test]
fn project_portfolio_groups_filters_to_one_group() {
    let projected = project_broker_portfolio_groups_response(&json(SAMPLE_RESPONSE), Some("group-2"))
        .expect("project filtered response");

    assert!(matches!(at(&projected, &["portfolio_groups"]), Some(Json::Array(g)) if g.len() == 1));
    same(at(&projected, &["portfolio_groups", "0", "group_id"]), r#""group-2""#);
    assert!(matches!(at(&projected, &["ungrouped_items"]), Some(Json::Array(u)) if u.is_empty()));
}

#[test]
fn project_portfolio_groups_filter_miss_uses_stable_not_found_error_contract() {
    let err = project_broker_portfolio_groups_response(&json(SAMPLE_RESPONSE), Some("missing-group"))
        .expect_err("missing group should fail");

    assert_eq!(classify_error(&err).code, "portfolio_group_not_found");
    assert!(err
        .to_string()
        .contains("portfolio group 'missing-group' was not found in the active portfolio"));
}

#[test]
fn render_portfolio_groups_text_supports_wrapped_payloads() {
    let lines = render_broker_portfolio_groups_text(&json(SAMPLE_PAYLOAD), false);

    assert!(lines.contains(&"groups: 1".to_string()));
    assert!(lines.contains(&"Group: AI portfolio (group-1)".to_string()));
    assert!(lines.contains(&"since_buy_simple_absolute_return: 132.45 EUR".to_string()));
    assert!(lines.contains(&"Ungrouped".to_string()));
}

#[test]
fn render_portfolio_groups_text_omits_ungrouped_block_when_filtered() {
    let lines = render_broker_portfolio_groups_text(&json(SAMPLE_PAYLOAD), true);

    assert!(!lines.iter().any(|line| line == "Ungrouped"));
}

#[test]
fn render_portfolio_groups_mutation_includes_action_and_readback_state() {
    let state = SAMPLE_PAYLOAD
        .trim()
        .strip_prefix("{\n    \"result\":")
        .and_then(|rest| rest.trim_end().strip_suffix('}'))
        .expect("sample payload wraps a result");
    let payload = json(&format!(
        r#"{{
        "result": {{
            "action": "create",
            "group_id": "group-1",
            "name": "AI portfolio",
            "description": null,
            "isins": ["US0378331005", "IE00B4ND3602"],
            "portfolio_groups_state": {state}
        }}
    }}"#
    ));

    let lines = render_broker_portfolio_groups_mutation_text(&payload);

    assert!(lines.contains(&"action: create".to_string()));
    assert!(lines.contains(&"group_id: group-1".to_string()));
    assert!(lines.contains(&"isins: US0378331005, IE00B4ND3602".to_string()));
    assert!(lines.contains(&"groups: 1".to_string()));
}

#[test]
fn render_portfolio_groups_text_lists_every_line_of_a_group() {
    let lines = render_broker_portfolio_groups_text(&json(SAMPLE_PAYLOAD), false);
    assert_eq!(
        lines,
        vec![
            "groups: 1",
            "offer_allows_additional_group: true",
            "max_groups_per_portfolio_reached: false",
            "",
            "Group: AI portfolio (group-1)",
            "description: tracked by agent",
            "items: 1",
            "pending_orders: 1",
            "savings_plans_amount: 25.00",
            "valuation: 1234.56 EUR",
            "since_buy_performance: 0.12",
            "since_buy_simple_absolute_return: 132.45 EUR",
            "holdings:",
            "  - Apple Inc. (US0378331005, STOCK)",
            "",
            "Ungrouped",
            "items: 1",
            "  - MSCI World ETF (IE00B4ND3602, ETF)",
        ]
    );
    let mutation = render_broker_portfolio_groups_mutation_text(&json(
        r#"{"action": "delete", "description": null, "isins": ["A", 3, "B"]}"#,
    ));
    assert_eq!(mutation, vec!["action: delete", "description: <none>", "isins: A, B"]);
}
