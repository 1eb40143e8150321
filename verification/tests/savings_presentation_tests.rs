use scalable_cli::json::{parse_json, Json};
use scalable_cli::savings_presentation::{
    build_phase1_presentation, render_phase1_text, required_leaf_paths,
};

fn json(text: &str) -> Json {
    parse_json(text).expect("test JSON should parse")
}

#[test]
fn phase1_presentation_lists_every_cost_value_path() {
    let presentation = build_phase1_presentation(
        &json(r#"{"isin": "US0378331005"}"#),
        "100",
        &json(
            r#"{
                "frequency": "MONTHLY",
                "day_of_month": 5,
                "year_month": "2026-04",
                "dynamization_rate": "0",
                "payment_method": "REFERENCE_ACCOUNT"
            }"#,
        ),
        "MUNC",
        &json(r#"{"id": "cost-1"}"#),
        &json(
            r#"{
                "id": "scsp1_example",
                "expires_at_epoch": 123,
                "command_template": "sc broker savings-plans add --confirm scsp1_example"
            }"#,
        ),
    )
    .expect("presentation");

    let paths = match presentation.get("required_leaf_paths") {
        Some(Json::Array(paths)) => paths,
        other => panic!("required paths missing: {other:?}"),
    };
    assert!(paths
        .iter()
        .any(|path| path.as_str() == Some("ex_ante_costs.effectOnReturn.finalYearCosts.percentage")));
    assert!(paths
        .iter()
        .any(|path| path.as_str() == Some("ex_ante_costs.incidentalCosts.amount")));
}

#[test]
fn human_renderer_uses_the_broker_result_presentation_and_preserves_nulls() {
    let payload = json(
        r#"{
        "result": {
            "presentation": {
                "savings_plan": {"amount": "100"},
                "ex_ante_costs": {
                    "entryCosts": {"total": {"amount": "3", "percentage": "0.3"}},
                    "incidentalCosts": null
                },
                "confirmation": {
                    "id": "scsp1_example",
                    "expires_at_epoch": 123,
                    "command_template": "sc broker savings-plans add --confirm scsp1_example"
                }
            }
        }
    }"#,
    );

    let lines = render_phase1_text(&payload);

    assert!(lines.iter().any(|line| line == "  amount: 100"));
    assert!(lines.iter().any(|line| line == "  incidentalCosts: null"));
    assert!(lines.iter().any(|line| line == "  id: scsp1_example"));
    assert!(lines.iter().any(|line| {
        line == "  command_template: sc broker savings-plans add --confirm scsp1_example"
    }));
    assert!(!lines.iter().any(|line| line == "  <missing>"));
}

#[test]
fn phase1_presentation_requires_a_confirmation_id() {
    let err = build_phase1_presentation(
        &json("{}"),
        "100",
        &json("{}"),
        "MUNC",
        &json("{}"),
        &json(r#"{"id": ""}"#),
    )
    .unwrap_err();
    assert_eq!(err.to_string(), "SAVINGS_PLAN_EX_ANTE_COST_UNAVAILABLE: missing confirmation id");
    assert_eq!(required_leaf_paths().len(), 41);
}

#[test]
fn renderer_sorts_members_nests_objects_and_marks_missing_sections() {
    let payload = json(
        r#"{"presentation": {
            "savings_plan": {"b": [1, {"y": 2, "x": 1}], "a": {"d": true, "c": 1.5}},
            "confirmation": {"id": "c-1"}
        }}"#,
    );
    let lines = render_phase1_text(&payload);
    assert_eq!(
        lines,
        vec![
            "Savings-plan ex-ante cost disclosure",
            "",
            "Savings plan:",
            "  a:",
            "    c: 1.5",
            "    d: true",
            "  b: [1,{\"x\":1,\"y\":2}]",
            "",
            "Ex-ante costs:",
            "  <missing>",
            "",
            "Confirmation:",
            "  id: c-1",
            "",
            "Present every value above to the client, then obtain an explicit affirmative confirmation in a separate interaction before running the printed phase-2 command.",
        ]
    );
}
