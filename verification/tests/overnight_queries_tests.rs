use scalable_cli::documents::OVERNIGHT_SUMMARY_QUERY;
use scalable_cli::json::{json_text, parse_json, Json};
use scalable_cli::overnight::{
    OvernightSummaryInput, OvernightTransactionsInput, OvernightTransactionsOptions,
};
use scalable_cli::overnight_variables::{
    overnight_discovery_variables, overnight_summary_variables, overnight_transactions_variables,
    render_overnight_summary_text,
};

fn at<'a>(value: &'a Json, path: &[&str]) -> Option<&'a Json> {
    let mut current = value;
    for key in path {
        current = current.get(key)?;
    }
    Some(current)
}

fn same(value: Option<&Json>, expected: &str) {
    let null = Json::Null;
    let expected = parse_json(expected).expect("expected JSON");
    assert_eq!(json_text(value.unwrap_or(&null)), json_text(&expected));
}

#[test]
fn overnight_discovery_variables_map_input() {
    let vars = overnight_discovery_variables("person-1").expect("vars");

    same(at(&vars, &["accountId"]), r#""person-1""#);
}

#[test]
fn overnight_summary_variables_map_input() {
    let input = OvernightSummaryInput::new("person-1", "sav-1").expect("input");
    let vars = overnight_summary_variables(&input).expect("vars");

    same(at(&vars, &["accountId"]), r#""person-1""#);
    same(at(&vars, &["savingsAccountId"]), r#""sav-1""#);
}

#[test]
fn overnight_transactions_variables_normalize_filters_and_dates() {
    let options = OvernightTransactionsOptions::new(
        20,
        Some("cursor-1"),
        &[
            "cash transfer in".to_string(),
            "interest".to_string(),
            "future cash event".to_string(),
        ],
        Some("interest"),
        Some("2026-03-01T00:00:00Z"),
        Some("2026-03-02T00:00:00Z"),
    )
    .expect("options");
    let input = OvernightTransactionsInput::new("person-1", "sav-1", options).expect("input");

    let vars = overnight_transactions_variables(&input);

    same(at(&vars, &["accountId"]), r#""person-1""#);
    same(at(&vars, &["savingsAccountId"]), r#""sav-1""#);
    same(at(&vars, &["input", "pageSize"]), "20");
    same(at(&vars, &["input", "cursor"]), r#""cursor-1""#);
    same(
        at(&vars, &["input", "type"]),
        r#"["CASH_TRANSFER_IN", "FUTURE_CASH_EVENT", "INTEREST"]"#,
    );
    same(at(&vars, &["input", "fromTime"]), "1772323200");
    same(at(&vars, &["input", "toTime"]), "1772409600");
    assert!(at(&vars, &["input", "status"]).is_none());
    assert!(at(&vars, &["input", "isin"]).is_none());
}

#[test]
fn overnight_transactions_options_normalize_and_deduplicate_optional_filters() {
    let options = OvernightTransactionsOptions::new(
        20,
        Some("  "),
        &["interest".to_string(), "INTEREST".to_string()],
        Some("  "),
        None,
        None,
    )
    .expect("options");
    let input = OvernightTransactionsInput::new(" person-1 ", " sav-1 ", options).expect("input");

    let vars = overnight_transactions_variables(&input);

    same(at(&vars, &["accountId"]), r#""person-1""#);
    same(at(&vars, &["savingsAccountId"]), r#""sav-1""#);
    same(at(&vars, &["input", "cursor"]), "null");
    same(at(&vars, &["input", "type"]), r#"["INTEREST"]"#);
    same(at(&vars, &["input", "searchTerm"]), "null");
    assert!(at(&vars, &["input", "status"]).is_none());
    assert!(at(&vars, &["input", "isin"]).is_none());
}

#[test]
fn overnight_transactions_options_normalize_camel_case_and_repeated_separators() {
    let options = OvernightTransactionsOptions::new(
        20,
        None,
        &[
            "CashTransfer-In".to_string(),
            "cash--transfer__out".to_string(),
        ],
        None,
        None,
        None,
    )
    .expect("options");
    let input = OvernightTransactionsInput::new("person-1", "sav-1", options).expect("input");

    let vars = overnight_transactions_variables(&input);

    same(
        at(&vars, &["input", "type"]),
        r#"["CASH_TRANSFER_IN", "CASH_TRANSFER_OUT"]"#,
    );
}

#[test]
fn render_overnight_summary_text_uses_single_interest_rate_surface() {
    let lines = render_overnight_summary_text(
        &parse_json(
            r#"{
            "savings_account_id": "sav-1",
            "account": {
                "display_name": "Tagesgeld",
                "owner_kind": "personal"
            },
            "result": {
                "interest_rate": "0.02",
                "balance": "1001.23",
                "current_interest_bearing_amount": "1000",
                "current_accrued_amount": "1.23",
                "estimated_next_payout_amount": "0.98",
                "next_payout_date": "1970-01-01T00:00:00+00:00",
                "deposit_accrued_lifetime_amount": "12.34"
            }
        }"#,
        )
        .expect("payload"),
    );

    assert!(lines.contains(&"interest_rate: 0.02".to_string()));
    assert!(!lines.iter().any(|line| line.contains("interest_tier")));
    assert!(!lines.iter().any(|line| line.contains("effective_yearly")));
    assert!(!lines.iter().any(|line| line.contains("deposit_interest_rate")));
    assert_eq!(lines[0], "savings_account_id: sav-1");
    assert_eq!(lines.len(), 10);
}

#[test]
fn overnight_summary_input_rejects_blank_ids() {
    let err = OvernightSummaryInput::new(" ", "sav-1").expect_err("input should fail");
    assert!(err.to_string().contains("account_id"));

    let err = OvernightSummaryInput::new("person-1", " ").expect_err("input should fail");
    assert!(err.to_string().contains("savings_account_id"));
}

#[test]
fn overnight_summary_query_requests_interest_rate() {
    assert!(OVERNIGHT_SUMMARY_QUERY.contains("depositInterestRate"));
}

#[test]
fn overnight_transactions_options_reject_invalid_filter_and_time_range() {
    let err =
        OvernightTransactionsOptions::new(20, None, &["cash@event".to_string()], None, None, None)
            .expect_err("invalid filter characters should fail");
    assert!(err.to_string().contains("type_filter"));

    let err = OvernightTransactionsOptions::new(
        20,
        None,
        &[],
        None,
        Some("2026-03-02T00:00:00Z"),
        Some("2026-03-01T00:00:00Z"),
    )
    .expect_err("inverted range should fail");
    assert!(err.to_string().contains("from_time"));
}

#[test]
fn overnight_transactions_options_validate_page_and_timestamp_inputs() {
    for page_size in [0, 101] {
        let err = OvernightTransactionsOptions::new(page_size, None, &[], None, None, None)
            .expect_err("out-of-range page size should fail");
        assert!(err.to_string().contains("page_size"));
    }

    for timestamp in ["", "2026-03-01"] {
        let err = OvernightTransactionsOptions::new(20, None, &[], None, Some(timestamp), None)
            .expect_err("invalid timestamp should fail");
        assert!(err.to_string().contains("from_time"));
    }
}
