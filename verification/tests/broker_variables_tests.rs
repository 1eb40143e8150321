use scalable_cli::broker_queries::{normalize_broker_transactions_query_input, BrokerInput};
use scalable_cli::broker_variables::{
    broker_add_crypto_price_alert_variables, broker_add_price_alert_variables,
    broker_add_to_watchlist_variables, broker_analytics_variables, broker_create_or_update_savings_plan_variables,
    broker_derivatives_search_variables, broker_holdings_variables, broker_overview_variables,
    broker_quote_variables, broker_remove_price_alert_variables,
    broker_remove_from_watchlist_variables, broker_remove_savings_plan_variables,
    broker_savings_plan_by_isin_variables, broker_savings_plan_config_variables,
    broker_savings_plan_ex_ante_cost_variables, broker_savings_plans_variables,
    broker_search_variables, broker_transaction_details_variables,
    broker_transactions_variables_from_normalized,
};
use scalable_cli::chart::{broker_chart_variables, project_broker_chart_response, BrokerChartTimeframe};
use scalable_cli::derivatives::{
    normalize_broker_derivatives_search_query_input, BrokerDerivativeIssuer,
    BrokerDerivativeKnockoutSubcategory, BrokerDerivativeSortField, BrokerDerivativeSortOrder,
    BrokerDerivativeStrategy, BrokerDerivativeType, BrokerDerivativesSearchArgs,
};
use scalable_cli::json::{parse_json, Json};

fn json(text: &str) -> Json {
    parse_json(text).expect("test JSON should parse")
}

fn at<'a>(value: &'a Json, path: &[&str]) -> Option<&'a Json> {
    let mut current = value;
    for key in path {
        current = match current {
            Json::Array(items) => items.get(key.parse::<usize>().ok()?)?,
            _ => current.get(key)?,
        };
    }
    Some(current)
}

fn text<'a>(value: &'a Json, path: &[&str]) -> Option<&'a str> {
    at(value, path).and_then(|v| v.as_str())
}

fn number<'a>(value: &'a Json, path: &[&str]) -> Option<&'a str> {
    match at(value, path) {
        Some(Json::Number(n)) => Some(n.as_str()),
        _ => None,
    }
}

fn boolean(value: &Json, path: &[&str]) -> Option<bool> {
    at(value, path).and_then(|v| v.as_bool())
}

fn is_null(value: &Json, path: &[&str]) -> bool {
    matches!(at(value, path), None | Some(Json::Null))
}

fn broker_input(include_year_to_date: bool, quote_source: Option<&str>) -> BrokerInput {
    BrokerInput::new("acc-1", "port-1", include_year_to_date, quote_source).expect("input")
}

fn sample_derivatives_search_args() -> BrokerDerivativesSearchArgs {
    BrokerDerivativesSearchArgs {
        portfolio_id: Some("port-1".to_string()),
        underlying: "US0378331005".to_string(),
        derivative_type: BrokerDerivativeType::Knockout,
        limit: 25,
        offset: 50,
        issuer: vec![BrokerDerivativeIssuer::Hsbc],
        strategy: BrokerDerivativeStrategy::Long,
        product_subcategory: vec![BrokerDerivativeKnockoutSubcategory::Turbo],
        leverage_min: Some("2".to_string()),
        leverage_max: Some("5".to_string()),
        knockout_barrier_min: Some("180".to_string()),
        knockout_barrier_max: Some("200".to_string()),
        strike_min: Some("175".to_string()),
        strike_max: Some("195".to_string()),
        omega_min: None,
        omega_max: None,
        delta_min: None,
        delta_max: None,
        factor_min: None,
        factor_max: None,
        expiry_from: None,
        expiry_to: None,
        sort_field: Some(BrokerDerivativeSortField::Leverage),
        sort_order: Some(BrokerDerivativeSortOrder::Desc),
        json: true,
    }
}

#[test]
fn broker_overview_variables_map_input() {
    let vars = broker_overview_variables(&broker_input(true, None)).expect("vars");
    assert_eq!(text(&vars, &["accountId"]), Some("acc-1"));
    assert_eq!(text(&vars, &["portfolioId"]), Some("port-1"));
    assert_eq!(boolean(&vars, &["includeYearToDate"]), Some(true));
}

#[test]
fn broker_analytics_variables_map_input() {
    let vars = broker_analytics_variables(&broker_input(false, None)).expect("vars");
    assert_eq!(text(&vars, &["accountId"]), Some("acc-1"));
    assert_eq!(text(&vars, &["portfolioId"]), Some("port-1"));
}

#[test]
fn broker_transactions_variables_map_input() {
    let normalized = normalize_broker_transactions_query_input(
        50,
        Some("cursor-1"),
        &["buy".to_string(), "reinvestmentDistribution".to_string()],
        &["filled".to_string(), "settled".to_string()],
        Some("apple"),
        Some("2026-03-01T00:00:00Z"),
        Some("2026-03-10T23:59:59Z"),
        Some("US0378331005"),
        true,
    )
    .expect("normalized");
    let vars =
        broker_transactions_variables_from_normalized(&broker_input(false, None), &normalized);
    assert_eq!(text(&vars, &["accountId"]), Some("acc-1"));
    assert_eq!(text(&vars, &["portfolioId"]), Some("port-1"));
    assert_eq!(number(&vars, &["input", "pageSize"]), Some("50"));
    assert_eq!(text(&vars, &["input", "cursor"]), Some("cursor-1"));
    assert_eq!(text(&vars, &["input", "type", "0"]), Some("BUY"));
    assert_eq!(text(&vars, &["input", "type", "1"]), Some("REINVESTMENT_DISTRIBUTION"));
    assert_eq!(text(&vars, &["input", "status", "0"]), Some("FILLED"));
    assert_eq!(text(&vars, &["input", "status", "1"]), Some("SETTLED"));
    assert_eq!(text(&vars, &["input", "searchTerm"]), Some("apple"));
    assert_eq!(text(&vars, &["input", "isin"]), Some("US0378331005"));
    assert_eq!(number(&vars, &["input", "fromTime"]), Some("1772323200"));
    assert_eq!(number(&vars, &["input", "toTime"]), Some("1773187199"));
    assert_eq!(boolean(&vars, &["input", "includeReinvestmentSubtypes"]), Some(true));
}

#[test]
fn broker_transaction_details_variables_map_input() {
    let vars =
        broker_transaction_details_variables(&broker_input(false, None), " tx-1 ").expect("vars");
    assert_eq!(text(&vars, &["accountId"]), Some("acc-1"));
    assert_eq!(text(&vars, &["portfolioId"]), Some("port-1"));
    assert_eq!(text(&vars, &["transactionId"]), Some("tx-1"));
}

#[test]
fn broker_transaction_details_variables_reject_blank_transaction_id() {
    let err = broker_transaction_details_variables(&broker_input(false, None), "  ").unwrap_err();
    assert!(err.to_string().contains("transaction_id"));
}

#[test]
fn broker_derivatives_search_variables_map_knockout_input() {
    let mut args = sample_derivatives_search_args();
    args.expiry_from = Some("2026-06-01".to_string());
    args.expiry_to = Some("2026-12-31".to_string());

    let normalized = normalize_broker_derivatives_search_query_input(&args).expect("normalized");
    let vars =
        broker_derivatives_search_variables(&broker_input(false, None), &normalized).expect("vars");
    let ko = ["input", "knockoutInput"];
    let path = |rest: &[&'static str]| -> Vec<&'static str> {
        let mut p = ko.to_vec();
        p.extend_from_slice(rest);
        p
    };
    assert_eq!(text(&vars, &["accountId"]), Some("acc-1"));
    assert_eq!(text(&vars, &["portfolioId"]), Some("port-1"));
    assert_eq!(text(&vars, &path(&["underlyingIsin"])), Some("US0378331005"));
    assert_eq!(number(&vars, &path(&["pagination", "limit"])), Some("25"));
    assert_eq!(number(&vars, &path(&["pagination", "offset"])), Some("50"));
    assert_eq!(text(&vars, &path(&["strategy"])), Some("LONG"));
    assert_eq!(text(&vars, &path(&["issuers", "0"])), Some("HSBC"));
    assert_eq!(text(&vars, &path(&["productSubcategories", "0"])), Some("TURBO"));
    assert_eq!(text(&vars, &path(&["leverageRange", "min"])), Some("2"));
    assert_eq!(text(&vars, &path(&["leverageRange", "max"])), Some("5"));
    assert_eq!(text(&vars, &path(&["expiryDate", "startDate"])), Some("2026-06-01"));
    assert_eq!(text(&vars, &path(&["expiryDate", "endDate"])), Some("2026-12-31"));
    assert_eq!(boolean(&vars, &path(&["expiryDate", "isOpenEnd"])), Some(false));
    assert_eq!(text(&vars, &path(&["knockoutBarrier", "min"])), Some("180"));
    assert_eq!(text(&vars, &path(&["strike", "max"])), Some("195"));
    assert_eq!(text(&vars, &path(&["sortBy", "field"])), Some("LEVERAGE"));
    assert_eq!(text(&vars, &path(&["sortBy", "order"])), Some("DESC"));
    assert!(matches!(at(&vars, &["input", "warrantInput"]), Some(Json::Null)));
    assert!(matches!(at(&vars, &["input", "factorCertificateInput"]), Some(Json::Null)));
}

#[test]
fn broker_derivatives_search_variables_map_warrant_input() {
    let mut args = sample_derivatives_search_args();
    args.derivative_type = BrokerDerivativeType::Warrant;
    args.strategy = BrokerDerivativeStrategy::Call;
    args.product_subcategory.clear();
    args.leverage_min = None;
    args.leverage_max = None;
    args.knockout_barrier_min = None;
    args.knockout_barrier_max = None;
    args.omega_min = Some("3".to_string());
    args.omega_max = Some("9".to_string());
    args.delta_min = Some("-0.6".to_string());
    args.delta_max = Some("-0.2".to_string());
    args.expiry_from = Some("2026-06-01".to_string());
    args.expiry_to = Some("2026-12-31".to_string());
    args.sort_field = Some(BrokerDerivativeSortField::Delta);

    let normalized = normalize_broker_derivatives_search_query_input(&args).expect("normalized");
    let vars =
        broker_derivatives_search_variables(&broker_input(false, None), &normalized).expect("vars");

    assert_eq!(text(&vars, &["input", "warrantInput", "underlyingIsin"]), Some("US0378331005"));
    assert_eq!(text(&vars, &["input", "warrantInput", "strategy"]), Some("CALL"));
    assert_eq!(text(&vars, &["input", "warrantInput", "omegaRange", "min"]), Some("3"));
    assert_eq!(text(&vars, &["input", "warrantInput", "deltaRange", "min"]), Some("-0.6"));
    assert_eq!(
        text(&vars, &["input", "warrantInput", "expiryDate", "startDate"]),
        Some("2026-06-01")
    );
    assert!(at(&vars, &["input", "warrantInput", "expiryDate", "isOpenEnd"]).is_none());
    assert_eq!(text(&vars, &["input", "warrantInput", "sortBy", "field"]), Some("DELTA"));
    assert!(matches!(at(&vars, &["input", "knockoutInput"]), Some(Json::Null)));
    assert!(matches!(at(&vars, &["input", "factorCertificateInput"]), Some(Json::Null)));
}

#[test]
fn broker_derivatives_search_variables_map_factor_input() {
    let mut args = sample_derivatives_search_args();
    args.derivative_type = BrokerDerivativeType::Factor;
    args.strategy = BrokerDerivativeStrategy::Short;
    args.product_subcategory.clear();
    args.leverage_min = None;
    args.leverage_max = None;
    args.knockout_barrier_min = None;
    args.knockout_barrier_max = None;
    args.strike_min = None;
    args.strike_max = None;
    args.factor_min = Some("2".to_string());
    args.factor_max = Some("8".to_string());
    args.sort_field = Some(BrokerDerivativeSortField::Factor);

    let normalized = normalize_broker_derivatives_search_query_input(&args).expect("normalized");
    let vars =
        broker_derivatives_search_variables(&broker_input(false, None), &normalized).expect("vars");

    assert_eq!(
        text(&vars, &["input", "factorCertificateInput", "underlyingIsin"]),
        Some("US0378331005")
    );
    assert_eq!(text(&vars, &["input", "factorCertificateInput", "strategy"]), Some("SHORT"));
    assert_eq!(text(&vars, &["input", "factorCertificateInput", "factorRange", "min"]), Some("2"));
    assert_eq!(
        text(&vars, &["input", "factorCertificateInput", "sortBy", "field"]),
        Some("FACTOR")
    );
    assert!(matches!(at(&vars, &["input", "knockoutInput"]), Some(Json::Null)));
    assert!(matches!(at(&vars, &["input", "warrantInput"]), Some(Json::Null)));
}

#[test]
fn broker_holdings_variables_map_input() {
    let vars = broker_holdings_variables(&broker_input(true, Some("CONSOLIDATED"))).expect("vars");
    assert_eq!(text(&vars, &["accountId"]), Some("acc-1"));
    assert_eq!(text(&vars, &["portfolioId"]), Some("port-1"));
    assert_eq!(boolean(&vars, &["includeYearToDate"]), Some(true));
    assert_eq!(text(&vars, &["quoteSource"]), Some("CONSOLIDATED"));
}

#[test]
fn broker_holdings_variables_send_null_quote_source_when_absent() {
    let vars = broker_holdings_variables(&broker_input(false, Some("  "))).expect("vars");
    assert!(matches!(at(&vars, &["quoteSource"]), Some(Json::Null)));
    let vars = broker_search_variables(&broker_input(false, None), "apple").expect("vars");
    assert_eq!(text(&vars, &["searchTerm"]), Some("apple"));
}

#[test]
fn broker_quote_variables_map_input() {
    let vars = broker_quote_variables(&broker_input(true, Some("CONSOLIDATED")), " US0378331005 ")
        .expect("vars");
    assert_eq!(text(&vars, &["accountId"]), Some("acc-1"));
    assert_eq!(text(&vars, &["portfolioId"]), Some("port-1"));
    assert_eq!(boolean(&vars, &["includeYearToDate"]), Some(true));
    assert_eq!(text(&vars, &["quoteSource"]), Some("CONSOLIDATED"));
    assert_eq!(text(&vars, &["isin"]), Some("US0378331005"));
}

#[test]
fn broker_chart_variables_map_input() {
    let vars = broker_chart_variables(" US0378331005 ", BrokerChartTimeframe::OneMonth).expect("vars");
    assert_eq!(text(&vars, &["isin"]), Some("US0378331005"));
    assert_eq!(text(&vars, &["timeFrames", "0"]), Some("ONE_MONTH"));
    assert!(at(&vars, &["timeFrames", "1"]).is_none());
    assert_eq!(boolean(&vars, &["includeYearToDate"]), Some(true));
}

#[test]
fn broker_chart_variables_reject_blank_isin() {
    let err = broker_chart_variables("  ", BrokerChartTimeframe::OneMonth).unwrap_err();
    assert!(err.to_string().contains("field 'isin'"));
}

#[test]
fn broker_chart_variables_reject_invalid_isin_checksum() {
    let err = broker_chart_variables("US0378331006", BrokerChartTimeframe::OneMonth).unwrap_err();
    assert!(err.to_string().contains("field 'isin'"));
    assert!(err.to_string().contains("valid ISIN"));
}

#[test]
fn broker_chart_variables_reject_non_isin_shape() {
    let err = broker_chart_variables("000000000000", BrokerChartTimeframe::OneMonth).unwrap_err();
    assert!(err.to_string().contains("field 'isin'"));
    assert!(err.to_string().contains("valid ISIN"));
}

#[test]
fn broker_chart_variables_normalize_lowercase_isin() {
    let vars = broker_chart_variables("us0378331005", BrokerChartTimeframe::OneMonth).expect("vars");
    assert_eq!(text(&vars, &["isin"]), Some("US0378331005"));
}

#[test]
fn broker_quote_variables_reject_blank_isin() {
    let err = broker_quote_variables(&broker_input(false, None), "  ").unwrap_err();
    assert!(err.to_string().contains("field 'isin'"));
}

#[test]
fn broker_quote_variables_reject_invalid_isin_checksum() {
    let err = broker_quote_variables(&broker_input(false, None), "US0378331006").unwrap_err();
    assert!(err.to_string().contains("field 'isin'"));
    assert!(err.to_string().contains("valid ISIN"));
}

#[test]
fn broker_quote_variables_normalize_lowercase_isin() {
    let vars = broker_quote_variables(&broker_input(false, None), "us0378331005").expect("vars");
    assert_eq!(text(&vars, &["isin"]), Some("US0378331005"));
}

#[test]
fn watchlist_and_alert_variables_trim_and_check_inputs() {
    let vars = broker_add_to_watchlist_variables(" port-1 ", " US0378331005 ").expect("vars");
    assert_eq!(text(&vars, &["portfolioId"]), Some("port-1"));
    assert_eq!(text(&vars, &["isin"]), Some("US0378331005"));
    assert_eq!(text(&vars, &["input", "isin"]), Some("US0378331005"));
    assert!(broker_add_to_watchlist_variables(" ", "X").unwrap_err().to_string().contains("portfolio_id"));

    let vars = broker_add_price_alert_variables(" port-1 ", " US0378331005 ", "12.5").expect("vars");
    assert_eq!(text(&vars, &["price"]), Some("12.5"));
    assert!(broker_add_price_alert_variables("p", "i", "-1").unwrap_err().to_string().contains("price"));

    let err = broker_remove_price_alert_variables("p", " ").unwrap_err();
    assert_eq!(err.to_string(), "Broker input invalid: field 'alert_id' must be a non-empty string");
    let err = broker_remove_savings_plan_variables("p", "US0378331006").unwrap_err();
    assert!(err.to_string().contains("valid ISIN"));
}

#[test]
fn savings_plan_variables_check_inputs_in_order() {
    let vars = broker_savings_plan_ex_ante_cost_variables(
        &broker_input(false, None),
        "us0378331005",
        " MONTHLY ",
        "25",
    )
    .expect("vars");
    assert_eq!(text(&vars, &["venue"]), Some("MUNC"));
    assert_eq!(text(&vars, &["frequency"]), Some("MONTHLY"));

    let vars = broker_create_or_update_savings_plan_variables(
        "port-1",
        "US0378331005",
        "50",
        "MONTHLY",
        15,
        "2026-04",
        "0",
        "DIRECT_DEBIT",
        Some(" "),
        Some(" v2 "),
    )
    .expect("vars");
    assert_eq!(number(&vars, &["input", "configuration", "dayOfTheMonth"]), Some("15"));
    assert_eq!(text(&vars, &["input", "configuration", "yearMonth"]), Some("2026-04"));
    assert!(is_null(&vars, &["input", "appropriatenessId"]));
    assert_eq!(text(&vars, &["input", "acknowledgedAppropriatenessWarningVersion"]), Some("v2"));

    let err = broker_create_or_update_savings_plan_variables(
        "port-1", "US0378331005", "50", "MONTHLY", 32, "2026-04", "0", "DD", None, None,
    )
    .unwrap_err();
    assert_eq!(err.to_string(), "Broker input invalid: field 'day_of_month' must be between 1 and 31");
}

#[test]
fn project_broker_chart_response_maps_requested_series() {
    let response = json(
        r#"{"timeSeriesBySecurity": [{
            "isin": "US0378331005",
            "timeFrame": "ONE_MONTH",
            "currency": "EUR",
            "source": "CONSOLIDATED",
            "closingReferencePoint": {"midPrice": 184.12, "timestampUtc": {"time": "2026-05-22T21:59:59Z"}},
            "dataPoints": [
                {"midPrice": 185.01, "timestampUtc": {"time": "2026-05-23T09:00:00Z"}},
                {"midPrice": 183.50, "timestampUtc": {"time": "2026-05-24T09:00:00Z"}}
            ]
        }]}"#,
    );
    let projected =
        project_broker_chart_response("US0378331005", BrokerChartTimeframe::OneMonth, &response)
            .expect("project");
    assert_eq!(text(&projected, &["isin"]), Some("US0378331005"));
    assert_eq!(text(&projected, &["timeframe"]), Some("1m"));
    assert_eq!(text(&projected, &["currency"]), Some("EUR"));
    assert_eq!(text(&projected, &["closing_reference_point", "timestamp_utc"]), Some("2026-05-22T21:59:59Z"));
    assert_eq!(number(&projected, &["closing_reference_point", "mid_price"]), Some("184.12"));
    assert_eq!(number(&projected, &["data_points", "1", "mid_price"]), Some("183.5"));
    assert_eq!(number(&projected, &["point_count"]), Some("2"));
}

#[test]
fn project_broker_chart_response_requires_requested_timeframe() {
    let response = json(
        r#"{"timeSeriesBySecurity": [{"isin": "US0378331005", "timeFrame": "ONE_MONTH", "closingReferencePoint": {}, "dataPoints": []}]}"#,
    );
    let err = project_broker_chart_response("US0378331005", BrokerChartTimeframe::YearToDate, &response)
        .unwrap_err();
    assert!(err.to_string().contains("requested timeframe 'ytd'"));
}

#[test]
fn project_broker_chart_response_requires_matching_returned_isin() {
    let response = json(
        r#"{"timeSeriesBySecurity": [{"isin": "DE000BASF111", "timeFrame": "ONE_MONTH", "closingReferencePoint": {}, "dataPoints": []}]}"#,
    );
    let err = project_broker_chart_response("US0378331005", BrokerChartTimeframe::OneMonth, &response)
        .unwrap_err();
    assert!(err.to_string().contains("requested isin 'US0378331005'"));
}

#[test]
fn broker_quote_variables_reject_non_isin_shape() {
    let err = broker_quote_variables(&broker_input(false, None), "000000000000").unwrap_err();
    assert!(err.to_string().contains("field 'isin'"));
    assert!(err.to_string().contains("valid ISIN"));
}

#[test]
fn broker_add_to_watchlist_variables_map_input() {
    let vars = broker_add_to_watchlist_variables("port-1", " US0378331005 ").expect("vars");
    assert_eq!(text(&vars, &["portfolioId"]), Some("port-1"));
    assert_eq!(text(&vars, &["isin"]), Some("US0378331005"));
    assert_eq!(text(&vars, &["input", "isin"]), Some("US0378331005"));
}

#[test]
fn broker_remove_from_watchlist_variables_map_input() {
    let vars = broker_remove_from_watchlist_variables("port-1", "US0378331005").expect("vars");
    assert_eq!(text(&vars, &["portfolioId"]), Some("port-1"));
    assert_eq!(text(&vars, &["isin"]), Some("US0378331005"));
    assert_eq!(text(&vars, &["input", "isin"]), Some("US0378331005"));
}

#[test]
fn broker_remove_savings_plan_variables_map_input() {
    let vars = broker_remove_savings_plan_variables("port-1", "US0378331005").expect("vars");
    assert_eq!(text(&vars, &["portfolioId"]), Some("port-1"));
    assert_eq!(text(&vars, &["isin"]), Some("US0378331005"));
}

#[test]
fn broker_watchlist_mutation_variables_reject_blank_isin() {
    let add_err = broker_add_to_watchlist_variables("port-1", "  ").unwrap_err();
    assert!(add_err.to_string().contains("field 'isin'"));

    let remove_err = broker_remove_from_watchlist_variables("port-1", "").unwrap_err();
    assert!(remove_err.to_string().contains("field 'isin'"));
}

#[test]
fn broker_remove_savings_plan_variables_reject_blank_isin() {
    let err = broker_remove_savings_plan_variables("port-1", "").unwrap_err();
    assert!(err.to_string().contains("field 'isin'"));
}

#[test]
fn broker_remove_savings_plan_variables_reject_invalid_isin_checksum() {
    let err = broker_remove_savings_plan_variables("port-1", "US0378331006").unwrap_err();
    assert!(err.to_string().contains("field 'isin'"));
    assert!(err.to_string().contains("valid ISIN"));
}

#[test]
fn broker_remove_savings_plan_variables_normalize_lowercase_isin() {
    let vars = broker_remove_savings_plan_variables("port-1", "us0378331005").expect("vars");
    assert_eq!(text(&vars, &["isin"]), Some("US0378331005"));
}

#[test]
fn broker_savings_plans_variables_map_input() {
    let vars = broker_savings_plans_variables(&broker_input(false, None)).expect("vars");
    assert_eq!(text(&vars, &["accountId"]), Some("acc-1"));
    assert_eq!(text(&vars, &["portfolioId"]), Some("port-1"));
}

#[test]
fn broker_savings_plan_ex_ante_cost_variables_preserve_amount_and_fix_munc() {
    let variables = broker_savings_plan_ex_ante_cost_variables(
        &broker_input(false, None),
        "us0378331005",
        "MONTHLY",
        "100.50",
    )
    .expect("variables");

    assert_eq!(text(&variables, &["accountId"]), Some("acc-1"));
    assert_eq!(text(&variables, &["portfolioId"]), Some("port-1"));
    assert_eq!(text(&variables, &["isin"]), Some("US0378331005"));
    assert_eq!(text(&variables, &["frequency"]), Some("MONTHLY"));
    assert_eq!(text(&variables, &["amount"]), Some("100.50"));
    assert_eq!(text(&variables, &["venue"]), Some("MUNC"));
}

#[test]
fn broker_savings_plan_config_variables_map_input() {
    let vars = broker_savings_plan_config_variables(&broker_input(false, None), "US0378331005")
        .expect("vars");
    assert_eq!(text(&vars, &["accountId"]), Some("acc-1"));
    assert_eq!(text(&vars, &["portfolioId"]), Some("port-1"));
    assert_eq!(text(&vars, &["isin"]), Some("US0378331005"));
}

#[test]
fn broker_savings_plan_config_variables_reject_invalid_isin_checksum() {
    let err = broker_savings_plan_config_variables(&broker_input(false, None), "US0378331006")
        .unwrap_err();
    assert!(err.to_string().contains("field 'isin'"));
    assert!(err.to_string().contains("valid ISIN"));
}

#[test]
fn broker_savings_plan_config_variables_normalize_lowercase_isin() {
    let vars = broker_savings_plan_config_variables(&broker_input(false, None), "us0378331005")
        .expect("vars");
    assert_eq!(text(&vars, &["isin"]), Some("US0378331005"));
}

#[test]
fn broker_savings_plan_by_isin_variables_reject_invalid_isin_checksum() {
    let err = broker_savings_plan_by_isin_variables(&broker_input(false, None), "US0378331006")
        .unwrap_err();
    assert!(err.to_string().contains("field 'isin'"));
    assert!(err.to_string().contains("valid ISIN"));
}

#[test]
fn broker_create_or_update_savings_plan_variables_map_input() {
    let vars = broker_create_or_update_savings_plan_variables(
        "port-1",
        "US0378331005",
        "100",
        "MONTHLY",
        5,
        "2026-04",
        "1.5",
        "REFERENCE_ACCOUNT",
        Some("app-1"),
        Some("warn-v1"),
    )
    .expect("vars");
    assert_eq!(text(&vars, &["portfolioId"]), Some("port-1"));
    assert_eq!(text(&vars, &["input", "isin"]), Some("US0378331005"));
    assert_eq!(text(&vars, &["input", "amount"]), Some("100"));
    assert_eq!(text(&vars, &["input", "configuration", "frequency"]), Some("MONTHLY"));
    assert_eq!(number(&vars, &["input", "configuration", "dayOfTheMonth"]), Some("5"));
    assert_eq!(text(&vars, &["input", "configuration", "yearMonth"]), Some("2026-04"));
    assert_eq!(
        text(&vars, &["input", "configuration", "paymentMethod"]),
        Some("REFERENCE_ACCOUNT")
    );
    assert_eq!(text(&vars, &["input", "appropriatenessId"]), Some("app-1"));
    assert_eq!(
        text(&vars, &["input", "acknowledgedAppropriatenessWarningVersion"]),
        Some("warn-v1")
    );
}

#[test]
fn broker_create_or_update_savings_plan_variables_reject_invalid_isin_checksum() {
    let err = broker_create_or_update_savings_plan_variables(
        "port-1",
        "US0378331006",
        "100",
        "MONTHLY",
        5,
        "2026-04",
        "1.5",
        "REFERENCE_ACCOUNT",
        None,
        None,
    )
    .unwrap_err();
    assert!(err.to_string().contains("field 'isin'"));
    assert!(err.to_string().contains("valid ISIN"));
}

#[test]
fn broker_create_or_update_savings_plan_variables_normalize_lowercase_isin() {
    let vars = broker_create_or_update_savings_plan_variables(
        "port-1",
        "us0378331005",
        "100",
        "MONTHLY",
        5,
        "2026-04",
        "1.5",
        "REFERENCE_ACCOUNT",
        None,
        None,
    )
    .expect("vars");
    assert_eq!(text(&vars, &["input", "isin"]), Some("US0378331005"));
}

#[test]
fn broker_create_or_update_savings_plan_variables_reject_invalid_year_month() {
    let err = broker_create_or_update_savings_plan_variables(
        "port-1",
        "US0378331005",
        "100",
        "MONTHLY",
        5,
        "2026-13",
        "1.5",
        "REFERENCE_ACCOUNT",
        None,
        None,
    )
    .unwrap_err();
    assert!(err.to_string().contains("year_month"));
}

#[test]
fn broker_create_or_update_savings_plan_variables_accept_zero_dynamization_rate() {
    let vars = broker_create_or_update_savings_plan_variables(
        "port-1",
        "US0378331005",
        "100",
        "MONTHLY",
        5,
        "2026-04",
        "0",
        "REFERENCE_ACCOUNT",
        None,
        None,
    )
    .expect("vars");
    assert_eq!(text(&vars, &["input", "configuration", "dynamizationRate"]), Some("0"));
}

#[test]
fn broker_create_or_update_savings_plan_variables_accept_plus_prefixed_decimals() {
    let vars = broker_create_or_update_savings_plan_variables(
        "port-1",
        "US0378331005",
        "+100",
        "MONTHLY",
        5,
        "2026-04",
        "+1.5",
        "REFERENCE_ACCOUNT",
        None,
        None,
    )
    .expect("vars");
    assert_eq!(text(&vars, &["input", "amount"]), Some("+100"));
    assert_eq!(text(&vars, &["input", "configuration", "dynamizationRate"]), Some("+1.5"));
}

#[test]
fn broker_add_price_alert_variables_map_input() {
    let vars = broker_add_price_alert_variables("port-1", "US0378331005", "123.45").expect("vars");
    assert_eq!(text(&vars, &["portfolioId"]), Some("port-1"));
    assert_eq!(text(&vars, &["isin"]), Some("US0378331005"));
    assert_eq!(text(&vars, &["price"]), Some("123.45"));
}

#[test]
fn broker_add_crypto_price_alert_variables_map_input() {
    let vars = broker_add_crypto_price_alert_variables("port-1", "BTC", "123.45").expect("vars");
    assert_eq!(text(&vars, &["portfolioId"]), Some("port-1"));
    assert_eq!(text(&vars, &["ticker"]), Some("BTC"));
    assert_eq!(text(&vars, &["price"]), Some("123.45"));
}

#[test]
fn broker_remove_price_alert_variables_map_input() {
    let vars = broker_remove_price_alert_variables("port-1", "alert-1").expect("vars");
    assert_eq!(text(&vars, &["portfolioId"]), Some("port-1"));
    assert_eq!(text(&vars, &["alertId"]), Some("alert-1"));
}

#[test]
fn broker_remove_price_alert_variables_reject_blank_alert_id() {
    let err = broker_remove_price_alert_variables("port-1", "  ").unwrap_err();
    assert!(err.to_string().contains("alert_id"));
}

#[test]
fn broker_add_price_alert_variables_reject_invalid_price() {
    let err = broker_add_price_alert_variables("port-1", "US0378331005", "-1").unwrap_err();
    assert!(err.to_string().contains("positive decimal"));
}
