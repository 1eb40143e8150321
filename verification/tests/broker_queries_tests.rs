use scalable_cli::broker_queries::normalize_broker_transactions_query_input;
use scalable_cli::derivatives::{
    normalize_broker_derivatives_search_query_input, BrokerDerivativeIssuer,
    BrokerDerivativeKnockoutSubcategory, BrokerDerivativeSortField, BrokerDerivativeSortOrder,
    BrokerDerivativeStrategy, BrokerDerivativeType, BrokerDerivativesSearchArgs,
};
use scalable_cli::documents::{
    BROKER_CHART_QUERY, BROKER_DERIVATIVES_SEARCH_QUERY, BROKER_OVERVIEW_QUERY, BROKER_QUOTE_QUERY,
    BROKER_SAVINGS_PLAN_EX_ANTE_COSTS_QUERY, BROKER_TRANSACTION_DETAILS_QUERY,
};

fn sample_derivatives_search_args() -> BrokerDerivativesSearchArgs {
    BrokerDerivativesSearchArgs {
        portfolio_id: Some("port-1".to_string()),
        underlying: "US0378331005".to_string(),
        derivative_type: BrokerDerivativeType::Knockout,
        limit: 25,
        offset: 50,
        issuer: vec![BrokerDerivativeIssuer::Hsbc],
        strategy: BrokerDerivativeStrategy::Long,
        product_subcategory: vec![BrokerDerivativeKnockoutSubcategory::Turbo],
        leverage_min: Some("2".to_string()),
        leverage_max: Some("5".to_string()),
        knockout_barrier_min: Some("180".to_string()),
        knockout_barrier_max: Some("200".to_string()),
        strike_min: Some("175".to_string()),
        strike_max: Some("195".to_string()),
        omega_min: None,
        omega_max: None,
        delta_min: None,
        delta_max: None,
        factor_min: None,
        factor_max: None,
        expiry_from: None,
        expiry_to: None,
        sort_field: Some(BrokerDerivativeSortField::Leverage),
        sort_order: Some(BrokerDerivativeSortOrder::Desc),
        json: true,
    }
}

#[test]
fn broker_overview_query_requests_only_supported_return_fields() {
    assert!(BROKER_OVERVIEW_QUERY.contains("timeWeightedReturnByTimeframe"));
    assert!(BROKER_OVERVIEW_QUERY.contains("simpleAbsoluteReturn"));
    assert!(!BROKER_OVERVIEW_QUERY.contains("performance"));
}

#[test]
fn broker_transactions_variables_reject_invalid_range() {
    let err = normalize_broker_transactions_query_input(
        20,
        None,
        &[],
        &[],
        None,
        Some("2026-03-11T00:00:00Z"),
        Some("2026-03-10T00:00:00Z"),
        None,
        false,
    )
    .unwrap_err();
    assert!(err.to_string().contains("from_time"));
}

#[test]
fn broker_transactions_variables_reject_invalid_fractional_range_within_same_second() {
    let err = normalize_broker_transactions_query_input(
        20,
        None,
        &[],
        &[],
        None,
        Some("2026-01-01T00:00:00.900Z"),
        Some("2026-01-01T00:00:00.100Z"),
        None,
        false,
    )
    .unwrap_err();
    assert!(err.to_string().contains("from_time"));
}

#[test]
fn broker_transactions_variables_reject_page_size_above_max() {
    let err = normalize_broker_transactions_query_input(
        101,
        None,
        &[],
        &[],
        None,
        None,
        None,
        None,
        false,
    )
    .unwrap_err();
    assert!(err.to_string().contains("page_size"));
}

#[test]
fn broker_transactions_variables_reject_unsupported_type_filter() {
    let err = normalize_broker_transactions_query_input(
        20,
        None,
        &["CASH_TRANSACTION".to_string()],
        &[],
        None,
        None,
        None,
        None,
        false,
    )
    .unwrap_err();
    let message = err.to_string();
    assert!(message.contains("type_filter"));
    assert!(message.contains("CASH_TRANSACTION"));
    assert!(message.contains("not supported"));
    assert!(message.contains("BUY"));
}

#[test]
fn broker_transactions_variables_reject_unsupported_status_filter() {
    let err = normalize_broker_transactions_query_input(
        20,
        None,
        &[],
        &["DONE".to_string()],
        None,
        None,
        None,
        None,
        false,
    )
    .unwrap_err();
    let message = err.to_string();
    assert!(message.contains("status"));
    assert!(message.contains("DONE"));
    assert!(message.contains("not supported"));
    assert!(message.contains("FILLED"));
}

#[test]
fn broker_derivatives_search_variables_reject_invalid_strategy_for_type() {
    let mut args = sample_derivatives_search_args();
    args.derivative_type = BrokerDerivativeType::Warrant;
    args.strategy = BrokerDerivativeStrategy::Long;

    let err = normalize_broker_derivatives_search_query_input(&args).unwrap_err();
    assert!(err.to_string().contains("not supported"));
}

#[test]
fn broker_derivatives_search_variables_reject_knockout_fields_for_warrant_type() {
    let mut args = sample_derivatives_search_args();
    args.derivative_type = BrokerDerivativeType::Warrant;
    args.strategy = BrokerDerivativeStrategy::Call;

    let err = normalize_broker_derivatives_search_query_input(&args).unwrap_err();
    assert!(err.to_string().contains("product_subcategory"));
}

#[test]
fn broker_derivatives_search_variables_reject_offset_above_graphql_int_max() {
    let mut args = sample_derivatives_search_args();
    args.offset = (i32::MAX as u32) + 1;

    let err = normalize_broker_derivatives_search_query_input(&args).unwrap_err();
    assert!(err.to_string().contains("field 'offset'"));
}

#[test]
fn broker_derivatives_search_variables_reject_invalid_underlying_isin_checksum() {
    let mut args = sample_derivatives_search_args();
    args.underlying = "US0378331006".to_string();

    let err = normalize_broker_derivatives_search_query_input(&args).unwrap_err();
    assert!(err.to_string().contains("field 'underlying'"));
    assert!(err.to_string().contains("valid ISIN"));
}

#[test]
fn broker_derivatives_search_variables_reject_non_isin_underlying_shape() {
    let mut args = sample_derivatives_search_args();
    args.underlying = "000000000000".to_string();

    let err = normalize_broker_derivatives_search_query_input(&args).unwrap_err();
    assert!(err.to_string().contains("field 'underlying'"));
    assert!(err.to_string().contains("valid ISIN"));
}

#[test]
fn broker_derivatives_search_variables_reject_invalid_warrant_expiry_range() {
    let mut args = sample_derivatives_search_args();
    args.derivative_type = BrokerDerivativeType::Warrant;
    args.strategy = BrokerDerivativeStrategy::Call;
    args.product_subcategory.clear();
    args.leverage_min = None;
    args.leverage_max = None;
    args.knockout_barrier_min = None;
    args.knockout_barrier_max = None;
    args.strike_min = None;
    args.strike_max = None;
    args.expiry_from = Some("2026-12-31".to_string());
    args.expiry_to = Some("2026-06-01".to_string());
    args.sort_field = Some(BrokerDerivativeSortField::ExpiryDate);

    let err = normalize_broker_derivatives_search_query_input(&args).unwrap_err();
    assert!(err.to_string().contains("expiry_from"));
}

#[test]
fn broker_derivatives_search_variables_reject_missing_sort_pair() {
    let mut args = sample_derivatives_search_args();
    args.sort_order = None;

    let err = normalize_broker_derivatives_search_query_input(&args).unwrap_err();
    assert!(err.to_string().contains("sort_order"));
}

#[test]
fn broker_derivatives_search_variables_reject_factor_invalid_sort_field() {
    let mut args = sample_derivatives_search_args();
    args.derivative_type = BrokerDerivativeType::Factor;
    args.strategy = BrokerDerivativeStrategy::Short;
    args.product_subcategory.clear();
    args.leverage_min = None;
    args.leverage_max = None;
    args.knockout_barrier_min = None;
    args.knockout_barrier_max = None;
    args.strike_min = None;
    args.strike_max = None;
    args.factor_min = Some("2".to_string());
    args.factor_max = Some("8".to_string());
    args.sort_field = Some(BrokerDerivativeSortField::Leverage);

    let err = normalize_broker_derivatives_search_query_input(&args).unwrap_err();
    assert!(err.to_string().contains("sort field"));
}

#[test]
fn broker_transaction_details_query_aliases_conflicting_fields() {
    for required in [
        "securityTransactionHistory: transactionHistory",
        "cashTransactionHistory: transactionHistory",
        "nonTradeAveragePrice: averagePrice",
        "nonTradeSecurityAmount: totalAmount",
        "nonTradeSecurityTransactionHistory: transactionHistory",
        "eltifTransactionHistory: transactionHistory",
    ] {
        assert!(
            BROKER_TRANSACTION_DETAILS_QUERY.contains(required),
            "query should contain {required}"
        );
    }
}

#[test]
fn broker_quote_query_contains_app_parity_identity_and_tick_fields() {
    for required in [
        "security(isin: $isin)",
        "id",
        "bidPrice",
        "askPrice",
        "timestampUtc",
        "performancesByTimeframe",
        "simpleAbsoluteReturn",
    ] {
        assert!(
            BROKER_QUOTE_QUERY.contains(required),
            "quote query should contain {required}"
        );
    }
    assert!(
        !BROKER_QUOTE_QUERY.contains("\n          time\n"),
        "quote query should not request deprecated QuoteTick.time"
    );
}

#[test]
fn broker_chart_query_contains_timeseries_fields_without_deprecated_timestamps() {
    for required in [
        "timeSeriesBySecurity(",
        "timeFrames: $timeFrames",
        "includeYearToDate: $includeYearToDate",
        "timeFrame",
        "source",
        "closingReferencePoint",
        "dataPoints",
        "midPrice",
        "timestampUtc",
    ] {
        assert!(
            BROKER_CHART_QUERY.contains(required),
            "chart query should contain {required}"
        );
    }
    assert!(
        !BROKER_CHART_QUERY.contains("\n        timestamp\n"),
        "chart query should not request deprecated timestamp"
    );
    assert!(
        !BROKER_CHART_QUERY.contains("epochSeconds"),
        "chart query should not request deprecated epochSeconds"
    );
}

#[test]
fn broker_savings_plan_ex_ante_query_contains_web_cost_fragment() {
    for field in [
        "savingsPlanExAnteCosts",
        "entryCosts",
        "ongoingCosts",
        "exitCosts",
        "effectOnReturn",
        "fiveYearsCosts",
        "incidentalCosts",
        "initialYearCosts",
        "followingYearsCosts",
        "finalYearCosts",
        "productCosts",
        "serviceCosts",
        "percentage",
    ] {
        assert!(
            BROKER_SAVINGS_PLAN_EX_ANTE_COSTS_QUERY.contains(field),
            "missing {field}"
        );
    }
}

#[test]
fn broker_derivatives_search_query_uses_non_conflicting_warrant_expiry_shape() {
    let warrant_fragment = BROKER_DERIVATIVES_SEARCH_QUERY
        .split("... on WarrantSearchResult {")
        .nth(1)
        .and_then(|section| {
            section
                .split("... on FactorCertificateSearchResult {")
                .next()
        })
        .expect("warrant fragment");

    assert!(warrant_fragment.contains("expiryDate {\n              epochDay\n            }"));
    assert!(!warrant_fragment.contains("expiryDate {\n              date"));
}

#[test]
fn derivative_issuers_come_out_once_each_in_increasing_order() {
    let mut args = sample_derivatives_search_args();
    args.issuer = vec![
        BrokerDerivativeIssuer::Ubs,
        BrokerDerivativeIssuer::Citi,
        BrokerDerivativeIssuer::Ubs,
        BrokerDerivativeIssuer::BnpParibas,
    ];
    let normalized = normalize_broker_derivatives_search_query_input(&args).expect("normalized");
    assert_eq!(
        normalized.issuers,
        Some(vec!["BNP_PARIBAS".to_string(), "CITI".to_string(), "UBS".to_string()])
    );
}

#[test]
fn derivative_ranges_keep_given_ends_and_drop_absent_ranges() {
    let mut args = sample_derivatives_search_args();
    args.issuer = Vec::new();
    args.leverage_min = None;
    args.leverage_max = Some("5".to_string());
    args.strike_min = None;
    args.strike_max = None;
    let normalized = normalize_broker_derivatives_search_query_input(&args).expect("normalized");
    assert_eq!(normalized.issuers, None);
    let leverage = normalized.leverage_range.expect("leverage range");
    assert_eq!(leverage.min, None);
    assert_eq!(leverage.max, Some("5".to_string()));
    assert!(normalized.strike_range.is_none());
    assert!(normalized.omega_range.is_none());
}

#[test]
fn derivative_range_with_lower_end_above_upper_end_is_refused() {
    let mut args = sample_derivatives_search_args();
    args.leverage_min = Some("6".to_string());
    args.leverage_max = Some("5".to_string());
    let err = normalize_broker_derivatives_search_query_input(&args).unwrap_err();
    assert!(err.to_string().contains("must define a valid range"));
}
