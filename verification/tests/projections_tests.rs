use scalable_cli::broker_queries::BrokerInput;
use scalable_cli::chart::{project_broker_chart_response, BrokerChartTimeframe};
use scalable_cli::json::{parse_json, Json};
use scalable_cli::projections::project_broker_transactions_response;

fn json(text: &str) -> Json {
    parse_json(text).expect("test JSON should parse")
}

fn at<'a>(value: &'a Json, path: &[&str]) -> Option<&'a Json> {
    let mut current = value;
    for key in path {
        current = match current {
            Json::Array(items) => items.get(key.parse::<usize>().ok()?)?,
            _ => current.get(key)?,
        };
    }
    Some(current)
}

fn text<'a>(value: &'a Json, path: &[&str]) -> Option<&'a str> {
    at(value, path).and_then(|v| v.as_str())
}

fn float(value: &Json, path: &[&str]) -> Option<f64> {
    match at(value, path) {
        Some(Json::Number(n)) => n.parse::<f64>().ok(),
        _ => None,
    }
}

fn broker_input(include_year_to_date: bool, quote_source: Option<&str>) -> BrokerInput {
    BrokerInput::new("acc-1", "port-1", include_year_to_date, quote_source).expect("input")
}

#[test]
fn project_broker_chart_response_maps_series_fields() {
    let response = json(
        r#"{
        "timeSeriesBySecurity": [
            {
                "isin": "US0378331005",
                "timeFrame": "ONE_MONTH",
                "currency": "EUR",
                "source": "CONSOLIDATED",
                "closingReferencePoint": {
                    "midPrice": 184.12,
                    "timestampUtc": {"time": "2026-05-22T21:59:59Z"}
                },
                "dataPoints": [
                    {"midPrice": 185.01, "timestampUtc": {"time": "2026-05-23T09:00:00Z"}},
                    {"midPrice": 183.50, "timestampUtc": {"time": "2026-05-24T09:00:00Z"}}
                ]
            }
        ]
    }"#,
    );

    let projected =
        project_broker_chart_response("US0378331005", BrokerChartTimeframe::OneMonth, &response)
            .expect("project");

    assert_eq!(text(&projected, &["isin"]), Some("US0378331005"));
    assert_eq!(text(&projected, &["timeframe"]), Some("1m"));
    assert_eq!(text(&projected, &["currency"]), Some("EUR"));
    assert_eq!(text(&projected, &["source"]), Some("CONSOLIDATED"));
    assert_eq!(float(&projected, &["closing_reference_point", "mid_price"]), Some(184.12));
    assert_eq!(
        text(&projected, &["closing_reference_point", "timestamp_utc"]),
        Some("2026-05-22T21:59:59Z")
    );
    assert_eq!(float(&projected, &["data_points", "0", "mid_price"]), Some(185.01));
    assert_eq!(
        text(&projected, &["data_points", "0", "timestamp_utc"]),
        Some("2026-05-23T09:00:00Z")
    );
    assert_eq!(float(&projected, &["data_points", "1", "mid_price"]), Some(183.50));
    assert_eq!(
        text(&projected, &["data_points", "1", "timestamp_utc"]),
        Some("2026-05-24T09:00:00Z")
    );
    assert_eq!(float(&projected, &["point_count"]), Some(2.0));
}

#[test]
fn project_broker_chart_response_returns_empty_data_points_successfully() {
    let response = json(
        r#"{
        "timeSeriesBySecurity": [
            {
                "isin": "US0378331005",
                "timeFrame": "YEAR_TO_DATE",
                "currency": "EUR",
                "source": "CONSOLIDATED",
                "closingReferencePoint": {
                    "midPrice": 184.12,
                    "timestampUtc": {"time": "2026-05-22T21:59:59Z"}
                },
                "dataPoints": []
            }
        ]
    }"#,
    );

    let projected =
        project_broker_chart_response("US0378331005", BrokerChartTimeframe::YearToDate, &response)
            .expect("project");

    assert!(matches!(at(&projected, &["data_points"]), Some(Json::Array(items)) if items.is_empty()));
    assert_eq!(float(&projected, &["point_count"]), Some(0.0));
}

#[test]
fn project_broker_transactions_maps_variants_and_preserves_order() {
    let input = broker_input(false, None);
    let response = json(
        r#"{
        "account": {
            "brokerPortfolio": {
                "moreTransactions": {
                    "cursor": "next-cursor",
                    "total": 3,
                    "transactions": [
                        {
                            "__typename": "BrokerCashTransactionSummary",
                            "id": "tx-1",
                            "currency": "EUR",
                            "type": "CASH_TRANSACTION",
                            "status": "SETTLED",
                            "isCancellation": false,
                            "lastEventDateTime": {"time":"2026-03-10T10:00:00Z"},
                            "description": "Deposit",
                            "custodian": "BAADER_BANK",
                            "documents": [],
                            "relatedIsin": null,
                            "cashTransactionType": "DEPOSIT",
                            "amount": "100"
                        },
                        {
                            "__typename": "BrokerSecurityTransactionSummary",
                            "id": "tx-2",
                            "currency": "EUR",
                            "type": "SECURITY_TRANSACTION",
                            "status": "FILLED",
                            "isCancellation": false,
                            "lastEventDateTime": {"time":"2026-03-09T10:00:00Z"},
                            "description": "Buy",
                            "custodian": "BAADER_BANK",
                            "documents": [],
                            "isin": "US0378331005",
                            "securityTransactionType": "SINGLE",
                            "quantity": "1.23",
                            "amount": "200",
                            "side": "BUY",
                            "limitPrice": null,
                            "stopPrice": null
                        },
                        {
                            "__typename": "FutureTransactionSummary",
                            "id": "tx-3",
                            "currency": "EUR",
                            "type": "CASH_TRANSACTION",
                            "status": "CREATED",
                            "isCancellation": false,
                            "lastEventDateTime": null,
                            "description": "Unknown variant",
                            "custodian": null,
                            "documents": []
                        }
                    ]
                }
            }
        }
    }"#,
    );

    let projected = project_broker_transactions_response(&input, &response).expect("project");
    assert_eq!(text(&projected, &["cursor"]), Some("next-cursor"));
    assert_eq!(float(&projected, &["total"]), Some(3.0));
    assert_eq!(float(&projected, &["count"]), Some(3.0));
    assert_eq!(text(&projected, &["items", "0", "id"]), Some("tx-1"));
    assert_eq!(text(&projected, &["items", "0", "cash_transaction_type"]), Some("DEPOSIT"));
    assert_eq!(text(&projected, &["items", "1", "id"]), Some("tx-2"));
    assert_eq!(text(&projected, &["items", "1", "security_transaction_type"]), Some("SINGLE"));
    assert_eq!(text(&projected, &["items", "2", "id"]), Some("tx-3"));
    assert_eq!(
        at(&projected, &["items", "2", "unknown_summary_type"]).and_then(|v| v.as_bool()),
        Some(true)
    );
}
