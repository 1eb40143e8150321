use scalable_cli::acknowledgements::{
    project_broker_create_or_update_savings_plan_response,
    project_broker_remove_crypto_price_alert_response, project_broker_remove_price_alert_response,
    project_broker_remove_savings_plan_response, project_broker_savings_plan_by_isin_response,
    project_broker_savings_plan_config_details_response, project_broker_watchlist_add_response,
    project_broker_watchlist_remove_response,
};
use scalable_cli::analytics::project_broker_analytics_response;
use scalable_cli::savings_plans::{
    crypto_savings_plan_amounts, project_broker_savings_plan_config_response,
    project_broker_savings_plans_response,
};
use scalable_cli::alerts::{
    project_broker_add_crypto_price_alert_response, project_broker_add_price_alert_response,
    project_broker_crypto_price_alerts_response, project_broker_price_alerts_response,
};
use scalable_cli::broker_queries::BrokerInput;
use scalable_cli::derivative_results::project_broker_derivatives_search_response;
use scalable_cli::derivatives::{BrokerDerivativeType, NormalizedBrokerDerivativesSearchQueryInput};
use scalable_cli::transaction_details::project_broker_transaction_details_response;
use scalable_cli::json::{json_text, parse_json, Json};
use scalable_cli::listings::{
    project_broker_cash_breakdown_response, project_broker_holdings_response,
    project_broker_overview_response, project_broker_quote_response,
    project_broker_search_response, project_broker_security_news_response,
};

fn json(text: &str) -> Json {
    parse_json(text).expect("test JSON should parse")
}

fn broker_input(include_year_to_date: bool, quote_source: Option<&str>) -> BrokerInput {
    BrokerInput::new("acc-1", "port-1", include_year_to_date, quote_source).expect("input")
}

fn lookup<'a>(value: &'a Json, path: &[&str]) -> Option<&'a Json> {
    let mut current = Some(value);
    for key in path {
        current = match current {
            Some(Json::Array(items)) => key.parse::<usize>().ok().and_then(|i| items.get(i)),
            Some(other) => other.get(key),
            None => None,
        };
    }
    current
}

/// Checks the value at a path (null where it is missing) against an expected
/// JSON text; numbers compare by value.
fn check(value: &Json, path: &[&str], expected: &str) {
    let mut current = Some(value);
    for key in path {
        current = match current {
            Some(Json::Array(items)) => key.parse::<usize>().ok().and_then(|i| items.get(i)),
            Some(other) => other.get(key),
            None => None,
        };
    }
    let null = Json::Null;
    let actual = current.unwrap_or(&null);
    let expected = json(expected);
    match (actual, &expected) {
        (Json::Number(a), Json::Number(b)) => {
            assert_eq!(a.parse::<f64>().ok(), b.parse::<f64>().ok(), "at {path:?}")
        }
        _ => assert_eq!(json_text(actual), json_text(&expected), "at {path:?}"),
    }
}

#[test]
fn project_broker_overview_exposes_only_supported_return_fields() {
    let input = broker_input(false, None);
    let response = json(r#"{
        "account": {
            "brokerPortfolio": {
                "valuation": {
                    "valuation": 1234.56,
                    "securitiesValuation": 1200.00,
                    "cryptoValuation": 34.56,
                    "timeWeightedReturnByTimeframe": [{
                        "timeframe": "ONE_WEEK",
                        "performance": 0,
                        "simpleAbsoluteReturn": 12.34
                    }]
                }
            }
        }
    }"#);

    let projected = project_broker_overview_response(&input, &response).expect("project");

    check(&projected, &["performance"], r#"[{
            "timeframe": "ONE_WEEK",
            "simpleAbsoluteReturn": 12.34
        }]"#);
}

#[test]
fn project_broker_holdings_sorts_items() {
    let input = broker_input(false, None);
    let response = json(r#"{
        "account": {
            "brokerPortfolio": {
                "inventory": {
                    "items": [
                        {"isin":"B","name":"Beta","type":"ETF","inventory":{"position":{}},"portfolioIsinPerformance":{},"quoteTick":{}},
                        {"isin":"A","name":"Alpha","type":"STOCK","inventory":{"position":{}},"portfolioIsinPerformance":{},"quoteTick":{}}
                    ]
                }
            }
        }
    }"#);

    let projected = project_broker_holdings_response(&input, &response).expect("project");
    check(&projected, &["count"], r#"2"#);
    check(&projected, &["items", "0", "isin"], r#""A""#);
}

#[test]
fn project_broker_search_includes_query() {
    let input = broker_input(false, None);
    let response = json(r#"{
        "account": {
            "brokerPortfolio": {
                "simpleSecuritySearch": {
                    "items": [{"isin":"A","name":"Alpha","type":"STOCK","quoteTick":{}}]
                }
            }
        }
    }"#);

    let projected = project_broker_search_response(&input, "apple", &response).expect("project");
    check(&projected, &["query"], r#""apple""#);
    check(&projected, &["count"], r#"1"#);
}

#[test]
fn project_broker_quote_response_maps_quote_fields() {
    let input = broker_input(true, Some("CONSOLIDATED"));
    let response = json(r#"{
        "account": {
            "brokerPortfolio": {
                "security": {
                    "id": "security-1",
                    "isin": "US0378331005",
                    "name": "Apple",
                    "type": "STOCK",
                    "quoteTick": {
                        "id": "tick-1",
                        "midPrice": 201.1,
                        "bidPrice": 201.0,
                        "askPrice": 201.2,
                        "currency": "USD",
                        "timestampUtc": {
                            "time": "2026-03-11T08:00:00Z"
                        },
                        "isOutdated": false,
                        "performanceDate": {
                            "date": "2026-03-11"
                        },
                        "performancesByTimeframe": [
                            {
                                "timeframe": "ONE_WEEK",
                                "performance": 0.02,
                                "simpleAbsoluteReturn": 4.0
                            },
                            {
                                "timeframe": "ONE_DAY",
                                "performance": 0.01,
                                "simpleAbsoluteReturn": 2.0
                            }
                        ]
                    }
                }
            }
        }
    }"#);

    let projected =
        project_broker_quote_response(&input, "US0378331005", &response).expect("project");
    check(&projected, &["security_id"], r#""security-1""#);
    check(&projected, &["isin"], r#""US0378331005""#);
    check(&projected, &["name"], r#""Apple""#);
    check(&projected, &["quote_tick_id"], r#""tick-1""#);
    check(&projected, &["quote_mid_price"], r#"201.1"#);
    check(&projected, &["quote_bid_price"], r#"201.0"#);
    check(&projected, &["quote_ask_price"], r#"201.2"#);
    check(&projected, &["quote_currency"], r#""USD""#);
    check(&projected, &["quote_timestamp_utc"], r#""2026-03-11T08:00:00Z""#);
    check(&projected, &["quote_performance_date"], r#""2026-03-11""#);
    check(&projected, &["quote_performances", "0", "timeframe"], r#""ONE_DAY""#);
    check(&projected, &["quote_performances", "1", "timeframe"], r#""ONE_WEEK""#);
}

#[test]
fn project_broker_quote_response_requires_matching_returned_isin() {
    let input = broker_input(false, None);
    let response = json(r#"{
        "account": {
            "brokerPortfolio": {
                "security": {
                    "isin": "DE0007100000",
                    "quoteTick": {}
                }
            }
        }
    }"#);

    let err = project_broker_quote_response(&input, "US0378331005", &response).unwrap_err();
    assert!(
        err.to_string()
            .contains("does not match returned security isin")
    );
}

#[test]
fn project_broker_quote_response_requires_security_node() {
    let input = broker_input(false, None);
    let response = json(r#"{
        "account": {
            "brokerPortfolio": {}
        }
    }"#);

    let err = project_broker_quote_response(&input, "US0378331005", &response).unwrap_err();
    assert!(err.to_string().contains("account.brokerPortfolio.security"));
}

#[test]
fn project_broker_watchlist_add_maps_minimal_ack() {
    let response = json(r#"{
        "addToWatchlist": {
            "security": {
                "isin": "US0378331005",
                "isOnWatchlist": true
            }
        }
    }"#);

    let projected =
        project_broker_watchlist_add_response("US0378331005", &response).expect("project");
    check(&projected, &["action"], r#""add""#);
    check(&projected, &["isin"], r#""US0378331005""#);
    check(&projected, &["is_on_watchlist"], r#"true"#);
}

#[test]
fn project_broker_watchlist_remove_maps_minimal_ack() {
    let response = json(r#"{
        "removeFromWatchlist": {
            "security": {
                "isin": "US0378331005",
                "isOnWatchlist": false
            }
        }
    }"#);

    let projected =
        project_broker_watchlist_remove_response("US0378331005", &response).expect("project");
    check(&projected, &["action"], r#""remove""#);
    check(&projected, &["isin"], r#""US0378331005""#);
    check(&projected, &["is_on_watchlist"], r#"false"#);
}

#[test]
fn project_broker_remove_savings_plan_response_maps_minimal_ack() {
    let response = json(r#"{
        "removeSavingsPlan": {
            "id": "mutation-1"
        }
    }"#);

    let projected =
        project_broker_remove_savings_plan_response("US0378331005", &response).expect("project");
    check(&projected, &["action"], r#""remove""#);
    check(&projected, &["isin"], r#""US0378331005""#);
}

#[test]
fn project_broker_watchlist_mutations_require_security() {
    let add_err = project_broker_watchlist_add_response(
        "US0378331005",
        &json(r#"{
            "addToWatchlist": {}
        }"#),
    )
    .unwrap_err();
    assert!(add_err.to_string().contains("Broker response invalid"));

    let remove_err = project_broker_watchlist_remove_response(
        "US0378331005",
        &json(r#"{
            "removeFromWatchlist": {}
        }"#),
    )
    .unwrap_err();
    assert!(remove_err.to_string().contains("Broker response invalid"));
}

#[test]
fn project_broker_remove_savings_plan_response_requires_mutation_field() {
    let err = project_broker_remove_savings_plan_response(
        "US0378331005",
        &json(r#"{
            "otherField": {}
        }"#),
    )
    .unwrap_err();
    assert!(err.to_string().contains("removeSavingsPlan"));
}

#[test]
fn project_broker_remove_savings_plan_response_rejects_null_mutation() {
    let err = project_broker_remove_savings_plan_response(
        "US0378331005",
        &json(r#"{
            "removeSavingsPlan": null
        }"#),
    )
    .unwrap_err();
    assert!(err.to_string().contains("removeSavingsPlan.id"));
}

#[test]
fn project_broker_remove_savings_plan_response_requires_non_empty_id() {
    let err = project_broker_remove_savings_plan_response(
        "US0378331005",
        &json(r#"{
            "removeSavingsPlan": {
                "id": "   "
            }
        }"#),
    )
    .unwrap_err();
    assert!(err.to_string().contains("removeSavingsPlan.id"));
}

#[test]
fn project_broker_security_news_sorts_sources() {
    let response = json(r#"{
        "securityNews": {
            "shortNewsSummary": "short",
            "longNewsSummary": "long",
            "lastUpdated": "2026-03-04T10:00:00Z",
            "sources": [
                {"id": "b", "headline":"B", "sourceName":"S", "publicationTime":"t2"},
                {"id": "a", "headline":"A", "sourceName":"S", "publicationTime":"t1"}
            ]
        }
    }"#);

    let projected =
        project_broker_security_news_response("US1", "en_DE", &response).expect("project");
    check(&projected, &["sources", "0", "id"], r#""a""#);
}

#[test]
fn project_broker_price_alerts_flattens() {
    let input = broker_input(false, None);
    let response = json(r#"{
        "account": {
            "brokerPortfolio": {
                "priceAlerts": {
                    "itemsPerInstrument": [
                        {
                            "canAddNew": true,
                            "items": [
                                {
                                    "id": "2",
                                    "direction": "UP",
                                    "isActive": true,
                                    "price": "11.0",
                                    "triggeredTimestamp": {"time":"2026-03-04T10:00:00Z"},
                                    "security": {"isin": "B", "name": "Beta", "type": "ETF"}
                                },
                                {
                                    "id": "1",
                                    "direction": "DOWN",
                                    "isActive": false,
                                    "price": "10.0",
                                    "triggeredTimestamp": null,
                                    "security": {"isin": "A", "name": "Alpha", "type": "STOCK"}
                                }
                            ]
                        }
                    ]
                }
            }
        }
    }"#);

    let projected = project_broker_price_alerts_response(&input, true, &response).expect("project");
    check(&projected, &["count"], r#"2"#);
    check(&projected, &["items", "0", "isin"], r#""A""#);
}

#[test]
fn project_broker_crypto_price_alerts_flattens() {
    let input = broker_input(false, None);
    let response = json(r#"{
        "account": {
            "brokerPortfolio": {
                "crypto": {
                    "priceAlerts": {
                        "itemsPerInstrument": [
                            {
                                "canAddNew": true,
                                "items": [
                                    {
                                        "id": "2",
                                        "direction": "UP",
                                        "isActive": true,
                                        "price": "11.0",
                                        "triggeredTimestamp": {"time":"2026-03-04T10:00:00Z"},
                                        "coin": {"ticker": "ETH", "name": "Ether"}
                                    },
                                    {
                                        "id": "1",
                                        "direction": "DOWN",
                                        "isActive": false,
                                        "price": "10.0",
                                        "triggeredTimestamp": null,
                                        "coin": {"ticker": "BTC", "name": "Bitcoin"}
                                    }
                                ]
                            }
                        ]
                    }
                }
            }
        }
    }"#);

    let projected =
        project_broker_crypto_price_alerts_response(&input, &response).expect("project");
    check(&projected, &["count"], r#"2"#);
    check(&projected, &["items", "0", "ticker"], r#""BTC""#);
}

#[test]
fn project_broker_crypto_price_alerts_returns_empty_when_crypto_tree_is_absent() {
    let input = broker_input(false, None);
    let response = json(r#"{
        "account": {
            "brokerPortfolio": {
                "priceAlerts": {
                    "itemsPerInstrument": []
                }
            }
        }
    }"#);

    let projected =
        project_broker_crypto_price_alerts_response(&input, &response).expect("project");
    check(&projected, &["count"], r#"0"#);
    check(&projected, &["items"], r#"[]"#);
}

#[test]
fn project_broker_cash_breakdown_includes_only_approved_fields() {
    let input = broker_input(false, None);
    let response = json(r#"{
        "account": {
            "brokerPortfolio": {
                "depositLimits": {"min": "1", "max": "2"},
                "withdrawalLimits": {"min": "3", "max": "4", "maxExcludingCredit": "5"},
                "payments": {
                    "buyingPower": {
                        "cashBalance": "10",
                        "liveLimit": "20",
                        "loaned": "30",
                        "pendingBuyOrdersAmount": "40",
                        "pendingWithdrawalsAmount": "50",
                        "pendingSavingsPlanAmount": "60",
                        "pendingDividendsReinvestmentAmount": "70",
                        "pendingPocketMoneyAmount": "80",
                        "estimatedTaxes": "90",
                        "directDebit": "100",
                        "cashAvailableToInvest": "110",
                        "cashAvailableToInvestWithoutCredit": "120"
                    },
                    "derivativesBuyingPower": {
                        "cashAvailableToInvest": "130",
                        "derivativesDirectDebit": "140",
                        "pendingELTIFAmount": "150",
                        "cashAvailableForDerivatives": "160"
                    },
                    "withdrawalPower": {
                        "cashAvailableToInvest": "170",
                        "sellTradesAmount": "180",
                        "withdrawalDirectDebit": "190",
                        "cashAvailableForWithdrawal": "200"
                    }
                }
            }
        }
    }"#);

    let projected = project_broker_cash_breakdown_response(&input, &response).expect("project");

    check(
        &projected,
        &[],
        r#"{
            "account_id": "acc-1",
            "portfolio_id": "port-1",
            "cash_balance": "10",
            "buying_power": "110",
            "buying_power_without_credit": "120",
            "available_credit_line": "20",
            "loaned": "30",
            "pending_buy_orders_amount": "40",
            "possible_taxes": "90",
            "derivatives_buying_power": "130",
            "available_for_derivatives": "160"
        }"#,
    );
    assert!(projected.get("currency").is_none());
    assert!(projected.get("deposit_limits").is_none());
    assert!(projected.get("withdrawal_limits").is_none());
    assert!(projected.get("withdrawal_power").is_none());
    assert!(projected.get("pending_withdrawals_amount").is_none());
    assert!(projected.get("pending_eltif_amount").is_none());
}

#[test]
fn project_broker_cash_breakdown_returns_nulls_when_payments_are_missing() {
    let input = broker_input(false, None);
    let response = json(r#"{
        "account": {
            "brokerPortfolio": {}
        }
    }"#);

    let projected = project_broker_cash_breakdown_response(&input, &response).expect("project");

    check(
        &projected,
        &[],
        r#"{
            "account_id": "acc-1",
            "portfolio_id": "port-1",
            "cash_balance": null,
            "buying_power": null,
            "buying_power_without_credit": null,
            "available_credit_line": null,
            "loaned": null,
            "pending_buy_orders_amount": null,
            "possible_taxes": null,
            "derivatives_buying_power": null,
            "available_for_derivatives": null
        }"#,
    );
}

#[test]
fn project_broker_savings_plan_config_details_preserves_security_wrapper() {
    let response = json(r#"{
        "account": {
            "brokerPortfolio": {
                "security": {
                    "isin": "US0378331005",
                    "name": "Apple",
                    "type": "STOCK",
                    "savingsPlanConfiguration": {
                        "frequencies": ["MONTHLY"]
                    }
                }
            }
        }
    }"#);

    let projected = project_broker_savings_plan_config_details_response("US0378331005", &response)
        .expect("project");
    check(&projected, &["security", "isin"], r#""US0378331005""#);
    check(&projected, &["security", "name"], r#""Apple""#);
    check(&projected, &["security", "security_type"], r#""STOCK""#);
    check(&projected, &["savings_plan_configuration", "frequencies", "0"], r#""MONTHLY""#);
}

#[test]
fn project_broker_savings_plan_config_details_rejects_isin_mismatch() {
    let response = json(r#"{
        "account": {
            "brokerPortfolio": {
                "security": {
                    "isin": "DE000A1EWWW0",
                    "name": "Wrong Security",
                    "type": "ETF",
                    "savingsPlanConfiguration": {
                        "frequencies": ["MONTHLY"]
                    }
                }
            }
        }
    }"#);

    let err =
        project_broker_savings_plan_config_details_response("US0378331005", &response).unwrap_err();
    assert!(
        err.to_string()
            .contains("does not match returned security isin")
    );
}

#[test]
fn project_broker_create_or_update_savings_plan_response_maps_mutation_id() {
    let response = json(r#"{
        "createOrUpdateSavingsPlan": {
            "id": "mutation-1"
        }
    }"#);
    let projected =
        project_broker_create_or_update_savings_plan_response(&response).expect("project");
    check(&projected, &["mutation_id"], r#""mutation-1""#);
}

#[test]
fn project_broker_create_or_update_savings_plan_response_rejects_malformed_acknowledgements() {
    for response in [
        json(r#"{"createOrUpdateSavingsPlan": null}"#),
        json(r#"{"createOrUpdateSavingsPlan": {}}"#),
        json(r#"{"createOrUpdateSavingsPlan": {"id": "   "}}"#),
        json(r#"{"createOrUpdateSavingsPlan": "mutation-1"}"#),
    ] {
        let err = project_broker_create_or_update_savings_plan_response(&response)
            .expect_err("malformed acknowledgement must be rejected");
        assert!(
            err.to_string()
                .contains("Broker response invalid: missing createOrUpdateSavingsPlan")
        );
    }
}

#[test]
fn project_broker_savings_plan_by_isin_response_maps_security_and_plan() {
    let response = json(r#"{
        "account": {
            "brokerPortfolio": {
                "security": {
                    "isin": "US0378331005",
                    "name": "Apple",
                    "type": "STOCK",
                    "inventory": {
                        "savingsPlan": {
                            "isin": "US0378331005",
                            "amount": "100",
                            "frequency": "MONTHLY",
                            "dayOfTheMonth": 5,
                            "dynamizationRate": "0",
                            "paymentMethod": "REFERENCE_ACCOUNT",
                            "nextExecutionDate": {
                                "date": "2026-04-05",
                                "epochDay": 20549
                            }
                        }
                    }
                }
            }
        }
    }"#);
    let projected = project_broker_savings_plan_by_isin_response(&response).expect("project");
    check(&projected, &["security", "isin"], r#""US0378331005""#);
    check(&projected, &["savings_plan", "frequency"], r#""MONTHLY""#);
}

#[test]
fn project_broker_add_price_alert_response_maps_items() {
    let input = broker_input(false, None);
    let response = json(r#"{
        "addPriceAlert": {
            "security": {
                "priceAlerts": {
                    "canAddNew": false,
                    "items": [
                        {"id":"b","direction":"UP","isActive":true,"price":"101","triggeredTimestamp":{"time":"2026-03-04T10:00:00Z"},"security":{"isin":"US0378331005","name":"Apple","type":"STOCK"}},
                        {"id":"a","direction":"DOWN","isActive":false,"price":"99","triggeredTimestamp":null,"security":{"isin":"US0378331005","name":"Apple","type":"STOCK"}}
                    ]
                }
            }
        }
    }"#);
    let projected =
        project_broker_add_price_alert_response(&input, "US0378331005", "101", &response)
            .expect("project");
    check(&projected, &["kind"], r#""security""#);
    check(&projected, &["count"], r#"2"#);
    check(&projected, &["items", "0", "alert_id"], r#""a""#);
}

#[test]
fn project_broker_add_crypto_price_alert_response_maps_items() {
    let input = broker_input(false, None);
    let response = json(r#"{
        "addCryptoPriceAlert": {
            "crypto": {
                "coin": {
                    "ticker": "BTC",
                    "name": "Bitcoin",
                    "priceAlerts": {
                        "canAddNew": true,
                        "items": [
                            {"id":"b","direction":"UP","isActive":true,"price":"101","triggeredTimestamp":{"time":"2026-03-04T10:00:00Z"},"coin":{"ticker":"BTC","name":"Bitcoin"}},
                            {"id":"a","direction":"DOWN","isActive":false,"price":"99","triggeredTimestamp":null,"coin":{"ticker":"BTC","name":"Bitcoin"}}
                        ]
                    }
                }
            }
        }
    }"#);
    let projected = project_broker_add_crypto_price_alert_response(&input, "BTC", "101", &response)
        .expect("project");
    check(&projected, &["kind"], r#""crypto""#);
    check(&projected, &["count"], r#"2"#);
    check(&projected, &["items", "0", "alert_id"], r#""a""#);
}

#[test]
fn project_broker_remove_price_alert_response_maps_minimal_ack() {
    let response = json(r#"{
        "removePriceAlert": {
            "id": "alert-1"
        }
    }"#);

    let projected =
        project_broker_remove_price_alert_response("alert-1", "US0378331005", &response)
            .expect("project");
    check(&projected, &["action"], r#""remove""#);
    check(&projected, &["kind"], r#""security""#);
    check(&projected, &["alert_id"], r#""alert-1""#);
    check(&projected, &["isin"], r#""US0378331005""#);
    check(&projected, &["removed"], r#"true"#);
}

#[test]
fn project_broker_remove_crypto_price_alert_response_maps_minimal_ack() {
    let response = json(r#"{
        "removeCryptoPriceAlert": {
            "id": "alert-1"
        }
    }"#);

    let projected = project_broker_remove_crypto_price_alert_response("alert-1", "BTC", &response)
        .expect("project");
    check(&projected, &["action"], r#""remove""#);
    check(&projected, &["kind"], r#""crypto""#);
    check(&projected, &["alert_id"], r#""alert-1""#);
    check(&projected, &["ticker"], r#""BTC""#);
    check(&projected, &["removed"], r#"true"#);
}

#[test]
fn project_broker_remove_price_alert_response_accepts_nonmatching_backend_id() {
    let response = json(r#"{
        "removePriceAlert": {
            "id": "other"
        }
    }"#);

    let projected =
        project_broker_remove_price_alert_response("alert-1", "US0378331005", &response)
            .expect("project");
    check(&projected, &["alert_id"], r#""alert-1""#);
    check(&projected, &["isin"], r#""US0378331005""#);
    check(&projected, &["removed"], r#"true"#);
}


#[test]
fn project_broker_derivatives_search_maps_price_and_expiry_shapes() {
    let input = broker_input(false, None);
    let query = NormalizedBrokerDerivativesSearchQueryInput {
        derivative_type: BrokerDerivativeType::Knockout,
        underlying_isin: "US0378331005".to_string(),
        limit: 25,
        offset: 50,
        issuers: Some(vec!["HSBC".to_string()]),
        strategy: "LONG".to_string(),
        product_subcategories: Some(vec!["TURBO".to_string()]),
        leverage_range: None,
        knockout_barrier_range: None,
        strike_range: None,
        omega_range: None,
        delta_range: None,
        factor_range: None,
        expiry_date_range: None,
        sort_by: None,
    };
    let response = json(r#"{
        "account": {
            "brokerPortfolio": {
                "derivativesSearch": {
                    "pagination": {
                        "offset": 50,
                        "limit": 25,
                        "totalAvailable": 2
                    },
                    "results": [
                        {
                            "__typename": "KnockoutSearchResult",
                            "isin": "DE000HSBC123",
                            "underlyingIsin": "US0378331005",
                            "issuer": "HSBC",
                            "strategy": "LONG",
                            "productSubcategory": "TURBO",
                            "leverage": "4.2",
                            "distanceToKnockout": "3.5",
                            "distanceToStrike": "1.2",
                            "strike": {
                                "__typename": "Money",
                                "currencyIsoCode": "EUR",
                                "value": "190.00"
                            },
                            "knockoutBarrier": {
                                "__typename": "Point",
                                "value": "18000"
                            },
                            "premiumAbsolute": {
                                "currencyIsoCode": "EUR",
                                "value": "7.40"
                            },
                            "premiumPercentage": "0.0415",
                            "expiryDate": {
                                "date": {
                                    "date": "2026-12-31",
                                    "epochDay": 20818
                                },
                                "isOpenEnd": false
                            }
                        },
                        {
                            "__typename": "WarrantSearchResult",
                            "isin": "DE000WARRANT1",
                            "underlyingIsin": "US0378331005",
                            "issuer": "BNP",
                            "strategy": "CALL",
                            "omega": "8.5",
                            "delta": "0.40",
                            "impliedVolatility": "0.25",
                            "distanceToStrike": "4.2",
                            "strike": {
                                "__typename": "Money",
                                "currencyIsoCode": "USD",
                                "value": "210.00"
                            },
                            "expiryDate": {
                                "epochDay": 20714
                            }
                        },
                        {
                            "__typename": "FactorCertificateSearchResult",
                            "isin": "DE000FACTOR1",
                            "underlyingIsin": "US0378331005",
                            "issuer": "SOC_GEN",
                            "strategy": "SHORT",
                            "factor": "5",
                            "expiryDate": {
                                "date": {
                                    "date": "2027-01-15",
                                    "epochDay": 20833
                                },
                                "isOpenEnd": false
                            }
                        }
                    ]
                }
            }
        }
    }"#);

    let projected =
        project_broker_derivatives_search_response(&input, &query, &response).expect("project");
    check(&projected, &["derivative_type"], r#""knockout""#);
    check(&projected, &["underlying_isin"], r#""US0378331005""#);
    check(&projected, &["total_available"], r#"2"#);
    check(&projected, &["items", "0", "strike", "kind"], r#""money""#);
    check(&projected, &["items", "0", "knockout_barrier", "kind"], r#""point""#);
    check(&projected, &["items", "0", "expiry_is_open_end"], r#"false"#);
    check(&projected, &["items", "0", "expiry_date", "date"], r#""2026-12-31""#);
    check(&projected, &["items", "1", "omega"], r#""8.5""#);
    check(&projected, &["items", "1", "implied_volatility"], r#""0.25""#);
    check(&projected, &["items", "1", "expiry_date", "epoch_day"], r#"20714"#);
    check(&projected, &["items", "1", "expiry_date", "date"], r#"null"#);
    check(&projected, &["items", "1", "expiry_is_open_end"], r#"null"#);
    check(&projected, &["items", "2", "factor"], r#""5""#);
    check(&projected, &["items", "2", "expiry_date", "epoch_day"], r#"20833"#);
    check(&projected, &["items", "2", "expiry_is_open_end"], r#"false"#);
}

#[test]
fn project_broker_transaction_details_maps_security_trade_tax_fields() {
    let input = broker_input(false, None);
    let response = json(r#"{
        "account": {
            "brokerPortfolio": {
                "transactionDetails": {
                    "__typename": "BrokerSecurityTransaction",
                    "id": "tx-42",
                    "currency": "EUR",
                    "type": "SECURITY_TRANSACTION",
                    "documents": [
                        {
                            "id": "doc-1",
                            "url": "https://example.test/doc-1",
                            "label": "Contract note"
                        }
                    ],
                    "lastEventDateTime": {"time":"2026-04-15T10:22:31Z"},
                    "isPending": false,
                    "isCancellation": false,
                    "security": {
                        "isin": "IE00B4ND3602",
                        "name": "World ETF",
                        "type": "ETF"
                    },
                    "transactionReference": "WUM 872598752",
                    "side": "SELL",
                    "status": "FILLED",
                    "numberOfShares": {
                        "filled": "10",
                        "total": "10"
                    },
                    "averagePrice": "10.25",
                    "totalAmount": "100.00",
                    "finalisationReason": null,
                    "limitPrice": null,
                    "stopPrice": null,
                    "validUntil": null,
                    "isCancellationRequested": false,
                    "tradeTransactionAmounts": {
                        "marketValuation": "102.50",
                        "taxAmount": "2.50",
                        "transactionFee": "0.99",
                        "venueFee": "1.01",
                        "cryptoSpreadFee": null
                    },
                    "tradingVenue": "MUNC",
                    "fee": "1.11",
                    "transactionalFee": "0.22",
                    "taxes": "2.50",
                    "aggregatedTransactionTaxes": {
                        "totalTax": "2.50",
                        "capitalGainsTax": "2.10",
                        "churchTax": "0.10",
                        "solidarityTax": "0.30",
                        "sourceTax": null,
                        "financialTransactionTax": null
                    },
                    "securityTransactionHistory": [
                        {
                            "state": "FILLED",
                            "time": {
                                "time": "2026-04-15T10:22:31",
                                "epochSecond": 1776248551,
                                "epochMillisecond": 1776248551000
                            },
                            "numberOfShares": {
                                "filled": "10",
                                "total": "10"
                            },
                            "executionPrice": "10.25"
                        }
                    ],
                    "orderKind": "SINGLE",
                    "linkedTransactions": [
                        {"id": "tx-43"},
                        {"id": "tx-44"}
                    ],
                    "trailingStopInfo": {
                        "trailType": "AMOUNT",
                        "trailOffset": "1.50",
                        "latestStopPriceTimestamp": {
                            "time": "2026-04-15T10:23:00Z",
                            "epochSecond": 1776248580,
                            "epochMillisecond": 1776248580000
                        }
                    }
                }
            }
        }
    }"#);

    let projected =
        project_broker_transaction_details_response(&input, &response).expect("project");
    check(&projected, &["id"], r#""tx-42""#);
    check(&projected, &["detail_type"], r#""security_trade""#);
    check(&projected, &["detail_typename"], r#""BrokerSecurityTransaction""#);
    check(&projected, &["transaction_reference"], r#""WUM 872598752""#);
    check(&projected, &["security", "isin"], r#""IE00B4ND3602""#);
    check(&projected, &["linked_transaction_ids"], r#"["tx-43", "tx-44"]"#);
    check(&projected, &["history", "0", "timestamp"], r#""2026-04-15T10:22:31""#);
    assert!(
        lookup(&projected, &["history", "0", "timestamp_epoch_second"]).is_none()
    );
    assert!(
        lookup(&projected, &["history", "0", "timestamp_epoch_millisecond"]).is_none()
    );
    check(&projected, &["security_trade", "trade_transaction_amounts", "tax_amount"], r#""2.50""#);
    check(&projected, &["security_trade", "aggregated_transaction_taxes", "capital_gains_tax"], r#""2.10""#);
    check(&projected, &["security_trade", "taxes"], r#""2.50""#);
    check(&projected, &["cash"], r#"null"#);
    check(&projected, &["eltif"], r#"null"#);
}

#[test]
fn project_broker_transaction_details_maps_cash_transaction_fields() {
    let input = broker_input(false, None);
    let response = json(r#"{
        "account": {
            "brokerPortfolio": {
                "transactionDetails": {
                    "__typename": "BrokerCashTransaction",
                    "id": "cash-1",
                    "currency": "EUR",
                    "type": "CASH_TRANSACTION",
                    "documents": [],
                    "lastEventDateTime": {"time":"2026-04-17T09:30:00Z"},
                    "isPending": false,
                    "isCancellation": false,
                    "security": {
                        "isin": "DE0001234567",
                        "name": "Related Security",
                        "type": "BOND"
                    },
                    "transactionReference": "CASH-REF-1",
                    "cashTransactionType": "TAX",
                    "amount": "25.00",
                    "description": "Tax withholding",
                    "cashTransactionHistory": [
                        {
                            "state": "BOOKED",
                            "time": {
                                "time": "2026-04-17T09:30:00",
                                "epochSecond": 1776418200,
                                "epochMillisecond": 1776418200000
                            }
                        }
                    ],
                    "sddiDetails": {
                        "fee": "0.50",
                        "grossAmount": "25.50"
                    },
                    "taxDetails": {
                        "grossAmount": "25.50",
                        "taxAmount": "0.50"
                    },
                    "linkedTransactions": [
                        {"id": "cash-2"}
                    ]
                }
            }
        }
    }"#);

    let projected =
        project_broker_transaction_details_response(&input, &response).expect("project");
    check(&projected, &["detail_type"], r#""cash""#);
    check(&projected, &["detail_typename"], r#""BrokerCashTransaction""#);
    check(&projected, &["linked_transaction_ids"], r#"["cash-2"]"#);
    check(&projected, &["history", "0", "state"], r#""BOOKED""#);
    check(&projected, &["history", "0", "timestamp"], r#""2026-04-17T09:30:00""#);
    assert!(
        lookup(&projected, &["history", "0", "timestamp_epoch_second"]).is_none()
    );
    assert!(
        lookup(&projected, &["history", "0", "timestamp_epoch_millisecond"]).is_none()
    );
    check(&projected, &["cash", "cash_transaction_type"], r#""TAX""#);
    check(&projected, &["cash", "amount"], r#""25.00""#);
    check(&projected, &["cash", "tax_details", "gross_amount"], r#""25.50""#);
    check(&projected, &["cash", "tax_details", "tax_amount"], r#""0.50""#);
    check(&projected, &["cash", "sddi_details", "fee"], r#""0.50""#);
    check(&projected, &["cash", "sddi_details", "gross_amount"], r#""25.50""#);
    check(&projected, &["security_trade"], r#"null"#);
    check(&projected, &["non_trade_security"], r#"null"#);
}

#[test]
fn project_broker_transaction_details_maps_non_trade_security_fields() {
    let input = broker_input(false, None);
    let response = json(r#"{
        "account": {
            "brokerPortfolio": {
                "transactionDetails": {
                    "__typename": "BrokerNonTradeSecurityTransaction",
                    "id": "non-trade-1",
                    "currency": "EUR",
                    "type": "SECURITY_TRANSACTION",
                    "documents": [],
                    "lastEventDateTime": {"time":"2026-04-18T11:45:00Z"},
                    "isPending": false,
                    "isCancellation": false,
                    "security": {
                        "isin": "US0000000001",
                        "name": "Inbound Transfer Security",
                        "type": "STOCK"
                    },
                    "transactionReference": "NTS-REF-1",
                    "isin": "US0000000001",
                    "nonTradeSecurityTransactionType": "TRANSFER_IN",
                    "quantity": "3.5",
                    "nonTradeAveragePrice": "12.34",
                    "nonTradeSecurityAmount": "43.19",
                    "description": "Inbound transfer",
                    "nonTradeSecurityTransactionHistory": [
                        {
                            "state": "BOOKED",
                            "time": {
                                "time": "2026-04-18T11:45:00",
                                "epochSecond": 1776512700,
                                "epochMillisecond": 1776512700000
                            }
                        }
                    ],
                    "linkedTransactions": [
                        {"id": "cash-linked-1"}
                    ]
                }
            }
        }
    }"#);

    let projected =
        project_broker_transaction_details_response(&input, &response).expect("project");
    check(&projected, &["detail_type"], r#""non_trade_security""#);
    check(&projected, &["detail_typename"], r#""BrokerNonTradeSecurityTransaction""#);
    check(&projected, &["linked_transaction_ids"], r#"["cash-linked-1"]"#);
    check(&projected, &["history", "0", "state"], r#""BOOKED""#);
    check(&projected, &["history", "0", "timestamp"], r#""2026-04-18T11:45:00""#);
    assert!(
        lookup(&projected, &["history", "0", "timestamp_epoch_second"]).is_none()
    );
    assert!(
        lookup(&projected, &["history", "0", "timestamp_epoch_millisecond"]).is_none()
    );
    check(&projected, &["non_trade_security", "isin"], r#""US0000000001""#);
    check(&projected, &["non_trade_security", "non_trade_security_transaction_type"], r#""TRANSFER_IN""#);
    check(&projected, &["non_trade_security", "quantity"], r#""3.5""#);
    check(&projected, &["non_trade_security", "average_price"], r#""12.34""#);
    check(&projected, &["non_trade_security", "total_amount"], r#""43.19""#);
    check(&projected, &["cash"], r#"null"#);
    check(&projected, &["security_trade"], r#"null"#);
}

#[test]
fn project_broker_transaction_details_gracefully_maps_eltif() {
    let input = broker_input(false, None);
    let response = json(r#"{
        "account": {
            "brokerPortfolio": {
                "transactionDetails": {
                    "__typename": "BrokerEltifTransaction",
                    "id": "eltif-1",
                    "currency": "EUR",
                    "type": "SECURITY_TRANSACTION",
                    "documents": [],
                    "lastEventDateTime": {"time":"2026-04-16T12:00:00Z"},
                    "isPending": true,
                    "isCancellation": false,
                    "security": {
                        "isin": "LU0000000001",
                        "name": "Example Eltif",
                        "type": "ELTIF"
                    },
                    "transactionReference": "ELTIF-REF-1",
                    "status": "REQUESTED",
                    "side": "BUY",
                    "orderKind": "SINGLE",
                    "amount": "500.00",
                    "finalisationReason": null,
                    "eltifQuantity": "5",
                    "executionPrice": null,
                    "executionDate": null,
                    "earliestSellDate": {"time":"2028-04-16T00:00:00Z"},
                    "marketValuation": null,
                    "cancelableDetails": {
                        "daysLeft": 2,
                        "isCancelable": true
                    },
                    "isMultipleOrdersCancellation": false,
                    "isInitialInvestment": true,
                    "tradingVenue": "XVES",
                    "eltifTransactionHistory": [
                        {
                            "state": "REQUESTED",
                            "amount": "500.00",
                            "eltifQuantity": "5",
                            "executionPrice": null,
                            "time": {
                                "time": "2026-04-16T12:00:00",
                                "epochSecond": 1776340800,
                                "epochMillisecond": 1776340800000
                            }
                        }
                    ],
                    "linkedTransactions": []
                }
            }
        }
    }"#);

    let projected =
        project_broker_transaction_details_response(&input, &response).expect("project");
    check(&projected, &["detail_type"], r#""eltif""#);
    check(&projected, &["detail_typename"], r#""BrokerEltifTransaction""#);
    check(&projected, &["security_trade"], r#"null"#);
    check(&projected, &["cash"], r#"null"#);
    check(&projected, &["linked_transaction_ids"], r#"[]"#);
    check(&projected, &["history", "0", "amount"], r#""500.00""#);
    check(&projected, &["history", "0", "timestamp"], r#""2026-04-16T12:00:00""#);
    assert!(
        lookup(&projected, &["history", "0", "timestamp_epoch_second"]).is_none()
    );
    assert!(
        lookup(&projected, &["history", "0", "timestamp_epoch_millisecond"]).is_none()
    );
    check(&projected, &["eltif", "amount"], r#""500.00""#);
    check(&projected, &["eltif", "is_initial_investment"], r#"true"#);
    check(&projected, &["eltif", "cancelable_details", "days_left"], r#"2"#);
}

#[test]
fn project_broker_analytics_maps_result_sections() {
    let input = broker_input(false, None);
    let response = json(r##"{
        "account": {
            "brokerPortfolio": {
                "portfolioAnalysis": {
                    "type": "SUCCESS",
                    "result": {
                        "id": "analysis-1",
                        "lastUpdated": {"time":"2026-03-11T10:00:00Z"},
                        "healthChecks": {
                            "id": "checks-1",
                            "items": [
                                {
                                    "id": "hc-1",
                                    "type": "REGION",
                                    "healthScore": "0.80",
                                    "state": "HIGH",
                                    "color": {"sixDigitNotationValue":"#123456"},
                                    "numberOfItemsInPortfolio": "5",
                                    "maxItems": "10"
                                }
                            ]
                        },
                        "scenarios": {
                            "id": "scenarios-1",
                            "items": [
                                {
                                    "id": "scenario-1",
                                    "type": "WORLD_DOWN",
                                    "portfolioPerformance": "-11.5",
                                    "benchmarkPerformance": "-9.0",
                                    "securities": [
                                        {"id":"sec-1","isin":"US0378331005","name":"Apple","type":"STOCK"}
                                    ]
                                }
                            ]
                        },
                        "allocations": {
                            "id": "allocations-1",
                            "items": [
                                {
                                    "id": "allocation-1",
                                    "type": "REGION",
                                    "positions": [
                                        {
                                            "id": "position-1",
                                            "name": "North America",
                                            "weight": "0.60",
                                            "valuation": "600",
                                            "contributors": [
                                                {
                                                    "id": "contributor-1",
                                                    "weight": "0.25",
                                                    "underlyingAsset": {
                                                        "isin": "US0378331005",
                                                        "name": "Apple",
                                                        "inventory": {
                                                            "position": {
                                                                "filled": "2"
                                                            }
                                                        }
                                                    }
                                                }
                                            ],
                                            "subpositions": [
                                                {
                                                    "id": "subposition-1",
                                                    "name": "USA",
                                                    "weight": "0.50",
                                                    "valuation": "500",
                                                    "contributors": [
                                                        {
                                                            "id": "contributor-2",
                                                            "weight": "0.10",
                                                            "underlyingAsset": {
                                                                "ticker": "BTC",
                                                                "name": "Bitcoin"
                                                            }
                                                        }
                                                    ]
                                                }
                                            ]
                                        }
                                    ]
                                }
                            ]
                        },
                        "equityCompanyStyles": {
                            "id": "styles-1",
                            "marketCaps": [
                                {
                                    "id": "cap-1",
                                    "type": "LARGE",
                                    "weight": "0.70",
                                    "items": [
                                        {
                                            "id": "style-item-1",
                                            "type": "VALUE",
                                            "weight": "0.30",
                                            "contributors": [
                                                {
                                                    "id": "contributor-3",
                                                    "weight": "0.15",
                                                    "underlyingAsset": {
                                                        "isin": "US5949181045",
                                                        "name": "Microsoft"
                                                    }
                                                }
                                            ]
                                        }
                                    ],
                                    "contributors": [
                                        {
                                            "id": "contributor-4",
                                            "weight": "0.20",
                                            "underlyingAsset": {
                                                "ticker": "ETH",
                                                "name": "Ethereum"
                                            }
                                        }
                                    ]
                                }
                            ]
                        },
                        "fixedIncomeRatings": {
                            "id": "ratings-1",
                            "investmentGrade": [
                                {
                                    "id": "grade-1",
                                    "name": "AAA",
                                    "weight": "0.40",
                                    "contributors": [
                                        {
                                            "id": "contributor-5",
                                            "weight": "0.20",
                                            "underlyingAsset": {
                                                "isin": "DE0001102531",
                                                "name": "Bund",
                                                "inventory": {
                                                    "position": {
                                                        "filled": "4"
                                                    }
                                                }
                                            }
                                        }
                                    ]
                                }
                            ],
                            "speculativeGrade": [],
                            "unratedGrade": [],
                            "showSpeculativeInvestmentWarning": false
                        },
                        "payments": {
                            "id": "payments-1",
                            "totalDistributions": "12.34",
                            "totalInterest": "1.23"
                        },
                        "trialPeriod": {
                            "id": "trial-1",
                            "isEligible": true,
                            "isRunning": false,
                            "startDate": {"time":"2026-03-01T00:00:00Z"},
                            "durationInHours": 336
                        }
                    }
                }
            }
        }
    }"##);

    let projected = project_broker_analytics_response(&input, &response).expect("project");
    check(&projected, &["analysis_type"], r##""SUCCESS""##);
    check(&projected, &["last_updated_utc"], r##""2026-03-11T10:00:00Z""##);
    check(&projected, &["health_checks", "0", "color_hex"], r##""#123456""##);
    check(&projected, &["scenarios", "0", "securities", "0", "security_type"], r##""STOCK""##);
    check(&projected, &["allocations", "0", "positions", "0", "contributors", "0", "underlying_asset", "filled_quantity"], r##""2""##);
    check(&projected, &["allocations", "0", "positions", "0", "subpositions", "0", "contributors", "0", "underlying_asset", "kind"], r##""crypto""##);
    check(&projected, &["equity_company_styles", "market_caps", "0", "items", "0", "contributors", "0", "underlying_asset", "kind"], r##""security""##);
    check(&projected, &["fixed_income_ratings", "investment_grade", "0", "contributors", "0", "underlying_asset", "isin"], r##""DE0001102531""##);
    check(&projected, &["payments", "total_distributions"], r##""12.34""##);
    check(&projected, &["trial_period", "start_time_utc"], r##""2026-03-01T00:00:00Z""##);
}

#[test]
fn project_broker_analytics_maps_invalid_securities() {
    let input = broker_input(false, None);
    let response = json(r##"{
        "account": {
            "brokerPortfolio": {
                "portfolioAnalysis": {
                    "type": "INVALID_SECURITIES",
                    "invalidSecurities": [
                        {"id":"sec-1","isin":"US0000000001","name":"Invalid One","type":"STOCK"}
                    ],
                    "portfolioCoverage": "0.87",
                    "result": {
                        "id": "analysis-2",
                        "lastUpdated": {"time":"2026-03-11T11:00:00Z"},
                        "healthChecks": {"id":"checks-2","items":[]},
                        "scenarios": {"id":"scenarios-2","items":[]},
                        "allocations": {"id":"allocations-2","items":[]},
                        "equityCompanyStyles": {"id":"styles-2","marketCaps":[]},
                        "fixedIncomeRatings": {
                            "id":"ratings-2",
                            "investmentGrade":[],
                            "speculativeGrade":[],
                            "unratedGrade":[],
                            "showSpeculativeInvestmentWarning": true
                        },
                        "payments": null,
                        "trialPeriod": null
                    }
                }
            }
        }
    }"##);

    let projected = project_broker_analytics_response(&input, &response).expect("project");
    check(&projected, &["analysis_type"], r##""INVALID_SECURITIES""##);
    check(&projected, &["portfolio_coverage"], r##""0.87""##);
    check(&projected, &["invalid_securities_count"], r##"1"##);
    check(&projected, &["invalid_securities", "0", "isin"], r##""US0000000001""##);
    check(&projected, &["payments"], r##"null"##);
    check(&projected, &["trial_period"], r##"null"##);
}

/// Whether a coin's plan amount is a finite number above zero, read as a
/// float the way the command line judges it.
fn plan_amount_is_positive(amount: &Json) -> bool {
    let parsed = match amount {
        Json::Number(text) => text.parse::<f64>().ok(),
        Json::Str(text) => text.trim().parse::<f64>().ok(),
        _ => None,
    };
    parsed.map(|v| v.is_finite() && v > 0.0).unwrap_or(false)
}

fn active_coin_plans(response: &Json) -> Vec<bool> {
    match crypto_savings_plan_amounts(response) {
        Json::Array(amounts) => amounts.iter().map(plan_amount_is_positive).collect(),
        _ => Vec::new(),
    }
}

#[test]
fn project_broker_savings_plans_flattens_and_filters() {
    let input = broker_input(false, None);
    let response = json(r#"{
        "account": {
            "brokerPortfolio": {
                "totalSavingsPlanAmount": "260",
                "inventory": {
                    "items": [
                        {
                            "isin": "B",
                            "name": "Beta",
                            "type": "ETF",
                            "inventory": {
                                "savingsPlan": null
                            }
                        },
                        {
                            "isin": "A",
                            "name": "Alpha",
                            "type": "STOCK",
                            "inventory": {
                                "savingsPlan": {
                                    "amount": "100",
                                    "frequency": "MONTHLY",
                                    "dayOfTheMonth": 5,
                                    "dynamizationRate": "0",
                                    "paymentMethod": "REFERENCE_ACCOUNT",
                                    "nextExecutionDate": {
                                        "date": "2026-04-05",
                                        "epochDay": 20549
                                    }
                                }
                            }
                        }
                    ]
                },
                "crypto": {
                    "coins": [
                        {"ticker": "ETH", "name": "Ethereum", "savingsPlanAmount": "0"},
                        {"ticker": "BTC", "name": "Bitcoin", "savingsPlanAmount": "160"}
                    ]
                }
            }
        }
    }"#);

    let active = active_coin_plans(&response);
    let projected =
        project_broker_savings_plans_response(&input, &response, &active).expect("project");
    check(&projected, &["total_savings_plan_amount"], r#""260""#);
    check(&projected, &["count"], "2");
    check(&projected, &["non_crypto_count"], "1");
    check(&projected, &["crypto_count"], "1");
    check(&projected, &["items", "0", "kind"], r#""security""#);
    check(&projected, &["items", "0", "isin"], r#""A""#);
    check(&projected, &["items", "1", "kind"], r#""crypto""#);
    check(&projected, &["items", "1", "ticker"], r#""BTC""#);
}

#[test]
fn project_broker_savings_plan_config_extracts_config() {
    let response = json(r#"{
        "account": {
            "brokerPortfolio": {
                "security": {
                    "isin": "US0378331005",
                    "name": "Apple",
                    "type": "STOCK",
                    "savingsPlanConfiguration": {
                        "frequencies": ["MONTHLY"]
                    }
                }
            }
        }
    }"#);
    let projected = project_broker_savings_plan_config_response(&response).expect("project");
    check(&projected, &["frequencies", "0"], r#""MONTHLY""#);
}

#[test]
fn savings_plans_map_every_plan_field_and_order_coins_by_ticker() {
    let input = broker_input(false, None);
    let response = json(r#"{
        "account": {
            "brokerPortfolio": {
                "inventory": {
                    "items": [
                        {"isin": "US2", "name": "Two", "type": "ETF",
                         "inventory": {"savingsPlan": {"amount": "25", "frequency": "QUARTERLY",
                            "dayOfTheMonth": 15, "dynamizationRate": "0.05",
                            "paymentMethod": "DIRECT_DEBIT",
                            "nextExecutionDate": {"date": "2026-06-15", "epochDay": 20619}}}},
                        {"isin": "US1", "name": "One", "type": "STOCK",
                         "inventory": {"savingsPlan": {"amount": "50"}}},
                        {"isin": "US0", "name": "Zero", "type": "STOCK", "inventory": {}}
                    ]
                },
                "crypto": {
                    "coins": [
                        {"ticker": "SOL", "name": "Solana", "savingsPlanAmount": 12},
                        {"ticker": "ADA", "name": "Cardano", "savingsPlanAmount": " 3.5 "},
                        {"ticker": "XRP", "name": "Ripple", "savingsPlanAmount": "-1"},
                        {"ticker": "DOT", "name": "Polkadot"}
                    ]
                }
            }
        }
    }"#);

    let active = active_coin_plans(&response);
    assert_eq!(active, vec![true, true, false, false]);
    let projected =
        project_broker_savings_plans_response(&input, &response, &active).expect("project");
    check(&projected, &["total_savings_plan_amount"], "null");
    check(&projected, &["count"], "4");
    check(&projected, &["non_crypto_count"], "2");
    check(&projected, &["items", "0", "isin"], r#""US1""#);
    check(&projected, &["items", "0", "next_execution_date"], "null");
    check(&projected, &["items", "1", "isin"], r#""US2""#);
    check(&projected, &["items", "1", "day_of_month"], "15");
    check(&projected, &["items", "1", "dynamization_rate"], r#""0.05""#);
    check(&projected, &["items", "1", "payment_method"], r#""DIRECT_DEBIT""#);
    check(&projected, &["items", "1", "next_execution_epoch_day"], "20619");
    check(&projected, &["items", "2", "ticker"], r#""ADA""#);
    check(&projected, &["items", "2", "amount"], r#"" 3.5 ""#);
    check(&projected, &["items", "3", "ticker"], r#""SOL""#);
}

#[test]
fn savings_plans_report_missing_sections() {
    let input = broker_input(false, None);
    let err = project_broker_savings_plans_response(&input, &json(r#"{"account": {}}"#), &Vec::new())
        .unwrap_err();
    assert_eq!(err.to_string(), "Broker response invalid: missing account.brokerPortfolio");
    let err = project_broker_savings_plans_response(
        &input,
        &json(r#"{"account": {"brokerPortfolio": {"inventory": {}}}}"#),
        &Vec::new(),
    )
    .unwrap_err();
    assert_eq!(
        err.to_string(),
        "Broker response invalid: missing account.brokerPortfolio.inventory.items"
    );
    let err = project_broker_savings_plan_config_response(&json(r#"{"account": {}}"#)).unwrap_err();
    assert!(err.to_string().contains("savingsPlanConfiguration"));
}
