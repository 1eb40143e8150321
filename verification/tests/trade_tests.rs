use scalable_cli::json::{parse_json, Json};
use scalable_cli::trade::{
    evaluate_trade_compliance, parse_tradability_gate, TradeComplianceDecision,
    TradeComplianceSourceKind, TradeSide, TradeSuitabilityStatus, TradeSuitabilityType,
    TradeWarningKind, KNOCKOUT_RISK_WARNING_BODY, KNOCKOUT_RISK_WARNING_TITLE,
};
use scalable_cli::ex_ante::extract_single_trade_ex_ante_costs;
use scalable_cli::json::json_text;
use scalable_cli::trade_requests::{
    evaluate_appropriateness_gate, parse_cancel_order_result, parse_place_order_result,
    parse_security_issuer_document_links, trade_cancel_order_variables,
    trade_fill_forecast_variables, trade_security_tick_variables,
};

/// Checks the value at a path (null where it is missing) against an expected
/// JSON text; numbers compare by value.
fn check(value: &Json, path: &[&str], expected: &str) {
    let mut current = Some(value);
    for key in path {
        current = match current {
            Some(Json::Array(items)) => key.parse::<usize>().ok().and_then(|i| items.get(i)),
            Some(other) => other.get(key),
            None => None,
        };
    }
    let null = Json::Null;
    let actual = current.unwrap_or(&null);
    let expected = json(expected);
    match (actual, &expected) {
        (Json::Number(a), Json::Number(b)) => {
            assert_eq!(a.parse::<f64>().ok(), b.parse::<f64>().ok(), "at {path:?}")
        }
        _ => assert_eq!(json_text(actual), json_text(&expected), "at {path:?}"),
    }
}

fn json(text: &str) -> Json {
    parse_json(text).expect("test JSON should parse")
}

#[test]
fn evaluate_appropriateness_gate_flags_not_evaluated() {
    let response = json(r#"{
        "account": {
            "brokerPortfolio": {
                "appropriatenessInfo": {
                    "appropriatenessId": null,
                    "result": "NOT_EVALUATED"
                }
            }
        }
    }"#);

    let gate = evaluate_appropriateness_gate(&response, true)
        .expect("appropriateness gate should parse");
    assert_eq!(gate.status, "NOT_EVALUATED");
    assert!(!gate.passed);
}

#[test]
fn evaluate_trade_compliance_blocks_knockout_when_status_missing() {
    let response = json(r#"{
        "account": {
            "brokerPortfolio": {
                "appropriatenessInfo": null,
                "suitabilityStatuses": [],
                "featureFlags": {
                    "knockoutWarnings": true
                },
                "security": {
                    "requiredSuitability": {
                        "suitabilityType": "KNOCKOUT",
                        "actionWhenUnsuitable": "REOPEN_QUESTIONNAIRE"
                    }
                }
            }
        }
    }"#);

    let decision = evaluate_trade_compliance(&response, TradeSide::Buy, true)
        .expect("knockout compliance should parse");

    assert_eq!(
        decision.source_kind,
        TradeComplianceSourceKind::SuitabilityService
    );
    assert_eq!(
        decision.suitability_type,
        Some(TradeSuitabilityType::Knockout)
    );
    assert_eq!(decision.status, TradeSuitabilityStatus::NotEvaluated);
    assert!(decision.questionnaire_required);
    assert_eq!(decision.questionnaire_reason, Some("not_evaluated"));
    assert_eq!(decision.warning.kind, TradeWarningKind::NoWarning);
}

#[test]
fn evaluate_trade_compliance_requires_questionnaire_when_status_not_completed() {
    let response = json(r#"{
        "account": {
            "brokerPortfolio": {
                "appropriatenessInfo": null,
                "suitabilityStatuses": [
                    {
                        "suitabilityType": "KNOCKOUT",
                        "result": "NOT_COMPLETED",
                        "suitabilityId": null
                    }
                ],
                "featureFlags": {
                    "knockoutWarnings": true
                },
                "security": {
                    "requiredSuitability": {
                        "suitabilityType": "KNOCKOUT",
                        "actionWhenUnsuitable": "REOPEN_QUESTIONNAIRE"
                    }
                }
            }
        }
    }"#);

    let decision = evaluate_trade_compliance(&response, TradeSide::Buy, true)
        .expect("knockout compliance should parse");

    assert_eq!(decision.status, TradeSuitabilityStatus::NotCompleted);
    assert!(decision.questionnaire_required);
    assert_eq!(decision.questionnaire_reason, Some("not_completed"));
    assert!(!decision.requires_accept_unsuitable);
    assert_eq!(decision.submission_appropriateness_id, None);
    assert_eq!(decision.warning.kind, TradeWarningKind::NoWarning);
}

#[test]
fn evaluate_trade_compliance_reopens_questionnaire_for_unsuitable_knockout() {
    let response = json(r#"{
        "account": {
            "brokerPortfolio": {
                "appropriatenessInfo": null,
                "suitabilityStatuses": [
                    {
                        "suitabilityType": "KNOCKOUT",
                        "result": "UNSUITABLE",
                        "suitabilityId": "suit-ko-reopen-1"
                    }
                ],
                "featureFlags": {
                    "knockoutWarnings": true
                },
                "security": {
                    "requiredSuitability": {
                        "suitabilityType": "KNOCKOUT",
                        "actionWhenUnsuitable": "REOPEN_QUESTIONNAIRE"
                    }
                }
            }
        }
    }"#);

    let decision = evaluate_trade_compliance(&response, TradeSide::Buy, true)
        .expect("knockout compliance should parse");

    assert_eq!(decision.status, TradeSuitabilityStatus::Unsuitable);
    assert!(decision.questionnaire_required);
    assert_eq!(
        decision.questionnaire_reason,
        Some("unsuitable_reopens_questionnaire")
    );
    assert!(!decision.requires_accept_unsuitable);
    assert_eq!(decision.submission_appropriateness_id, None);
    assert_eq!(decision.warning.kind, TradeWarningKind::NoWarning);
}

#[test]
fn evaluate_trade_compliance_adds_knockout_warning_when_proceedable_and_flag_enabled() {
    let response = json(r#"{
        "account": {
            "brokerPortfolio": {
                "appropriatenessInfo": null,
                "suitabilityStatuses": [
                    {
                        "suitabilityType": "KNOCKOUT",
                        "result": "SUITABLE",
                        "suitabilityId": "suit-ko-1"
                    }
                ],
                "featureFlags": {
                    "knockoutWarnings": true
                },
                "security": {
                    "requiredSuitability": {
                        "suitabilityType": "KNOCKOUT",
                        "actionWhenUnsuitable": "PROCEED_TO_ORDER_FLOW"
                    }
                }
            }
        }
    }"#);

    let decision = evaluate_trade_compliance(&response, TradeSide::Buy, true)
        .expect("knockout compliance should parse");

    assert_eq!(decision.status, TradeSuitabilityStatus::Suitable);
    assert!(!decision.questionnaire_required);
    assert!(!decision.requires_accept_unsuitable);
    assert_eq!(
        decision.submission_appropriateness_id.as_deref(),
        Some("suit-ko-1")
    );
    assert_eq!(decision.warning.kind, TradeWarningKind::KnockoutRiskWarning);
    assert_eq!(
        decision.warning.title.as_deref(),
        Some(KNOCKOUT_RISK_WARNING_TITLE)
    );
    assert_eq!(
        decision.warning.body.as_deref(),
        Some(KNOCKOUT_RISK_WARNING_BODY)
    );
}

#[test]
fn evaluate_trade_compliance_suppresses_knockout_warning_when_flag_disabled() {
    let response = json(r#"{
        "account": {
            "brokerPortfolio": {
                "appropriatenessInfo": null,
                "suitabilityStatuses": [
                    {
                        "suitabilityType": "KNOCKOUT",
                        "result": "UNSUITABLE",
                        "suitabilityId": "suit-ko-2"
                    }
                ],
                "featureFlags": {
                    "knockoutWarnings": false
                },
                "security": {
                    "requiredSuitability": {
                        "suitabilityType": "KNOCKOUT",
                        "actionWhenUnsuitable": "PROCEED_TO_ORDER_FLOW"
                    }
                }
            }
        }
    }"#);

    let decision = evaluate_trade_compliance(&response, TradeSide::Buy, true)
        .expect("knockout compliance should parse");

    assert_eq!(decision.status, TradeSuitabilityStatus::Unsuitable);
    assert!(!decision.questionnaire_required);
    assert_eq!(
        decision.submission_appropriateness_id.as_deref(),
        Some("suit-ko-2")
    );
    assert_eq!(decision.warning.kind, TradeWarningKind::NoWarning);
}

#[test]
fn evaluate_trade_compliance_requires_acceptance_for_complex_unsuitable_proceed_flow() {
    let response = json(r#"{
        "account": {
            "brokerPortfolio": {
                "appropriatenessInfo": {
                    "appropriatenessId": "legacy-1",
                    "result": "APPROPRIATE"
                },
                "suitabilityStatuses": [
                    {
                        "suitabilityType": "COMPLEX_INSTRUMENT",
                        "result": "UNSUITABLE",
                        "suitabilityId": "suit-ci-1"
                    }
                ],
                "featureFlags": {
                    "knockoutWarnings": true
                },
                "security": {
                    "requiredSuitability": {
                        "suitabilityType": "COMPLEX_INSTRUMENT",
                        "actionWhenUnsuitable": "PROCEED_TO_ORDER_FLOW"
                    }
                }
            }
        }
    }"#);

    let decision = evaluate_trade_compliance(&response, TradeSide::Buy, true)
        .expect("complex suitability should parse");

    assert_eq!(decision.status, TradeSuitabilityStatus::Unsuitable);
    assert!(!decision.questionnaire_required);
    assert!(decision.requires_accept_unsuitable);
    assert_eq!(
        decision.submission_appropriateness_id.as_deref(),
        Some("suit-ci-1")
    );
    assert_eq!(
        decision.warning.kind,
        TradeWarningKind::LegacyAppropriatenessWarning
    );
}

#[test]
fn evaluate_trade_compliance_ignores_unrelated_eltif_and_wealth_statuses() {
    let response = json(r#"{
        "account": {
            "brokerPortfolio": {
                "appropriatenessInfo": null,
                "suitabilityStatuses": [
                    {
                        "suitabilityType": "ELTIF",
                        "result": "SUITABLE",
                        "suitabilityId": "suit-eltif-1"
                    },
                    {
                        "suitabilityType": "WEALTH",
                        "result": "SUITABLE",
                        "suitabilityId": "suit-wealth-1"
                    },
                    {
                        "suitabilityType": "COMPLEX_INSTRUMENT",
                        "result": "UNSUITABLE",
                        "suitabilityId": "suit-ci-2"
                    }
                ],
                "featureFlags": {
                    "knockoutWarnings": true
                },
                "security": {
                    "requiredSuitability": {
                        "suitabilityType": "COMPLEX_INSTRUMENT",
                        "actionWhenUnsuitable": "PROCEED_TO_ORDER_FLOW"
                    }
                }
            }
        }
    }"#);

    let decision = evaluate_trade_compliance(&response, TradeSide::Buy, true)
        .expect("complex suitability should ignore unrelated status rows");

    assert_eq!(decision.status, TradeSuitabilityStatus::Unsuitable);
    assert!(decision.requires_accept_unsuitable);
    assert_eq!(
        decision.submission_appropriateness_id.as_deref(),
        Some("suit-ci-2")
    );
}

#[test]
fn evaluate_trade_compliance_ignores_unknown_unrelated_suitability_statuses() {
    let response = json(r#"{
        "account": {
            "brokerPortfolio": {
                "appropriatenessInfo": null,
                "suitabilityStatuses": [
                    {
                        "suitabilityType": "FUTURE_UNRELATED_TYPE",
                        "result": "SUITABLE",
                        "suitabilityId": "suit-future-1"
                    },
                    {
                        "suitabilityType": "COMPLEX_INSTRUMENT",
                        "result": "UNSUITABLE",
                        "suitabilityId": "suit-ci-3"
                    }
                ],
                "featureFlags": {
                    "knockoutWarnings": true
                },
                "security": {
                    "requiredSuitability": {
                        "suitabilityType": "COMPLEX_INSTRUMENT",
                        "actionWhenUnsuitable": "PROCEED_TO_ORDER_FLOW"
                    }
                }
            }
        }
    }"#);

    let decision = evaluate_trade_compliance(&response, TradeSide::Buy, true)
        .expect("unknown unrelated status rows should be ignored");

    assert_eq!(decision.status, TradeSuitabilityStatus::Unsuitable);
    assert!(decision.requires_accept_unsuitable);
    assert_eq!(
        decision.submission_appropriateness_id.as_deref(),
        Some("suit-ci-3")
    );
}

#[test]
fn evaluate_trade_compliance_rejects_eltif_required_suitability_for_trade_flow() {
    let response = json(r#"{
        "account": {
            "brokerPortfolio": {
                "appropriatenessInfo": null,
                "suitabilityStatuses": [
                    {
                        "suitabilityType": "ELTIF",
                        "result": "SUITABLE",
                        "suitabilityId": "suit-eltif-2"
                    }
                ],
                "featureFlags": {
                    "knockoutWarnings": true
                },
                "security": {
                    "requiredSuitability": {
                        "suitabilityType": "ELTIF",
                        "actionWhenUnsuitable": "PROCEED_TO_ORDER_FLOW"
                    }
                }
            }
        }
    }"#);

    let err = evaluate_trade_compliance(&response, TradeSide::Buy, true)
        .expect_err("eltif suitability should fail closed for broker trade");

    assert!(
        err.to_string()
            .contains("UNSUPPORTED_TRADE_SUITABILITY_TYPE: ELTIF")
    );
}

#[test]
fn evaluate_trade_compliance_falls_back_to_legacy_appropriateness_when_statuses_are_absent() {
    let response = json(r#"{
        "account": {
            "brokerPortfolio": {
                "appropriatenessInfo": {
                    "appropriatenessId": "legacy-2",
                    "result": "NOT_APPROPRIATE"
                },
                "suitabilityStatuses": [],
                "featureFlags": {
                    "knockoutWarnings": true
                },
                "security": {
                    "requiredSuitability": null
                }
            }
        }
    }"#);

    let decision = evaluate_trade_compliance(&response, TradeSide::Buy, true)
        .expect("legacy fallback should parse");

    assert_eq!(
        decision.source_kind,
        TradeComplianceSourceKind::LegacyAppropriatenessFallback
    );
    assert_eq!(
        decision.suitability_type,
        Some(TradeSuitabilityType::LegacyFallback)
    );
    assert_eq!(decision.status, TradeSuitabilityStatus::Unsuitable);
    assert!(decision.requires_accept_unsuitable);
    assert_eq!(
        decision.submission_appropriateness_id.as_deref(),
        Some("legacy-2")
    );
}

#[test]
fn evaluate_trade_compliance_ignores_legacy_appropriateness_for_sell_flow() {
    let response = json(r#"{
        "account": {
            "brokerPortfolio": {
                "appropriatenessInfo": {
                    "appropriatenessId": "legacy-sell-1",
                    "result": "NOT_APPROPRIATE"
                },
                "suitabilityStatuses": [],
                "featureFlags": {
                    "knockoutWarnings": true
                },
                "security": {
                    "requiredSuitability": {
                        "suitabilityType": "COMPLEX_INSTRUMENT",
                        "actionWhenUnsuitable": "PROCEED_TO_ORDER_FLOW"
                    }
                }
            }
        }
    }"#);

    let decision = evaluate_trade_compliance(&response, TradeSide::Sell, true)
        .expect("sell compliance should ignore suitability and appropriateness");

    assert_eq!(decision, TradeComplianceDecision::not_required());
}

#[test]
fn evaluate_trade_compliance_rejects_missing_proceedable_suitability_id() {
    let response = json(r#"{
        "account": {
            "brokerPortfolio": {
                "appropriatenessInfo": null,
                "suitabilityStatuses": [
                    {
                        "suitabilityType": "KNOCKOUT",
                        "result": "SUITABLE",
                        "suitabilityId": null
                    }
                ],
                "featureFlags": {
                    "knockoutWarnings": true
                },
                "security": {
                    "requiredSuitability": {
                        "suitabilityType": "KNOCKOUT",
                        "actionWhenUnsuitable": "PROCEED_TO_ORDER_FLOW"
                    }
                }
            }
        }
    }"#);

    let err = evaluate_trade_compliance(&response, TradeSide::Buy, true)
        .expect_err("missing suitability id should fail closed");

    assert!(err.to_string().contains("SUITABILITY_ID_MISSING"));
}

#[test]
fn parse_tradability_gate_extracts_buy_venue_and_status() {
    let response = json(r#"{
        "account": {
            "brokerPortfolio": {
                "security": {
                    "buyTradabilityForTrading": {
                        "tradabilityStatus": "TRADABLE_WITH_APPROPRIATENESS",
                        "venues": [
                            {
                                "venue": "MUNC",
                                "tradabilityStatus": "TRADABLE_WITH_APPROPRIATENESS",
                                "unavailabilityReason": null
                            }
                        ],
                        "primaryVenue": {
                            "venue": "MUNC",
                            "status": "OPEN"
                        }
                    }
                }
            }
        }
    }"#);

    let gate = parse_tradability_gate(&response, TradeSide::Buy, None)
        .expect("tradability gate should parse");
    assert_eq!(gate.status, "TRADABLE_WITH_APPROPRIATENESS");
    assert_eq!(gate.selected_venue, "MUNC");
    assert!(gate.requires_appropriateness);
    assert_eq!(gate.selected_venue_sellable, None);
}

#[test]
fn parse_tradability_gate_respects_buy_venue_override() {
    let response = json(r#"{
        "account": {
            "brokerPortfolio": {
                "security": {
                    "buyTradabilityForTrading": {
                        "tradabilityStatus": "TRADABLE_WITHOUT_APPROPRIATENESS",
                        "venues": [
                            {
                                "venue": "MUNC",
                                "tradabilityStatus": "TRADABLE_WITHOUT_APPROPRIATENESS",
                                "unavailabilityReason": null
                            },
                            {
                                "venue": "XETR",
                                "tradabilityStatus": "TRADABLE_WITHOUT_APPROPRIATENESS",
                                "unavailabilityReason": null
                            }
                        ],
                        "primaryVenue": {
                            "venue": "MUNC",
                            "status": "OPEN"
                        }
                    }
                }
            }
        }
    }"#);

    let gate = parse_tradability_gate(&response, TradeSide::Buy, Some("XETR"))
        .expect("tradability gate should parse");
    assert_eq!(gate.selected_venue, "XETR");
    assert!(!gate.requires_appropriateness);
}

#[test]
fn parse_tradability_gate_extracts_sellable_for_sell_side() {
    let response = json(r#"{
        "account": {
            "brokerPortfolio": {
                "security": {
                    "sellTradabilityForTrading": {
                        "tradabilityStatus": "TRADABLE_WITHOUT_APPROPRIATENESS",
                        "venues": [
                            {
                                "venue": "MUNC",
                                "tradabilityStatus": "TRADABLE_WITHOUT_APPROPRIATENESS",
                                "unavailabilityReason": null
                            }
                        ],
                        "primaryVenue": {
                            "venue": "MUNC",
                            "status": "OPEN"
                        }
                    },
                    "inventory": {
                        "position": {
                            "sellableByVenue": [
                                {"venue": "MUNC", "sellable": 2.5}
                            ]
                        }
                    }
                }
            }
        }
    }"#);

    let gate = parse_tradability_gate(&response, TradeSide::Sell, None)
        .expect("sell tradability gate should parse");
    assert_eq!(gate.selected_venue_sellable.as_deref(), Some("2.5"));
}

#[test]
fn parse_tradability_gate_errors_when_selected_sell_venue_has_no_sellable_entry() {
    let response = json(r#"{
        "account": {
            "brokerPortfolio": {
                "security": {
                    "sellTradabilityForTrading": {
                        "tradabilityStatus": "TRADABLE_WITHOUT_APPROPRIATENESS",
                        "venues": [
                            {
                                "venue": "MUNC",
                                "tradabilityStatus": "TRADABLE_WITHOUT_APPROPRIATENESS",
                                "unavailabilityReason": null
                            }
                        ],
                        "primaryVenue": {
                            "venue": "MUNC",
                            "status": "OPEN"
                        }
                    },
                    "inventory": {
                        "position": {
                            "sellableByVenue": [
                                {"venue": "XETR", "sellable": 2.5}
                            ]
                        }
                    }
                }
            }
        }
    }"#);

    let err = parse_tradability_gate(&response, TradeSide::Sell, None)
        .expect_err("missing selected-venue sellable should fail");
    assert!(
        err.to_string()
            .contains("missing sellable quantity for selected venue 'MUNC'")
    );
}

#[test]
fn trade_cancel_order_variables_map_order_id() {
    let vars = trade_cancel_order_variables("portfolio-1", " order-1 ").expect("cancel vars");
    assert_eq!(vars.get("portfolioId").and_then(|v| v.as_str()), Some("portfolio-1"));
    assert_eq!(vars.get("orderId").and_then(|v| v.as_str()), Some("order-1"));
}

#[test]
fn trade_cancel_order_variables_reject_blank_order_id() {
    let err = trade_cancel_order_variables("portfolio-1", " ").expect_err("blank order id");
    assert!(err.to_string().contains("order_id"));
}

#[test]
fn parse_place_order_result_extracts_order_id_and_marketable_flag() {
    let response = json(r#"{"placeOrder": {"orderData": {"orderId": "order-1", "isMarketable": true}}}"#);
    let order = parse_place_order_result(&response).expect("order result should parse");
    assert_eq!(order.order_id, "order-1");
    assert_eq!(order.is_marketable, Some(true));
}

#[test]
fn parse_cancel_order_result_accepts_present_object() {
    let response = json(r#"{"cancelOrder": {"id": "portfolio-1"}}"#);
    parse_cancel_order_result(&response).expect("cancel result should parse");
}

#[test]
fn parse_cancel_order_result_rejects_missing_object() {
    let response = json(r#"{}"#);
    let err = parse_cancel_order_result(&response).expect_err("missing object should fail");
    assert!(err.to_string().contains("missing cancelOrder"));
}

#[test]
fn parse_cancel_order_result_rejects_null_object() {
    let response = json(r#"{"cancelOrder": null}"#);
    let err = parse_cancel_order_result(&response).expect_err("null object should fail");
    assert!(err.to_string().contains("cancelOrder was null"));
}

#[test]
fn parse_cancel_order_result_rejects_non_object_payload() {
    let response = json(r#"{"cancelOrder": "portfolio-1"}"#);
    let err = parse_cancel_order_result(&response).expect_err("non-object payload should fail");
    assert!(err.to_string().contains("cancelOrder must be an object"));
}

#[test]
fn parse_security_issuer_document_links_prefers_locale_specific_secondary() {
        let response = json(r#"{
            "account": {
                "brokerPortfolio": {
                    "security": {
                        "issuerLinks": {
                            "kidLinks": [
                                {
                                    "isPrimary": true,
                                    "url": "https://example.test/primary-kid.pdf",
                                    "locale": "de_DE"
                                },
                                {
                                    "isPrimary": false,
                                    "url": "https://example.test/en-kid.pdf",
                                    "locale": "en_DE"
                                }
                            ]
                        }
                    }
                }
            }
        }"#);

        let links = parse_security_issuer_document_links(&response, "en_DE")
            .expect("issuer links should parse");
        assert_eq!(
            links.primary_kid_url.as_deref(),
            Some("https://example.test/primary-kid.pdf")
        );
        assert_eq!(
            links.secondary_kid_url.as_deref(),
            Some("https://example.test/en-kid.pdf")
        );
    }

#[test]
fn parse_security_issuer_document_links_returns_none_when_missing() {
        let response = json(r#"{
            "account": {
                "brokerPortfolio": {
                    "security": {
                        "issuerLinks": {
                            "kidLinks": []
                        }
                    }
                }
            }
        }"#);

        let links = parse_security_issuer_document_links(&response, "en_DE")
            .expect("issuer links should parse");
        assert_eq!(links.primary_kid_url, None);
        assert_eq!(links.secondary_kid_url, None);
    }

#[test]
fn parse_security_issuer_document_links_skips_blank_urls() {
        let response = json(r#"{
            "account": {
                "brokerPortfolio": {
                    "security": {
                        "issuerLinks": {
                            "kidLinks": [
                                {
                                    "isPrimary": true,
                                    "url": "",
                                    "locale": "de_DE"
                                },
                                {
                                    "isPrimary": true,
                                    "url": "https://example.test/primary-kid.pdf",
                                    "locale": "de_DE"
                                },
                                {
                                    "isPrimary": false,
                                    "url": "   ",
                                    "locale": "en_DE"
                                },
                                {
                                    "isPrimary": false,
                                    "url": "https://example.test/en-kid.pdf",
                                    "locale": "en_DE"
                                }
                            ]
                        }
                    }
                }
            }
        }"#);

        let links = parse_security_issuer_document_links(&response, "en_DE")
            .expect("issuer links should parse");
        assert_eq!(
            links.primary_kid_url.as_deref(),
            Some("https://example.test/primary-kid.pdf")
        );
        assert_eq!(
            links.secondary_kid_url.as_deref(),
            Some("https://example.test/en-kid.pdf")
        );
    }

#[test]
fn extract_single_trade_ex_ante_costs_backfills_missing_breakdown_fields() {
        let response = json(r#"{
            "account": {
                "brokerPortfolio": {
                    "singleTradeExAnteCosts": {
                        "entryCosts": {
                            "total": {
                                "amount": 1.23,
                                "percentage": 0.02
                            }
                        },
                        "effectOnReturn": {
                            "initialYearCosts": null,
                            "followingYearsCosts": null,
                            "finalYearCosts": {}
                        }
                    }
                }
            }
        }"#);

        let costs = extract_single_trade_ex_ante_costs(&response).expect("ex-ante should parse");
        check(&costs, &["entryCosts", "total", "amount"], r#"1.23"#);
        check(&costs, &["entryCosts", "serviceCosts", "amount"], r#"0"#);
        check(&costs, &["effectOnReturn", "finalYearCosts", "percentage"], r#"0"#);
    }

#[test]
fn extract_single_trade_ex_ante_costs_fills_missing_required_breakdown_fields_with_zero() {
        let response = json(r#"{
            "account": {
                "brokerPortfolio": {
                    "singleTradeExAnteCosts": {
                        "id": "cost-id",
                        "entryCosts": {
                            "productCosts": {
                                "amount": 0.34,
                                "percentage": 0.00075
                            },
                            "total": {
                                "amount": 0.34,
                                "percentage": 0.00075
                            }
                        },
                        "ongoingCosts": {
                            "serviceCosts": {
                                "percentage": 0.00011
                            }
                        },
                        "exitCosts": {},
                        "effectOnReturn": {
                            "initialYearCosts": {
                                "amount": 0.46
                            },
                            "followingYearsCosts": {},
                            "finalYearCosts": {}
                        }
                    }
                }
            }
        }"#);

        let costs = extract_single_trade_ex_ante_costs(&response).expect("ex-ante should parse");

        check(&costs, &["entryCosts", "serviceCosts", "amount"], r#"0"#);
        check(&costs, &["entryCosts", "serviceCosts", "percentage"], r#"0"#);
        check(&costs, &["ongoingCosts", "serviceCosts", "amount"], r#"0"#);
        check(&costs, &["exitCosts", "total", "amount"], r#"0"#);
        check(&costs, &["effectOnReturn", "initialYearCosts", "percentage"], r#"0"#);
        check(&costs, &["effectOnReturn", "finalYearCosts", "amount"], r#"0"#);
    }

#[test]
fn extract_single_trade_ex_ante_costs_allows_null_entry_costs() {
        let response = json(r#"{
            "account": {
                "brokerPortfolio": {
                    "singleTradeExAnteCosts": {
                        "entryCosts": null,
                        "effectOnReturn": {
                            "initialYearCosts": null,
                            "followingYearsCosts": null,
                            "finalYearCosts": {}
                        }
                    }
                }
            }
        }"#);

        let costs = extract_single_trade_ex_ante_costs(&response).expect("ex-ante should parse");
        assert!(matches!(costs.get("entryCosts"), Some(Json::Null)));
        check(&costs, &["ongoingCosts", "total", "amount"], r#"0"#);
    }

#[test]
fn extract_single_trade_ex_ante_costs_rejects_missing_entry_costs() {
        let response = json(r#"{
            "account": {
                "brokerPortfolio": {
                    "singleTradeExAnteCosts": {
                        "ongoingCosts": {
                            "total": {
                                "amount": 0.12,
                                "percentage": 0.00026
                            }
                        },
                        "exitCosts": {},
                        "effectOnReturn": {
                            "initialYearCosts": null,
                            "followingYearsCosts": null,
                            "finalYearCosts": {}
                        }
                    }
                }
            }
        }"#);

        let err = extract_single_trade_ex_ante_costs(&response).expect_err("ex-ante should fail");
        assert!(err.to_string().contains(
            "EX_ANTE_COST_UNAVAILABLE: invalid singleTradeExAnteCosts payload at '/entryCosts'"
        ));
    }

#[test]
fn extract_single_trade_ex_ante_costs_rejects_invalid_non_null_entry_costs() {
        let response = json(r#"{
            "account": {
                "brokerPortfolio": {
                    "singleTradeExAnteCosts": {
                        "entryCosts": 0,
                        "effectOnReturn": {
                            "initialYearCosts": null,
                            "followingYearsCosts": null,
                            "finalYearCosts": {}
                        }
                    }
                }
            }
        }"#);

        let err = extract_single_trade_ex_ante_costs(&response).expect_err("ex-ante should fail");
        assert!(err.to_string().contains(
            "EX_ANTE_COST_UNAVAILABLE: invalid singleTradeExAnteCosts payload at '/entryCosts'"
        ));
    }

#[test]
fn extract_single_trade_ex_ante_costs_allows_null_initial_year_costs() {
        let response = json(r#"{
            "account": {
                "brokerPortfolio": {
                    "singleTradeExAnteCosts": {
                        "entryCosts": null,
                        "effectOnReturn": {
                            "initialYearCosts": null,
                            "followingYearsCosts": {
                                "amount": 0.12,
                                "percentage": 0.00026
                            },
                            "finalYearCosts": {
                                "amount": 0.17,
                                "percentage": 0.00037
                            }
                        }
                    }
                }
            }
        }"#);

        let costs = extract_single_trade_ex_ante_costs(&response).expect("ex-ante should parse");
        check(&costs, &["effectOnReturn", "initialYearCosts"], r#"null"#);
        check(&costs, &["effectOnReturn", "followingYearsCosts", "amount"], r#"0.12"#);
    }

#[test]
fn extract_single_trade_ex_ante_costs_allows_null_following_years_costs() {
        let response = json(r#"{
            "account": {
                "brokerPortfolio": {
                    "singleTradeExAnteCosts": {
                        "entryCosts": null,
                        "effectOnReturn": {
                            "initialYearCosts": {
                                "amount": 0.46,
                                "percentage": 0.00101
                            },
                            "followingYearsCosts": null,
                            "finalYearCosts": {
                                "amount": 0.17,
                                "percentage": 0.00037
                            }
                        }
                    }
                }
            }
        }"#);

        let costs = extract_single_trade_ex_ante_costs(&response).expect("ex-ante should parse");
        check(&costs, &["effectOnReturn", "initialYearCosts", "amount"], r#"0.46"#);
        check(&costs, &["effectOnReturn", "followingYearsCosts"], r#"null"#);
    }

#[test]
fn extract_single_trade_ex_ante_costs_rejects_missing_initial_year_costs() {
        let response = json(r#"{
            "account": {
                "brokerPortfolio": {
                    "singleTradeExAnteCosts": {
                        "entryCosts": null,
                        "effectOnReturn": {
                            "followingYearsCosts": null,
                            "finalYearCosts": {}
                        }
                    }
                }
            }
        }"#);

        let err = extract_single_trade_ex_ante_costs(&response).expect_err("ex-ante should fail");
        assert!(err.to_string().contains(
            "EX_ANTE_COST_UNAVAILABLE: invalid singleTradeExAnteCosts payload at '/effectOnReturn/initialYearCosts'"
        ));
    }

#[test]
fn extract_single_trade_ex_ante_costs_rejects_missing_following_years_costs() {
        let response = json(r#"{
            "account": {
                "brokerPortfolio": {
                    "singleTradeExAnteCosts": {
                        "entryCosts": null,
                        "effectOnReturn": {
                            "initialYearCosts": null,
                            "finalYearCosts": {}
                        }
                    }
                }
            }
        }"#);

        let err = extract_single_trade_ex_ante_costs(&response).expect_err("ex-ante should fail");
        assert!(err.to_string().contains(
            "EX_ANTE_COST_UNAVAILABLE: invalid singleTradeExAnteCosts payload at '/effectOnReturn/followingYearsCosts'"
        ));
    }

#[test]
fn extract_single_trade_ex_ante_costs_rejects_invalid_non_null_initial_year_costs() {
        let response = json(r#"{
            "account": {
                "brokerPortfolio": {
                    "singleTradeExAnteCosts": {
                        "entryCosts": null,
                        "effectOnReturn": {
                            "initialYearCosts": 0,
                            "followingYearsCosts": null,
                            "finalYearCosts": {}
                        }
                    }
                }
            }
        }"#);

        let err = extract_single_trade_ex_ante_costs(&response).expect_err("ex-ante should fail");
        assert!(err.to_string().contains(
            "EX_ANTE_COST_UNAVAILABLE: invalid singleTradeExAnteCosts payload at '/effectOnReturn/initialYearCosts'"
        ));
    }

#[test]
fn extract_single_trade_ex_ante_costs_rejects_invalid_non_null_following_years_costs() {
        let response = json(r#"{
            "account": {
                "brokerPortfolio": {
                    "singleTradeExAnteCosts": {
                        "entryCosts": null,
                        "effectOnReturn": {
                            "initialYearCosts": null,
                            "followingYearsCosts": 0,
                            "finalYearCosts": {}
                        }
                    }
                }
            }
        }"#);

        let err = extract_single_trade_ex_ante_costs(&response).expect_err("ex-ante should fail");
        assert!(err.to_string().contains(
            "EX_ANTE_COST_UNAVAILABLE: invalid singleTradeExAnteCosts payload at '/effectOnReturn/followingYearsCosts'"
        ));
    }


#[test]
fn trade_security_tick_and_fill_forecast_variables_check_inputs() {
    let vars = trade_security_tick_variables(" person-1 ", "port-1", "US0378331005").expect("vars");
    check(&vars, &["personId"], r#""person-1""#);
    check(&vars, &["includeYearToDate"], "false");
    check(&vars, &["source"], r#""CONSOLIDATED""#);
    let err = trade_security_tick_variables("p", " ", "i").unwrap_err();
    assert_eq!(err.to_string(), "Trade input invalid: field 'portfolio_id' must be a non-empty string");

    let vars = trade_fill_forecast_variables("port-1", "US0378331005", "EUR", Some("  ")).expect("vars");
    check(&vars, &["input", "side"], r#""BUY""#);
    check(&vars, &["input", "venue"], "null");
    let vars = trade_fill_forecast_variables("port-1", "US0378331005", "EUR", Some(" XETR ")).expect("vars");
    check(&vars, &["input", "venue"], r#""XETR""#);
    let err = trade_fill_forecast_variables("port-1", "US0378331005", " ", None).unwrap_err();
    assert!(err.to_string().contains("currency"));
}
