use graphql_parser::query::parse_query;
use scalable_cli::documents::{
    BROKER_ADD_CRYPTO_PRICE_ALERT_MUTATION, BROKER_ADD_PRICE_ALERT_MUTATION,
    BROKER_ADD_TO_WATCHLIST_MUTATION, BROKER_ANALYTICS_QUERY,
    BROKER_CREATE_OR_UPDATE_SAVINGS_PLAN_MUTATION, BROKER_CRYPTO_PRICE_ALERTS_QUERY,
    BROKER_DERIVATIVES_SEARCH_QUERY, BROKER_HOLDINGS_QUERY, BROKER_LIMITS_QUERY,
    BROKER_OVERVIEW_QUERY, BROKER_PRICE_ALERTS_QUERY, BROKER_QUOTE_QUERY,
    BROKER_REMOVE_CRYPTO_PRICE_ALERT_MUTATION, BROKER_REMOVE_FROM_WATCHLIST_MUTATION,
    BROKER_REMOVE_PRICE_ALERT_MUTATION, BROKER_REMOVE_SAVINGS_PLAN_MUTATION,
    BROKER_SAVINGS_PLANS_QUERY, BROKER_SAVINGS_PLAN_BY_ISIN_QUERY,
    BROKER_SAVINGS_PLAN_CONFIG_QUERY, BROKER_SAVINGS_PLAN_EX_ANTE_COSTS_QUERY,
    BROKER_SEARCH_QUERY, BROKER_SECURITY_NEWS_QUERY, BROKER_TRANSACTIONS_QUERY,
    BROKER_TRANSACTION_DETAILS_QUERY, BROKER_WATCHLIST_QUERY, DISCOVER_OVERNIGHT_ACCOUNTS_QUERY,
    OVERNIGHT_SUMMARY_QUERY, OVERNIGHT_TRANSACTIONS_QUERY, TRADE_APPROPRIATENESS_RESULT_QUERY,
    TRADE_APPROPRIATENESS_WARNING_QUERY, TRADE_CANCEL_ORDER_MUTATION, TRADE_FILL_FORECAST_MUTATION,
    TRADE_PLACE_ORDER_MUTATION, TRADE_SECURITY_TICK_QUERY, TRADE_SINGLE_EX_ANTE_COSTS_QUERY,
    TRADE_TRADABILITY_QUERY,
};
use scalable_cli::login_flow::{
    LOGIN_2FA_STATE_QUERY, START_2FA_ON_LOGIN_MUTATION, VALIDATE_2FA_ON_LOGIN_MUTATION,
};

#[test]
fn broker_query_documents_parse_as_graphql_documents() {
    let queries = [
        BROKER_OVERVIEW_QUERY,
        BROKER_ANALYTICS_QUERY,
        BROKER_TRANSACTIONS_QUERY,
        BROKER_TRANSACTION_DETAILS_QUERY,
        BROKER_HOLDINGS_QUERY,
        BROKER_WATCHLIST_QUERY,
        BROKER_ADD_TO_WATCHLIST_MUTATION,
        BROKER_REMOVE_FROM_WATCHLIST_MUTATION,
        BROKER_REMOVE_SAVINGS_PLAN_MUTATION,
        BROKER_SEARCH_QUERY,
        BROKER_DERIVATIVES_SEARCH_QUERY,
        BROKER_QUOTE_QUERY,
        BROKER_SECURITY_NEWS_QUERY,
        BROKER_PRICE_ALERTS_QUERY,
        BROKER_CRYPTO_PRICE_ALERTS_QUERY,
        BROKER_ADD_PRICE_ALERT_MUTATION,
        BROKER_ADD_CRYPTO_PRICE_ALERT_MUTATION,
        BROKER_REMOVE_PRICE_ALERT_MUTATION,
        BROKER_REMOVE_CRYPTO_PRICE_ALERT_MUTATION,
        BROKER_LIMITS_QUERY,
        BROKER_SAVINGS_PLANS_QUERY,
        BROKER_SAVINGS_PLAN_CONFIG_QUERY,
        BROKER_SAVINGS_PLAN_EX_ANTE_COSTS_QUERY,
        BROKER_CREATE_OR_UPDATE_SAVINGS_PLAN_MUTATION,
        BROKER_SAVINGS_PLAN_BY_ISIN_QUERY,
    ];

    for query in queries {
        parse_query::<String>(query).expect("query should parse as valid GraphQL");
    }
}

#[test]
fn overnight_queries_parse_as_graphql() {
    for query in [DISCOVER_OVERNIGHT_ACCOUNTS_QUERY, OVERNIGHT_SUMMARY_QUERY] {
        parse_query::<String>(query).expect("query should parse as valid GraphQL");
    }
}

#[test]
fn overnight_transactions_query_requests_cash_transaction_fields() {
    parse_query::<String>(OVERNIGHT_TRANSACTIONS_QUERY).expect("valid GraphQL");
    for field in [
        "moreTransactions",
        "cashTransactionType",
        "relatedIsin",
        "custodian",
        "documents",
    ] {
        assert!(OVERNIGHT_TRANSACTIONS_QUERY.contains(field));
    }
}

#[test]
fn trade_query_documents_parse_as_graphql_documents() {
    let queries = [
        TRADE_TRADABILITY_QUERY,
        TRADE_APPROPRIATENESS_RESULT_QUERY,
        TRADE_APPROPRIATENESS_WARNING_QUERY,
        TRADE_SECURITY_TICK_QUERY,
        TRADE_SINGLE_EX_ANTE_COSTS_QUERY,
        TRADE_FILL_FORECAST_MUTATION,
        TRADE_PLACE_ORDER_MUTATION,
        TRADE_CANCEL_ORDER_MUTATION,
    ];

    for query in queries {
        parse_query::<String>(query).expect("query should parse as valid GraphQL");
    }
}

#[test]
fn login_documents_parse_as_graphql_documents() {
    for document in [
        LOGIN_2FA_STATE_QUERY,
        START_2FA_ON_LOGIN_MUTATION,
        VALIDATE_2FA_ON_LOGIN_MUTATION,
    ] {
        parse_query::<String>(document).expect("document should parse as valid GraphQL");
    }
}
