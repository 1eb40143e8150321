//! Verified input normalization, error classification, compliance decisions
//! and request shaping for a broker command-line client.

pub mod text;
pub mod numbers;
pub mod sorted;
pub mod json;
pub mod error_report;
pub mod markers;
pub mod machine;
pub mod isin;
pub mod enum_filter;
pub mod decimal;
pub mod time;
pub mod broker_queries;
pub mod derivatives;
pub mod overnight;
pub mod graphql;
pub mod graphql_errors;
pub mod trade;
pub mod trade_requests;
pub mod portfolio_groups;
pub mod broker_shared;
pub mod dpop;
pub mod projections;
pub mod documents;
pub mod laws;
pub mod broker_variables;
pub mod chart;
pub mod fingerprint;
pub mod keyed;
pub mod listings;
pub mod alerts;
pub mod acknowledgements;
pub mod group_projections;
pub mod group_render;
pub mod savings_presentation;
pub mod overnight_variables;
pub mod transaction_details;
pub mod derivative_results;
pub mod ex_ante;
pub mod login_flow;
pub mod analytics;
pub mod portfolio_group_queries;
pub mod savings_plans;
pub mod overnight_results;
pub mod dpop_key;
pub mod listing_laws;
pub mod classification_laws;
pub mod decimal_laws;
