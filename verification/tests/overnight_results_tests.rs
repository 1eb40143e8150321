use scalable_cli::fingerprint::{checksum_for_payload, input_fingerprint_payload};
use scalable_cli::json::{json_text, parse_json, Json};
use scalable_cli::overnight_results::{
    overnight_result_envelope, overnight_transactions_result, set_member,
};

fn json(text: &str) -> Json {
    parse_json(text).expect("test JSON should parse")
}

#[test]
fn set_member_replaces_an_existing_key_and_appends_a_new_one() {
    let replaced = set_member(json(r#"{"a":1,"b":2}"#), "a", json("3"));
    assert_eq!(json_text(&replaced), r#"{"a":3,"b":2}"#);
    let appended = set_member(json(r#"{"a":1}"#), "c", json(r#""x""#));
    assert_eq!(json_text(&appended), r#"{"a":1,"c":"x"}"#);
    let untouched = set_member(json("[1,2]"), "a", json("3"));
    assert_eq!(json_text(&untouched), "[1,2]");
}

#[test]
fn transactions_result_carries_the_sent_input_and_its_fingerprint() {
    let variables = json(
        r#"{"accountId":"person-1","input":{"pageSize":20,"cursor":"c-1","searchTerm":"interest"}}"#,
    );
    let result = overnight_transactions_result(json(r#"{"count":0,"items":[]}"#), &variables);

    let expected_input = json(r#"{"pageSize":20,"cursor":"c-1","searchTerm":"interest"}"#);
    let expected_fingerprint = checksum_for_payload(&input_fingerprint_payload(&expected_input));
    let without_cursor = json(r#"{"pageSize":20,"searchTerm":"interest"}"#);
    assert_eq!(
        expected_fingerprint,
        checksum_for_payload(&input_fingerprint_payload(&without_cursor))
    );
    assert_eq!(
        json_text(&result),
        format!(
            r#"{{"count":0,"input":{{"cursor":"c-1","pageSize":20,"searchTerm":"interest"}},"input_fingerprint":"{}","items":[]}}"#,
            expected_fingerprint
        )
    );
}

#[test]
fn transactions_result_without_input_fingerprints_null() {
    let result = overnight_transactions_result(json(r#"{"count":0}"#), &json("{}"));
    let expected_fingerprint = checksum_for_payload(&input_fingerprint_payload(&Json::Null));
    assert_eq!(
        json_text(&result),
        format!(r#"{{"count":0,"input":null,"input_fingerprint":"{}"}}"#, expected_fingerprint)
    );
}

#[test]
fn overnight_envelope_names_the_selected_account() {
    let envelope = overnight_result_envelope(
        "sav-1",
        "explicit",
        json(r#""Tagesgeld""#),
        "PERSONAL",
        json("true"),
        json(r#"{"ok":true}"#),
    );
    assert_eq!(
        json_text(&envelope),
        r#"{"account":{"display_name":"Tagesgeld","is_active":true,"owner_kind":"PERSONAL"},"result":{"ok":true},"savings_account_id":"sav-1","selection":{"account":"explicit"}}"#
    );
}
