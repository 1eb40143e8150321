use scalable_cli::broker_shared::fingerprint_payload_for_transactions_input;
use scalable_cli::fingerprint::{
    canonicalize_json, checksum_for_payload, input_fingerprint, input_fingerprint_payload,
};
use scalable_cli::json::{json_text, parse_json, Json};

fn json(text: &str) -> Json {
    parse_json(text).expect("test JSON should parse")
}

#[test]
fn input_fingerprint_excludes_cursor_and_canonicalizes_keys() {
    let first = json(r#"{"status": ["CONFIRMED"], "cursor": "page-1", "pageSize": 20}"#);
    let second = json(r#"{"pageSize": 20, "status": ["CONFIRMED"], "cursor": "page-2"}"#);

    assert_eq!(
        checksum_for_payload(&input_fingerprint_payload(&first)),
        checksum_for_payload(&input_fingerprint_payload(&second))
    );
}

#[test]
fn checksum_is_lower_hex_sha256_of_compact_canonical_text() {
    let payload = json(r#"{"status": ["CONFIRMED"], "pageSize": 20}"#);
    assert_eq!(
        checksum_for_payload(&payload),
        "148d2e1a988862c06536a6cdf2b5964228c607dc33796bab5d08edb5b9d91615"
    );
    let nested = json(r#"{"z": "x", "a": {"c": [true, null], "b": 1}}"#);
    assert_eq!(
        checksum_for_payload(&nested),
        "01fd9d7c98754babdcd43204a090f128a6cbac7df7b6eb5c082588c375fec04f"
    );
}

#[test]
fn fingerprint_payload_drops_only_the_cursor() {
    let input = json(r#"{"cursor": "c", "pageSize": 20, "types": ["A"]}"#);
    let payload = input_fingerprint_payload(&input);
    assert!(payload.get("cursor").is_none());
    assert!(payload.get("pageSize").is_some());
    assert!(payload.get("types").is_some());
    let same = fingerprint_payload_for_transactions_input(&input);
    assert_eq!(json_text(&same), json_text(&payload));

    let not_object = json(r#"["cursor"]"#);
    assert_eq!(json_text(&input_fingerprint_payload(&not_object)), r#"["cursor"]"#);
}

#[test]
fn canonical_form_sorts_keys_at_every_depth() {
    let value = json(r#"{"b": {"y": 1, "x": 2}, "a": [{"d": 1, "c": 2}]}"#);
    let canonical = canonicalize_json(&value);
    match &canonical {
        Json::Object(members) => {
            let keys: Vec<&str> = members.iter().map(|(k, _)| k.as_str()).collect();
            assert_eq!(keys, vec!["a", "b"]);
            match &members[1].1 {
                Json::Object(inner) => {
                    let keys: Vec<&str> = inner.iter().map(|(k, _)| k.as_str()).collect();
                    assert_eq!(keys, vec!["x", "y"]);
                }
                other => panic!("unexpected {other:?}"),
            }
        }
        other => panic!("unexpected {other:?}"),
    }
    assert_eq!(json_text(&canonical), r#"{"a":[{"c":2,"d":1}],"b":{"x":2,"y":1}}"#);
}

#[test]
fn fingerprint_changes_with_the_filters() {
    let first = json(r#"{"status": ["CONFIRMED"], "cursor": "page-1"}"#);
    let second = json(r#"{"status": ["PENDING"], "cursor": "page-1"}"#);
    assert_ne!(input_fingerprint(&first), input_fingerprint(&second));
    assert_eq!(input_fingerprint(&first).len(), 64);
}
