use scalable_cli::dpop::{
    access_token_hash, canonicalize_htu, dpop_proof_claims, epoch_seconds_from, jwk_thumbprint,
    map_secure_enclave_signing_error, DpopPublicJwk,
};
use scalable_cli::error_report::CauseKind;
use scalable_cli::machine::classify_error;

#[test]
fn secure_enclave_interaction_not_allowed_marks_source_as_locked() {
    let err = map_secure_enclave_signing_error(-25308, "native Secure Enclave signing failure");

    assert!(err.has_kind(CauseKind::SecureEnclaveKeyLocked));
    assert!(
        err.chain()
            .iter()
            .any(|cause| cause == "native Secure Enclave signing failure")
    );
}

#[test]
fn other_secure_enclave_status_does_not_mark_source_as_locked() {
    let err = map_secure_enclave_signing_error(-25309, "native Secure Enclave signing failure");

    assert!(!err.has_kind(CauseKind::SecureEnclaveKeyLocked));
    assert_eq!(
        err.to_string(),
        "Failed signing DPoP proof with Secure Enclave key"
    );
}

#[test]
fn locked_signing_error_classifies_as_device_locked() {
    let err = map_secure_enclave_signing_error(-25308, "x").context("outer");
    assert_eq!(classify_error(&err).code, "device_locked");
}

#[test]
fn canonicalize_htu_strips_query_and_fragment() {
    let htu = canonicalize_htu("https://de.scalable.capital/api/graphql?foo=bar#frag")
        .expect("canonicalize");
    assert_eq!(htu, "https://de.scalable.capital/api/graphql");
}

#[test]
fn canonicalize_htu_rejects_relative_urls() {
    let err = canonicalize_htu("not a url").expect_err("invalid URL");
    assert_eq!(err.to_string(), "Invalid DPoP target URL 'not a url'");
    assert_eq!(err.chain().len(), 2);
}

#[test]
fn access_token_hash_is_base64url_sha256() {
    // SHA-256 of "abc" is ba7816bf...15ad; base64url without padding:
    assert_eq!(access_token_hash("abc"), "ungWv48Bz-pBQUDeXa4iI7ADYaOWF3qctBD_YfIAFa0");
}

#[test]
fn jwk_thumbprint_hashes_the_canonical_members() {
    let jwk = DpopPublicJwk {
        kty: "EC".to_string(),
        crv: "P-256".to_string(),
        x: "f83OJ3D2xF1Bg8vub9tLe1gHMzV76e8Tus9uPHvRVEU".to_string(),
        y: "x_FEzRu9m36HLN_tue659LNpXW6pCyStikYjKIWI5a0".to_string(),
    };
    let first = jwk_thumbprint(&jwk);
    assert_eq!(first.len(), 43);
    let mut other = jwk.clone();
    other.x = "different".to_string();
    assert_ne!(jwk_thumbprint(&other), first);
}

#[test]
fn proof_claims_contain_required_claims_and_ath() {
    let claims = dpop_proof_claims(
        "post",
        "https://de.scalable.capital/api/graphql?foo=bar",
        Some("nonce-1"),
        Some("access-token-1"),
        1_700_000_000,
        "jti-1",
    )
    .expect("claims");
    assert_eq!(claims.get("htm").and_then(|v| v.as_str()), Some("POST"));
    assert_eq!(
        claims.get("htu").and_then(|v| v.as_str()),
        Some("https://de.scalable.capital/api/graphql")
    );
    assert_eq!(claims.get("jti").and_then(|v| v.as_str()), Some("jti-1"));
    assert_eq!(claims.get("nonce").and_then(|v| v.as_str()), Some("nonce-1"));
    let ath = access_token_hash("access-token-1");
    assert_eq!(claims.get("ath").and_then(|v| v.as_str()), Some(ath.as_str()));
    match claims.get("iat") {
        Some(scalable_cli::json::Json::Number(n)) => assert_eq!(n, "1700000000"),
        other => panic!("unexpected iat {other:?}"),
    }
}

#[test]
fn proof_claims_refuse_blank_method_and_id() {
    let err = dpop_proof_claims("  ", "https://x.test/", None, None, 0, "j").expect_err("method");
    assert_eq!(err.to_string(), "DPoP proof input invalid: HTTP method must be non-empty");
    let err = dpop_proof_claims("GET", "https://x.test/", None, None, 0, "  ").expect_err("jti");
    assert_eq!(err.to_string(), "DPoP proof input invalid: jti must be non-empty");
    let claims = dpop_proof_claims("GET", "https://x.test/", Some(" "), Some(""), -5, "j")
        .expect("claims");
    assert!(claims.get("nonce").is_none());
    assert!(claims.get("ath").is_none());
    match claims.get("iat") {
        Some(scalable_cli::json::Json::Number(n)) => assert_eq!(n, "-5"),
        other => panic!("unexpected iat {other:?}"),
    }
}

#[test]
fn epoch_seconds_clamp_and_default() {
    assert_eq!(epoch_seconds_from(Some(5)), 5);
    assert_eq!(epoch_seconds_from(Some(u64::MAX)), i64::MAX);
    assert_eq!(epoch_seconds_from(None), 0);
}
