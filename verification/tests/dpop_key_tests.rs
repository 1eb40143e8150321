use base64::engine::general_purpose::URL_SAFE_NO_PAD;
use base64::Engine;
use p256::ecdsa::signature::{Signer, Verifier};
use p256::ecdsa::{Signature, SigningKey, VerifyingKey};
use p256::elliptic_curve::Generate;
use scalable_cli::dpop::access_token_hash;
use scalable_cli::dpop_key::{
    decode_private_scalar, der_signature_to_raw_ecdsa, random_jti, DpopKeyMaterial,
};
use serde_json::Value;

#[test]
fn proof_contains_required_claims_and_ath() {
    let key = DpopKeyMaterial::from_private_scalar_bytes([7_u8; 32]).expect("fixed key");

    let jwt = key
        .proof_for_request_with_overrides(
            "post",
            "https://de.scalable.capital/api/graphql?foo=bar",
            Some("nonce-1"),
            Some("access-token-1"),
            1_700_000_000,
            "jti-1",
        )
        .expect("proof");

    let parts = jwt.split('.').collect::<Vec<_>>();
    assert_eq!(parts.len(), 3);

    let header_json = URL_SAFE_NO_PAD.decode(parts[0]).expect("decode header");
    let payload_json = URL_SAFE_NO_PAD.decode(parts[1]).expect("decode payload");

    let header: Value = serde_json::from_slice(&header_json).expect("header json");
    let payload: Value = serde_json::from_slice(&payload_json).expect("payload json");

    assert_eq!(header["typ"], "dpop+jwt");
    assert_eq!(header["alg"], "ES256");
    assert_eq!(header["jwk"]["kty"], "EC");
    assert_eq!(header["jwk"]["crv"], "P-256");

    assert_eq!(payload["htm"], "POST");
    assert_eq!(payload["htu"], "https://de.scalable.capital/api/graphql");
    assert_eq!(payload["iat"], 1_700_000_000);
    assert_eq!(payload["jti"], "jti-1");
    assert_eq!(payload["nonce"], "nonce-1");
    assert_eq!(payload["ath"], access_token_hash("access-token-1"));
}

#[test]
fn proof_signature_verifies_under_the_public_key() {
    let key = DpopKeyMaterial::from_private_scalar_bytes([7_u8; 32]).expect("fixed key");
    let jwt = key
        .proof_for_request_with_overrides("GET", "https://example.com/a", None, None, 1, "id")
        .expect("proof");
    let (signing_input, signature) = jwt.rsplit_once('.').expect("three parts");
    let signature = URL_SAFE_NO_PAD.decode(signature).expect("signature");
    assert_eq!(signature.len(), 64);

    let verifying_key = VerifyingKey::from(
        &SigningKey::from_bytes(&p256::FieldBytes::from([7_u8; 32])).expect("key"),
    );
    let signature = Signature::from_slice(&signature).expect("raw signature");
    verifying_key
        .verify(signing_input.as_bytes(), &signature)
        .expect("signature should verify");

    let payload: Value = serde_json::from_slice(
        &URL_SAFE_NO_PAD
            .decode(signing_input.split('.').nth(1).expect("payload"))
            .expect("decode payload"),
    )
    .expect("payload json");
    assert!(payload.get("nonce").is_none());
    assert!(payload.get("ath").is_none());
}

#[test]
fn proof_refuses_blank_method_and_jti() {
    let key = DpopKeyMaterial::from_private_scalar_bytes([7_u8; 32]).expect("fixed key");
    let err = key
        .proof_for_request_with_overrides(" ", "https://example.com", None, None, 1, "id")
        .unwrap_err();
    assert_eq!(
        err.to_string(),
        "DPoP proof input invalid: HTTP method must be non-empty"
    );
    let err = key
        .proof_for_request_with_overrides("GET", "https://example.com", None, None, 1, "  ")
        .unwrap_err();
    assert_eq!(err.to_string(), "DPoP proof input invalid: jti must be non-empty");
}

#[test]
fn proof_for_request_uses_a_fresh_id() {
    let key = DpopKeyMaterial::from_private_scalar_bytes([7_u8; 32]).expect("fixed key");
    let first = key
        .proof_for_request("GET", "https://example.com", None, None)
        .expect("proof");
    let second = key
        .proof_for_request("GET", "https://example.com", None, None)
        .expect("proof");
    let jti = |jwt: &str| {
        let payload: Value = serde_json::from_slice(
            &URL_SAFE_NO_PAD
                .decode(jwt.split('.').nth(1).expect("payload"))
                .expect("decode"),
        )
        .expect("json");
        payload["jti"].as_str().expect("jti").to_string()
    };
    assert_ne!(jti(&first), jti(&second));
    assert_eq!(URL_SAFE_NO_PAD.decode(jti(&first)).expect("jti bytes").len(), 16);
}

#[test]
fn jwk_thumbprint_is_stable_for_fixed_key() {
    let key = DpopKeyMaterial::from_private_scalar_bytes([1_u8; 32]).expect("fixed key");
    let thumbprint = key.jwk_thumbprint().expect("thumbprint");
    assert_eq!(thumbprint, "Nrqg3-M_Xwtx-1tbtc1J7Xul2DyeC0bUSy9u_5NSG6g");
}

#[test]
fn der_signature_conversion_produces_raw_64_bytes() {
    let key = SigningKey::generate();
    let sig: Signature = key.sign(b"hello");
    let der = sig.to_der();

    let raw = der_signature_to_raw_ecdsa(der.as_bytes()).expect("der to raw");
    assert_eq!(raw.len(), 64);
    assert_eq!(raw, sig.to_bytes().to_vec());
}

#[test]
fn der_signature_conversion_rejects_garbage() {
    let err = der_signature_to_raw_ecdsa(&[1, 2, 3]).unwrap_err();
    assert!(err
        .to_string()
        .starts_with("Invalid DER ECDSA signature from signer: "));
}

#[test]
fn private_scalar_outside_the_group_is_refused() {
    let err = match DpopKeyMaterial::from_private_scalar_bytes([0_u8; 32]) {
        Ok(_) => panic!("zero scalar should be refused"),
        Err(err) => err,
    };
    assert_eq!(err.to_string(), "Invalid DPoP private key bytes: signature error");
    assert!(DpopKeyMaterial::from_private_scalar_bytes([0xff_u8; 32]).is_err());
}

#[test]
fn stored_key_round_trips_through_base64() {
    let key = DpopKeyMaterial::from_private_scalar_bytes([9_u8; 32]).expect("fixed key");
    let d = key.private_scalar_base64();
    let again = DpopKeyMaterial::from_stored_key("EC", "P-256", &d, "key.json").expect("stored key");
    assert_eq!(
        key.jwk_thumbprint().expect("thumbprint"),
        again.jwk_thumbprint().expect("thumbprint")
    );
    let err = match DpopKeyMaterial::from_stored_key("RSA", "P-256", &d, "key.json") {
        Ok(_) => panic!("RSA should be refused"),
        Err(err) => err,
    };
    assert_eq!(
        err.to_string(),
        "Unsupported DPoP key format in key.json (expected EC/P-256)"
    );
}

#[test]
fn private_scalar_decoding_checks_length() {
    let err = decode_private_scalar(&URL_SAFE_NO_PAD.encode([1_u8; 31])).unwrap_err();
    assert_eq!(
        err.to_string(),
        "Invalid DPoP private key scalar length 31; expected 32 bytes"
    );
    let err = decode_private_scalar("***").unwrap_err();
    assert!(err
        .to_string()
        .starts_with("Invalid base64url private key scalar: "));
    assert_eq!(
        decode_private_scalar(&URL_SAFE_NO_PAD.encode([5_u8; 32])).expect("scalar"),
        vec![5_u8; 32]
    );
}

#[test]
fn random_jti_is_sixteen_random_bytes() {
    let a = random_jti();
    let b = random_jti();
    assert_ne!(a, b);
    assert_eq!(URL_SAFE_NO_PAD.decode(&a).expect("base64").len(), 16);
}
