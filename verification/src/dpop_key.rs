//! The DPoP signing key kept in software: a P-256 private scalar, the public
//! key it gives, and the signed proofs it makes.
use vstd::prelude::*;
use vstd::utf8::encode_utf8;

use crate::error_report::{plain_errors};
use crate::dpop::{
    base64_url_decoded, base64_url_no_pad, decode_base64_url, claims_view, current_epoch_seconds, dpop_proof_claims, dpop_proof_header,
    encode_base64_url, jwk_thumbprint, spec_jwk_thumbprint, spec_proof_claims, spec_proof_header,
    DpopPublicJwk,
};
use crate::error_report::ErrorReport;
use crate::json::{compact_json_text, json_text, JsonView};
use crate::numbers::{decimal, u64_to_decimal};
use crate::text::{opt_slice, push_str_chars, string_of};

verus! {

// ---------------------------------------------------------------------------
// The private scalar
// ---------------------------------------------------------------------------

/// The value of bytes read as a big-endian unsigned integer.
pub open spec fn be_value(bytes: Seq<u8>) -> nat
    decreases bytes.len(),
{
    if bytes.len() == 0 {
        0
    } else {
        be_value(bytes.drop_last()) * 256 + bytes.last() as nat
    }
}

/// The order of the P-256 group.
pub open spec fn p256_order() -> nat {
    0xffffffff00000000ffffffffffffffffbce6faada7179e84f3b9cac2fc632551nat
}

/// A P-256 private key: 32 big-endian bytes of a non-zero scalar below the
/// group order.
pub open spec fn is_p256_private_scalar(bytes: Seq<u8>) -> bool {
    &&& bytes.len() == 32
    &&& 0 < be_value(bytes)
    &&& be_value(bytes) < p256_order()
}

/// `p256::ecdsa::SigningKey::from_bytes` on 32 bytes: whether it accepts
/// them. The crate reads the bytes as a big-endian integer and refuses zero
/// and every value not below the group order.
#[verifier::external_body]
fn p256_accepts_private_scalar(bytes: &[u8]) -> (res: bool)
    requires
        bytes@.len() == 32,
    ensures
        res == is_p256_private_scalar(bytes@),
{
    let array: [u8; 32] = bytes.try_into().unwrap();
    p256::ecdsa::SigningKey::from_bytes(&p256::FieldBytes::from(array)).is_ok()
}

/// `p256::ecdsa::SigningKey::generate`, then `to_bytes`: a fresh random
/// private key. It depends on chance; all that is stated is that the bytes
/// are a private key.
#[verifier::external_body]
fn generate_private_scalar() -> (res: Vec<u8>)
    ensures
        is_p256_private_scalar(res@),
{
    <p256::ecdsa::SigningKey as p256::elliptic_curve::Generate>::generate().to_bytes().to_vec()
}

// ---------------------------------------------------------------------------
// The public key and signatures
// ---------------------------------------------------------------------------

/// Bytes that may be absent, as a sequence.
pub open spec fn opt_bytes(o: Option<Vec<u8>>) -> Option<Seq<u8>> {
    match o {
        Some(v) => Some(v@),
        None => None,
    }
}

/// The x coordinate of the uncompressed SEC1 encoding of the public key of a
/// private key, where the encoding has one.
pub uninterp spec fn p256_public_x(private_scalar: Seq<u8>) -> Option<Seq<u8>>;

/// The y coordinate of the same encoding, where it has one.
pub uninterp spec fn p256_public_y(private_scalar: Seq<u8>) -> Option<Seq<u8>>;

/// `p256::ecdsa::VerifyingKey::from` the signing key, `to_sec1_point(false)`,
/// then `EncodedPoint::x`: a function of the private key alone.
#[verifier::external_body]
fn public_key_x(private_scalar: &[u8]) -> (res: Option<Vec<u8>>)
    requires
        is_p256_private_scalar(private_scalar@),
    ensures
        opt_bytes(res) == p256_public_x(private_scalar@),
{
    let array: [u8; 32] = private_scalar.try_into().unwrap();
    let key = p256::ecdsa::SigningKey::from_bytes(&p256::FieldBytes::from(array)).unwrap();
    let point = p256::ecdsa::VerifyingKey::from(&key).to_sec1_point(false);
    point.x().map(|x| x.to_vec())
}

/// The same as `public_key_x` with `EncodedPoint::y`.
#[verifier::external_body]
fn public_key_y(private_scalar: &[u8]) -> (res: Option<Vec<u8>>)
    requires
        is_p256_private_scalar(private_scalar@),
    ensures
        opt_bytes(res) == p256_public_y(private_scalar@),
{
    let array: [u8; 32] = private_scalar.try_into().unwrap();
    let key = p256::ecdsa::SigningKey::from_bytes(&p256::FieldBytes::from(array)).unwrap();
    let point = p256::ecdsa::VerifyingKey::from(&key).to_sec1_point(false);
    point.y().map(|y| y.to_vec())
}

/// The ES256 signature (r and s, 32 bytes each) of a message under a private
/// key, where signing succeeds.
pub uninterp spec fn es256_signature(private_scalar: Seq<u8>, message: Seq<u8>) -> Option<Seq<u8>>;

/// `signature::Signer::try_sign` of `p256::ecdsa::SigningKey`, then
/// `Signature::to_bytes`. The crate derives the nonce from the key and the
/// message (RFC 6979), so the signature is a function of the two; it is 64
/// bytes long.
#[verifier::external_body]
fn es256_sign(private_scalar: &[u8], message: &[u8]) -> (res: Option<Vec<u8>>)
    requires
        is_p256_private_scalar(private_scalar@),
    ensures
        opt_bytes(res) == es256_signature(private_scalar@, message@),
        res matches Some(s) ==> s@.len() == 64,
{
    let array: [u8; 32] = private_scalar.try_into().unwrap();
    let key = p256::ecdsa::SigningKey::from_bytes(&p256::FieldBytes::from(array)).unwrap();
    let signed: Result<p256::ecdsa::Signature, p256::ecdsa::Error> =
        p256::ecdsa::signature::Signer::try_sign(&key, message);
    signed.ok().map(|s| s.to_bytes().to_vec())
}

/// What `p256` reads from a DER-encoded signature: its 64 raw bytes, or the
/// text of the error.
pub uninterp spec fn raw_of_der_signature(der: Seq<u8>) -> Result<Seq<u8>, Seq<char>>;

/// `p256::ecdsa::Signature::from_der`, then `to_bytes`; on an error, its
/// text. A function of the bytes alone.
#[verifier::external_body]
fn raw_signature_of_der(der: &[u8]) -> (res: Result<Vec<u8>, String>)
    ensures
        match res {
            Ok(raw) => raw_of_der_signature(der@) == Ok::<Seq<u8>, Seq<char>>(raw@),
            Err(m) => raw_of_der_signature(der@) == Err::<Seq<u8>, Seq<char>>(m@),
        },
{
    match p256::ecdsa::Signature::from_der(der) {
        Ok(signature) => Ok(signature.to_bytes().to_vec()),
        Err(err) => Err(err.to_string()),
    }
}

/// A DER signature from a hardware signer as the 64 raw bytes a proof
/// carries.
pub fn der_signature_to_raw_ecdsa(der_signature: &[u8]) -> (res: Result<Vec<u8>, ErrorReport>)
    ensures
        plain_errors(res),
        match raw_of_der_signature(der_signature@) {
            Ok(raw) => res matches Ok(r) && r@ == raw,
            Err(m) => res matches Err(e) && e.messages() == seq![
                "Invalid DER ECDSA signature from signer: "@ + m,
            ],
        },
{
    match raw_signature_of_der(der_signature) {
        Ok(raw) => Ok(raw),
        Err(m) => {
            let mut text: Vec<char> = Vec::new();
            push_str_chars(&mut text, "Invalid DER ECDSA signature from signer: ");
            push_str_chars(&mut text, m.as_str());
            Err(ErrorReport::msg(string_of(&text).as_str()))
        },
    }
}

// ---------------------------------------------------------------------------
// Base64
// ---------------------------------------------------------------------------

/// The private scalar stored in a key file: base64url of exactly 32 bytes.
pub open spec fn spec_decode_private_scalar(encoded: Seq<char>) -> Result<Seq<u8>, Seq<char>> {
    match base64_url_decoded(encoded) {
        Err(m) => Err("Invalid base64url private key scalar: "@ + m),
        Ok(bytes) => if bytes.len() == 32 {
            Ok(bytes)
        } else {
            Err(
                "Invalid DPoP private key scalar length "@ + decimal(bytes.len()) + "; expected 32 bytes"@,
            )
        },
    }
}

pub fn decode_private_scalar(encoded: &str) -> (res: Result<Vec<u8>, ErrorReport>)
    ensures
        plain_errors(res),
        match spec_decode_private_scalar(encoded@) {
            Ok(bytes) => res matches Ok(b) && b@ == bytes,
            Err(m) => res matches Err(e) && e.messages() == seq![m],
        },
{
    match decode_base64_url(encoded) {
        Err(m) => {
            let mut text: Vec<char> = Vec::new();
            push_str_chars(&mut text, "Invalid base64url private key scalar: ");
            push_str_chars(&mut text, m.as_str());
            Err(ErrorReport::msg(string_of(&text).as_str()))
        },
        Ok(bytes) => {
            if bytes.len() == 32 {
                Ok(bytes)
            } else {
                let mut text: Vec<char> = Vec::new();
                push_str_chars(&mut text, "Invalid DPoP private key scalar length ");
                let digits = u64_to_decimal(bytes.len() as u64);
                let ghost before = text@;
                let mut i: usize = 0;
                while i < digits.len()
                    invariant
                        i <= digits.len(),
                        text@ == before + digits@.take(i as int),
                    decreases digits.len() - i,
                {
                    text.push(digits[i]);
                    proof {
                        assert(digits@.take(i + 1) =~= digits@.take(i as int).push(digits@[i as int]));
                    }
                    i = i + 1;
                }
                proof {
                    assert(digits@.take(digits.len() as int) =~= digits@);
                }
                push_str_chars(&mut text, "; expected 32 bytes");
                Err(ErrorReport::msg(string_of(&text).as_str()))
            }
        },
    }
}

// ---------------------------------------------------------------------------
// Proofs
// ---------------------------------------------------------------------------

/// The header of a proof made with a key whose public point has the given
/// base64url coordinates.
pub open spec fn header_with_coordinates(x: Seq<char>, y: Seq<char>) -> JsonView {
    JsonView::Object(
        seq![
            ("typ"@, JsonView::Str("dpop+jwt"@)),
            ("alg"@, JsonView::Str("ES256"@)),
            (
                "jwk"@,
                JsonView::Object(
                    seq![
                        ("kty"@, JsonView::Str("EC"@)),
                        ("crv"@, JsonView::Str("P-256"@)),
                        ("x"@, JsonView::Str(x)),
                        ("y"@, JsonView::Str(y)),
                    ],
                ),
            ),
        ],
    )
}

/// The public key of a private key as the coordinates of its JSON Web Key,
/// or why there is none.
pub open spec fn spec_public_coordinates(private_scalar: Seq<u8>) -> Result<(Seq<char>, Seq<char>), Seq<char>> {
    match p256_public_x(private_scalar) {
        None => Err("DPoP public key x coordinate is missing"@),
        Some(x) => match p256_public_y(private_scalar) {
            None => Err("DPoP public key y coordinate is missing"@),
            Some(y) => Ok((base64_url_no_pad(x), base64_url_no_pad(y))),
        },
    }
}

/// The text that is signed: the base64url of the header's and of the
/// claims' compact JSON, joined by a dot.
pub open spec fn spec_signing_input(header: JsonView, claims: JsonView) -> Seq<char> {
    base64_url_no_pad(encode_utf8(compact_json_text(header))) + "."@ + base64_url_no_pad(
        encode_utf8(compact_json_text(claims)),
    )
}

pub const DPOP_SIGNING_FAILED: &'static str = "Failed signing DPoP proof";

/// A proof for a request: the signing input, a dot, and the base64url of the
/// signature of the input's bytes.
pub open spec fn spec_dpop_proof(
    private_scalar: Seq<u8>,
    method: Seq<char>,
    target_url: Seq<char>,
    nonce: Option<Seq<char>>,
    access_token: Option<Seq<char>>,
    iat: i64,
    jti: Seq<char>,
) -> Result<Seq<char>, Seq<Seq<char>>> {
    match spec_proof_claims(method, target_url, nonce, access_token, iat, jti) {
        Err(m) => Err(m),
        Ok(claims) => match spec_public_coordinates(private_scalar) {
            Err(m) => Err(seq![m]),
            Ok((x, y)) => {
                let input = spec_signing_input(header_with_coordinates(x, y), claims);
                match es256_signature(private_scalar, encode_utf8(input)) {
                    None => Err(seq![DPOP_SIGNING_FAILED@]),
                    Some(signature) => Ok(input + "."@ + base64_url_no_pad(signature)),
                }
            },
        },
    }
}

pub open spec fn text_result(r: Result<String, ErrorReport>) -> Result<Seq<char>, Seq<Seq<char>>> {
    match r {
        Ok(s) => Ok(s@),
        Err(e) => Err(e.messages()),
    }
}

/// `rand::rng().fill` on 16 bytes: fresh random bytes. It depends on chance;
/// all that is stated is their number.
#[verifier::external_body]
fn random_bytes_16() -> (res: Vec<u8>)
    ensures
        res@.len() == 16,
{
    let mut bytes = [0_u8; 16];
    rand::RngExt::fill(&mut rand::rng(), &mut bytes);
    bytes.to_vec()
}

/// A proof's id: 16 random bytes in base64url.
pub open spec fn is_random_jti(jti: Seq<char>) -> bool {
    exists|bytes: Seq<u8>| bytes.len() == 16 && jti == #[trigger] base64_url_no_pad(bytes)
}

pub fn random_jti() -> (res: String)
    ensures
        is_random_jti(res@),
{
    let bytes = random_bytes_16();
    let res = encode_base64_url(bytes.as_slice());
    proof {
        assert(bytes@.len() == 16 && res@ == base64_url_no_pad(bytes@));
    }
    res
}

/// A DPoP key held in software: its private scalar.
pub struct DpopKeyMaterial {
    private_scalar: Vec<u8>,
}

impl DpopKeyMaterial {
    #[verifier::type_invariant]
    spec fn holds_private_key(self) -> bool {
        is_p256_private_scalar(self.private_scalar@)
    }

    /// The private scalar.
    pub closed spec fn scalar(self) -> Seq<u8> {
        self.private_scalar@
    }

    /// A key from its 32-byte private scalar, refused where P-256 has no such
    /// key.
    pub fn from_private_scalar_bytes(bytes: [u8; 32]) -> (res: Result<Self, ErrorReport>)
        ensures
            plain_errors(res),
            is_p256_private_scalar(bytes@) ==> (res matches Ok(k) && k.scalar() == bytes@),
            !is_p256_private_scalar(bytes@) ==> (res matches Err(e) && e.messages() == seq![
                "Invalid DPoP private key bytes: signature error"@,
            ]),
    {
        let mut scalar: Vec<u8> = Vec::new();
        let mut i: usize = 0;
        while i < 32
            invariant
                i <= 32,
                scalar@ == bytes@.take(i as int),
            decreases 32 - i,
        {
            scalar.push(bytes[i]);
            proof {
                assert(bytes@.take(i + 1) =~= bytes@.take(i as int).push(bytes@[i as int]));
            }
            i = i + 1;
        }
        proof {
            assert(bytes@.take(32) =~= bytes@);
        }
        if p256_accepts_private_scalar(scalar.as_slice()) {
            Ok(DpopKeyMaterial { private_scalar: scalar })
        } else {
            Err(ErrorReport::msg("Invalid DPoP private key bytes: signature error"))
        }
    }

    /// A new random key.
    pub fn generate() -> (res: Self)
        ensures
            is_p256_private_scalar(res.scalar()),
    {
        DpopKeyMaterial { private_scalar: generate_private_scalar() }
    }

    /// A key as stored in a key file: EC on P-256, with the private scalar
    /// in base64url.
    pub fn from_stored_key(kty: &str, crv: &str, d: &str, path_display: &str) -> (res: Result<
        Self,
        ErrorReport,
    >)
        ensures
            plain_errors(res),
            !(kty@ == "EC"@ && crv@ == "P-256"@) ==> (res matches Err(e) && e.messages() == seq![
                "Unsupported DPoP key format in "@ + path_display@ + " (expected EC/P-256)"@,
            ]),
            kty@ == "EC"@ && crv@ == "P-256"@ ==> match spec_decode_private_scalar(d@) {
                Err(m) => res matches Err(e) && e.messages() == seq![m],
                Ok(bytes) => if is_p256_private_scalar(bytes) {
                    res matches Ok(k) && k.scalar() == bytes
                } else {
                    res matches Err(e) && e.messages() == seq![
                        "Invalid DPoP private key bytes: signature error"@,
                    ]
                },
            },
    {
        if !(crate::text::str_eq(kty, "EC") && crate::text::str_eq(crv, "P-256")) {
            let mut text: Vec<char> = Vec::new();
            push_str_chars(&mut text, "Unsupported DPoP key format in ");
            push_str_chars(&mut text, path_display);
            push_str_chars(&mut text, " (expected EC/P-256)");
            return Err(ErrorReport::msg(string_of(&text).as_str()));
        }
        let bytes = match decode_private_scalar(d) {
            Ok(b) => b,
            Err(e) => {
                return Err(e);
            },
        };
        if p256_accepts_private_scalar(bytes.as_slice()) {
            Ok(DpopKeyMaterial { private_scalar: bytes })
        } else {
            Err(ErrorReport::msg("Invalid DPoP private key bytes: signature error"))
        }
    }

    /// The private scalar in base64url, as a key file stores it. Read back,
    /// the stored text gives the same private key.
    pub fn private_scalar_base64(&self) -> (res: String)
        ensures
            res@ == base64_url_no_pad(self.scalar()),
            spec_decode_private_scalar(res@) == Ok::<Seq<u8>, Seq<char>>(self.scalar()),
            is_p256_private_scalar(self.scalar()),
    {
        proof {
            use_type_invariant(self);
        }
        encode_base64_url(self.private_scalar.as_slice())
    }

    /// The public key as a JSON Web Key.
    pub fn public_jwk(&self) -> (res: Result<DpopPublicJwk, ErrorReport>)
        ensures
            plain_errors(res),
            match spec_public_coordinates(self.scalar()) {
                Ok((x, y)) => res matches Ok(jwk) && jwk.kty@ == "EC"@ && jwk.crv@ == "P-256"@
                    && jwk.x@ == x && jwk.y@ == y,
                Err(m) => res matches Err(e) && e.messages() == seq![m],
            },
    {
        proof {
            use_type_invariant(self);
        }
        let x = match public_key_x(self.private_scalar.as_slice()) {
            Some(x) => x,
            None => {
                return Err(ErrorReport::msg("DPoP public key x coordinate is missing"));
            },
        };
        let y = match public_key_y(self.private_scalar.as_slice()) {
            Some(y) => y,
            None => {
                return Err(ErrorReport::msg("DPoP public key y coordinate is missing"));
            },
        };
        Ok(
            DpopPublicJwk {
                kty: "EC".to_owned(),
                crv: "P-256".to_owned(),
                x: encode_base64_url(x.as_slice()),
                y: encode_base64_url(y.as_slice()),
            },
        )
    }

    /// The thumbprint of the public key.
    pub fn jwk_thumbprint(&self) -> (res: Result<String, ErrorReport>)
        ensures
            plain_errors(res),
            match spec_public_coordinates(self.scalar()) {
                Ok((x, y)) => res matches Ok(t) && t@ == base64_url_no_pad(
                    crate::dpop::sha256_of_utf8(
                        crate::dpop::thumbprint_input("P-256"@, "EC"@, x, y),
                    ),
                ),
                Err(m) => res matches Err(e) && e.messages() == seq![m],
            },
    {
        let jwk = match self.public_jwk() {
            Ok(j) => j,
            Err(e) => {
                return Err(e);
            },
        };
        Ok(jwk_thumbprint(&jwk))
    }

    /// The signature of bytes under the key.
    fn sign_proof_input(&self, signing_input: &[u8]) -> (res: Result<Vec<u8>, ErrorReport>)
        ensures
            plain_errors(res),
            match es256_signature(self.scalar(), signing_input@) {
                Some(s) => res matches Ok(r) && r@ == s,
                None => res matches Err(e) && e.messages() == seq![DPOP_SIGNING_FAILED@],
            },
    {
        proof {
            use_type_invariant(self);
        }
        match es256_sign(self.private_scalar.as_slice(), signing_input) {
            Some(s) => Ok(s),
            None => Err(ErrorReport::msg(DPOP_SIGNING_FAILED)),
        }
    }

    /// A proof for a request with a given issue time and id.
    pub fn proof_for_request_with_overrides(
        &self,
        method: &str,
        target_url: &str,
        nonce: Option<&str>,
        access_token: Option<&str>,
        iat: i64,
        jti: &str,
    ) -> (res: Result<String, ErrorReport>)
        ensures
            plain_errors(res),
            text_result(res) == spec_dpop_proof(
                self.scalar(),
                method@,
                target_url@,
                opt_slice(nonce),
                opt_slice(access_token),
                iat,
                jti@,
            ),
    {
        let claims = match dpop_proof_claims(method, target_url, nonce, access_token, iat, jti) {
            Ok(c) => c,
            Err(e) => {
                return Err(e);
            },
        };
        let jwk = match self.public_jwk() {
            Ok(j) => j,
            Err(e) => {
                return Err(e);
            },
        };
        let header = dpop_proof_header(&jwk);
        proof {
            assert(spec_proof_header(jwk) == header_with_coordinates(jwk.x@, jwk.y@));
        }
        let header_text = json_text(&header);
        let claims_text = json_text(&claims);
        let mut input: Vec<char> = Vec::new();
        push_str_chars(&mut input, encode_base64_url(header_text.as_str().as_bytes()).as_str());
        push_str_chars(&mut input, ".");
        push_str_chars(&mut input, encode_base64_url(claims_text.as_str().as_bytes()).as_str());
        let signing_input = string_of(&input);
        let signature = match self.sign_proof_input(signing_input.as_str().as_bytes()) {
            Ok(s) => s,
            Err(e) => {
                return Err(e);
            },
        };
        push_str_chars(&mut input, ".");
        push_str_chars(&mut input, encode_base64_url(signature.as_slice()).as_str());
        Ok(string_of(&input))
    }

    /// A proof for a request issued now, with a fresh random id.
    pub fn proof_for_request(
        &self,
        method: &str,
        target_url: &str,
        nonce: Option<&str>,
        access_token: Option<&str>,
    ) -> (res: Result<String, ErrorReport>)
        ensures
            plain_errors(res),
            exists|iat: i64, jti: Seq<char>|
                iat >= 0 && is_random_jti(jti) && text_result(res) == #[trigger] spec_dpop_proof(
                    self.scalar(),
                    method@,
                    target_url@,
                    opt_slice(nonce),
                    opt_slice(access_token),
                    iat,
                    jti,
                ),
    {
        let iat = current_epoch_seconds();
        let jti = random_jti();
        let res = self.proof_for_request_with_overrides(method, target_url, nonce, access_token, iat, jti.as_str());
        proof {
            assert(iat >= 0 && is_random_jti(jti@) && text_result(res) == spec_dpop_proof(
                self.scalar(),
                method@,
                target_url@,
                opt_slice(nonce),
                opt_slice(access_token),
                iat,
                jti@,
            ));
        }
        res
    }
}

} // verus!
