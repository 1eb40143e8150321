//! DPoP proofs: the claims a proof carries, the values derived from the
//! access token and the public key, and how a failed Secure Enclave signature
//! is reported.
use vstd::prelude::*;

use crate::error_report::{plain_errors};
use crate::error_report::{CauseKind, ErrorReport, SECURE_ENCLAVE_KEY_LOCKED_MESSAGE};
use crate::json::{Json, JsonView, ObjectBuilder};
use crate::numbers::{i64_to_decimal, signed_decimal};
use crate::text::{
    chars_of, opt_slice, push_str_chars, string_of, to_uppercase, trim, trim_chars,
    unicode_uppercase,
};

verus! {

/// The OSStatus the Secure Enclave returns when the device is locked.
pub const ERR_SEC_INTERACTION_NOT_ALLOWED: i64 = -25308;

pub const SECURE_ENCLAVE_SIGNING_FAILED: &'static str =
    "Failed signing DPoP proof with Secure Enclave key";

/// A failed Secure Enclave signature: the diagnostic under a context that
/// names the signing; a locked device is marked as such on the outside.
pub fn map_secure_enclave_signing_error(status: i64, diagnostic: &str) -> (res: ErrorReport)
    ensures
        status == ERR_SEC_INTERACTION_NOT_ALLOWED ==> {
            &&& res.messages() == seq![
                SECURE_ENCLAVE_KEY_LOCKED_MESSAGE@,
                SECURE_ENCLAVE_SIGNING_FAILED@,
                diagnostic@,
            ]
            &&& res.kinds() == seq![
                CauseKind::SecureEnclaveKeyLocked,
                CauseKind::Message,
                CauseKind::Message,
            ]
        },
        status != ERR_SEC_INTERACTION_NOT_ALLOWED ==> {
            &&& res.messages() == seq![SECURE_ENCLAVE_SIGNING_FAILED@, diagnostic@]
            &&& res.kinds() == seq![CauseKind::Message, CauseKind::Message]
        },
{
    let signing_error = ErrorReport::msg(diagnostic).context(SECURE_ENCLAVE_SIGNING_FAILED);
    if status == ERR_SEC_INTERACTION_NOT_ALLOWED {
        let res = signing_error.context_marked(
            SECURE_ENCLAVE_KEY_LOCKED_MESSAGE,
            CauseKind::SecureEnclaveKeyLocked,
        );
        proof {
            assert(res.messages() =~= seq![
                SECURE_ENCLAVE_KEY_LOCKED_MESSAGE@,
                SECURE_ENCLAVE_SIGNING_FAILED@,
                diagnostic@,
            ]);
            assert(res.kinds() =~= seq![
                CauseKind::SecureEnclaveKeyLocked,
                CauseKind::Message,
                CauseKind::Message,
            ]);
        }
        res
    } else {
        proof {
            assert(signing_error.messages() =~= seq![SECURE_ENCLAVE_SIGNING_FAILED@, diagnostic@]);
            assert(signing_error.kinds() =~= seq![CauseKind::Message, CauseKind::Message]);
        }
        signing_error
    }
}

// ---------------------------------------------------------------------------
// Hashes and encodings
// ---------------------------------------------------------------------------

/// What SHA-256 gives for the UTF-8 bytes of a text.
pub uninterp spec fn sha256_of_utf8(text: Seq<char>) -> Seq<u8>;

/// The URL-safe base64 digit of a six-bit value (RFC 4648, section 5).
pub open spec fn base64_url_digit(n: int) -> char {
    if n < 26 {
        (65 + n) as char
    } else if n < 52 {
        (97 + n - 26) as char
    } else if n < 62 {
        (48 + n - 52) as char
    } else if n == 62 {
        '-'
    } else {
        '_'
    }
}

/// Unpadded URL-safe base64 of bytes: every three bytes give four digits;
/// a last group of two bytes gives three digits, of one byte two.
pub open spec fn base64_url_no_pad(bytes: Seq<u8>) -> Seq<char>
    decreases bytes.len(),
{
    if bytes.len() == 0 {
        Seq::empty()
    } else if bytes.len() == 1 {
        let b0 = bytes[0] as int;
        seq![base64_url_digit(b0 / 4), base64_url_digit((b0 % 4) * 16)]
    } else if bytes.len() == 2 {
        let (b0, b1) = (bytes[0] as int, bytes[1] as int);
        seq![
            base64_url_digit(b0 / 4),
            base64_url_digit((b0 % 4) * 16 + b1 / 16),
            base64_url_digit((b1 % 16) * 4),
        ]
    } else {
        let (b0, b1, b2) = (bytes[0] as int, bytes[1] as int, bytes[2] as int);
        seq![
            base64_url_digit(b0 / 4),
            base64_url_digit((b0 % 4) * 16 + b1 / 16),
            base64_url_digit((b1 % 16) * 4 + b2 / 64),
            base64_url_digit(b2 % 64),
        ] + base64_url_no_pad(bytes.subrange(3, bytes.len() as int))
    }
}

/// `sha2::Sha256::digest` over the UTF-8 bytes of a text: the 32-byte
/// digest, a function of the text alone.
#[verifier::external_body]
pub(crate) fn sha256_digest(text: &str) -> (res: Vec<u8>)
    ensures
        res@ == sha256_of_utf8(text@),
        res@.len() == 32,
{
    <sha2::Sha256 as sha2::Digest>::digest(text.as_bytes()).to_vec()
}

/// `base64::engine::general_purpose::URL_SAFE_NO_PAD.encode`: the unpadded
/// URL-safe base64 text of bytes, a function of the bytes alone, which the
/// same engine decodes back to the bytes.
#[verifier::external_body]
pub(crate) fn encode_base64_url(bytes: &[u8]) -> (res: String)
    ensures
        res@ == base64_url_no_pad(bytes@),
        match base64_url_decoded(res@) {
            Ok(decoded) => decoded == bytes@,
            Err(_) => false,
        },
{
    base64::Engine::encode(&base64::engine::general_purpose::URL_SAFE_NO_PAD, bytes)
}

/// What unpadded URL-safe base64 decodes a text to, or the text of the error.
pub uninterp spec fn base64_url_decoded(text: Seq<char>) -> Result<Seq<u8>, Seq<char>>;

/// `base64::engine::general_purpose::URL_SAFE_NO_PAD.decode`; on an error,
/// its text. A function of the text alone.
#[verifier::external_body]
pub(crate) fn decode_base64_url(text: &str) -> (res: Result<Vec<u8>, String>)
    ensures
        match res {
            Ok(bytes) => base64_url_decoded(text@) == Ok::<Seq<u8>, Seq<char>>(bytes@),
            Err(m) => base64_url_decoded(text@) == Err::<Seq<u8>, Seq<char>>(m@),
        },
{
    base64::Engine::decode(&base64::engine::general_purpose::URL_SAFE_NO_PAD, text).map_err(|err| err.to_string())
}

/// The `ath` claim: the base64url SHA-256 of the access token.
pub open spec fn spec_access_token_hash(token: Seq<char>) -> Seq<char> {
    base64_url_no_pad(sha256_of_utf8(token))
}

pub fn access_token_hash(token: &str) -> (res: String)
    ensures
        res@ == spec_access_token_hash(token@),
{
    let digest = sha256_digest(token);
    encode_base64_url(digest.as_slice())
}

/// The public key of a DPoP proof, as a JSON Web Key.
#[derive(Debug, Clone)]
pub struct DpopPublicJwk {
    pub kty: String,
    pub crv: String,
    pub x: String,
    pub y: String,
}

/// The canonical JSON of an EC key for its thumbprint: the required members
/// in lexical order, without white space.
pub open spec fn thumbprint_input(crv: Seq<char>, kty: Seq<char>, x: Seq<char>, y: Seq<char>) -> Seq<
    char,
> {
    "{\"crv\":\""@ + crv + "\",\"kty\":\""@ + kty + "\",\"x\":\""@ + x + "\",\"y\":\""@ + y + "\"}"@
}

/// The key's thumbprint: the base64url SHA-256 of its canonical JSON.
pub open spec fn spec_jwk_thumbprint(jwk: DpopPublicJwk) -> Seq<char> {
    base64_url_no_pad(sha256_of_utf8(thumbprint_input(jwk.crv@, jwk.kty@, jwk.x@, jwk.y@)))
}

pub fn jwk_thumbprint(jwk: &DpopPublicJwk) -> (res: String)
    ensures
        res@ == spec_jwk_thumbprint(*jwk),
{
    let mut text: Vec<char> = Vec::new();
    push_str_chars(&mut text, "{\"crv\":\"");
    push_str_chars(&mut text, jwk.crv.as_str());
    push_str_chars(&mut text, "\",\"kty\":\"");
    push_str_chars(&mut text, jwk.kty.as_str());
    push_str_chars(&mut text, "\",\"x\":\"");
    push_str_chars(&mut text, jwk.x.as_str());
    push_str_chars(&mut text, "\",\"y\":\"");
    push_str_chars(&mut text, jwk.y.as_str());
    push_str_chars(&mut text, "\"}");
    proof {
        assert(text@ =~= thumbprint_input(jwk.crv@, jwk.kty@, jwk.x@, jwk.y@));
    }
    let canonical = string_of(&text);
    let digest = sha256_digest(canonical.as_str());
    encode_base64_url(digest.as_slice())
}

// ---------------------------------------------------------------------------
// The target URL
// ---------------------------------------------------------------------------

/// What `url` makes of a target URL with its query and fragment removed: the
/// serialized URL, or the text of the parse error.
pub uninterp spec fn url_without_query_and_fragment(text: Seq<char>) -> Result<Seq<char>, Seq<char>>;

/// `url::Url::parse`, then `Url::set_query(None)` and `Url::set_fragment(None)`,
/// then the URL's `to_string`; on a parse error, the error's text. A function
/// of the text alone; what it gives is not stated here.
#[verifier::external_body]
fn parse_url_without_query_and_fragment(text: &str) -> (res: Result<String, String>)
    ensures
        match res {
            Ok(u) => url_without_query_and_fragment(text@) == Ok::<Seq<char>, Seq<char>>(u@),
            Err(m) => url_without_query_and_fragment(text@) == Err::<Seq<char>, Seq<char>>(m@),
        },
{
    match url::Url::parse(text) {
        Ok(mut parsed) => {
            parsed.set_query(None);
            parsed.set_fragment(None);
            Ok(parsed.to_string())
        },
        Err(err) => Err(err.to_string()),
    }
}

/// The `htu` claim: the target URL without query and fragment. An invalid URL
/// is refused with the parse error under a context naming the URL.
pub fn canonicalize_htu(target_url: &str) -> (res: Result<String, ErrorReport>)
    ensures
        plain_errors(res),
        match url_without_query_and_fragment(target_url@) {
            Ok(u) => res matches Ok(s) && s@ == u,
            Err(m) => res matches Err(e) && e.messages() == seq![
                "Invalid DPoP target URL '"@ + target_url@ + "'"@,
                m,
            ],
        },
{
    match parse_url_without_query_and_fragment(target_url) {
        Ok(u) => Ok(u),
        Err(m) => {
            let mut text: Vec<char> = Vec::new();
            push_str_chars(&mut text, "Invalid DPoP target URL '");
            push_str_chars(&mut text, target_url);
            push_str_chars(&mut text, "'");
            let context = string_of(&text);
            let res = ErrorReport::msg(m.as_str()).context(context.as_str());
            proof {
                assert(res.messages() =~= seq![
                    "Invalid DPoP target URL '"@ + target_url@ + "'"@,
                    m@,
                ]);
            }
            Err(res)
        },
    }
}


// ---------------------------------------------------------------------------
// The proof's claims and header
// ---------------------------------------------------------------------------

pub open spec fn nonce_claim(nonce: Option<Seq<char>>) -> Seq<(Seq<char>, JsonView)> {
    match nonce {
        Some(n) => if trim(n).len() > 0 {
            seq![("nonce"@, JsonView::Str(trim(n)))]
        } else {
            Seq::empty()
        },
        None => Seq::empty(),
    }
}

pub open spec fn ath_claim(access_token: Option<Seq<char>>) -> Seq<(Seq<char>, JsonView)> {
    match access_token {
        Some(t) => if trim(t).len() > 0 {
            seq![("ath"@, JsonView::Str(spec_access_token_hash(trim(t))))]
        } else {
            Seq::empty()
        },
        None => Seq::empty(),
    }
}

/// The claims of a proof: the upper-cased method, the canonical target URL,
/// the issue time, the trimmed id, and the nonce and token hash where given.
/// A blank method or id, or an invalid URL, is refused.
pub open spec fn spec_proof_claims(
    method: Seq<char>,
    target_url: Seq<char>,
    nonce: Option<Seq<char>>,
    access_token: Option<Seq<char>>,
    iat: i64,
    jti: Seq<char>,
) -> Result<JsonView, Seq<Seq<char>>> {
    let htm = unicode_uppercase(trim(method));
    if htm.len() == 0 {
        Err(seq!["DPoP proof input invalid: HTTP method must be non-empty"@])
    } else {
        match url_without_query_and_fragment(target_url) {
            Err(m) => Err(seq!["Invalid DPoP target URL '"@ + target_url + "'"@, m]),
            Ok(htu) => if trim(jti).len() == 0 {
                Err(seq!["DPoP proof input invalid: jti must be non-empty"@])
            } else {
                Ok(
                    JsonView::Object(
                        seq![
                            ("htm"@, JsonView::Str(htm)),
                            ("htu"@, JsonView::Str(htu)),
                            ("iat"@, JsonView::Number(signed_decimal(iat as int))),
                            ("jti"@, JsonView::Str(trim(jti))),
                        ] + nonce_claim(nonce) + ath_claim(access_token),
                    ),
                )
            },
        }
    }
}

pub open spec fn claims_view(r: Result<Json, ErrorReport>) -> Result<JsonView, Seq<Seq<char>>> {
    match r {
        Ok(j) => Ok(j@),
        Err(e) => Err(e.messages()),
    }
}

pub fn dpop_proof_claims(
    method: &str,
    target_url: &str,
    nonce: Option<&str>,
    access_token: Option<&str>,
    iat: i64,
    jti: &str,
) -> (res: Result<Json, ErrorReport>)
    ensures
        plain_errors(res),
        claims_view(res) == spec_proof_claims(
            method@,
            target_url@,
            opt_slice(nonce),
            opt_slice(access_token),
            iat,
            jti@,
        ),
{
    let method_trimmed = string_of(&trim_chars(method));
    let htm = to_uppercase(method_trimmed.as_str());
    if chars_of(htm.as_str()).len() == 0 {
        return Err(ErrorReport::msg("DPoP proof input invalid: HTTP method must be non-empty"));
    }
    let htu = match canonicalize_htu(target_url) {
        Ok(u) => u,
        Err(e) => {
            return Err(e);
        },
    };
    let jti_trimmed = trim_chars(jti);
    if jti_trimmed.len() == 0 {
        return Err(ErrorReport::msg("DPoP proof input invalid: jti must be non-empty"));
    }
    let mut claims = ObjectBuilder::new();
    claims.add("htm", Json::Str(htm));
    claims.add("htu", Json::Str(htu));
    claims.add("iat", Json::Number(string_of(&i64_to_decimal(iat))));
    claims.add("jti", Json::Str(string_of(&jti_trimmed)));
    let ghost base = claims.members();
    if let Some(n) = nonce {
        let t = trim_chars(n);
        if t.len() > 0 {
            claims.add("nonce", Json::Str(string_of(&t)));
        }
    }
    let ghost with_nonce = claims.members();
    proof {
        assert(with_nonce =~= base + nonce_claim(opt_slice(nonce)));
    }
    if let Some(token) = access_token {
        let t = trim_chars(token);
        if t.len() > 0 {
            let hash = access_token_hash(string_of(&t).as_str());
            claims.add("ath", Json::Str(hash));
        }
    }
    proof {
        assert(claims.members() =~= with_nonce + ath_claim(opt_slice(access_token)));
        assert(claims.members() =~= seq![
            ("htm"@, JsonView::Str(unicode_uppercase(trim(method@)))),
            ("htu"@, JsonView::Str(url_without_query_and_fragment(target_url@)->Ok_0)),
            ("iat"@, JsonView::Number(signed_decimal(iat as int))),
            ("jti"@, JsonView::Str(trim(jti@))),
        ] + nonce_claim(opt_slice(nonce)) + ath_claim(opt_slice(access_token)));
    }
    Ok(claims.build())
}

/// The header of a proof: its type, the signing algorithm, and the key.
pub open spec fn spec_proof_header(jwk: DpopPublicJwk) -> JsonView {
    JsonView::Object(
        seq![
            ("typ"@, JsonView::Str("dpop+jwt"@)),
            ("alg"@, JsonView::Str("ES256"@)),
            (
                "jwk"@,
                JsonView::Object(
                    seq![
                        ("kty"@, JsonView::Str(jwk.kty@)),
                        ("crv"@, JsonView::Str(jwk.crv@)),
                        ("x"@, JsonView::Str(jwk.x@)),
                        ("y"@, JsonView::Str(jwk.y@)),
                    ],
                ),
            ),
        ],
    )
}

pub fn dpop_proof_header(jwk: &DpopPublicJwk) -> (res: Json)
    ensures
        res@ == spec_proof_header(*jwk),
{
    let mut key = ObjectBuilder::new();
    key.add("kty", Json::Str(jwk.kty.clone()));
    key.add("crv", Json::Str(jwk.crv.clone()));
    key.add("x", Json::Str(jwk.x.clone()));
    key.add("y", Json::Str(jwk.y.clone()));
    let ghost key_members = key.members();
    let mut header = ObjectBuilder::new();
    header.add("typ", Json::Str("dpop+jwt".to_owned()));
    header.add("alg", Json::Str("ES256".to_owned()));
    header.add("jwk", key.build());
    proof {
        assert(key_members =~= seq![
            ("kty"@, JsonView::Str(jwk.kty@)),
            ("crv"@, JsonView::Str(jwk.crv@)),
            ("x"@, JsonView::Str(jwk.x@)),
            ("y"@, JsonView::Str(jwk.y@)),
        ]);
        assert(header.members() =~= seq![
            ("typ"@, JsonView::Str("dpop+jwt"@)),
            ("alg"@, JsonView::Str("ES256"@)),
            ("jwk"@, JsonView::Object(key_members)),
        ]);
    }
    header.build()
}

// ---------------------------------------------------------------------------
// The clock
// ---------------------------------------------------------------------------

/// `std::time::SystemTime::now().duration_since(UNIX_EPOCH)`, in whole
/// seconds: none when the clock is before the epoch. It reads the clock, so
/// nothing is stated of what it gives.
#[verifier::external_body]
fn seconds_since_unix_epoch() -> (res: Option<u64>) {
    match std::time::SystemTime::now().duration_since(std::time::UNIX_EPOCH) {
        Ok(duration) => Some(duration.as_secs()),
        Err(_) => None,
    }
}

/// The seconds since the epoch as a proof's issue time: clamped to the
/// largest `i64`, and zero when the clock is before the epoch.
pub fn epoch_seconds_from(seconds: Option<u64>) -> (res: i64)
    ensures
        match seconds {
            Some(s) => res == (if s <= i64::MAX as u64 {
                s as i64
            } else {
                i64::MAX
            }),
            None => res == 0,
        },
{
    match seconds {
        Some(s) => if s <= i64::MAX as u64 {
            s as i64
        } else {
            i64::MAX
        },
        None => 0,
    }
}

/// The current time as a proof's issue time.
pub fn current_epoch_seconds() -> (res: i64)
    ensures
        res >= 0,
{
    epoch_seconds_from(seconds_since_unix_epoch())
}

} // verus!
