//! The decisions around a GraphQL call: which operations a read-only session
//! may send, when a DPoP nonce challenge is answered, and what a failed call
//! is reported as.
use vstd::prelude::*;

use crate::error_report::{plain_errors, plain_report};
use crate::error_report::ErrorReport;
use crate::json::{opt_as_str, opt_get, opt_ref, parse_json, parsed_json, Json, JsonView};
use crate::markers::LOCAL_READ_ONLY_ERROR_PREFIX;
use crate::numbers::{decimal, parse_u64, spec_parse_u64, u64_to_decimal};
use crate::text::{
    chars_of, contains, opt_slice, push_str_chars, starts_with, starts_with_str, str_eq, string_of,
    to_lowercase, trim, trim_chars, trim_start, trim_start_chars, unicode_lowercase, contains_str,
    push_chars,
};

verus! {

/// How the current session was opened.
#[derive(Debug, Clone, Copy, PartialEq, Eq, Structural)]
pub enum SessionMode {
    /// A session that may read and write.
    Standard,
    /// A session that may only read; writes are refused locally.
    LocalReadOnly,
}

/// What the access policy needs to know about the session that makes a call.
#[derive(Debug, Clone, Copy, PartialEq, Eq, Structural)]
pub struct GraphqlAccessContext {
    pub session_mode: Option<SessionMode>,
}

impl Default for GraphqlAccessContext {
    /// No session mode: the policy restricts nothing.
    fn default() -> (res: Self)
        ensures
            res.session_mode is None,
    {
        GraphqlAccessContext { session_mode: None }
    }
}

impl GraphqlAccessContext {
    pub fn with_session_mode(session_mode: Option<SessionMode>) -> (res: Self)
        ensures
            res.session_mode == session_mode,
    {
        GraphqlAccessContext { session_mode }
    }
}

// ---------------------------------------------------------------------------
// Local read-only policy
// ---------------------------------------------------------------------------

/// A document is a mutation when, after leading white space, it starts with
/// the word `mutation`.
pub open spec fn spec_is_graphql_mutation(query: Seq<char>) -> bool {
    starts_with(trim_start(query), "mutation"@)
}

/// The mutations a read-only session may still send: those of the login flow
/// and the token revocation.
pub open spec fn spec_is_allowed_mutation(name: Seq<char>) -> bool {
    ||| name == "Start2faOnLogin"@
    ||| name == "Validate2faOnLogin"@
    ||| name == "revokeAuthAccessToken"@
}

pub open spec fn unnamed_write_message() -> Seq<char> {
    LOCAL_READ_ONLY_ERROR_PREFIX@
        + " local read-only mode blocks write operations without an explicit allowlisted operation name"@
}

pub open spec fn blocked_write_message(name: Seq<char>) -> Seq<char> {
    LOCAL_READ_ONLY_ERROR_PREFIX@ + " local read-only mode blocks write operation '"@ + name
        + "'. Re-login without --local-read-only to perform write operations."@
}

/// The policy: `None` where the call may go out, else the refusal's message.
/// Only a read-only session refuses, only mutations, and of those all but the
/// allow-listed ones, named after trimming.
pub open spec fn spec_access_refusal(
    query: Seq<char>,
    operation_name: Option<Seq<char>>,
    session_mode: Option<SessionMode>,
) -> Option<Seq<char>> {
    if session_mode != Some(SessionMode::LocalReadOnly) || !spec_is_graphql_mutation(query) {
        None
    } else {
        match operation_name {
            Some(name) => if trim(name).len() == 0 {
                Some(unnamed_write_message())
            } else if spec_is_allowed_mutation(trim(name)) {
                None
            } else {
                Some(blocked_write_message(trim(name)))
            },
            None => Some(unnamed_write_message()),
        }
    }
}

pub fn is_graphql_mutation(query: &str) -> (res: bool)
    ensures
        res == spec_is_graphql_mutation(query@),
{
    let v = chars_of(query);
    let rest = trim_start_chars(&v);
    starts_with_str(&rest, "mutation")
}

pub fn is_local_read_only_allowed_mutation(operation_name: &str) -> (res: bool)
    ensures
        res == spec_is_allowed_mutation(operation_name@),
{
    str_eq(operation_name, "Start2faOnLogin") || str_eq(operation_name, "Validate2faOnLogin")
        || str_eq(operation_name, "revokeAuthAccessToken")
}

/// Refuses, before anything is sent, a write that a read-only session may not
/// make.
pub fn enforce_graphql_access_policy(
    query: &str,
    operation_name: Option<&str>,
    access_context: GraphqlAccessContext,
) -> (res: Result<(), ErrorReport>)
    ensures
        plain_errors(res),
        match res {
            Ok(()) => spec_access_refusal(query@, opt_slice(operation_name), access_context.session_mode)
                is None,
            Err(e) => spec_access_refusal(query@, opt_slice(operation_name), access_context.session_mode)
                == Some(e.messages()[0]) && e.messages().len() == 1,
        },
{
    match access_context.session_mode {
        Some(SessionMode::LocalReadOnly) => {},
        _ => {
            return Ok(());
        },
    }
    if !is_graphql_mutation(query) {
        return Ok(());
    }
    let name: String = match operation_name {
        Some(n) => {
            let t = trim_chars(n);
            if t.len() == 0 {
                return Err(refusal(&unnamed_write_text()));
            }
            string_of(&t)
        },
        None => {
            return Err(refusal(&unnamed_write_text()));
        },
    };
    if is_local_read_only_allowed_mutation(name.as_str()) {
        return Ok(());
    }
    let mut text: Vec<char> = Vec::new();
    push_str_chars(&mut text, LOCAL_READ_ONLY_ERROR_PREFIX);
    push_str_chars(&mut text, " local read-only mode blocks write operation '");
    push_str_chars(&mut text, name.as_str());
    push_str_chars(&mut text, "'. Re-login without --local-read-only to perform write operations.");
    proof {
        assert(text@ =~= blocked_write_message(name@));
    }
    Err(refusal(&text))
}

fn unnamed_write_text() -> (res: Vec<char>)
    ensures
        res@ == unnamed_write_message(),
{
    let mut text: Vec<char> = Vec::new();
    push_str_chars(&mut text, LOCAL_READ_ONLY_ERROR_PREFIX);
    push_str_chars(
        &mut text,
        " local read-only mode blocks write operations without an explicit allowlisted operation name",
    );
    text
}

fn refusal(text: &Vec<char>) -> (res: ErrorReport)
    ensures
        plain_report(res),
        res.messages() == seq![text@],
{
    let s = string_of(text);
    ErrorReport::msg(s.as_str())
}


// ---------------------------------------------------------------------------
// Response headers and HTTP failures
// ---------------------------------------------------------------------------

/// A header value as the call uses it: trimmed, and absent when blank.
pub open spec fn spec_header_value(value: Option<Seq<char>>) -> Option<Seq<char>> {
    match value {
        Some(v) => if trim(v).len() > 0 {
            Some(trim(v))
        } else {
            None
        },
        None => None,
    }
}

/// The seconds of a `Retry-After` header, where it holds a plain number.
pub open spec fn spec_retry_after(value: Option<Seq<char>>) -> Option<u64> {
    match spec_header_value(value) {
        Some(v) => spec_parse_u64(v),
        None => None,
    }
}

pub open spec fn spec_rate_limited_message(
    operation_name: Option<Seq<char>>,
    retry_after: Option<Seq<char>>,
) -> Seq<char> {
    "RATE_LIMITED: backend rate limit exceeded"@ + match operation_name {
        Some(name) => " during "@ + name,
        None => Seq::empty(),
    } + match spec_retry_after(retry_after) {
        Some(seconds) => "; retry after "@ + decimal(seconds as nat) + "s"@,
        None => "; retry later"@,
    }
}

/// Whether a refused call is sent again with the nonce the server offered:
/// only with a non-empty nonce, and then on `401` or a body that asks for one.
pub open spec fn spec_should_retry_with_dpop_nonce(
    status: u16,
    nonce: Option<Seq<char>>,
    body: Seq<char>,
) -> bool {
    match nonce {
        Some(n) => n.len() > 0 && (status == 401 || contains(unicode_lowercase(body), "use_dpop_nonce"@)
            || contains(unicode_lowercase(body), "invalid_dpop_proof"@)),
        None => false,
    }
}

pub const DPOP_CLOCK_HINT: &'static str =
    "DPoP validation failed; verify your system clock is in sync and retry";

/// The hint added to a `401` whose body speaks of DPoP.
pub open spec fn spec_dpop_troubleshooting_hint(status: u16, body: Seq<char>) -> Option<Seq<char>> {
    if status == 401 && (contains(unicode_lowercase(body), "use_dpop_nonce"@) || contains(
        unicode_lowercase(body),
        "invalid_dpop_proof"@,
    ) || contains(unicode_lowercase(body), "\"dpop"@)) {
        Some(DPOP_CLOCK_HINT@)
    } else {
        None
    }
}

/// The `error` member of a parsed error body, where it is a string.
pub open spec fn spec_http_error_code(parsed: Option<Json>) -> Option<Seq<char>> {
    opt_as_str(opt_get(parsed, "error"@))
}

pub open spec fn spec_http_error_message(
    status: u16,
    operation_name: Option<Seq<char>>,
    body: Seq<char>,
) -> Seq<char> {
    "GraphQL HTTP error "@ + decimal(status as nat) + match operation_name {
        Some(name) => " during "@ + name,
        None => Seq::empty(),
    } + match spec_http_error_code(parsed_json(body)) {
        Some(code) => " ("@ + code + ")"@,
        None => Seq::empty(),
    } + match spec_dpop_troubleshooting_hint(status, body) {
        Some(hint) => ". "@ + hint,
        None => Seq::empty(),
    }
}

/// A header value, trimmed; none when it is blank.
pub fn header_value(value: Option<&str>) -> (res: Option<String>)
    ensures
        opt_str_view(res) == spec_header_value(opt_slice(value)),
{
    match value {
        Some(v) => {
            let t = trim_chars(v);
            if t.len() > 0 {
                Some(string_of(&t))
            } else {
                None
            }
        },
        None => None,
    }
}

pub open spec fn opt_str_view(o: Option<String>) -> Option<Seq<char>> {
    match o {
        Some(s) => Some(s@),
        None => None,
    }
}

/// The seconds that a `Retry-After` header asks to wait, where it is a number.
pub fn retry_after_delta_seconds(value: Option<&str>) -> (res: Option<u64>)
    ensures
        res == spec_retry_after(opt_slice(value)),
{
    match header_value(value) {
        Some(v) => parse_u64(v.as_str()),
        None => None,
    }
}

/// The nonce offered in a `DPoP-Nonce` header, where it is not blank.
pub fn dpop_nonce_from_header(value: Option<&str>) -> (res: Option<String>)
    ensures
        opt_str_view(res) == spec_header_value(opt_slice(value)),
{
    header_value(value)
}

/// The message of a call refused with `429`.
pub fn graphql_rate_limited_message(operation_name: Option<&str>, retry_after: Option<&str>) -> (res:
    String)
    ensures
        res@ == spec_rate_limited_message(opt_slice(operation_name), opt_slice(retry_after)),
{
    let mut text: Vec<char> = Vec::new();
    push_str_chars(&mut text, "RATE_LIMITED: backend rate limit exceeded");
    if let Some(name) = operation_name {
        push_str_chars(&mut text, " during ");
        push_str_chars(&mut text, name);
    }
    match retry_after_delta_seconds(retry_after) {
        Some(seconds) => {
            push_str_chars(&mut text, "; retry after ");
            let digits = u64_to_decimal(seconds);
            push_chars(&mut text, &digits);
            push_str_chars(&mut text, "s");
        },
        None => {
            push_str_chars(&mut text, "; retry later");
        },
    }
    proof {
        assert(text@ =~= spec_rate_limited_message(opt_slice(operation_name), opt_slice(retry_after)));
    }
    string_of(&text)
}

pub fn should_retry_with_dpop_nonce(status: u16, nonce: Option<&str>, body: &str) -> (res: bool)
    ensures
        res == spec_should_retry_with_dpop_nonce(status, opt_slice(nonce), body@),
{
    match nonce {
        Some(n) => {
            if chars_of(n).len() == 0 {
                return false;
            }
            let lower = chars_of(to_lowercase(body).as_str());
            status == 401 || contains_str(&lower, "use_dpop_nonce") || contains_str(
                &lower,
                "invalid_dpop_proof",
            )
        },
        None => false,
    }
}

pub fn dpop_troubleshooting_hint(status: u16, body: &str) -> (res: Option<&'static str>)
    ensures
        opt_slice(res) == spec_dpop_troubleshooting_hint(status, body@),
{
    if status != 401 {
        return None;
    }
    let lower = chars_of(to_lowercase(body).as_str());
    if contains_str(&lower, "use_dpop_nonce") || contains_str(&lower, "invalid_dpop_proof")
        || contains_str(&lower, "\"dpop") {
        return Some(DPOP_CLOCK_HINT);
    }
    None
}

/// The `error` member of a parsed error body, where it is a string.
pub fn http_error_code_of(parsed: &Option<Json>) -> (res: Option<String>)
    ensures
        opt_str_view(res) == spec_http_error_code(*parsed),
{
    match parsed {
        Some(value) => match value.get("error") {
            Some(code) => match code.as_str() {
                Some(c) => Some(c.to_owned()),
                None => None,
            },
            None => None,
        },
        None => None,
    }
}

/// The `error` member of an error body, where the body is JSON and the member
/// a string.
pub fn graphql_http_error_code(body: &str) -> (res: Option<String>)
    ensures
        opt_str_view(res) == spec_http_error_code(parsed_json(body@)),
{
    let parsed = parse_json(body);
    http_error_code_of(&parsed)
}

/// The message of a call refused with an HTTP status other than `429`.
pub fn graphql_http_error_message(status: u16, operation_name: Option<&str>, body: &str) -> (res:
    String)
    ensures
        res@ == spec_http_error_message(status, opt_slice(operation_name), body@),
{
    let mut text: Vec<char> = Vec::new();
    push_str_chars(&mut text, "GraphQL HTTP error ");
    let digits = u64_to_decimal(status as u64);
    push_chars(&mut text, &digits);
    if let Some(name) = operation_name {
        push_str_chars(&mut text, " during ");
        push_str_chars(&mut text, name);
    }
    if let Some(code) = graphql_http_error_code(body) {
        push_str_chars(&mut text, " (");
        push_str_chars(&mut text, code.as_str());
        push_str_chars(&mut text, ")");
    }
    if let Some(hint) = dpop_troubleshooting_hint(status, body) {
        push_str_chars(&mut text, ". ");
        push_str_chars(&mut text, hint);
    }
    proof {
        assert(text@ =~= spec_http_error_message(status, opt_slice(operation_name), body@));
    }
    string_of(&text)
}


// ---------------------------------------------------------------------------
// The steps of a call
// ---------------------------------------------------------------------------

/// What to do after the server refused a call.
#[derive(Debug)]
pub enum HttpFailureStep {
    /// Send the call once more, with this DPoP nonce.
    RetryWithNonce(String),
    /// Give up with this message.
    Fail(String),
}

/// The step after a refused call: a `429` fails at once; a nonce challenge is
/// answered where a retry is still allowed; anything else fails with the HTTP
/// error message.
pub open spec fn spec_http_failure_step(
    status: u16,
    operation_name: Option<Seq<char>>,
    retry_after: Option<Seq<char>>,
    nonce_header: Option<Seq<char>>,
    body: Seq<char>,
    may_retry: bool,
) -> (bool, Seq<char>) {
    if status == 429 {
        (false, spec_rate_limited_message(operation_name, retry_after))
    } else if may_retry && spec_should_retry_with_dpop_nonce(
        status,
        spec_header_value(nonce_header),
        body,
    ) {
        (true, spec_header_value(nonce_header).unwrap())
    } else {
        (false, spec_http_error_message(status, operation_name, body))
    }
}

/// Whether a failed answer may still be retried with a DPoP nonce: only on
/// the first attempt of a request path that replays.
pub fn nonce_retry_allowed(retry_dpop_nonce: bool, attempt: u32) -> (res: bool)
    ensures
        res == (retry_dpop_nonce && attempt == 0),
{
    retry_dpop_nonce && attempt == 0
}

/// A request is sent at most twice: past the first attempt, or on a path
/// that does not replay, every failed answer ends it; a rate-limited answer
/// ends it at once.
pub proof fn nonce_retries_happen_at_most_once(
    status: u16,
    operation_name: Option<Seq<char>>,
    retry_after: Option<Seq<char>>,
    nonce_header: Option<Seq<char>>,
    body: Seq<char>,
    retry_dpop_nonce: bool,
    attempt: u32,
)
    ensures
        (attempt >= 1 || !retry_dpop_nonce) ==> !spec_http_failure_step(
            status,
            operation_name,
            retry_after,
            nonce_header,
            body,
            retry_dpop_nonce && attempt == 0,
        ).0,
        status == 429 ==> !spec_http_failure_step(
            status,
            operation_name,
            retry_after,
            nonce_header,
            body,
            retry_dpop_nonce && attempt == 0,
        ).0,
{
}

pub open spec fn step_view(step: HttpFailureStep) -> (bool, Seq<char>) {
    match step {
        HttpFailureStep::RetryWithNonce(nonce) => (true, nonce@),
        HttpFailureStep::Fail(message) => (false, message@),
    }
}

pub fn graphql_http_failure_step(
    status: u16,
    operation_name: Option<&str>,
    retry_after: Option<&str>,
    nonce_header: Option<&str>,
    body: &str,
    may_retry: bool,
) -> (res: HttpFailureStep)
    ensures
        step_view(res) == spec_http_failure_step(
            status,
            opt_slice(operation_name),
            opt_slice(retry_after),
            opt_slice(nonce_header),
            body@,
            may_retry,
        ),
{
    if status == 429 {
        return HttpFailureStep::Fail(graphql_rate_limited_message(operation_name, retry_after));
    }
    let nonce = dpop_nonce_from_header(nonce_header);
    if may_retry {
        match nonce {
            Some(n) => {
                if should_retry_with_dpop_nonce(status, Some(n.as_str()), body) {
                    return HttpFailureStep::RetryWithNonce(n);
                }
            },
            None => {},
        }
    }
    HttpFailureStep::Fail(graphql_http_error_message(status, operation_name, body))
}

/// The result of a call the server answered: its errors as a failure, else
/// its data, which must be there.
pub open spec fn spec_response_outcome(
    operation_name: Option<Seq<char>>,
    data: Option<Json>,
    errors: Option<Json>,
) -> Result<Json, Seq<char>> {
    match errors {
        Some(e) => Err(crate::graphql_errors::spec_application_error_message(operation_name, e)),
        None => match data {
            Some(d) => Ok(d),
            None => Err("GraphQL response missing data"@),
        },
    }
}

pub fn graphql_response_outcome(
    operation_name: Option<&str>,
    data: Option<Json>,
    errors: Option<Json>,
) -> (res: Result<Json, String>)
    ensures
        match (res, spec_response_outcome(opt_slice(operation_name), data, errors)) {
            (Ok(d), Ok(e)) => d == e,
            (Err(m), Err(e)) => m@ == e,
            _ => false,
        },
{
    match errors {
        Some(e) => Err(crate::graphql_errors::graphql_application_error_message(operation_name, &e)),
        None => match data {
            Some(d) => Ok(d),
            None => Err("GraphQL response missing data".to_owned()),
        },
    }
}

// ---------------------------------------------------------------------------
// The request
// ---------------------------------------------------------------------------

/// The body of a GraphQL request: the document, the variables, and the
/// operation name where there is one.
pub open spec fn spec_request_body(query: Seq<char>, variables: JsonView, operation_name: Option<Seq<char>>) -> JsonView {
    JsonView::Object(
        seq![("query"@, JsonView::Str(query)), ("variables"@, variables)] + match operation_name {
            Some(name) => seq![("operation_name"@, JsonView::Str(name))],
            None => Seq::empty(),
        },
    )
}

pub fn graphql_request_body(query: &str, variables: Json, operation_name: Option<&str>) -> (res: Json)
    ensures
        res@ == spec_request_body(query@, variables@, opt_slice(operation_name)),
{
    let ghost v = variables@;
    let mut out = crate::json::ObjectBuilder::new();
    out.add("query", Json::Str(query.to_owned()));
    out.add("variables", variables);
    match operation_name {
        Some(name) => {
            out.add("operation_name", Json::Str(name.to_owned()));
        },
        None => {},
    }
    proof {
        assert(out.members() =~= spec_request_body(query@, v, opt_slice(operation_name))->Object_0);
    }
    out.build()
}

/// The `Authorization` header of a request bound to a DPoP key.
pub fn dpop_authorization_header(token: &str) -> (res: String)
    ensures
        res@ == "DPoP "@ + token@,
{
    let mut text: Vec<char> = Vec::new();
    crate::text::push_str_chars(&mut text, "DPoP ");
    crate::text::push_str_chars(&mut text, token);
    crate::text::string_of(&text)
}

} // verus!
