//! The requests and answers of the login's second factor, and of the
//! identity query.
use vstd::prelude::*;

use crate::json::{opt_as_bool, opt_as_str, opt_get, opt_ref, Json, JsonView, ObjectBuilder};
use crate::trade::opt_view;

verus! {

pub const LOGIN_2FA_STATE_QUERY: &'static str = "\nquery Is2faOnLoginEnabled($input: Is2faOnLoginEnabledInput!) {\n  is2faOnLoginEnabled(input: $input) {\n    enabled\n    hasApprovedSession\n  }\n}\n";

pub const START_2FA_ON_LOGIN_MUTATION: &'static str = "\nmutation Start2faOnLogin($input: Start2faOnLoginInput!) {\n  start2faOnLogin(input: $input) {\n    mfaSessionId\n  }\n}\n";

pub const VALIDATE_2FA_ON_LOGIN_MUTATION: &'static str = "\nmutation Validate2faOnLogin($input: Validate2faOnLoginInput!) {\n  validate2faOnLogin(input: $input) {\n    status\n  }\n}\n";

/// Whether the second factor is on for a login, and whether the session is
/// already approved; each unknown where the answer does not say.
#[derive(Debug, Clone, Copy, PartialEq, Eq)]
pub struct Login2faState {
    pub enabled: Option<bool>,
    pub has_approved_session: Option<bool>,
}

/// `{"input": {...}}`.
pub open spec fn input_wrapped(members: Seq<(Seq<char>, JsonView)>) -> JsonView {
    JsonView::Object(seq![("input"@, JsonView::Object(members))])
}

fn wrap_input(inner: ObjectBuilder) -> (res: Json)
    ensures
        res@ == input_wrapped(inner.members()),
{
    let mut out = ObjectBuilder::new();
    out.add("input", inner.build());
    proof {
        assert(out.members() =~= seq![("input"@, JsonView::Object(inner.members()))]);
    }
    out.build()
}

/// The variables of the identity query.
pub fn whoami_variables(person_id: &str) -> (res: Json)
    ensures
        res@ == JsonView::Object(seq![("id"@, JsonView::Str(person_id@))]),
{
    let mut out = ObjectBuilder::new();
    out.add("id", Json::Str(person_id.to_owned()));
    proof {
        assert(out.members() =~= seq![("id"@, JsonView::Str(person_id@))]);
    }
    out.build()
}

/// The variables of the second factor state query.
pub fn login_2fa_state_variables(user_id: &str) -> (res: Json)
    ensures
        res@ == input_wrapped(seq![("userId"@, JsonView::Str(user_id@))]),
{
    let mut inner = ObjectBuilder::new();
    inner.add("userId", Json::Str(user_id.to_owned()));
    proof {
        assert(inner.members() =~= seq![("userId"@, JsonView::Str(user_id@))]);
    }
    wrap_input(inner)
}

/// The second factor state an answer gives.
pub open spec fn spec_login_2fa_state(data: Json) -> (Option<bool>, Option<bool>) {
    let state = data.spec_get("is2faOnLoginEnabled"@);
    (
        opt_as_bool(opt_get(state, "enabled"@)),
        opt_as_bool(opt_get(state, "hasApprovedSession"@)),
    )
}

pub fn parse_login_2fa_state(data: &Json) -> (res: Login2faState)
    ensures
        (res.enabled, res.has_approved_session) == spec_login_2fa_state(*data),
{
    let state = data.get("is2faOnLoginEnabled");
    let enabled = match state {
        Some(s) => match s.get("enabled") {
            Some(v) => v.as_bool(),
            None => None,
        },
        None => None,
    };
    let approved = match state {
        Some(s) => match s.get("hasApprovedSession") {
            Some(v) => v.as_bool(),
            None => None,
        },
        None => None,
    };
    Login2faState { enabled, has_approved_session: approved }
}

/// The variables that start the second factor for a login from this client.
pub fn start_2fa_variables(user_id: &str) -> (res: Json)
    ensures
        res@ == input_wrapped(
            seq![
                ("userId"@, JsonView::Str(user_id@)),
                ("deviceName"@, JsonView::Str("CLI"@)),
                ("deviceType"@, JsonView::Str("CLI"@)),
            ],
        ),
{
    let mut inner = ObjectBuilder::new();
    inner.add("userId", Json::Str(user_id.to_owned()));
    inner.add("deviceName", Json::Str("CLI".to_owned()));
    inner.add("deviceType", Json::Str("CLI".to_owned()));
    proof {
        assert(inner.members() =~= seq![
            ("userId"@, JsonView::Str(user_id@)),
            ("deviceName"@, JsonView::Str("CLI"@)),
            ("deviceType"@, JsonView::Str("CLI"@)),
        ]);
    }
    wrap_input(inner)
}

/// A text at `<field>.<key>` of an answer.
pub open spec fn answer_text(data: Json, field: Seq<char>, key: Seq<char>) -> Option<Seq<char>> {
    opt_as_str(opt_get(data.spec_get(field), key))
}

fn answer_text_of(data: &Json, field: &str, key: &str) -> (res: Option<String>)
    ensures
        opt_view(res) == answer_text(*data, field@, key@),
{
    match data.get(field) {
        Some(f) => match f.get(key) {
            Some(v) => match v.as_str() {
                Some(t) => Some(t.to_owned()),
                None => None,
            },
            None => None,
        },
        None => None,
    }
}

/// The id of the second factor session the answer opened, where it has one.
pub fn parse_start_2fa_session_id(data: &Json) -> (res: Option<String>)
    ensures
        opt_view(res) == answer_text(*data, "start2faOnLogin"@, "mfaSessionId"@),
{
    answer_text_of(data, "start2faOnLogin", "mfaSessionId")
}

/// The variables that check the second factor of a session.
pub fn validate_2fa_variables(user_id: &str, mfa_session_id: &str) -> (res: Json)
    ensures
        res@ == input_wrapped(
            seq![("userId"@, JsonView::Str(user_id@)), ("mfaSessionId"@, JsonView::Str(mfa_session_id@))],
        ),
{
    let mut inner = ObjectBuilder::new();
    inner.add("userId", Json::Str(user_id.to_owned()));
    inner.add("mfaSessionId", Json::Str(mfa_session_id.to_owned()));
    proof {
        assert(inner.members() =~= seq![
            ("userId"@, JsonView::Str(user_id@)),
            ("mfaSessionId"@, JsonView::Str(mfa_session_id@)),
        ]);
    }
    wrap_input(inner)
}

/// The status of the second factor check, where the answer has one.
pub fn parse_validate_2fa_status(data: &Json) -> (res: Option<String>)
    ensures
        opt_view(res) == answer_text(*data, "validate2faOnLogin"@, "status"@),
{
    answer_text_of(data, "validate2faOnLogin", "status")
}

} // verus!
