//! What the error classifier makes of the broker commands' own input errors.
use vstd::prelude::*;

use crate::broker_queries::field_error;
use crate::error_report::{plain_report, spec_full_text, CauseKind, ErrorReport};
use crate::machine::{outcome, spec_classify, spec_rules_1, spec_rules_2, spec_rules_3};
use crate::markers::{DPOP_SESSION_KEY_RELOGIN_MESSAGE, REFRESH_RELOGIN_REQUIRED_PREFIX};
use crate::text::{contains, is_ascii_text, lower, lower_char, occurs_at};

verus! {

/// The characters of `s` from index `i` on.
pub open spec fn chars_from(s: Seq<char>, i: int) -> Set<char>
    decreases s.len() - i,
{
    if i < 0 || i >= s.len() {
        Set::empty()
    } else {
        chars_from(s, i + 1).insert(s[i])
    }
}

/// The pairs of adjacent characters of `s` from index `i` on.
pub open spec fn pairs_from(s: Seq<char>, i: int) -> Set<(char, char)>
    decreases s.len() - i,
{
    if i < 0 || i + 1 >= s.len() {
        Set::empty()
    } else {
        pairs_from(s, i + 1).insert((s[i], s[i + 1]))
    }
}

proof fn lemma_chars_from(s: Seq<char>, i: int, j: int)
    requires
        0 <= i <= j < s.len(),
    ensures
        chars_from(s, i).contains(s[j]),
    decreases j - i,
{
    if i < j {
        lemma_chars_from(s, i + 1, j);
    }
}

proof fn lemma_pairs_from(s: Seq<char>, i: int, j: int)
    requires
        0 <= i <= j,
        j + 1 < s.len(),
    ensures
        pairs_from(s, i).contains((s[j], s[j + 1])),
    decreases j - i,
{
    if i < j {
        lemma_pairs_from(s, i + 1, j);
    }
}

/// The lower-cased characters of `s` from index `i` on.
pub open spec fn lowered_chars_from(s: Seq<char>, i: int) -> Set<char>
    decreases s.len() - i,
{
    if i < 0 || i >= s.len() {
        Set::empty()
    } else {
        lowered_chars_from(s, i + 1).insert(lower_char(s[i]))
    }
}

/// The lower-cased pairs of adjacent characters of `s` from index `i` on.
pub open spec fn lowered_pairs_from(s: Seq<char>, i: int) -> Set<(char, char)>
    decreases s.len() - i,
{
    if i < 0 || i + 1 >= s.len() {
        Set::empty()
    } else {
        lowered_pairs_from(s, i + 1).insert((lower_char(s[i]), lower_char(s[i + 1])))
    }
}

proof fn lemma_lowered_sets(s: Seq<char>, i: int)
    requires
        0 <= i,
    ensures
        chars_from(lower(s), i) == lowered_chars_from(s, i),
        pairs_from(lower(s), i) == lowered_pairs_from(s, i),
    decreases s.len() - i,
{
    let l = lower(s);
    assert(l.len() == s.len());
    if i < s.len() {
        lemma_lowered_sets(s, i + 1);
        assert(l[i] == lower_char(s[i]));
        if i + 1 < s.len() {
            assert(l[i + 1] == lower_char(s[i + 1]));
        }
    }
}

/// A text holds no text that has a character it lacks.
proof fn lemma_lacks_char(s: Seq<char>, p: Seq<char>, k: int)
    requires
        0 <= k < p.len(),
        !chars_from(s, 0).contains(p[k]),
    ensures
        !contains(s, p),
{
    if contains(s, p) {
        let i = choose|i: int| occurs_at(s, p, i);
        assert(s.subrange(i, i + p.len())[k] == s[i + k]);
        lemma_chars_from(s, 0, i + k);
    }
}

/// A text holds no text that has two adjacent characters it never has
/// adjacent.
proof fn lemma_lacks_pair(s: Seq<char>, p: Seq<char>, k: int)
    requires
        0 <= k,
        k + 1 < p.len(),
        !pairs_from(s, 0).contains((p[k], p[k + 1])),
    ensures
        !contains(s, p),
{
    if contains(s, p) {
        let i = choose|i: int| occurs_at(s, p, i);
        assert(s.subrange(i, i + p.len())[k] == s[i + k]);
        assert(s.subrange(i, i + p.len())[k + 1] == s[i + k + 1]);
        lemma_pairs_from(s, 0, i + k);
    }
}

proof fn lemma_ascii_chars(s: Seq<char>)
    requires
        forall|c: char| #[trigger] chars_from(s, 0).contains(c) ==> (c as u32) < 128,
    ensures
        is_ascii_text(s),
{
    assert forall|i: int| 0 <= i < s.len() implies (#[trigger] s[i] as u32) < 128 by {
        lemma_chars_from(s, 0, i);
    }
}

/// The hint given with an input error of a broker command.
pub open spec fn broker_input_hint() -> Seq<char> {
    "Check broker command inputs and retry."@
}

proof fn lemma_field_error_classified(field: Seq<char>)
    requires
        field == "account_id"@ || field == "portfolio_id"@,
    ensures
        is_ascii_text(field_error(field, "must be a non-empty string"@)),
        spec_classify(
            field_error(field, "must be a non-empty string"@),
            lower(field_error(field, "must be a non-empty string"@)),
            false,
            false,
        ) == outcome("broker_input_invalid"@, 10, broker_input_hint()),
{
    let m = field_error(field, "must be a non-empty string"@);
    let l = lower(m);
    reveal_strlit("Broker input invalid: field '");
    reveal_strlit("account_id");
    reveal_strlit("portfolio_id");
    reveal_strlit("' ");
    reveal_strlit("must be a non-empty string");
    assert(m.len() == 29 + field.len() + 2 + 26);
    reveal_with_fuel(chars_from, 70);
    reveal_with_fuel(pairs_from, 70);
    lemma_ascii_chars(m);
    // The texts searched case for case hold a capital letter that the
    // message, which has no capital but its first, lacks.
    let by_case: Seq<Seq<char>> = seq![
        "Provide exactly one of --query or --query-file"@,
        "Provide at most one of --variables or --variables-file"@,
        "Token from stdin is empty"@,
        "SAVINGS_PLAN_INPUT_INVALID:"@,
        "SAVINGS_PLAN_CONFIG_UNAVAILABLE:"@,
        "SAVINGS_PLAN_EX_ANTE_COST_UNAVAILABLE:"@,
        "SAVINGS_PLAN_CONFIRMATION_NOT_FOUND:"@,
        "SAVINGS_PLAN_CONFIRMATION_EXPIRED:"@,
        "SAVINGS_PLAN_CONFIRMATION_ALREADY_USED:"@,
        "SAVINGS_PLAN_CONFIRMATION_CORRUPT:"@,
        "SAVINGS_PLAN_CONFIRMATION_ENV_MISMATCH:"@,
        "SAVINGS_PLAN_CONFIRMATION_ACCOUNT_MISMATCH:"@,
        "SAVINGS_PLAN_CONFIRMATION_PORTFOLIO_MISMATCH:"@,
        "SAVINGS_PLAN_CONFIRMATION_FIELDS_MISMATCH:"@,
        "SAVINGS_PLAN_SUBMISSION_FAILED:"@,
        "SAVINGS_PLAN_SUBMISSION_UNKNOWN:"@,
    ];
    reveal_strlit("Provide exactly one of --query or --query-file");
    reveal_strlit("Provide at most one of --variables or --variables-file");
    reveal_strlit("Token from stdin is empty");
    reveal_strlit("SAVINGS_PLAN_INPUT_INVALID:");
    reveal_strlit("SAVINGS_PLAN_CONFIG_UNAVAILABLE:");
    reveal_strlit("SAVINGS_PLAN_EX_ANTE_COST_UNAVAILABLE:");
    reveal_strlit("SAVINGS_PLAN_CONFIRMATION_NOT_FOUND:");
    reveal_strlit("SAVINGS_PLAN_CONFIRMATION_EXPIRED:");
    reveal_strlit("SAVINGS_PLAN_CONFIRMATION_ALREADY_USED:");
    reveal_strlit("SAVINGS_PLAN_CONFIRMATION_CORRUPT:");
    reveal_strlit("SAVINGS_PLAN_CONFIRMATION_ENV_MISMATCH:");
    reveal_strlit("SAVINGS_PLAN_CONFIRMATION_ACCOUNT_MISMATCH:");
    reveal_strlit("SAVINGS_PLAN_CONFIRMATION_PORTFOLIO_MISMATCH:");
    reveal_strlit("SAVINGS_PLAN_CONFIRMATION_FIELDS_MISMATCH:");
    reveal_strlit("SAVINGS_PLAN_SUBMISSION_FAILED:");
    reveal_strlit("SAVINGS_PLAN_SUBMISSION_UNKNOWN:");
    assert(!chars_from(m, 0).contains('P'));
    assert(!chars_from(m, 0).contains('T'));
    assert(!chars_from(m, 0).contains('S'));
    assert forall|j: int| 0 <= j < by_case.len() implies !contains(m, #[trigger] by_case[j]) by {
        lemma_lacks_char(m, by_case[j], 0);
    }
    // The texts searched in the lower-cased message.
    reveal_strlit("required arguments were not provided");
    reveal_strlit("unexpected argument");
    reveal_strlit("unexpected value");
    reveal_strlit("unrecognized subcommand");
    reveal_strlit("invalid value");
    reveal_strlit("a value is required for");
    reveal_strlit("one of the values isn't valid");
    reveal_strlit("installation code state");
    reveal_strlit("unable to resolve broker portfolio id");
    reveal_strlit("unable to resolve overnight savings account id");
    reveal_strlit("overnight input invalid:");
    reveal_strlit("broker input invalid:");
    reveal_with_fuel(lowered_chars_from, 70);
    reveal_with_fuel(lowered_pairs_from, 70);
    lemma_lowered_sets(m, 0);
    assert(!chars_from(l, 0).contains('q'));
    assert(!chars_from(l, 0).contains('x'));
    assert(!chars_from(l, 0).contains('z'));
    assert(!chars_from(l, 0).contains('h'));
    assert(!pairs_from(l, 0).contains((' ', 'v')));
    assert(!pairs_from(l, 0).contains(('l', 'l')));
    assert(!pairs_from(l, 0).contains(('a', 'b')));
    lemma_lacks_char(l, "required arguments were not provided"@, 2);
    lemma_lacks_char(l, "unexpected argument"@, 3);
    lemma_lacks_char(l, "unexpected value"@, 3);
    lemma_lacks_char(l, "unrecognized subcommand"@, 9);
    lemma_lacks_pair(l, "invalid value"@, 7);
    lemma_lacks_char(l, "a value is required for"@, 13);
    lemma_lacks_char(l, "one of the values isn't valid"@, 8);
    lemma_lacks_pair(l, "installation code state"@, 5);
    lemma_lacks_pair(l, "unable to resolve broker portfolio id"@, 2);
    lemma_lacks_pair(l, "unable to resolve overnight savings account id"@, 2);
    lemma_lacks_char(l, "overnight input invalid:"@, 7);
    assert(l.subrange(0, 21) =~= "broker input invalid:"@);
    assert(occurs_at(l, "broker input invalid:"@, 0));
}

/// A blank account or portfolio id is an input error of the broker
/// commands: the error `BrokerInput::new` reports for it is classified with
/// the code `broker_input_invalid`, the exit code 10 and the broker input
/// hint. (Its text is ASCII, so `classify_error` gives this outcome.)
pub proof fn blank_broker_ids_classify_as_broker_input_invalid(err: ErrorReport, field: Seq<char>)
    requires
        field == "account_id"@ || field == "portfolio_id"@,
        plain_report(err),
        err.messages() == seq![field_error(field, "must be a non-empty string"@)],
    ensures
        is_ascii_text(spec_full_text(err.messages())),
        spec_classify(
            spec_full_text(err.messages()),
            lower(spec_full_text(err.messages())),
            err.kinds().contains(CauseKind::SecretStoreUnavailable),
            err.kinds().contains(CauseKind::SecureEnclaveKeyLocked),
        ) == outcome("broker_input_invalid"@, 10, broker_input_hint()),
{
    lemma_field_error_classified(field);
    assert(spec_full_text(err.messages()) == field_error(field, "must be a non-empty string"@));
    if err.kinds().contains(CauseKind::SecretStoreUnavailable) {
        let i = choose|i: int| 0 <= i < err.kinds().len() && err.kinds()[i] == CauseKind::SecretStoreUnavailable;
        assert(err.kinds()[i] == CauseKind::Message);
    }
    if err.kinds().contains(CauseKind::SecureEnclaveKeyLocked) {
        let i = choose|i: int| 0 <= i < err.kinds().len() && err.kinds()[i] == CauseKind::SecureEnclaveKeyLocked;
        assert(err.kinds()[i] == CauseKind::Message);
    }
}

/// An error text that says a request could not reach the backend.
pub open spec fn names_a_network_failure(lower: Seq<char>) -> bool {
    ||| contains(lower, "failed to call graphql endpoint"@)
    ||| contains(lower, "failed to fetch"@)
    ||| contains(lower, "error sending request"@)
}

/// An error text that carries a marker the classifier ranks above a network
/// failure.
pub open spec fn outranks_network_failure(text: Seq<char>, lower: Seq<char>) -> bool {
    ||| spec_rules_1(text, lower) is Some
    ||| spec_rules_2(text, lower) is Some
    ||| spec_rules_3(text, lower) is Some
    ||| contains(text, "PRESENTATION_MAPPING_INCOMPLETE:"@)
    ||| contains(text, "APPROPRIATENESS_REQUIRED:"@)
    ||| contains(text, "APPROPRIATENESS_WARNING_ACK_REQUIRED:"@)
    ||| contains(text, "EX_ANTE_COST_UNAVAILABLE:"@)
    ||| contains(text, "DISCLOSURE_NOT_ACKNOWLEDGED:"@)
    ||| contains(text, "ORDER_CONFIRMATION_REQUIRED:"@)
    ||| contains(text, "ORDER_SUBMISSION_FAILED:"@)
    ||| contains(lower, "trade input invalid:"@)
    ||| contains(lower, "trade response invalid:"@)
    ||| contains(text, "No active session"@)
    ||| contains(text, REFRESH_RELOGIN_REQUIRED_PREFIX@)
    ||| contains(text, DPOP_SESSION_KEY_RELOGIN_MESSAGE@)
    ||| contains(lower, "grant type"@)
    ||| contains(lower, "unauthorized_client"@)
    ||| contains(lower, "unsupported_grant_type"@)
}

/// The hint given with a network failure.
pub open spec fn network_hint() -> Seq<char> {
    "Check network connectivity and endpoint reachability."@
}

/// An error that says the backend could not be reached, and carries no
/// marker ranked above that, is a network error: exit code 30 with the
/// connectivity hint.
pub proof fn unreachable_backend_errors_classify_as_network_errors(text: Seq<char>, lower: Seq<char>)
    ensures
        names_a_network_failure(lower) && !outranks_network_failure(text, lower) ==> spec_classify(
            text,
            lower,
            false,
            false,
        ) == outcome("network_error"@, 30, network_hint()),
{
}

} // verus!
