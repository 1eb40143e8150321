//! Properties of the library as a whole, each stated over the specifications
//! that the functions' contracts use.
use vstd::prelude::*;

use crate::broker_shared::{not_blank_pred, spec_resolve_portfolio_id};
use crate::error_report::{CauseKind, ErrorReport};
use crate::graphql::{spec_access_refusal, spec_is_allowed_mutation, spec_is_graphql_mutation, SessionMode};
use crate::json::Json;
use crate::machine::{outcome, spec_classify_report, spec_concise, spec_machine_error_message, first_line, MACHINE_MESSAGE_MAX_CHARS};
use crate::markers::{DEVICE_LOCKED_ERROR_CODE, DEVICE_LOCKED_ERROR_HINT, DEVICE_LOCKED_ERROR_MESSAGE};
use crate::numbers::{decimal, digit_char, digits_value, spec_parse_u64};
use crate::text::{all_digits, find, is_digit, lemma_find_contains, trim};
use crate::trade::{
    not_required_decision, spec_evaluate_trade_compliance, TradeSide, TradeWarningKind,
};

verus! {

// ---------------------------------------------------------------------------
// Error reporting
// ---------------------------------------------------------------------------

/// An error whose chain holds the locked-device marker, and no secret-store
/// failure, is reported as `device_locked` with the unlock hint, whatever
/// its messages say.
pub proof fn locked_device_errors_are_reported_as_device_locked(err: ErrorReport)
    requires
        err.kinds().contains(CauseKind::SecureEnclaveKeyLocked),
        !err.kinds().contains(CauseKind::SecretStoreUnavailable),
    ensures
        spec_classify_report(err) == outcome(DEVICE_LOCKED_ERROR_CODE@, 20, DEVICE_LOCKED_ERROR_HINT@),
{
}

/// The machine message of a `device_locked` error is the fixed unlock
/// message, never the underlying diagnostic.
pub proof fn device_locked_message_is_fixed(message: Seq<char>)
    ensures
        spec_machine_error_message(message, DEVICE_LOCKED_ERROR_CODE@) == DEVICE_LOCKED_ERROR_MESSAGE@,
{
}

/// A concise message is one line of at most the limit plus the three dots.
pub proof fn concise_messages_are_short_single_lines(message: Seq<char>)
    ensures
        spec_concise(message).len() <= MACHINE_MESSAGE_MAX_CHARS + 3,
        !spec_concise(message).contains('\n'),
{
    let s = crate::machine::spec_sanitize(message);
    let line = first_line(s);
    assert(!line.contains('\n')) by {
        lemma_find_contains(s, seq!['\n']);
        match find(s, seq!['\n']) {
            Some(i) => {
                crate::text::lemma_find_from(s, seq!['\n'], 0);
                assert forall|k: int| 0 <= k < line.len() implies line[k] != '\n' by {
                    if line[k] == '\n' {
                        assert(s.subrange(k, k + 1) =~= seq!['\n']);
                        assert(crate::text::occurs_at(s, seq!['\n'], k));
                    }
                }
            },
            None => {
                assert forall|k: int| 0 <= k < line.len() implies line[k] != '\n' by {
                    if line[k] == '\n' {
                        assert(s.subrange(k, k + 1) =~= seq!['\n']);
                        assert(crate::text::occurs_at(s, seq!['\n'], k));
                    }
                }
            },
        }
    }
    let t = trim(line);
    assert(!t.contains('\n')) by {
        crate::text::lemma_trim_is_subrange(line);
        let (a, b) = choose|a: int, b: int| 0 <= a <= b <= line.len() && t == line.subrange(a, b);
        assert forall|k: int| 0 <= k < t.len() implies t[k] != '\n' by {
            assert(t[k] == line[a + k]);
        }
    }
    if t.len() > MACHINE_MESSAGE_MAX_CHARS {
        reveal_strlit("...");
        let out = t.take(MACHINE_MESSAGE_MAX_CHARS as int) + "..."@;
        assert forall|k: int| 0 <= k < out.len() implies out[k] != '\n' by {
            if k < MACHINE_MESSAGE_MAX_CHARS {
                assert(out[k] == t[k]);
            }
        }
    }
}

// ---------------------------------------------------------------------------
// Numbers
// ---------------------------------------------------------------------------

proof fn lemma_decimal_digits(n: nat)
    ensures
        all_digits(decimal(n)),
        decimal(n).len() > 0,
        digits_value(decimal(n)) == n,
        decimal(n)[0] != '+',
    decreases n,
{
    if n < 10 {
        assert(crate::text::digit_value(digit_char(n as int)) == n);
        assert(decimal(n).drop_last() =~= Seq::<char>::empty());
        assert(digits_value(Seq::<char>::empty()) == 0);
        assert(decimal(n).last() == digit_char(n as int));
        assert(digits_value(decimal(n)) == digits_value(decimal(n).drop_last()) * 10
            + crate::text::digit_value(decimal(n).last()));
    } else {
        lemma_decimal_digits(n / 10);
        let d = decimal(n);
        assert(d.drop_last() =~= decimal(n / 10));
        assert(d.last() == digit_char((n % 10) as int));
        assert(crate::text::digit_value(digit_char((n % 10) as int)) == n % 10);
        assert(digits_value(d) == digits_value(decimal(n / 10)) * 10 + n % 10);
        assert((n / 10) * 10 + n % 10 == n);
        assert(d[0] == decimal(n / 10)[0]);
        assert forall|i: int| 0 <= i < d.len() implies is_digit(#[trigger] d[i]) by {
            if i < d.len() - 1 {
                assert(d[i] == decimal(n / 10)[i]);
            }
        }
    }
}

/// Reading back the decimal text of a number gives the number.
pub proof fn parse_u64_reads_back_decimal(n: u64)
    ensures
        spec_parse_u64(decimal(n as nat)) == Some(n),
{
    lemma_decimal_digits(n as nat);
}

// ---------------------------------------------------------------------------
// The read-only session policy
// ---------------------------------------------------------------------------

/// Only a read-only session refuses anything, and only mutations; what it
/// lets through of the mutations is named, after trimming, by the allow list.
pub proof fn read_only_policy_only_restricts_mutations(
    query: Seq<char>,
    operation_name: Option<Seq<char>>,
    session_mode: Option<SessionMode>,
)
    ensures
        spec_access_refusal(query, operation_name, session_mode) is Some ==> session_mode == Some(
            SessionMode::LocalReadOnly,
        ) && spec_is_graphql_mutation(query),
        session_mode == Some(SessionMode::LocalReadOnly) && spec_is_graphql_mutation(query)
            && spec_access_refusal(query, operation_name, session_mode) is None
            ==> operation_name is Some && spec_is_allowed_mutation(trim(operation_name->0)),
{
}

// ---------------------------------------------------------------------------
// Choosing the portfolio
// ---------------------------------------------------------------------------

/// The chosen portfolio depends only on which non-blank candidates there
/// are: not on their order, nor on repeats or blank entries.
pub proof fn portfolio_choice_depends_only_on_the_candidate_set(
    a: Seq<Seq<char>>,
    b: Seq<Seq<char>>,
)
    requires
        a.filter(not_blank_pred()).to_set() == b.filter(not_blank_pred()).to_set(),
    ensures
        spec_resolve_portfolio_id(a) == spec_resolve_portfolio_id(b),
{
}

// ---------------------------------------------------------------------------
// Trade compliance
// ---------------------------------------------------------------------------

/// What every compliance decision keeps: a sell needs no check; a
/// questionnaire comes with its reason, and then the order carries neither an
/// id nor a warning; an id sent with an order is never blank; a knockout risk
/// warning is shown only where the portfolio's flag asks for it; accepting an
/// unsuitable product is asked only for a complex instrument or the legacy
/// check.
pub proof fn compliance_decisions_are_consistent(
    response: Json,
    side: TradeSide,
    appropriateness_required: bool,
)
    ensures
        side == TradeSide::Sell ==> spec_evaluate_trade_compliance(
            response,
            side,
            appropriateness_required,
        ) == Ok::<crate::trade::DecisionView, Seq<char>>(not_required_decision()),
        match spec_evaluate_trade_compliance(response, side, appropriateness_required) {
            Ok(d) => {
                &&& d.questionnaire_required <==> d.questionnaire_reason is Some
                &&& d.questionnaire_required ==> d.submission_appropriateness_id is None
                    && d.warning.kind == TradeWarningKind::NoWarning
                &&& id_not_blank(d.submission_appropriateness_id)
                &&& d.warning.kind == TradeWarningKind::KnockoutRiskWarning
                    ==> crate::trade::knockout_warnings_enabled(response)
                &&& d.requires_accept_unsuitable ==> d.status
                    == crate::trade::TradeSuitabilityStatus::Unsuitable
            },
            Err(_) => true,
        },
{
    lemma_compliance_ids_are_non_blank(response, side, appropriateness_required);
}

proof fn lemma_compliance_ids_are_non_blank(response: Json, side: TradeSide, appropriateness_required: bool)
    ensures
        match spec_evaluate_trade_compliance(response, side, appropriateness_required) {
            Ok(d) => id_not_blank(d.submission_appropriateness_id),
            Err(_) => true,
        },
{
    if side == TradeSide::Buy {
        match crate::trade::spec_required_suitability(response) {
            Ok(required) => {
                let ty = match required {
                    Some(r) => Some(r.0),
                    None => None,
                };
                lemma_entries_have_non_blank_ids(crate::trade::status_items(response), ty);
                match crate::trade::spec_status_entries_from(crate::trade::status_items(response), ty) {
                    Ok(entries) => match required {
                        Some((t, _)) => {
                            lemma_first_entry_of_is_member(entries, t);
                        },
                        None => {},
                    },
                    Err(_) => {},
                }
            },
            Err(_) => {},
        }
    }
}

/// An id that is present is not blank.
pub open spec fn id_not_blank(id: Option<Seq<char>>) -> bool {
    match id {
        Some(i) => trim(i).len() > 0,
        None => true,
    }
}

proof fn lemma_entries_have_non_blank_ids(
    items: Seq<Json>,
    required: Option<crate::trade::TradeSuitabilityType>,
)
    ensures
        match crate::trade::spec_status_entries_from(items, required) {
            Ok(entries) => forall|i: int|
                0 <= i < entries.len() ==> id_not_blank((#[trigger] entries[i]).2),
            Err(_) => true,
        },
    decreases items.len(),
{
    if items.len() > 0 {
        lemma_entries_have_non_blank_ids(items.drop_first(), required);
        match crate::trade::spec_status_entries_from(items, required) {
            Ok(entries) => {
                let rest = crate::trade::spec_status_entries_from(items.drop_first(), required)->Ok_0;
                match crate::trade::spec_status_entry(items[0], required) {
                    Ok(Some(x)) => {
                        assert(entries == seq![x] + rest);
                        assert forall|i: int| 0 <= i < entries.len() implies id_not_blank(
                            (#[trigger] entries[i]).2,
                        ) by {
                            if i > 0 {
                                assert(entries[i] == rest[i - 1]);
                            }
                        }
                    },
                    _ => {},
                }
            },
            Err(_) => {},
        }
    }
}

proof fn lemma_first_entry_of_is_member(
    entries: Seq<crate::trade::EntryView>,
    ty: crate::trade::TradeSuitabilityType,
)
    ensures
        crate::trade::first_entry_of(entries, ty) matches Some(e) ==> exists|i: int|
            0 <= i < entries.len() && entries[i] == e,
    decreases entries.len(),
{
    if entries.len() > 0 && entries[0].0 != ty {
        lemma_first_entry_of_is_member(entries.drop_first(), ty);
        match crate::trade::first_entry_of(entries, ty) {
            Some(e) => {
                let i = choose|i: int| 0 <= i < entries.drop_first().len() && entries.drop_first()[i] == e;
                assert(entries[i + 1] == e);
            },
            None => {},
        }
    }
}

} // verus!
