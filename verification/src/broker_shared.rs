//! Which account and portfolio a broker command works on, and the envelope
//! its result is reported in.
use vstd::prelude::*;

use crate::error_report::{plain_errors};
use crate::broker_queries::BrokerInput;
use crate::error_report::ErrorReport;
use crate::fingerprint::{input_fingerprint_payload, without_cursor};
use crate::json::{json_str, opt_as_str, opt_get, Json, JsonView, ObjectBuilder};
use crate::sorted::{lemma_lex_irreflexive, lemma_sorted_list_of, lex_lt, sorted_dedup, sorted_list, sorted_unique};
use crate::text::{chars_of, join, join_strings, opt_slice, push_str_chars, string_of, trim, trim_chars, views};

verus! {

/// The ids a broker command works on and where each came from.
#[derive(Debug)]
pub struct ResolvedBrokerIds {
    pub account_id: String,
    pub portfolio_id: String,
    pub account_source: &'static str,
    pub portfolio_source: &'static str,
}

/// The part of a normalized transactions input that identifies it across
/// pages: the input without its page cursor.
pub fn fingerprint_payload_for_transactions_input(normalized_input: &Json) -> (res: Json)
    ensures
        res@ == without_cursor(normalized_input@),
{
    input_fingerprint_payload(normalized_input)
}

/// The validated broker input for the resolved ids.
pub fn validated_broker_input(
    ids: &ResolvedBrokerIds,
    include_year_to_date: bool,
    quote_source: Option<&str>,
) -> (res: Result<BrokerInput, ErrorReport>)
    ensures
        plain_errors(res),
        trim(ids.account_id@).len() > 0 && trim(ids.portfolio_id@).len() > 0 ==> (res matches Ok(b)
            && b.spec_account_id() == trim(ids.account_id@) && b.spec_portfolio_id() == trim(
            ids.portfolio_id@,
        ) && b.spec_include_year_to_date() == include_year_to_date),
        trim(ids.account_id@).len() == 0 || trim(ids.portfolio_id@).len() == 0 ==> res is Err,
{
    BrokerInput::new(
        ids.account_id.as_str(),
        ids.portfolio_id.as_str(),
        include_year_to_date,
        quote_source,
    )
}

/// The envelope of a broker command's result: the ids, where they came from,
/// and the result itself.
pub open spec fn spec_result_envelope(
    account_id: Seq<char>,
    portfolio_id: Seq<char>,
    account_source: Seq<char>,
    portfolio_source: Seq<char>,
    result: JsonView,
) -> JsonView {
    JsonView::Object(
        seq![
            ("account_id"@, JsonView::Str(account_id)),
            ("portfolio_id"@, JsonView::Str(portfolio_id)),
            (
                "resolution"@,
                JsonView::Object(
                    seq![
                        ("account"@, JsonView::Str(account_source)),
                        ("portfolio"@, JsonView::Str(portfolio_source)),
                    ],
                ),
            ),
            ("result"@, result),
        ],
    )
}

pub fn broker_result_envelope(ids: &ResolvedBrokerIds, result: Json) -> (res: Json)
    ensures
        res@ == spec_result_envelope(
            ids.account_id@,
            ids.portfolio_id@,
            ids.account_source@,
            ids.portfolio_source@,
            result@,
        ),
{
    let mut resolution = ObjectBuilder::new();
    resolution.add("account", json_str(ids.account_source));
    resolution.add("portfolio", json_str(ids.portfolio_source));
    proof {
        assert(resolution.members() =~= seq![
            ("account"@, JsonView::Str(ids.account_source@)),
            ("portfolio"@, JsonView::Str(ids.portfolio_source@)),
        ]);
    }
    let mut envelope = ObjectBuilder::new();
    envelope.add("account_id", json_str(ids.account_id.as_str()));
    envelope.add("portfolio_id", json_str(ids.portfolio_id.as_str()));
    envelope.add("resolution", resolution.build());
    let ghost result_view = result@;
    envelope.add("result", result);
    let res = envelope.build();
    proof {
        assert(envelope.members() =~= seq![
            ("account_id"@, JsonView::Str(ids.account_id@)),
            ("portfolio_id"@, JsonView::Str(ids.portfolio_id@)),
            (
                "resolution"@,
                JsonView::Object(
                    seq![
                        ("account"@, JsonView::Str(ids.account_source@)),
                        ("portfolio"@, JsonView::Str(ids.portfolio_source@)),
                    ],
                ),
            ),
            ("result"@, result_view),
        ]);
        assert(res@ == spec_result_envelope(
            ids.account_id@,
            ids.portfolio_id@,
            ids.account_source@,
            ids.portfolio_source@,
            result@,
        ));
    }
    res
}

// ---------------------------------------------------------------------------
// Choosing the portfolio
// ---------------------------------------------------------------------------

pub open spec fn not_blank(s: Seq<char>) -> bool {
    trim(s).len() > 0
}

pub open spec fn not_blank_pred() -> spec_fn(Seq<char>) -> bool {
    |c: Seq<char>| not_blank(c)
}

/// The distinct non-blank candidates, sorted.
pub open spec fn portfolio_candidates(candidates: Seq<Seq<char>>) -> Seq<Seq<char>> {
    sorted_list(candidates.filter(not_blank_pred()).to_set())
}

pub open spec fn multiple_portfolios_message(found: Seq<Seq<char>>) -> Seq<char> {
    "Unable to resolve broker portfolio id: multiple portfolios found ["@ + join(found, ", "@)
        + "]. Provide --portfolio-id or set one via `sc broker context select --portfolio-id ...`"@
}

/// The one portfolio among the candidates: none where there is none, an
/// error naming them where there are several.
pub open spec fn spec_resolve_portfolio_id(candidates: Seq<Seq<char>>) -> Result<
    Option<Seq<char>>,
    Seq<char>,
> {
    let found = portfolio_candidates(candidates);
    if found.len() == 0 {
        Ok(None)
    } else if found.len() == 1 {
        Ok(Some(found[0]))
    } else {
        Err(multiple_portfolios_message(found))
    }
}

pub open spec fn opt_id_result(r: Result<Option<String>, ErrorReport>) -> Result<
    Option<Seq<char>>,
    Seq<char>,
> {
    match r {
        Ok(Some(s)) => Ok(Some(s@)),
        Ok(None) => Ok(None),
        Err(e) => Err(e.messages()[0]),
    }
}

/// The distinct non-blank candidates, as a set.
pub open spec fn non_blank_ids(candidates: Seq<Seq<char>>) -> Set<Seq<char>> {
    candidates.filter(not_blank_pred()).to_set()
}

/// The portfolio is chosen among the distinct non-blank candidates: none when
/// there is none, that one when there is exactly one, and an error naming
/// them all, each once and in increasing order, when there are several.
pub proof fn portfolio_is_the_only_non_blank_candidate(candidates: Seq<Seq<char>>)
    ensures
        non_blank_ids(candidates).len() == 0 <==> spec_resolve_portfolio_id(candidates) == Ok::<
            Option<Seq<char>>,
            Seq<char>,
        >(None),
        non_blank_ids(candidates).len() == 1 <==> spec_resolve_portfolio_id(candidates) is Ok
            && spec_resolve_portfolio_id(candidates)->Ok_0 is Some,
        spec_resolve_portfolio_id(candidates) matches Ok(Some(id)) ==> non_blank_ids(candidates) == set![id],
        non_blank_ids(candidates).len() > 1 <==> spec_resolve_portfolio_id(candidates) is Err,
        spec_resolve_portfolio_id(candidates) is Err ==> {
            let found = portfolio_candidates(candidates);
            &&& spec_resolve_portfolio_id(candidates) == Err::<Option<Seq<char>>, Seq<char>>(
                multiple_portfolios_message(found),
            )
            &&& sorted_unique(found)
            &&& found.to_set() == non_blank_ids(candidates)
        },
{
    let found = portfolio_candidates(candidates);
    lemma_sorted_list_of(candidates.filter(not_blank_pred()));
    assert(found.no_duplicates()) by {
        assert forall|i: int, j: int| 0 <= i < found.len() && 0 <= j < found.len() && i != j implies found[i]
            != found[j] by {
            if i < j {
                assert(lex_lt(found[i], found[j]));
            } else {
                assert(lex_lt(found[j], found[i]));
            }
            lemma_lex_irreflexive(found[i]);
        }
    }
    found.unique_seq_to_set();
    if found.len() == 1 {
        assert(found.to_set() =~= set![found[0]]);
    }
}

pub fn resolve_portfolio_id_from_candidates(candidates: Vec<String>) -> (res: Result<
    Option<String>,
    ErrorReport,
>)
    ensures
        plain_errors(res),
        opt_id_result(res) == spec_resolve_portfolio_id(views(candidates@)),
        res matches Err(e) ==> e.messages().len() == 1,
        sorted_unique(portfolio_candidates(views(candidates@))),
        portfolio_candidates(views(candidates@)).to_set() == views(candidates@).filter(
            not_blank_pred(),
        ).to_set(),
{
    let mut kept: Vec<String> = Vec::new();
    let mut i: usize = 0;
    proof {
        assert(views(candidates@).take(0) =~= Seq::<Seq<char>>::empty());
        assert(views(kept@) =~= Seq::<Seq<char>>::empty());
    }
    while i < candidates.len()
        invariant
            i <= candidates.len(),
            views(kept@) == views(candidates@).take(i as int).filter(not_blank_pred()),
        decreases candidates.len() - i,
    {
        let c = candidates[i].as_str();
        let ghost before = views(kept@);
        proof {
            assert(views(candidates@).take(i + 1) =~= views(candidates@).take(i as int).push(c@));
            views(candidates@).take(i as int).lemma_filter_push(c@, not_blank_pred());
        }
        if trim_chars(c).len() > 0 {
            kept.push(candidates[i].clone());
            proof {
                assert(views(kept@) =~= before.push(c@));
            }
        }
        i = i + 1;
    }
    proof {
        assert(views(candidates@).take(candidates.len() as int) =~= views(candidates@));
    }
    let found = sorted_dedup(kept);
    if found.len() == 0 {
        Ok(None)
    } else if found.len() == 1 {
        Ok(Some(found[0].clone()))
    } else {
        let mut text: Vec<char> = Vec::new();
        push_str_chars(&mut text, "Unable to resolve broker portfolio id: multiple portfolios found [");
        let joined = join_strings(&found, ", ");
        push_str_chars(&mut text, joined.as_str());
        push_str_chars(
            &mut text,
            "]. Provide --portfolio-id or set one via `sc broker context select --portfolio-id ...`",
        );
        proof {
            assert(text@ =~= multiple_portfolios_message(views(found@)));
        }
        let s = string_of(&text);
        Err(ErrorReport::msg(s.as_str()))
    }
}


// ---------------------------------------------------------------------------
// Resolving the ids
// ---------------------------------------------------------------------------

/// The broker context the user selected earlier.
#[derive(Debug)]
pub struct BrokerContextSelection {
    pub account_id: String,
    pub portfolio_id: Option<String>,
}

/// The ids known before the backend is asked: the account and where it came
/// from, and the portfolio with its source where one is already known.
#[derive(Debug)]
pub struct BrokerIdsDraft {
    pub account_id: String,
    pub account_source: &'static str,
    pub portfolio: Option<(String, &'static str)>,
}

/// The account: the selected context's where it is not blank, else the
/// session's person.
pub open spec fn spec_initial_account(
    person_id: Seq<char>,
    context_account: Option<Seq<char>>,
) -> (Seq<char>, Seq<char>) {
    match context_account {
        Some(a) => if trim(a).len() > 0 {
            (trim(a), "selected_context"@)
        } else {
            (person_id, "auto_session_person_id"@)
        },
        None => (person_id, "auto_session_person_id"@),
    }
}

/// The portfolio: the explicit one where it is not blank, else the selected
/// context's where it is not empty, else none yet.
pub open spec fn spec_initial_portfolio(
    explicit: Option<Seq<char>>,
    context_portfolio: Option<Seq<char>>,
) -> Option<(Seq<char>, Seq<char>)> {
    match explicit {
        Some(e) if trim(e).len() > 0 => Some((trim(e), "explicit"@)),
        _ => match context_portfolio {
            Some(p) if p.len() > 0 => Some((p, "selected_context"@)),
            _ => None,
        },
    }
}

pub open spec fn context_account(context: Option<&BrokerContextSelection>) -> Option<Seq<char>> {
    match context {
        Some(c) => Some(c.account_id@),
        None => None,
    }
}

pub open spec fn context_portfolio(context: Option<&BrokerContextSelection>) -> Option<Seq<char>> {
    match context {
        Some(c) => match c.portfolio_id {
            Some(p) => Some(p@),
            None => None,
        },
        None => None,
    }
}

pub open spec fn draft_portfolio(p: Option<(String, &'static str)>) -> Option<(Seq<char>, Seq<char>)> {
    match p {
        Some((id, source)) => Some((id@, source@)),
        None => None,
    }
}

pub fn initial_broker_ids(
    person_id: &str,
    context: Option<&BrokerContextSelection>,
    explicit_portfolio_id: Option<&str>,
) -> (res: BrokerIdsDraft)
    ensures
        (res.account_id@, res.account_source@) == spec_initial_account(person_id@, context_account(context)),
        draft_portfolio(res.portfolio) == spec_initial_portfolio(
            opt_slice(explicit_portfolio_id),
            context_portfolio(context),
        ),
{
    let mut account_id = person_id.to_owned();
    let mut account_source: &'static str = "auto_session_person_id";
    if let Some(ctx) = context {
        let t = trim_chars(ctx.account_id.as_str());
        if t.len() > 0 {
            account_id = string_of(&t);
            account_source = "selected_context";
        }
    }
    let mut portfolio: Option<(String, &'static str)> = None;
    let explicit = match explicit_portfolio_id {
        Some(e) => {
            let t = trim_chars(e);
            if t.len() > 0 {
                Some(string_of(&t))
            } else {
                None
            }
        },
        None => None,
    };
    match explicit {
        Some(e) => {
            portfolio = Some((e, "explicit"));
        },
        None => {
            if let Some(ctx) = context {
                if let Some(p) = &ctx.portfolio_id {
                    if chars_of(p.as_str()).len() > 0 {
                        portfolio = Some((p.clone(), "selected_context"));
                    }
                }
            }
        },
    }
    BrokerIdsDraft { account_id, account_source, portfolio }
}

/// The ids of the portfolios a response lists, in order.
pub open spec fn listed_portfolio_ids(items: Seq<Json>) -> Seq<Seq<char>>
    decreases items.len(),
{
    if items.len() == 0 {
        Seq::empty()
    } else {
        match opt_as_str(items[0].spec_get("id"@)) {
            Some(id) => seq![id] + listed_portfolio_ids(items.drop_first()),
            None => listed_portfolio_ids(items.drop_first()),
        }
    }
}

pub open spec fn response_portfolio_ids(response: Json) -> Seq<Seq<char>> {
    match opt_get(response.spec_get("account"@), "brokerPortfolios"@) {
        Some(Json::Array(items)) => listed_portfolio_ids(items@),
        _ => Seq::empty(),
    }
}

pub open spec fn unresolved_portfolio_message() -> Seq<char> {
    "Unable to resolve broker portfolio id. Provide --portfolio-id or set one via `sc broker context select --portfolio-id ...`"@
}

/// The ids after asking the backend: its account where it names one, and
/// its one portfolio, which must exist.
pub open spec fn spec_finish_broker_ids(
    account_id: Seq<char>,
    account_source: Seq<char>,
    response: Json,
) -> Result<(Seq<char>, Seq<char>, Seq<char>, Seq<char>), Seq<char>> {
    let account = match opt_as_str(opt_get(response.spec_get("account"@), "id"@)) {
        Some(a) if a.len() > 0 => (a, "auto_resolve"@),
        _ => (account_id, account_source),
    };
    match spec_resolve_portfolio_id(response_portfolio_ids(response)) {
        Err(e) => Err(e),
        Ok(None) => Err(unresolved_portfolio_message()),
        Ok(Some(p)) => Ok((account.0, p, account.1, "auto_resolve"@)),
    }
}

pub open spec fn resolved_view(r: Result<ResolvedBrokerIds, ErrorReport>) -> Result<
    (Seq<char>, Seq<char>, Seq<char>, Seq<char>),
    Seq<char>,
> {
    match r {
        Ok(ids) => Ok((ids.account_id@, ids.portfolio_id@, ids.account_source@, ids.portfolio_source@)),
        Err(e) => Err(e.messages()[0]),
    }
}

fn portfolio_ids(response: &Json) -> (res: Vec<String>)
    ensures
        views(res@) == response_portfolio_ids(*response),
{
    let mut out: Vec<String> = Vec::new();
    let items: &Vec<Json> = match response.get("account") {
        Some(a) => match a.get("brokerPortfolios") {
            Some(p) => match p.as_array() {
                Some(items) => items,
                None => {
                    proof {
                        assert(views(out@) =~= Seq::<Seq<char>>::empty());
                    }
                    return out;
                },
            },
            None => {
                proof {
                    assert(views(out@) =~= Seq::<Seq<char>>::empty());
                }
                return out;
            },
        },
        None => {
            proof {
                assert(views(out@) =~= Seq::<Seq<char>>::empty());
            }
            return out;
        },
    };
    let mut i: usize = 0;
    proof {
        assert(items@.skip(0) =~= items@);
        assert(views(out@) + listed_portfolio_ids(items@) =~= listed_portfolio_ids(items@));
    }
    while i < items.len()
        invariant
            i <= items.len(),
            response_portfolio_ids(*response) == listed_portfolio_ids(items@),
            listed_portfolio_ids(items@) == views(out@) + listed_portfolio_ids(items@.skip(i as int)),
        decreases items.len() - i,
    {
        let ghost before = views(out@);
        proof {
            assert(items@.skip(i as int)[0] == items@[i as int]);
            assert(items@.skip(i as int).drop_first() =~= items@.skip(i + 1));
        }
        match items[i].get("id") {
            Some(v) => match v.as_str() {
                Some(id) => {
                    out.push(id.to_owned());
                    proof {
                        assert(views(out@) =~= before.push(id@));
                        assert(before + (seq![id@] + listed_portfolio_ids(items@.skip(i + 1)))
                            =~= views(out@) + listed_portfolio_ids(items@.skip(i + 1)));
                    }
                },
                None => {},
            },
            None => {},
        }
        i = i + 1;
    }
    proof {
        assert(items@.skip(i as int) =~= Seq::<Json>::empty());
        assert(views(out@) + Seq::<Seq<char>>::empty() =~= views(out@));
    }
    out
}

pub fn finish_broker_ids(
    account_id: String,
    account_source: &'static str,
    response: &Json,
) -> (res: Result<ResolvedBrokerIds, ErrorReport>)
    ensures
        plain_errors(res),
        resolved_view(res) == spec_finish_broker_ids(account_id@, account_source@, *response),
        res matches Err(e) ==> e.messages().len() == 1,
{
    let mut account_id = account_id;
    let mut account_source = account_source;
    if let Some(a) = response.get("account") {
        if let Some(v) = a.get("id") {
            if let Some(id) = v.as_str() {
                if chars_of(id).len() > 0 {
                    account_id = id.to_owned();
                    account_source = "auto_resolve";
                }
            }
        }
    }
    let candidates = portfolio_ids(response);
    match resolve_portfolio_id_from_candidates(candidates) {
        Err(e) => Err(e),
        Ok(None) => Err(
            ErrorReport::msg(
                "Unable to resolve broker portfolio id. Provide --portfolio-id or set one via `sc broker context select --portfolio-id ...`",
            ),
        ),
        Ok(Some(portfolio_id)) => Ok(
            ResolvedBrokerIds { account_id, portfolio_id, account_source, portfolio_source: "auto_resolve" },
        ),
    }
}

} // verus!
