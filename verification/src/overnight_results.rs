//! What the overnight savings account commands report: the selected account
//! around the query's result, and the transactions' input with its
//! fingerprint.
use vstd::prelude::*;

use crate::broker_variables::jstr;
use crate::fingerprint::{input_fingerprint, spec_input_fingerprint};
use crate::json::{json_view, members_view, Json, JsonView, ObjectBuilder};
use crate::projections::get_or_null;
use crate::text::str_eq;
use crate::overnight_variables::{render_overnight_summary_text, spec_render_overnight_summary_text};

verus! {

/// The members with `key` set to `value`: the first member of that key takes
/// the value, or a new member comes last where there is none.
pub open spec fn put_member(ms: Seq<(Seq<char>, JsonView)>, key: Seq<char>, value: JsonView) -> Seq<
    (Seq<char>, JsonView),
>
    decreases ms.len(),
{
    if ms.len() == 0 {
        seq![(key, value)]
    } else if ms[0].0 == key {
        ms.update(0, (key, value))
    } else {
        seq![ms[0]] + put_member(ms.subrange(1, ms.len() as int), key, value)
    }
}

/// An object with `key` set to `value`; any other value unchanged.
pub open spec fn with_member(v: JsonView, key: Seq<char>, value: JsonView) -> JsonView {
    match v {
        JsonView::Object(ms) => JsonView::Object(put_member(ms, key, value)),
        other => other,
    }
}

pub proof fn lemma_members_view_index(fields: Seq<(String, Json)>)
    ensures
        members_view(fields).len() == fields.len(),
        forall|k: int|
            0 <= k < fields.len() ==> #[trigger] members_view(fields)[k] == (
                fields[k].0@,
                json_view(fields[k].1),
            ),
    decreases fields.len(),
{
    if fields.len() > 0 {
        let t = fields.subrange(1, fields.len() as int);
        lemma_members_view_index(t);
        assert forall|k: int| 0 <= k < fields.len() implies #[trigger] members_view(fields)[k] == (
            fields[k].0@,
            json_view(fields[k].1),
        ) by {
            if k > 0 {
                assert(fields[k] == t[k - 1]);
            }
        }
    }
}

proof fn lemma_put_member_at(ms: Seq<(Seq<char>, JsonView)>, key: Seq<char>, value: JsonView, i: int)
    requires
        0 <= i <= ms.len(),
        forall|j: int| 0 <= j < i ==> #[trigger] ms[j].0 != key,
        i < ms.len() ==> ms[i].0 == key,
    ensures
        put_member(ms, key, value) == if i < ms.len() {
            ms.update(i, (key, value))
        } else {
            ms.push((key, value))
        },
    decreases ms.len(),
{
    if ms.len() == 0 {
    } else if i == 0 {
    } else {
        let t = ms.subrange(1, ms.len() as int);
        assert(ms[0].0 != key);
        assert forall|j: int| 0 <= j < i - 1 implies #[trigger] t[j].0 != key by {
            assert(t[j] == ms[j + 1]);
        }
        if i < ms.len() {
            assert(t[i - 1] == ms[i]);
        }
        lemma_put_member_at(t, key, value, i - 1);
        if i < ms.len() {
            assert(seq![ms[0]] + t.update(i - 1, (key, value)) =~= ms.update(i, (key, value)));
        } else {
            assert(seq![ms[0]] + t.push((key, value)) =~= ms.push((key, value)));
        }
    }
}

/// The value of the first member with a key.
pub open spec fn first_value(ms: Seq<(Seq<char>, JsonView)>, key: Seq<char>) -> Option<JsonView>
    decreases ms.len(),
{
    if ms.len() == 0 {
        None
    } else if ms[0].0 == key {
        Some(ms[0].1)
    } else {
        first_value(ms.subrange(1, ms.len() as int), key)
    }
}

/// Reading a member back after setting it gives the value set, and every
/// other key reads as before.
pub proof fn set_member_reads_back(
    ms: Seq<(Seq<char>, JsonView)>,
    key: Seq<char>,
    value: JsonView,
    other: Seq<char>,
)
    ensures
        first_value(put_member(ms, key, value), key) == Some(value),
        other != key ==> first_value(put_member(ms, key, value), other) == first_value(ms, other),
    decreases ms.len(),
{
    let out = put_member(ms, key, value);
    if ms.len() == 0 {
        let none = Seq::<(Seq<char>, JsonView)>::empty();
        assert(out.subrange(1, out.len() as int) =~= none);
        assert(first_value(none, other) is None);
        assert(out[0] == (key, value));
    } else if ms[0].0 == key {
        let t = ms.subrange(1, ms.len() as int);
        assert(out == ms.update(0, (key, value)));
        assert(out.len() == ms.len());
        assert(out[0] == (key, value));
        assert(out.subrange(1, out.len() as int) =~= t);
        if other != key {
            assert(first_value(out, other) == first_value(t, other));
            assert(first_value(ms, other) == first_value(t, other));
        }
    } else {
        let t = ms.subrange(1, ms.len() as int);
        set_member_reads_back(t, key, value, other);
        let rest = put_member(t, key, value);
        assert(out == seq![ms[0]] + rest);
        assert(out.len() == rest.len() + 1);
        assert(out[0] == ms[0]);
        assert(out.subrange(1, out.len() as int) =~= rest);
        if other != key && ms[0].0 != other {
            assert(first_value(out, other) == first_value(rest, other));
            assert(first_value(ms, other) == first_value(t, other));
        }
    }
}

/// Sets a member of an object; leaves any other value as it is.
pub fn set_member(value: Json, key: &str, member: Json) -> (res: Json)
    ensures
        res@ == with_member(value@, key@, member@),
{
    match value {
        Json::Object(mut fields) => {
            let ghost ms = members_view(fields@);
            proof {
                lemma_members_view_index(fields@);
            }
            let mut i: usize = 0;
            while i < fields.len() && !str_eq(fields[i].0.as_str(), key)
                invariant
                    i <= fields.len(),
                    ms == members_view(fields@),
                    ms.len() == fields.len(),
                    forall|k: int|
                        0 <= k < fields.len() ==> #[trigger] ms[k] == (
                            fields@[k].0@,
                            json_view(fields@[k].1),
                        ),
                    forall|j: int| 0 <= j < i ==> #[trigger] ms[j].0 != key@,
                decreases fields.len() - i,
            {
                i = i + 1;
            }
            let ghost member_view = member@;
            proof {
                lemma_put_member_at(ms, key@, member_view, i as int);
            }
            if i < fields.len() {
                fields.set(i, (key.to_owned(), member));
            } else {
                fields.push((key.to_owned(), member));
            }
            proof {
                lemma_members_view_index(fields@);
                assert(members_view(fields@) =~= put_member(ms, key@, member_view));
            }
            Json::Object(fields)
        },
        other => other,
    }
}

/// The transactions result with the normalized input that was sent and its
/// fingerprint.
pub open spec fn spec_transactions_result(result: JsonView, variables: Json) -> JsonView {
    let input = get_or_null(variables, "input"@);
    with_member(
        with_member(result, "input"@, input),
        "input_fingerprint"@,
        jstr(spec_input_fingerprint(input)),
    )
}

pub fn overnight_transactions_result(result: Json, variables: &Json) -> (res: Json)
    ensures
        res@ == spec_transactions_result(result@, *variables),
{
    let normalized_input = match variables.get("input") {
        Some(v) => v.duplicate(),
        None => Json::Null,
    };
    let fingerprint = input_fingerprint(&normalized_input);
    let with_input = set_member(result, "input", normalized_input);
    set_member(with_input, "input_fingerprint", Json::Str(fingerprint))
}

/// The command's answer: the savings account, how it was selected, what is
/// known of it, and the query's result.
pub open spec fn spec_overnight_envelope(
    savings_account_id: Seq<char>,
    selection_source: Seq<char>,
    display_name: JsonView,
    owner_kind: Seq<char>,
    is_active: JsonView,
    result: JsonView,
) -> JsonView {
    JsonView::Object(
        seq![
            ("savings_account_id"@, jstr(savings_account_id)),
            ("selection"@, JsonView::Object(seq![("account"@, jstr(selection_source))])),
            (
                "account"@,
                JsonView::Object(
                    seq![
                        ("display_name"@, display_name),
                        ("owner_kind"@, jstr(owner_kind)),
                        ("is_active"@, is_active),
                    ],
                ),
            ),
            ("result"@, result),
        ],
    )
}

pub fn overnight_result_envelope(
    savings_account_id: &str,
    selection_source: &str,
    display_name: Json,
    owner_kind: &str,
    is_active: Json,
    result: Json,
) -> (res: Json)
    ensures
        res@ == spec_overnight_envelope(
            savings_account_id@,
            selection_source@,
            display_name@,
            owner_kind@,
            is_active@,
            result@,
        ),
{
    let ghost (d, a, r) = (display_name@, is_active@, result@);
    let mut selection = ObjectBuilder::new();
    selection.add("account", Json::Str(selection_source.to_owned()));
    let mut account = ObjectBuilder::new();
    account.add("display_name", display_name);
    account.add("owner_kind", Json::Str(owner_kind.to_owned()));
    account.add("is_active", is_active);
    proof {
        assert(account.members() =~= seq![("display_name"@, d), ("owner_kind"@, jstr(owner_kind@)), ("is_active"@, a)]);
        assert(selection.members() =~= seq![("account"@, jstr(selection_source@))]);
    }
    let selection = selection.build();
    let account = account.build();
    let ghost (sv, av) = (selection@, account@);
    let mut out = ObjectBuilder::new();
    out.add("savings_account_id", Json::Str(savings_account_id.to_owned()));
    out.add("selection", selection);
    out.add("account", account);
    out.add("result", result);
    proof {
        assert(sv == JsonView::Object(seq![("account"@, jstr(selection_source@))]));
        assert(av == JsonView::Object(seq![("display_name"@, d), ("owner_kind"@, jstr(owner_kind@)), ("is_active"@, a)]));
        assert(out.members() =~= spec_overnight_envelope(
            savings_account_id@,
            selection_source@,
            d,
            owner_kind@,
            a,
            r,
        )->Object_0);
    }
    out.build()
}

/// What a person sees of an overnight command: a JSON payload (compact or
/// not), or lines of text.
pub enum HumanOvernightOutput {
    Json(Json, bool),
    Text(Vec<String>),
}

/// The summary for a person: the payload as compact JSON where JSON was
/// asked for, else its lines of text.
pub fn human_overnight_summary_output(payload: Json, json: bool) -> (res: HumanOvernightOutput)
    ensures
        json ==> (res matches HumanOvernightOutput::Json(p, compact) && p@ == payload@ && compact),
        !json ==> (res matches HumanOvernightOutput::Text(lines) && crate::text::views(lines@)
            == spec_render_overnight_summary_text(payload)),
{
    if json {
        HumanOvernightOutput::Json(payload, true)
    } else {
        HumanOvernightOutput::Text(render_overnight_summary_text(&payload))
    }
}

/// The transactions for a person: always JSON, compact where JSON was asked
/// for.
pub fn human_overnight_transactions_output(payload: Json, json: bool) -> (res: HumanOvernightOutput)
    ensures
        res matches HumanOvernightOutput::Json(p, compact) && p@ == payload@ && compact == json,
{
    HumanOvernightOutput::Json(payload, json)
}

} // verus!
