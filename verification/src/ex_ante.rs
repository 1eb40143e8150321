//! The single-trade cost disclosure: every cost figure the client must see
//! is present, a missing one filled with zero.
use vstd::prelude::*;

use crate::error_report::{plain_errors, plain_report};
use crate::error_report::ErrorReport;
use crate::fingerprint::lemma_stored_members_view;
use crate::json::{json_view, members_view, opt_get, Json, JsonView};
use crate::projections::json_result;
use crate::text::{push_str_chars, str_eq, string_of, views};

verus! {

/// The index of the first member with the key, or -1.
pub open spec fn member_index(ms: Seq<(Seq<char>, JsonView)>, key: Seq<char>) -> int
    decreases ms.len(),
{
    if ms.len() == 0 {
        -1
    } else if ms[0].0 == key {
        0
    } else {
        let r = member_index(ms.drop_first(), key);
        if r < 0 {
            -1
        } else {
            r + 1
        }
    }
}

proof fn lemma_member_index(ms: Seq<(Seq<char>, JsonView)>, key: Seq<char>)
    ensures
        -1 <= member_index(ms, key) < ms.len(),
        member_index(ms, key) >= 0 ==> ms[member_index(ms, key)].0 == key,
        member_index(ms, key) >= 0 ==> forall|j: int| 0 <= j < member_index(ms, key) ==> ms[j].0 != key,
        member_index(ms, key) < 0 ==> forall|j: int| 0 <= j < ms.len() ==> ms[j].0 != key,
    decreases ms.len(),
{
    if ms.len() > 0 && ms[0].0 != key {
        let rest = ms.drop_first();
        lemma_member_index(rest, key);
        assert forall|j: int| 1 <= j < ms.len() implies ms[j] == rest[j - 1] by {}
    }
}

/// The error for a part of the disclosure that is not an object.
pub open spec fn invalid_payload_message(path: Seq<char>) -> Seq<char> {
    "EX_ANTE_COST_UNAVAILABLE: invalid singleTradeExAnteCosts payload at '"@ + path + "'"@
}

/// A path as shown in an error: `/` for the root.
pub open spec fn display_path(path: Seq<char>) -> Seq<char> {
    if path.len() == 0 {
        "/"@
    } else {
        path
    }
}

/// A path one segment deeper.
pub open spec fn join_path(path: Seq<char>, segment: Seq<char>) -> Seq<char> {
    path + "/"@ + segment
}

/// The value with a figure at the path: every object on the way is created
/// where missing, and a missing figure is zero; a part on the way that is
/// not an object is an error at its path.
pub open spec fn spec_ensure_numeric(v: JsonView, segs: Seq<Seq<char>>, path: Seq<char>) -> Result<
    JsonView,
    Seq<char>,
>
    decreases segs.len(),
{
    if segs.len() == 0 {
        Ok(v)
    } else {
        match v {
            JsonView::Object(ms) => {
                let k = segs[0];
                let i = member_index(ms, k);
                if segs.len() == 1 {
                    if i >= 0 {
                        Ok(v)
                    } else {
                        Ok(JsonView::Object(ms.push((k, JsonView::Number("0"@)))))
                    }
                } else {
                    let next = join_path(path, k);
                    if i >= 0 {
                        match ms[i].1 {
                            JsonView::Object(_) => match spec_ensure_numeric(ms[i].1, segs.drop_first(), next) {
                                Ok(c) => Ok(JsonView::Object(ms.update(i, (k, c)))),
                                Err(e) => Err(e),
                            },
                            _ => Err(invalid_payload_message(next)),
                        }
                    } else {
                        match spec_ensure_numeric(JsonView::Object(Seq::empty()), segs.drop_first(), next) {
                            Ok(c) => Ok(JsonView::Object(ms.push((k, c)))),
                            Err(e) => Err(e),
                        }
                    }
                }
            },
            _ => Err(invalid_payload_message(display_path(path))),
        }
    }
}

fn invalid_payload_report(path: &str) -> (res: ErrorReport)
    ensures
        plain_report(res),
        res.messages() == seq![invalid_payload_message(path@)],
{
    let mut text: Vec<char> = Vec::new();
    push_str_chars(&mut text, "EX_ANTE_COST_UNAVAILABLE: invalid singleTradeExAnteCosts payload at '");
    push_str_chars(&mut text, path);
    push_str_chars(&mut text, "'");
    proof {
        assert(text@ =~= invalid_payload_message(path@));
    }
    let s = string_of(&text);
    ErrorReport::msg(s.as_str())
}

fn joined_path(path: &str, segment: &str) -> (res: String)
    ensures
        res@ == join_path(path@, segment@),
{
    let mut text: Vec<char> = Vec::new();
    push_str_chars(&mut text, path);
    push_str_chars(&mut text, "/");
    push_str_chars(&mut text, segment);
    proof {
        assert(text@ =~= join_path(path@, segment@));
    }
    string_of(&text)
}

fn find_member(fields: &Vec<(String, Json)>, key: &str) -> (res: Option<usize>)
    ensures
        match res {
            Some(i) => i as int == member_index(members_view(fields@), key@) && i < fields.len(),
            None => member_index(members_view(fields@), key@) < 0,
        },
{
    proof {
        lemma_stored_members_view(fields@);
        lemma_member_index(members_view(fields@), key@);
    }
    let mut i: usize = 0;
    while i < fields.len()
        invariant
            i <= fields.len(),
            members_view(fields@).len() == fields.len(),
            forall|k: int| 0 <= k < fields.len() ==> #[trigger] members_view(fields@)[k] == (
                fields@[k].0@,
                json_view(fields@[k].1),
            ),
            forall|j: int| 0 <= j < i ==> members_view(fields@)[j].0 != key@,
            -1 <= member_index(members_view(fields@), key@) < fields.len(),
            member_index(members_view(fields@), key@) >= 0 ==> members_view(fields@)[member_index(
                members_view(fields@),
                key@,
            )].0 == key@,
            member_index(members_view(fields@), key@) >= 0 ==> forall|j: int|
                0 <= j < member_index(members_view(fields@), key@) ==> members_view(fields@)[j].0
                    != key@,
            member_index(members_view(fields@), key@) < 0 ==> forall|j: int|
                0 <= j < fields.len() ==> members_view(fields@)[j].0 != key@,
        decreases fields.len() - i,
    {
        if str_eq(fields[i].0.as_str(), key) {
            proof {
                let m = member_index(members_view(fields@), key@);
                if m < 0 {
                    assert(members_view(fields@)[i as int].0 == key@);
                } else if m < i {
                } else if m > i {
                    assert(members_view(fields@)[i as int].0 == key@);
                }
            }
            return Some(i);
        }
        i = i + 1;
    }
    proof {
        let m = member_index(members_view(fields@), key@);
        if m >= 0 {
            assert(members_view(fields@)[m].0 == key@);
        }
    }
    None
}

/// Puts a figure at the path given by `segs[at..]` below `value`.
pub fn ensure_numeric_path_segments(value: Json, segs: &Vec<String>, at: usize, current_path: &str) -> (res:
    Result<Json, ErrorReport>)
    requires
        at <= segs.len(),
    ensures
        plain_errors(res),
        json_result(res) == spec_ensure_numeric(value@, views(segs@).skip(at as int), current_path@),
    decreases segs.len() - at,
{
    let ghost rest = views(segs@).skip(at as int);
    if at == segs.len() {
        proof {
            assert(rest.len() == 0);
        }
        return Ok(value);
    }
    proof {
        assert(rest[0] == segs@[at as int]@);
        assert(rest.drop_first() =~= views(segs@).skip(at + 1));
    }
    match value {
        Json::Object(mut fields) => {
            let key = segs[at].as_str();
            let found = find_member(&fields, key);
            let ghost ms = members_view(fields@);
            proof {
                lemma_stored_members_view(fields@);
                lemma_member_index(ms, key@);
            }
            if at + 1 == segs.len() {
                match found {
                    Some(_) => Ok(Json::Object(fields)),
                    None => {
                        let ghost before = fields@;
                        fields.push((key.to_owned(), Json::Number("0".to_owned())));
                        proof {
                            reveal_strlit("0");
                            lemma_stored_members_view(fields@);
                            assert(members_view(fields@) =~= ms.push((key@, JsonView::Number("0"@))));
                        }
                        Ok(Json::Object(fields))
                    },
                }
            } else {
                let next = joined_path(current_path, key);
                match found {
                    Some(i) => {
                        let (k, child) = fields.remove(i);
                        proof {
                            assert(k@ == key@);
                            assert(json_view(child) == ms[i as int].1);
                        }
                        match child {
                            Json::Object(_) => {},
                            _ => {
                                return Err(invalid_payload_report(next.as_str()));
                            },
                        }
                        let updated = ensure_numeric_path_segments(child, segs, at + 1, next.as_str())?;
                        fields.insert(i, (k, updated));
                        proof {
                            lemma_stored_members_view(fields@);
                            assert(members_view(fields@) =~= ms.update(i as int, (key@, updated@)));
                        }
                        Ok(Json::Object(fields))
                    },
                    None => {
                        let fresh = Json::Object(Vec::new());
                        proof {
                            assert(members_view(Seq::<(String, Json)>::empty()) =~= Seq::<
                                (Seq<char>, JsonView),
                            >::empty());
                        }
                        let created = ensure_numeric_path_segments(fresh, segs, at + 1, next.as_str())?;
                        fields.push((key.to_owned(), created));
                        proof {
                            lemma_stored_members_view(fields@);
                            assert(members_view(fields@) =~= ms.push((key@, created@)));
                        }
                        Ok(Json::Object(fields))
                    },
                }
            }
        },
        _ => {
            if crate::text::chars_of(current_path).len() == 0 {
                proof {
                    reveal_strlit("/");
                }
                Err(invalid_payload_report("/"))
            } else {
                Err(invalid_payload_report(current_path))
            }
        },
    }
}

/// The figures at every path, one path after the other.
pub open spec fn spec_ensure_all(v: JsonView, paths: Seq<Seq<Seq<char>>>) -> Result<JsonView, Seq<char>>
    decreases paths.len(),
{
    if paths.len() == 0 {
        Ok(v)
    } else {
        match spec_ensure_all(v, paths.drop_last()) {
            Ok(w) => spec_ensure_numeric(w, paths.last(), Seq::empty()),
            Err(e) => Err(e),
        }
    }
}

/// Path segments of three names.
pub open spec fn path3(a: Seq<char>, b: Seq<char>, c: Seq<char>) -> Seq<Seq<char>> {
    seq![a, b, c]
}

/// The figures every disclosure must have.
pub open spec fn required_ex_ante_paths() -> Seq<Seq<Seq<char>>> {
    seq![
        path3("ongoingCosts"@, "serviceCosts"@, "amount"@),
        path3("ongoingCosts"@, "serviceCosts"@, "percentage"@),
        path3("ongoingCosts"@, "productCosts"@, "amount"@),
        path3("ongoingCosts"@, "productCosts"@, "percentage"@),
        path3("ongoingCosts"@, "total"@, "amount"@),
        path3("ongoingCosts"@, "total"@, "percentage"@),
        path3("exitCosts"@, "serviceCosts"@, "amount"@),
        path3("exitCosts"@, "serviceCosts"@, "percentage"@),
        path3("exitCosts"@, "productCosts"@, "amount"@),
        path3("exitCosts"@, "productCosts"@, "percentage"@),
        path3("exitCosts"@, "total"@, "amount"@),
        path3("exitCosts"@, "total"@, "percentage"@),
        path3("effectOnReturn"@, "finalYearCosts"@, "amount"@),
        path3("effectOnReturn"@, "finalYearCosts"@, "percentage"@),
    ]
}

/// The figures of the entry costs, which may be null as a whole.
pub open spec fn entry_ex_ante_paths() -> Seq<Seq<Seq<char>>> {
    seq![
        path3("entryCosts"@, "serviceCosts"@, "amount"@),
        path3("entryCosts"@, "serviceCosts"@, "percentage"@),
        path3("entryCosts"@, "productCosts"@, "amount"@),
        path3("entryCosts"@, "productCosts"@, "percentage"@),
        path3("entryCosts"@, "total"@, "amount"@),
        path3("entryCosts"@, "total"@, "percentage"@),
    ]
}

/// The figures of the first year's effect on return, which may be null.
pub open spec fn initial_year_ex_ante_paths() -> Seq<Seq<Seq<char>>> {
    seq![
        path3("effectOnReturn"@, "initialYearCosts"@, "amount"@),
        path3("effectOnReturn"@, "initialYearCosts"@, "percentage"@),
    ]
}

/// The figures of the following years' effect on return, which may be null.
pub open spec fn following_years_ex_ante_paths() -> Seq<Seq<Seq<char>>> {
    seq![
        path3("effectOnReturn"@, "followingYearsCosts"@, "amount"@),
        path3("effectOnReturn"@, "followingYearsCosts"@, "percentage"@),
    ]
}

/// The value at a path of member names, where every step is an object that
/// has the member.
pub open spec fn spec_pointer(v: JsonView, segs: Seq<Seq<char>>) -> Option<JsonView>
    decreases segs.len(),
{
    if segs.len() == 0 {
        Some(v)
    } else {
        match v {
            JsonView::Object(ms) => {
                let i = member_index(ms, segs[0]);
                if i >= 0 {
                    spec_pointer(ms[i].1, segs.drop_first())
                } else {
                    None
                }
            },
            _ => None,
        }
    }
}

/// A group of figures that may be null as a whole: null leaves it as it is,
/// an object gets its figures; anything else, or nothing, is an error at the
/// group's path.
pub open spec fn spec_nullable_group(
    v: JsonView,
    root: Seq<Seq<char>>,
    root_text: Seq<char>,
    paths: Seq<Seq<Seq<char>>>,
) -> Result<JsonView, Seq<char>> {
    match spec_pointer(v, root) {
        Some(JsonView::Null) => Ok(v),
        Some(JsonView::Object(_)) => spec_ensure_all(v, paths),
        _ => Err(invalid_payload_message(root_text)),
    }
}

/// The disclosure with every required figure, and every figure of the groups
/// that are not null.
pub open spec fn spec_normalize_ex_ante_costs(v: JsonView) -> Result<JsonView, Seq<char>> {
    match spec_ensure_all(v, required_ex_ante_paths()) {
        Err(e) => Err(e),
        Ok(a) => match spec_nullable_group(a, seq!["entryCosts"@], "/entryCosts"@, entry_ex_ante_paths()) {
            Err(e) => Err(e),
            Ok(b) => match spec_nullable_group(
                b,
                seq!["effectOnReturn"@, "initialYearCosts"@],
                "/effectOnReturn/initialYearCosts"@,
                initial_year_ex_ante_paths(),
            ) {
                Err(e) => Err(e),
                Ok(c) => spec_nullable_group(
                    c,
                    seq!["effectOnReturn"@, "followingYearsCosts"@],
                    "/effectOnReturn/followingYearsCosts"@,
                    following_years_ex_ante_paths(),
                ),
            },
        },
    }
}

fn segs3(a: &str, b: &str, c: &str) -> (res: Vec<String>)
    ensures
        views(res@) == path3(a@, b@, c@),
{
    let res: Vec<String> = vec![a.to_owned(), b.to_owned(), c.to_owned()];
    proof {
        assert(views(res@) =~= path3(a@, b@, c@));
    }
    res
}

proof fn lemma_ensure_all_stays_failed(v: JsonView, paths: Seq<Seq<Seq<char>>>, extra: int)
    requires
        spec_ensure_all(v, paths) is Err,
        0 <= extra,
    ensures
        forall|more: Seq<Seq<Seq<char>>>|
            more.len() == extra ==> #[trigger] spec_ensure_all(v, paths + more) == spec_ensure_all(v, paths),
    decreases extra,
{
    assert forall|more: Seq<Seq<Seq<char>>>|
        more.len() == extra implies #[trigger] spec_ensure_all(v, paths + more) == spec_ensure_all(
        v,
        paths,
    ) by {
        if extra == 0 {
            assert(paths + more =~= paths);
        } else {
            lemma_ensure_all_stays_failed(v, paths, extra - 1);
            assert((paths + more).drop_last() =~= paths + more.drop_last());
            assert(spec_ensure_all(v, paths + more.drop_last()) == spec_ensure_all(v, paths));
        }
    }
}

/// Puts figures at every path, in order.
fn ensure_all(value: Json, paths: &Vec<Vec<String>>) -> (res: Result<Json, ErrorReport>)
    ensures
        plain_errors(res),
        json_result(res) == spec_ensure_all(value@, paths@.map_values(|p: Vec<String>| views(p@))),
{
    let ghost all = paths@.map_values(|p: Vec<String>| views(p@));
    let mut current = value;
    let mut i: usize = 0;
    let ghost start = value@;
    proof {
        assert(all.take(0) =~= Seq::<Seq<Seq<char>>>::empty());
    }
    while i < paths.len()
        invariant
            i <= paths.len(),
            all == paths@.map_values(|p: Vec<String>| views(p@)),
            start == value@,
            spec_ensure_all(start, all.take(i as int)) == Ok::<JsonView, Seq<char>>(current@),
        decreases paths.len() - i,
    {
        proof {
            assert(all.take(i + 1).drop_last() =~= all.take(i as int));
            assert(all.take(i + 1).last() == views(paths@[i as int]@));
            assert(views(paths@[i as int]@).skip(0) =~= views(paths@[i as int]@));
            reveal_strlit("");
        }
        let ghost before = current@;
        current = match ensure_numeric_path_segments(current, &paths[i], 0, "") {
            Ok(next) => next,
            Err(e) => {
                proof {
                    reveal_strlit("");
                    assert(spec_ensure_all(start, all.take(i + 1)) == spec_ensure_numeric(
                        before,
                        views(paths@[i as int]@),
                        Seq::empty(),
                    )) by {
                        assert(all.take(i + 1).drop_last() =~= all.take(i as int));
                        assert(all.take(i + 1).last() == views(paths@[i as int]@));
                    }
                    assert(all.take(i + 1).drop_last() =~= all.take(i as int));
                    assert(all.take(i + 1).last() == views(paths@[i as int]@));
                    lemma_ensure_all_stays_failed(start, all.take(i + 1), all.len() - (i + 1));
                    assert(all.take(i + 1) + all.skip(i + 1) =~= all);
                    assert(spec_ensure_all(start, all.take(i + 1) + all.skip(i + 1)) == spec_ensure_all(
                        start,
                        all.take(i + 1),
                    ));
                }
                return Err(e);
            },
        };
        i = i + 1;
    }
    proof {
        assert(all.take(paths.len() as int) =~= all);
    }
    Ok(current)
}

fn pointer_get<'a>(v: &'a Json, segs: &Vec<String>, at: usize) -> (res: Option<&'a Json>)
    requires
        at <= segs.len(),
    ensures
        match res {
            Some(r) => spec_pointer(v@, views(segs@).skip(at as int)) == Some(r@),
            None => spec_pointer(v@, views(segs@).skip(at as int)) is None,
        },
    decreases segs.len() - at,
{
    let ghost rest = views(segs@).skip(at as int);
    if at == segs.len() {
        proof {
            assert(rest.len() == 0);
        }
        return Some(v);
    }
    proof {
        assert(rest[0] == segs@[at as int]@);
        assert(rest.drop_first() =~= views(segs@).skip(at + 1));
    }
    match v {
        Json::Object(fields) => {
            proof {
                lemma_stored_members_view(fields@);
                lemma_member_index(members_view(fields@), segs@[at as int]@);
            }
            match find_member(fields, segs[at].as_str()) {
                Some(i) => pointer_get(&fields[i].1, segs, at + 1),
                None => None,
            }
        },
        _ => None,
    }
}

fn nullable_group(
    value: Json,
    root: &Vec<String>,
    root_text: &str,
    paths: &Vec<Vec<String>>,
) -> (res: Result<Json, ErrorReport>)
    ensures
        plain_errors(res),
        json_result(res) == spec_nullable_group(
            value@,
            views(root@),
            root_text@,
            paths@.map_values(|p: Vec<String>| views(p@)),
        ),
{
    proof {
        assert(views(root@).skip(0) =~= views(root@));
    }
    let kind: u8 = match pointer_get(&value, root, 0) {
        Some(Json::Null) => 0,
        Some(Json::Object(_)) => 1,
        _ => 2,
    };
    if kind == 0 {
        Ok(value)
    } else if kind == 1 {
        ensure_all(value, paths)
    } else {
        Err(invalid_payload_report(root_text))
    }
}

fn path_list(paths: Vec<Vec<String>>) -> (res: Vec<Vec<String>>)
    ensures
        res@ == paths@,
{
    paths
}

/// The cost disclosure of a single trade, every figure the client must see
/// present; the disclosure is required.
pub open spec fn spec_extract_single_trade_ex_ante_costs(response: Json) -> Result<JsonView, Seq<char>> {
    match opt_get(opt_get(response.spec_get("account"@), "brokerPortfolio"@), "singleTradeExAnteCosts"@) {
        None => Err("EX_ANTE_COST_UNAVAILABLE: missing singleTradeExAnteCosts"@),
        Some(costs) => spec_normalize_ex_ante_costs(costs@),
    }
}

#[verifier::rlimit(40)]
pub fn extract_single_trade_ex_ante_costs(response: &Json) -> (res: Result<Json, ErrorReport>)
    ensures
        plain_errors(res),
        json_result(res) == spec_extract_single_trade_ex_ante_costs(*response),
{
    let costs = match response.get("account") {
        Some(a) => match a.get("brokerPortfolio") {
            Some(p) => p.get("singleTradeExAnteCosts"),
            None => None,
        },
        None => None,
    };
    let costs = match costs {
        Some(c) => c.duplicate(),
        None => {
            return Err(ErrorReport::msg("EX_ANTE_COST_UNAVAILABLE: missing singleTradeExAnteCosts"));
        },
    };
    normalize_single_trade_ex_ante_costs(costs)
}

#[verifier::rlimit(60)]
pub fn normalize_single_trade_ex_ante_costs(costs: Json) -> (res: Result<Json, ErrorReport>)
    ensures
        plain_errors(res),
        json_result(res) == spec_normalize_ex_ante_costs(costs@),
{
    let required = path_list(vec![
        segs3("ongoingCosts", "serviceCosts", "amount"),
        segs3("ongoingCosts", "serviceCosts", "percentage"),
        segs3("ongoingCosts", "productCosts", "amount"),
        segs3("ongoingCosts", "productCosts", "percentage"),
        segs3("ongoingCosts", "total", "amount"),
        segs3("ongoingCosts", "total", "percentage"),
        segs3("exitCosts", "serviceCosts", "amount"),
        segs3("exitCosts", "serviceCosts", "percentage"),
        segs3("exitCosts", "productCosts", "amount"),
        segs3("exitCosts", "productCosts", "percentage"),
        segs3("exitCosts", "total", "amount"),
        segs3("exitCosts", "total", "percentage"),
        segs3("effectOnReturn", "finalYearCosts", "amount"),
        segs3("effectOnReturn", "finalYearCosts", "percentage"),
    ]);
    proof {
        assert(required@.map_values(|p: Vec<String>| views(p@)) =~= required_ex_ante_paths());
    }
    let a = ensure_all(costs, &required)?;
    let entry = path_list(vec![
        segs3("entryCosts", "serviceCosts", "amount"),
        segs3("entryCosts", "serviceCosts", "percentage"),
        segs3("entryCosts", "productCosts", "amount"),
        segs3("entryCosts", "productCosts", "percentage"),
        segs3("entryCosts", "total", "amount"),
        segs3("entryCosts", "total", "percentage"),
    ]);
    let entry_root: Vec<String> = vec!["entryCosts".to_owned()];
    proof {
        assert(entry@.map_values(|p: Vec<String>| views(p@)) =~= entry_ex_ante_paths());
        assert(views(entry_root@) =~= seq!["entryCosts"@]);
    }
    let b = nullable_group(a, &entry_root, "/entryCosts", &entry)?;
    let initial = path_list(vec![
        segs3("effectOnReturn", "initialYearCosts", "amount"),
        segs3("effectOnReturn", "initialYearCosts", "percentage"),
    ]);
    let initial_root: Vec<String> = vec!["effectOnReturn".to_owned(), "initialYearCosts".to_owned()];
    proof {
        assert(initial@.map_values(|p: Vec<String>| views(p@)) =~= initial_year_ex_ante_paths());
        assert(views(initial_root@) =~= seq!["effectOnReturn"@, "initialYearCosts"@]);
    }
    let c = nullable_group(b, &initial_root, "/effectOnReturn/initialYearCosts", &initial)?;
    let following = path_list(vec![
        segs3("effectOnReturn", "followingYearsCosts", "amount"),
        segs3("effectOnReturn", "followingYearsCosts", "percentage"),
    ]);
    let following_root: Vec<String> = vec!["effectOnReturn".to_owned(), "followingYearsCosts".to_owned()];
    proof {
        assert(following@.map_values(|p: Vec<String>| views(p@)) =~= following_years_ex_ante_paths());
        assert(views(following_root@) =~= seq!["effectOnReturn"@, "followingYearsCosts"@]);
    }
    nullable_group(c, &following_root, "/effectOnReturn/followingYearsCosts", &following)
}

// ---------------------------------------------------------------------------
// What filling keeps and what it adds
// ---------------------------------------------------------------------------

/// A figure filled in for one that was missing.
pub open spec fn zero_figure() -> JsonView {
    JsonView::Number("0"@)
}

proof fn lemma_member_index_push(ms: Seq<(Seq<char>, JsonView)>, m: (Seq<char>, JsonView), key: Seq<char>)
    ensures
        member_index(ms, key) >= 0 ==> member_index(ms.push(m), key) == member_index(ms, key),
        member_index(ms, key) < 0 && m.0 == key ==> member_index(ms.push(m), key) == ms.len(),
        member_index(ms, key) < 0 && m.0 != key ==> member_index(ms.push(m), key) < 0,
    decreases ms.len(),
{
    let t = ms.push(m);
    if ms.len() > 0 {
        assert(t[0] == ms[0]);
        assert(t.drop_first() =~= ms.drop_first().push(m));
        lemma_member_index_push(ms.drop_first(), m, key);
    } else {
        assert(t[0] == m);
        assert(t.drop_first() =~= Seq::<(Seq<char>, JsonView)>::empty());
        assert(member_index(t.drop_first(), key) == -1);
    }
}

proof fn lemma_member_index_update(ms: Seq<(Seq<char>, JsonView)>, i: int, m: (Seq<char>, JsonView), key: Seq<char>)
    requires
        0 <= i < ms.len(),
        m.0 == ms[i].0,
    ensures
        member_index(ms.update(i, m), key) == member_index(ms, key),
    decreases ms.len(),
{
    if ms.len() > 0 && i > 0 {
        assert(ms.update(i, m).drop_first() =~= ms.drop_first().update(i - 1, m));
        lemma_member_index_update(ms.drop_first(), i - 1, m, key);
    } else if ms.len() > 0 {
        assert(ms.update(i, m).drop_first() =~= ms.drop_first());
    }
}

/// One figure filled in: at every path as long as the filled one, the value
/// stays as it was, or was missing and is now zero; and the filled path has
/// a value.
proof fn lemma_ensure_numeric_frame(w: JsonView, p: Seq<Seq<char>>, path: Seq<char>)
    requires
        p.len() > 0,
        spec_ensure_numeric(w, p, path) is Ok,
    ensures
        forall|q: Seq<Seq<char>>|
            q.len() == p.len() ==> {
                let r = spec_ensure_numeric(w, p, path)->Ok_0;
                ||| spec_pointer(r, q) == #[trigger] spec_pointer(w, q)
                ||| spec_pointer(w, q) is None && spec_pointer(r, q) == Some(zero_figure())
            },
        spec_pointer(spec_ensure_numeric(w, p, path)->Ok_0, p) is Some,
    decreases p.len(),
{
    let r = spec_ensure_numeric(w, p, path)->Ok_0;
    let ms = w->Object_0;
    let k = p[0];
    let i = member_index(ms, k);
    lemma_member_index(ms, k);
    if p.len() == 1 {
        if i < 0 {
            let m = (k, zero_figure());
            assert forall|q: Seq<Seq<char>>| q.len() == p.len() implies {
                ||| spec_pointer(r, q) == #[trigger] spec_pointer(w, q)
                ||| spec_pointer(w, q) is None && spec_pointer(r, q) == Some(zero_figure())
            } by {
                let t = ms.push(m);
                lemma_member_index_push(ms, m, q[0]);
                lemma_member_index(ms, q[0]);
                lemma_member_index(t, q[0]);
                assert(r == JsonView::Object(t));
                let e = q.drop_first();
                assert(e.len() == 0);
                let j = member_index(t, q[0]);
                if j >= 0 {
                    assert(spec_pointer(r, q) == spec_pointer(t[j].1, e));
                    assert(spec_pointer(t[j].1, e) == Some(t[j].1));
                    if member_index(ms, q[0]) >= 0 {
                        assert(t[j] == ms[j]);
                        assert(spec_pointer(w, q) == spec_pointer(ms[j].1, e));
                        assert(spec_pointer(ms[j].1, e) == Some(ms[j].1));
                    } else {
                        assert(j == ms.len());
                        assert(t[j] == m);
                    }
                } else {
                    assert(spec_pointer(r, q) is None);
                }
            }
            lemma_member_index_push(ms, m, k);
            assert(ms.push(m)[ms.len() as int] == m);
            assert(spec_pointer(r, p) == spec_pointer(m.1, p.drop_first()));
            assert(spec_pointer(m.1, p.drop_first()) is Some);
        } else {
            assert(r == w);
            assert(spec_pointer(w, p) == spec_pointer(ms[i].1, p.drop_first()));
            assert(spec_pointer(ms[i].1, p.drop_first()) is Some);
        }
    } else {
        let next = join_path(path, k);
        let rest = p.drop_first();
        if i >= 0 {
            let child = ms[i].1;
            lemma_ensure_numeric_frame(child, rest, next);
            let c = spec_ensure_numeric(child, rest, next)->Ok_0;
            let m = (k, c);
            lemma_member_index_update(ms, i, m, k);
            assert forall|q: Seq<Seq<char>>| q.len() == p.len() implies {
                ||| spec_pointer(r, q) == #[trigger] spec_pointer(w, q)
                ||| spec_pointer(w, q) is None && spec_pointer(r, q) == Some(zero_figure())
            } by {
                lemma_member_index_update(ms, i, m, q[0]);
                lemma_member_index(ms, q[0]);
                let j = member_index(ms, q[0]);
                if q[0] == k {
                    assert(q.drop_first().len() == rest.len());
                    assert(spec_pointer(c, q.drop_first()) == spec_pointer(child, q.drop_first())
                        || (spec_pointer(child, q.drop_first()) is None && spec_pointer(c, q.drop_first())
                        == Some(zero_figure())));
                } else if j >= 0 {
                    assert(ms.update(i, m)[j] == ms[j]);
                }
            }
            assert(ms.update(i, m)[i] == m);
            assert(spec_pointer(r, p) == spec_pointer(c, rest));
        } else {
            let empty = JsonView::Object(Seq::empty());
            lemma_ensure_numeric_frame(empty, rest, next);
            let c = spec_ensure_numeric(empty, rest, next)->Ok_0;
            let m = (k, c);
            assert forall|q: Seq<Seq<char>>| q.len() == p.len() implies {
                ||| spec_pointer(r, q) == #[trigger] spec_pointer(w, q)
                ||| spec_pointer(w, q) is None && spec_pointer(r, q) == Some(zero_figure())
            } by {
                lemma_member_index_push(ms, m, q[0]);
                lemma_member_index(ms, q[0]);
                let j = member_index(ms, q[0]);
                if q[0] == k {
                    let qr = q.drop_first();
                    assert(qr.len() == rest.len());
                    assert(member_index(Seq::<(Seq<char>, JsonView)>::empty(), qr[0]) == -1);
                    assert(spec_pointer(empty, qr) is None);
                    assert(ms.push(m)[ms.len() as int] == m);
                } else if j >= 0 {
                    assert(ms.push(m)[j] == ms[j]);
                }
            }
            lemma_member_index_push(ms, m, k);
            assert(ms.push(m)[ms.len() as int] == m);
            assert(spec_pointer(r, p) == spec_pointer(c, rest));
        }
    }
}

/// Filling figures at paths of one length keeps every value already there
/// at a path of that length, puts zero where one was missing and nothing
/// else, and leaves a value at every path asked for.
pub proof fn filled_figures_keep_present_values_and_fill_zero(
    v: JsonView,
    paths: Seq<Seq<Seq<char>>>,
    n: nat,
)
    requires
        n > 0,
        forall|j: int| 0 <= j < paths.len() ==> (#[trigger] paths[j]).len() == n,
        spec_ensure_all(v, paths) is Ok,
    ensures
        forall|q: Seq<Seq<char>>|
            q.len() == n ==> {
                let r = spec_ensure_all(v, paths)->Ok_0;
                ||| spec_pointer(r, q) == #[trigger] spec_pointer(v, q)
                ||| spec_pointer(v, q) is None && spec_pointer(r, q) == Some(zero_figure())
            },
        forall|j: int|
            0 <= j < paths.len() ==> spec_pointer(spec_ensure_all(v, paths)->Ok_0, #[trigger] paths[j]) is Some,
    decreases paths.len(),
{
    if paths.len() > 0 {
        let init = paths.drop_last();
        assert forall|j: int| 0 <= j < init.len() implies (#[trigger] init[j]).len() == n by {
            assert(init[j] == paths[j]);
        }
        filled_figures_keep_present_values_and_fill_zero(v, init, n);
        let w = spec_ensure_all(v, init)->Ok_0;
        let last = paths.last();
        assert(last == paths[paths.len() - 1]);
        lemma_ensure_numeric_frame(w, last, Seq::empty());
        let r = spec_ensure_all(v, paths)->Ok_0;
        assert forall|q: Seq<Seq<char>>| q.len() == n implies {
            ||| spec_pointer(r, q) == #[trigger] spec_pointer(v, q)
            ||| spec_pointer(v, q) is None && spec_pointer(r, q) == Some(zero_figure())
        } by {
            assert(spec_pointer(w, q) == spec_pointer(v, q) || (spec_pointer(v, q) is None
                && spec_pointer(w, q) == Some(zero_figure())));
        }
        assert forall|j: int| 0 <= j < paths.len() implies spec_pointer(r, #[trigger] paths[j]) is Some by {
            if j < paths.len() - 1 {
                assert(init[j] == paths[j]);
                assert(spec_pointer(w, paths[j]) is Some);
            }
        }
    }
}

/// The figures of a disclosure: what a normalized one keeps of the
/// response and what it adds.
pub open spec fn kept_or_zero(before: JsonView, after: JsonView, q: Seq<Seq<char>>) -> bool {
    ||| spec_pointer(after, q) == spec_pointer(before, q)
    ||| spec_pointer(before, q) is None && spec_pointer(after, q) == Some(zero_figure())
}

proof fn lemma_group_kept_or_zero(
    v: JsonView,
    root: Seq<Seq<char>>,
    root_text: Seq<char>,
    paths: Seq<Seq<Seq<char>>>,
)
    requires
        forall|j: int| 0 <= j < paths.len() ==> (#[trigger] paths[j]).len() == 3,
        spec_nullable_group(v, root, root_text, paths) is Ok,
    ensures
        forall|q: Seq<Seq<char>>|
            q.len() == 3 ==> #[trigger] kept_or_zero(v, spec_nullable_group(v, root, root_text, paths)->Ok_0, q),
{
    match spec_pointer(v, root) {
        Some(JsonView::Object(_)) => {
            filled_figures_keep_present_values_and_fill_zero(v, paths, 3);
        },
        _ => {},
    }
}

/// A normalized disclosure keeps every figure the response had, puts zero
/// where a figure was missing and nowhere else, and has every required
/// figure.
pub proof fn normalized_disclosure_keeps_figures_and_fills_zero(v: JsonView)
    requires
        spec_normalize_ex_ante_costs(v) is Ok,
    ensures
        forall|q: Seq<Seq<char>>|
            q.len() == 3 ==> #[trigger] kept_or_zero(v, spec_normalize_ex_ante_costs(v)->Ok_0, q),
        forall|j: int|
            0 <= j < required_ex_ante_paths().len() ==> spec_pointer(
                spec_normalize_ex_ante_costs(v)->Ok_0,
                #[trigger] required_ex_ante_paths()[j],
            ) is Some,
{
    let req = required_ex_ante_paths();
    assert forall|j: int| 0 <= j < req.len() implies (#[trigger] req[j]).len() == 3 by {}
    filled_figures_keep_present_values_and_fill_zero(v, req, 3);
    let a = spec_ensure_all(v, req)->Ok_0;
    let entry = entry_ex_ante_paths();
    assert forall|j: int| 0 <= j < entry.len() implies (#[trigger] entry[j]).len() == 3 by {}
    lemma_group_kept_or_zero(a, seq!["entryCosts"@], "/entryCosts"@, entry);
    let b = spec_nullable_group(a, seq!["entryCosts"@], "/entryCosts"@, entry)->Ok_0;
    let initial = initial_year_ex_ante_paths();
    assert forall|j: int| 0 <= j < initial.len() implies (#[trigger] initial[j]).len() == 3 by {}
    let iroot = seq!["effectOnReturn"@, "initialYearCosts"@];
    lemma_group_kept_or_zero(b, iroot, "/effectOnReturn/initialYearCosts"@, initial);
    let c = spec_nullable_group(b, iroot, "/effectOnReturn/initialYearCosts"@, initial)->Ok_0;
    let following = following_years_ex_ante_paths();
    assert forall|j: int| 0 <= j < following.len() implies (#[trigger] following[j]).len() == 3 by {}
    let froot = seq!["effectOnReturn"@, "followingYearsCosts"@];
    lemma_group_kept_or_zero(c, froot, "/effectOnReturn/followingYearsCosts"@, following);
    let r = spec_nullable_group(c, froot, "/effectOnReturn/followingYearsCosts"@, following)->Ok_0;
    assert(r == spec_normalize_ex_ante_costs(v)->Ok_0);
    assert forall|q: Seq<Seq<char>>| q.len() == 3 implies #[trigger] kept_or_zero(v, r, q) by {
        assert(spec_pointer(a, q) == spec_pointer(v, q) || (spec_pointer(v, q) is None
            && spec_pointer(a, q) == Some(zero_figure())));
        assert(kept_or_zero(a, b, q));
        assert(kept_or_zero(b, c, q));
        assert(kept_or_zero(c, r, q));
    }
    assert forall|j: int| 0 <= j < req.len() implies spec_pointer(r, #[trigger] req[j]) is Some by {
        assert(spec_pointer(a, req[j]) is Some);
        assert(kept_or_zero(a, b, req[j]));
        assert(kept_or_zero(b, c, req[j]));
        assert(kept_or_zero(c, r, req[j]));
    }
}

/// `q` leaves `p` at an index that both have: it agrees with `p` before
/// that index and differs there.
pub open spec fn leaves_at(q: Seq<Seq<char>>, p: Seq<Seq<char>>, j: int) -> bool {
    &&& 0 <= j < p.len()
    &&& j < q.len()
    &&& q[j] != p[j]
    &&& forall|k: int| 0 <= k < j ==> q[k] == p[k]
}

/// Filling one figure leaves alone every path that leaves the filled one.
proof fn lemma_ensure_numeric_elsewhere(
    w: JsonView,
    p: Seq<Seq<char>>,
    path: Seq<char>,
    q: Seq<Seq<char>>,
    j: int,
)
    requires
        spec_ensure_numeric(w, p, path) is Ok,
        leaves_at(q, p, j),
    ensures
        spec_pointer(spec_ensure_numeric(w, p, path)->Ok_0, q) == spec_pointer(w, q),
    decreases p.len(),
{
    let r = spec_ensure_numeric(w, p, path)->Ok_0;
    let ms = w->Object_0;
    let k = p[0];
    let i = member_index(ms, k);
    lemma_member_index(ms, k);
    lemma_member_index(ms, q[0]);
    let qr = q.drop_first();
    let jdx = member_index(ms, q[0]);
    if j == 0 {
        if p.len() == 1 {
            if i < 0 {
                let m = (k, zero_figure());
                lemma_member_index_push(ms, m, q[0]);
                assert(r == JsonView::Object(ms.push(m)));
                if jdx >= 0 {
                    assert(ms.push(m)[jdx] == ms[jdx]);
                }
            }
        } else {
            let next = join_path(path, k);
            if i >= 0 {
                let c = spec_ensure_numeric(ms[i].1, p.drop_first(), next)->Ok_0;
                let m = (k, c);
                lemma_member_index_update(ms, i, m, q[0]);
                assert(r == JsonView::Object(ms.update(i, m)));
                if jdx >= 0 {
                    assert(ms.update(i, m)[jdx] == ms[jdx]);
                }
            } else {
                let c = spec_ensure_numeric(JsonView::Object(Seq::empty()), p.drop_first(), next)->Ok_0;
                let m = (k, c);
                lemma_member_index_push(ms, m, q[0]);
                assert(r == JsonView::Object(ms.push(m)));
                if jdx >= 0 {
                    assert(ms.push(m)[jdx] == ms[jdx]);
                }
            }
        }
    } else {
        assert(q[0] == k);
        let next = join_path(path, k);
        let rest = p.drop_first();
        assert(leaves_at(qr, rest, j - 1)) by {
            assert forall|x: int| 0 <= x < j - 1 implies qr[x] == rest[x] by {
                assert(q[x + 1] == p[x + 1]);
            }
        }
        if i >= 0 {
            let child = ms[i].1;
            lemma_ensure_numeric_elsewhere(child, rest, next, qr, j - 1);
            let c = spec_ensure_numeric(child, rest, next)->Ok_0;
            let m = (k, c);
            lemma_member_index_update(ms, i, m, k);
            assert(r == JsonView::Object(ms.update(i, m)));
            assert(ms.update(i, m)[i] == m);
            assert(spec_pointer(r, q) == spec_pointer(c, qr));
            assert(spec_pointer(w, q) == spec_pointer(child, qr));
        } else {
            let empty = JsonView::Object(Seq::empty());
            lemma_ensure_numeric_elsewhere(empty, rest, next, qr, j - 1);
            let c = spec_ensure_numeric(empty, rest, next)->Ok_0;
            let m = (k, c);
            lemma_member_index_push(ms, m, k);
            assert(r == JsonView::Object(ms.push(m)));
            assert(ms.push(m)[ms.len() as int] == m);
            assert(spec_pointer(r, q) == spec_pointer(c, qr));
            assert(member_index(Seq::<(Seq<char>, JsonView)>::empty(), qr[0]) == -1);
            assert(spec_pointer(empty, qr) is None);
        }
    }
}

/// `q` leaves `p` somewhere.
pub open spec fn leaves(q: Seq<Seq<char>>, p: Seq<Seq<char>>) -> bool {
    exists|j: int| leaves_at(q, p, j)
}

proof fn lemma_ensure_all_elsewhere(v: JsonView, paths: Seq<Seq<Seq<char>>>, q: Seq<Seq<char>>)
    requires
        spec_ensure_all(v, paths) is Ok,
        forall|i: int| 0 <= i < paths.len() ==> leaves(q, #[trigger] paths[i]),
    ensures
        spec_pointer(spec_ensure_all(v, paths)->Ok_0, q) == spec_pointer(v, q),
    decreases paths.len(),
{
    if paths.len() > 0 {
        let init = paths.drop_last();
        assert forall|i: int| 0 <= i < init.len() implies leaves(q, #[trigger] init[i]) by {
            assert(init[i] == paths[i]);
        }
        lemma_ensure_all_elsewhere(v, init, q);
        let w = spec_ensure_all(v, init)->Ok_0;
        let last = paths.last();
        assert(leaves(q, paths[paths.len() - 1]));
        let j = choose|j: int| leaves_at(q, last, j);
        lemma_ensure_numeric_elsewhere(w, last, Seq::empty(), q, j);
    }
}

proof fn lemma_group_elsewhere(
    v: JsonView,
    root: Seq<Seq<char>>,
    root_text: Seq<char>,
    paths: Seq<Seq<Seq<char>>>,
    q: Seq<Seq<char>>,
)
    requires
        spec_nullable_group(v, root, root_text, paths) is Ok,
        forall|i: int| 0 <= i < paths.len() ==> leaves(q, #[trigger] paths[i]),
    ensures
        spec_pointer(spec_nullable_group(v, root, root_text, paths)->Ok_0, q) == spec_pointer(v, q),
{
    match spec_pointer(v, root) {
        Some(JsonView::Object(_)) => {
            lemma_ensure_all_elsewhere(v, paths, q);
        },
        _ => {},
    }
}

/// The three groups of figures that may be null as a whole.
pub open spec fn entry_root() -> Seq<Seq<char>> {
    seq!["entryCosts"@]
}

pub open spec fn initial_year_root() -> Seq<Seq<char>> {
    seq!["effectOnReturn"@, "initialYearCosts"@]
}

pub open spec fn following_years_root() -> Seq<Seq<char>> {
    seq!["effectOnReturn"@, "followingYearsCosts"@]
}

proof fn lemma_roots_left()
    ensures
        forall|i: int| 0 <= i < required_ex_ante_paths().len() ==> leaves(entry_root(), #[trigger] required_ex_ante_paths()[i]),
        forall|i: int| 0 <= i < initial_year_ex_ante_paths().len() ==> leaves(entry_root(), #[trigger] initial_year_ex_ante_paths()[i]),
        forall|i: int| 0 <= i < following_years_ex_ante_paths().len() ==> leaves(entry_root(), #[trigger] following_years_ex_ante_paths()[i]),
        forall|i: int| 0 <= i < required_ex_ante_paths().len() ==> leaves(initial_year_root(), #[trigger] required_ex_ante_paths()[i]),
        forall|i: int| 0 <= i < entry_ex_ante_paths().len() ==> leaves(initial_year_root(), #[trigger] entry_ex_ante_paths()[i]),
        forall|i: int| 0 <= i < following_years_ex_ante_paths().len() ==> leaves(initial_year_root(), #[trigger] following_years_ex_ante_paths()[i]),
        forall|i: int| 0 <= i < required_ex_ante_paths().len() ==> leaves(following_years_root(), #[trigger] required_ex_ante_paths()[i]),
        forall|i: int| 0 <= i < entry_ex_ante_paths().len() ==> leaves(following_years_root(), #[trigger] entry_ex_ante_paths()[i]),
        forall|i: int| 0 <= i < initial_year_ex_ante_paths().len() ==> leaves(following_years_root(), #[trigger] initial_year_ex_ante_paths()[i]),
{
    reveal_strlit("entryCosts");
    reveal_strlit("ongoingCosts");
    reveal_strlit("exitCosts");
    reveal_strlit("effectOnReturn");
    reveal_strlit("initialYearCosts");
    reveal_strlit("followingYearsCosts");
    reveal_strlit("finalYearCosts");
    assert("entryCosts"@.len() == 10);
    assert("ongoingCosts"@.len() == 12);
    assert("exitCosts"@.len() == 9);
    assert("effectOnReturn"@.len() == 14);
    assert("initialYearCosts"@.len() == 16);
    assert("followingYearsCosts"@.len() == 19);
    assert("finalYearCosts"@.len() == 14);
    let e = entry_root();
    let ir = initial_year_root();
    let fr = following_years_root();
    let req = required_ex_ante_paths();
    let ent = entry_ex_ante_paths();
    let ini = initial_year_ex_ante_paths();
    let fol = following_years_ex_ante_paths();
    assert forall|i: int| 0 <= i < req.len() implies leaves(e, #[trigger] req[i]) by {
        assert(leaves_at(e, req[i], 0));
    }
    assert forall|i: int| 0 <= i < ini.len() implies leaves(e, #[trigger] ini[i]) by {
        assert(leaves_at(e, ini[i], 0));
    }
    assert forall|i: int| 0 <= i < fol.len() implies leaves(e, #[trigger] fol[i]) by {
        assert(leaves_at(e, fol[i], 0));
    }
    assert forall|i: int| 0 <= i < req.len() implies leaves(ir, #[trigger] req[i]) by {
        if i < 12 {
            assert(leaves_at(ir, req[i], 0));
        } else {
            assert(leaves_at(ir, req[i], 1));
        }
    }
    assert forall|i: int| 0 <= i < ent.len() implies leaves(ir, #[trigger] ent[i]) by {
        assert(leaves_at(ir, ent[i], 0));
    }
    assert forall|i: int| 0 <= i < fol.len() implies leaves(ir, #[trigger] fol[i]) by {
        assert(leaves_at(ir, fol[i], 1));
    }
    assert forall|i: int| 0 <= i < req.len() implies leaves(fr, #[trigger] req[i]) by {
        if i < 12 {
            assert(leaves_at(fr, req[i], 0));
        } else {
            assert(leaves_at(fr, req[i], 1));
        }
    }
    assert forall|i: int| 0 <= i < ent.len() implies leaves(fr, #[trigger] ent[i]) by {
        assert(leaves_at(fr, ent[i], 0));
    }
    assert forall|i: int| 0 <= i < ini.len() implies leaves(fr, #[trigger] ini[i]) by {
        assert(leaves_at(fr, ini[i], 1));
    }
}

/// A group that may be null as a whole: null in the response, it stays null;
/// an object in the response, every figure of the group is there after.
pub open spec fn group_kept_or_filled(
    before: JsonView,
    after: JsonView,
    root: Seq<Seq<char>>,
    paths: Seq<Seq<Seq<char>>>,
) -> bool {
    &&& spec_pointer(before, root) == Some(JsonView::Null) ==> spec_pointer(after, root) == Some(JsonView::Null)
    &&& spec_pointer(before, root) matches Some(JsonView::Object(_)) ==> forall|i: int|
        0 <= i < paths.len() ==> spec_pointer(after, #[trigger] paths[i]) is Some
}

/// In a normalized disclosure the entry costs and the costs of the first and
/// of the following years stay null where the response had them null, and
/// have every one of their figures where the response had them as objects.
pub proof fn nullable_groups_stay_null_or_get_every_figure(v: JsonView)
    requires
        spec_normalize_ex_ante_costs(v) is Ok,
    ensures
        group_kept_or_filled(v, spec_normalize_ex_ante_costs(v)->Ok_0, entry_root(), entry_ex_ante_paths()),
        group_kept_or_filled(
            v,
            spec_normalize_ex_ante_costs(v)->Ok_0,
            initial_year_root(),
            initial_year_ex_ante_paths(),
        ),
        group_kept_or_filled(
            v,
            spec_normalize_ex_ante_costs(v)->Ok_0,
            following_years_root(),
            following_years_ex_ante_paths(),
        ),
{
    let req = required_ex_ante_paths();
    let ent = entry_ex_ante_paths();
    let ini = initial_year_ex_ante_paths();
    let fol = following_years_ex_ante_paths();
    let e = entry_root();
    let ir = initial_year_root();
    let fr = following_years_root();
    assert forall|j: int| 0 <= j < ent.len() implies (#[trigger] ent[j]).len() == 3 by {}
    assert forall|j: int| 0 <= j < ini.len() implies (#[trigger] ini[j]).len() == 3 by {}
    assert forall|j: int| 0 <= j < fol.len() implies (#[trigger] fol[j]).len() == 3 by {}
    lemma_roots_left();
    let a = spec_ensure_all(v, req)->Ok_0;
    let b = spec_nullable_group(a, e, "/entryCosts"@, ent)->Ok_0;
    let c = spec_nullable_group(b, ir, "/effectOnReturn/initialYearCosts"@, ini)->Ok_0;
    let r = spec_nullable_group(c, fr, "/effectOnReturn/followingYearsCosts"@, fol)->Ok_0;
    assert(r == spec_normalize_ex_ante_costs(v)->Ok_0);
    lemma_group_kept_or_zero(b, ir, "/effectOnReturn/initialYearCosts"@, ini);
    lemma_group_kept_or_zero(c, fr, "/effectOnReturn/followingYearsCosts"@, fol);
    // The entry costs.
    lemma_ensure_all_elsewhere(v, req, e);
    lemma_group_elsewhere(b, ir, "/effectOnReturn/initialYearCosts"@, ini, e);
    lemma_group_elsewhere(c, fr, "/effectOnReturn/followingYearsCosts"@, fol, e);
    if spec_pointer(v, e) matches Some(JsonView::Object(_)) {
        filled_figures_keep_present_values_and_fill_zero(a, ent, 3);
        assert forall|i: int| 0 <= i < ent.len() implies spec_pointer(r, #[trigger] ent[i]) is Some by {
            assert(spec_pointer(b, ent[i]) is Some);
            assert(kept_or_zero(b, c, ent[i]));
            assert(kept_or_zero(c, r, ent[i]));
        }
    }
    // The costs of the first year.
    lemma_ensure_all_elsewhere(v, req, ir);
    lemma_group_elsewhere(a, e, "/entryCosts"@, ent, ir);
    lemma_group_elsewhere(c, fr, "/effectOnReturn/followingYearsCosts"@, fol, ir);
    if spec_pointer(v, ir) matches Some(JsonView::Object(_)) {
        filled_figures_keep_present_values_and_fill_zero(b, ini, 3);
        assert forall|i: int| 0 <= i < ini.len() implies spec_pointer(r, #[trigger] ini[i]) is Some by {
            assert(spec_pointer(c, ini[i]) is Some);
            assert(kept_or_zero(c, r, ini[i]));
        }
    }
    // The costs of the following years.
    lemma_ensure_all_elsewhere(v, req, fr);
    lemma_group_elsewhere(a, e, "/entryCosts"@, ent, fr);
    lemma_group_elsewhere(b, ir, "/effectOnReturn/initialYearCosts"@, ini, fr);
    if spec_pointer(v, fr) matches Some(JsonView::Object(_)) {
        filled_figures_keep_present_values_and_fill_zero(c, fol, 3);
    }
}

} // verus!
