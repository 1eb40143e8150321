//! Portfolio groups: the input a group command accepts, the details an
//! update keeps, and the membership changes that would change nothing.
use vstd::prelude::*;

use crate::error_report::{plain_errors, plain_report};
use crate::broker_queries::{field_error, field_error_report, normalize_broker_isin, spec_normalize_isin};
use crate::error_report::ErrorReport;
use crate::isin::spec_is_valid_isin;
use crate::json::{opt_as_str, opt_get, opt_ref, Json};
use crate::markers::BROKER_PORTFOLIO_GROUP_NOT_FOUND_ERROR_PREFIX;
use crate::text::{
    upper, chars_of, join, join_strings, opt_slice, push_str_chars, str_eq, string_of, trim, trim_chars, views,
};

verus! {

/// Whether a membership change adds items to a group or takes them out.
#[derive(Debug, Clone, Copy, PartialEq, Eq, Structural)]
pub enum PortfolioGroupMembershipAction {
    Assign,
    Unassign,
}

impl PortfolioGroupMembershipAction {
    pub open spec fn spec_result_label(self) -> Seq<char> {
        match self {
            PortfolioGroupMembershipAction::Assign => "assign"@,
            PortfolioGroupMembershipAction::Unassign => "unassign"@,
        }
    }

    /// The label the command's result reports the action under.
    pub fn result_label(self) -> (res: &'static str)
        ensures
            res@ == self.spec_result_label(),
    {
        match self {
            PortfolioGroupMembershipAction::Assign => "assign",
            PortfolioGroupMembershipAction::Unassign => "unassign",
        }
    }
}

pub open spec fn report_result<T>(r: Result<T, ErrorReport>) -> Result<T, Seq<char>> {
    match r {
        Ok(v) => Ok(v),
        Err(e) => Err(e.messages()[0]),
    }
}

pub open spec fn one_message<T>(r: Result<T, ErrorReport>) -> bool {
    match r {
        Ok(_) => true,
        Err(e) => e.messages().len() == 1,
    }
}

// ---------------------------------------------------------------------------
// Input
// ---------------------------------------------------------------------------

/// A required text field: trimmed, and refused when blank.
pub open spec fn spec_required_input(raw: Seq<char>, field: Seq<char>) -> Result<Seq<char>, Seq<char>> {
    if trim(raw).len() == 0 {
        Err(field_error(field, "must be a non-empty string"@))
    } else {
        Ok(trim(raw))
    }
}

pub open spec fn string_result(r: Result<String, ErrorReport>) -> Result<Seq<char>, Seq<char>> {
    match r {
        Ok(s) => Ok(s@),
        Err(e) => Err(e.messages()[0]),
    }
}

pub fn normalize_required_input(raw: &str, field: &str) -> (res: Result<String, ErrorReport>)
    ensures
        plain_errors(res),
        string_result(res) == spec_required_input(raw@, field@),
        one_message(res),
{
    let t = trim_chars(raw);
    if t.len() == 0 {
        return Err(field_error_report(field, "must be a non-empty string"));
    }
    Ok(string_of(&t))
}

pub open spec fn opt_string_result(r: Result<Option<String>, ErrorReport>) -> Result<
    Option<Seq<char>>,
    Seq<char>,
> {
    match r {
        Ok(Some(s)) => Ok(Some(s@)),
        Ok(None) => Ok(None),
        Err(e) => Err(e.messages()[0]),
    }
}

/// An optional group id: absent stays absent; present must not be blank.
pub open spec fn spec_group_id_filter(raw: Option<Seq<char>>) -> Result<Option<Seq<char>>, Seq<char>> {
    match raw {
        Some(value) => match spec_required_input(value, "group_id"@) {
            Ok(v) => Ok(Some(v)),
            Err(e) => Err(e),
        },
        None => Ok(None),
    }
}

pub fn normalize_group_id_filter(raw: Option<&str>) -> (res: Result<Option<String>, ErrorReport>)
    ensures
        plain_errors(res),
        opt_string_result(res) == spec_group_id_filter(opt_slice(raw)),
        one_message(res),
{
    match raw {
        Some(value) => match normalize_required_input(value, "group_id") {
            Ok(v) => Ok(Some(v)),
            Err(e) => Err(e),
        },
        None => Ok(None),
    }
}

/// The ISINs of a membership change, normalized in order; each ISIN is kept
/// once, where it first occurs; the first invalid one refuses the list.
pub open spec fn group_isins_from(raw: Seq<Seq<char>>, kept: Seq<Seq<char>>) -> Result<
    Seq<Seq<char>>,
    Seq<char>,
>
    decreases raw.len(),
{
    if raw.len() == 0 {
        Ok(kept)
    } else {
        match spec_normalize_isin(raw[0], "isin"@) {
            Err(e) => Err(e),
            Ok(isin) => group_isins_from(
                raw.drop_first(),
                if kept.contains(isin) {
                    kept
                } else {
                    kept.push(isin)
                },
            ),
        }
    }
}

pub open spec fn spec_normalize_portfolio_group_isins(raw: Seq<Seq<char>>) -> Result<
    Seq<Seq<char>>,
    Seq<char>,
> {
    group_isins_from(raw, Seq::empty())
}

pub open spec fn strings_result(r: Result<Vec<String>, ErrorReport>) -> Result<
    Seq<Seq<char>>,
    Seq<char>,
> {
    match r {
        Ok(v) => Ok(views(v@)),
        Err(e) => Err(e.messages()[0]),
    }
}

fn position_of(v: &Vec<String>, s: &str) -> (res: bool)
    ensures
        res == views(v@).contains(s@),
{
    let mut i: usize = 0;
    while i < v.len()
        invariant
            i <= v.len(),
            forall|j: int| 0 <= j < i ==> #[trigger] views(v@)[j] != s@,
        decreases v.len() - i,
    {
        if str_eq(v[i].as_str(), s) {
            proof {
                assert(views(v@)[i as int] == s@);
            }
            return true;
        }
        i = i + 1;
    }
    false
}

pub fn normalize_portfolio_group_isins(raw_isins: &Vec<String>) -> (res: Result<
    Vec<String>,
    ErrorReport,
>)
    ensures
        plain_errors(res),
        strings_result(res) == spec_normalize_portfolio_group_isins(views(raw_isins@)),
        one_message(res),
{
    let mut kept: Vec<String> = Vec::new();
    let ghost raw = views(raw_isins@);
    let mut i: usize = 0;
    proof {
        assert(raw.skip(0) =~= raw);
        assert(views(kept@) =~= Seq::<Seq<char>>::empty());
    }
    while i < raw_isins.len()
        invariant
            i <= raw_isins.len(),
            raw == views(raw_isins@),
            spec_normalize_portfolio_group_isins(raw) == group_isins_from(
                raw.skip(i as int),
                views(kept@),
            ),
        decreases raw_isins.len() - i,
    {
        proof {
            assert(raw.skip(i as int)[0] == raw_isins@[i as int]@);
            assert(raw.skip(i as int).drop_first() =~= raw.skip(i + 1));
        }
        let isin = match normalize_broker_isin(raw_isins[i].as_str(), "isin") {
            Ok(v) => v,
            Err(e) => {
                return Err(e);
            },
        };
        if !position_of(&kept, isin.as_str()) {
            let ghost before = views(kept@);
            kept.push(isin);
            proof {
                assert(views(kept@) =~= before.push(isin@));
            }
        }
        i = i + 1;
    }
    proof {
        assert(raw.skip(i as int) =~= Seq::<Seq<char>>::empty());
    }
    Ok(kept)
}

// ---------------------------------------------------------------------------
// Updating a group's details
// ---------------------------------------------------------------------------

/// A group's details as the backend holds them.
#[derive(Debug)]
pub struct CurrentPortfolioGroupDetails {
    pub name: String,
    pub description: Option<String>,
}

pub open spec fn opt_text(o: Option<String>) -> Option<Seq<char>> {
    match o {
        Some(s) => Some(s@),
        None => None,
    }
}

/// The details an update sends: the requested name (trimmed, not blank) or
/// the current one; no description where it is cleared, else the requested
/// or the current one.
pub open spec fn spec_merged_details(
    requested_name: Option<Seq<char>>,
    requested_description: Option<Seq<char>>,
    clear_description: bool,
    current_name: Seq<char>,
    current_description: Option<Seq<char>>,
) -> Result<(Seq<char>, Option<Seq<char>>), Seq<char>> {
    let description = if clear_description {
        None
    } else {
        match requested_description {
            Some(d) => Some(d),
            None => current_description,
        }
    };
    match requested_name {
        Some(value) => match spec_required_input(value, "name"@) {
            Ok(name) => Ok((name, description)),
            Err(e) => Err(e),
        },
        None => Ok((current_name, description)),
    }
}

pub open spec fn details_result(r: Result<(String, Option<String>), ErrorReport>) -> Result<
    (Seq<char>, Option<Seq<char>>),
    Seq<char>,
> {
    match r {
        Ok((n, d)) => Ok((n@, opt_text(d))),
        Err(e) => Err(e.messages()[0]),
    }
}

pub fn merged_portfolio_group_details(
    requested_name: Option<&str>,
    requested_description: Option<&str>,
    clear_description: bool,
    current: CurrentPortfolioGroupDetails,
) -> (res: Result<(String, Option<String>), ErrorReport>)
    ensures
        plain_errors(res),
        details_result(res) == spec_merged_details(
            opt_slice(requested_name),
            opt_slice(requested_description),
            clear_description,
            current.name@,
            opt_text(current.description),
        ),
        one_message(res),
{
    let name = match requested_name {
        Some(value) => match normalize_required_input(value, "name") {
            Ok(n) => n,
            Err(e) => {
                return Err(e);
            },
        },
        None => current.name,
    };
    let description = if clear_description {
        None
    } else {
        match requested_description {
            Some(d) => Some(d.to_owned()),
            None => current.description,
        }
    };
    Ok((name, description))
}


// ---------------------------------------------------------------------------
// Reading the groups response
// ---------------------------------------------------------------------------

/// `account.brokerPortfolio.inventory` of a response.
pub open spec fn inventory_of(response: Json) -> Option<Json> {
    opt_get(opt_get(response.spec_get("account"@), "brokerPortfolio"@), "inventory"@)
}

/// `portfolioGroups.items` of an inventory, where it is an array.
pub open spec fn group_list_of(inventory: Option<Json>) -> Option<Seq<Json>> {
    match opt_get(opt_get(inventory, "portfolioGroups"@), "items"@) {
        Some(Json::Array(items)) => Some(items@),
        _ => None,
    }
}

/// The first group with the given id.
pub open spec fn find_group(groups: Seq<Json>, id: Seq<char>) -> Option<Json>
    decreases groups.len(),
{
    if groups.len() == 0 {
        None
    } else if opt_as_str(groups[0].spec_get("id"@)) == Some(id) {
        Some(groups[0])
    } else {
        find_group(groups.drop_first(), id)
    }
}

pub open spec fn group_not_found_message(id: Seq<char>) -> Seq<char> {
    BROKER_PORTFOLIO_GROUP_NOT_FOUND_ERROR_PREFIX@ + " portfolio group '"@ + id
        + "' was not found in the active portfolio"@
}

pub open spec fn missing_groups_message() -> Seq<char> {
    "Broker response invalid: missing inventory.portfolioGroups.items"@
}

/// The current name (trimmed, required) and description (a string or null)
/// of a group.
pub open spec fn spec_current_details(response: Json, group_id: Seq<char>) -> Result<
    (Seq<char>, Option<Seq<char>>),
    Seq<char>,
> {
    match group_list_of(inventory_of(response)) {
        None => Err(missing_groups_message()),
        Some(groups) => match find_group(groups, group_id) {
            None => Err(group_not_found_message(group_id)),
            Some(group) => match group.spec_get("details"@) {
                None => Err("Broker response invalid: missing portfolio group details"@),
                Some(details) => match opt_as_str(details.spec_get("name"@)) {
                    Some(n) if trim(n).len() > 0 => match details.spec_get("description"@) {
                        None => Ok((trim(n), None)),
                        Some(Json::Null) => Ok((trim(n), None)),
                        Some(Json::Str(d)) => Ok((trim(n), Some(d@))),
                        Some(_) => Err(
                            "Broker response invalid: portfolio group details.description must be a string or null"@,
                        ),
                    },
                    _ => Err("Broker response invalid: missing portfolio group details.name"@),
                },
            },
        },
    }
}

fn member_of<'a>(v: Option<&'a Json>, key: &str) -> (res: Option<&'a Json>)
    ensures
        opt_ref(res) == opt_get(opt_ref(v), key@),
{
    match v {
        Some(value) => value.get(key),
        None => None,
    }
}

fn inventory(response: &Json) -> (res: Option<&Json>)
    ensures
        opt_ref(res) == inventory_of(*response),
{
    member_of(member_of(response.get("account"), "brokerPortfolio"), "inventory")
}

fn group_list(inventory: Option<&Json>) -> (res: Option<&Vec<Json>>)
    ensures
        match res {
            Some(items) => group_list_of(opt_ref(inventory)) == Some(items@),
            None => group_list_of(opt_ref(inventory)) is None,
        },
{
    match member_of(member_of(inventory, "portfolioGroups"), "items") {
        Some(v) => v.as_array(),
        None => None,
    }
}

pub fn find_group_exec<'a>(groups: &'a Vec<Json>, id: &str) -> (res: Option<&'a Json>)
    ensures
        opt_ref(res) == find_group(groups@, id@),
{
    let mut i: usize = 0;
    proof {
        assert(groups@.skip(0) =~= groups@);
    }
    while i < groups.len()
        invariant
            i <= groups.len(),
            find_group(groups@, id@) == find_group(groups@.skip(i as int), id@),
        decreases groups.len() - i,
    {
        proof {
            assert(groups@.skip(i as int)[0] == groups@[i as int]);
            assert(groups@.skip(i as int).drop_first() =~= groups@.skip(i + 1));
        }
        let matches = match groups[i].get("id") {
            Some(v) => match v.as_str() {
                Some(s) => str_eq(s, id),
                None => false,
            },
            None => false,
        };
        if matches {
            return Some(&groups[i]);
        }
        i = i + 1;
    }
    None
}

pub fn not_found_report(group_id: &str) -> (res: ErrorReport)
    ensures
        plain_report(res),
        res.messages() == seq![group_not_found_message(group_id@)],
{
    let mut text: Vec<char> = Vec::new();
    push_str_chars(&mut text, BROKER_PORTFOLIO_GROUP_NOT_FOUND_ERROR_PREFIX);
    push_str_chars(&mut text, " portfolio group '");
    push_str_chars(&mut text, group_id);
    push_str_chars(&mut text, "' was not found in the active portfolio");
    let s = string_of(&text);
    ErrorReport::msg(s.as_str())
}

pub open spec fn current_result(r: Result<CurrentPortfolioGroupDetails, ErrorReport>) -> Result<
    (Seq<char>, Option<Seq<char>>),
    Seq<char>,
> {
    match r {
        Ok(d) => Ok((d.name@, opt_text(d.description))),
        Err(e) => Err(e.messages()[0]),
    }
}

pub fn current_portfolio_group_details(response: &Json, group_id: &str) -> (res: Result<
    CurrentPortfolioGroupDetails,
    ErrorReport,
>)
    ensures
        plain_errors(res),
        current_result(res) == spec_current_details(*response, group_id@),
        one_message(res),
{
    let groups = match group_list(inventory(response)) {
        Some(g) => g,
        None => {
            return Err(ErrorReport::msg("Broker response invalid: missing inventory.portfolioGroups.items"));
        },
    };
    let group = match find_group_exec(groups, group_id) {
        Some(g) => g,
        None => {
            return Err(not_found_report(group_id));
        },
    };
    let details = match group.get("details") {
        Some(d) => d,
        None => {
            return Err(ErrorReport::msg("Broker response invalid: missing portfolio group details"));
        },
    };
    let name = match details.get("name") {
        Some(v) => match v.as_str() {
            Some(n) => {
                let t = trim_chars(n);
                if t.len() == 0 {
                    return Err(
                        ErrorReport::msg("Broker response invalid: missing portfolio group details.name"),
                    );
                }
                string_of(&t)
            },
            None => {
                return Err(
                    ErrorReport::msg("Broker response invalid: missing portfolio group details.name"),
                );
            },
        },
        None => {
            return Err(
                ErrorReport::msg("Broker response invalid: missing portfolio group details.name"),
            );
        },
    };
    let description = match details.get("description") {
        None => None,
        Some(Json::Null) => None,
        Some(Json::Str(d)) => Some(d.clone()),
        Some(_) => {
            return Err(
                ErrorReport::msg(
                    "Broker response invalid: portfolio group details.description must be a string or null",
                ),
            );
        },
    };
    Ok(CurrentPortfolioGroupDetails { name, description })
}

// ---------------------------------------------------------------------------
// Membership changes
// ---------------------------------------------------------------------------

/// The ISINs of a list of items, each a non-empty string.
pub open spec fn spec_item_isins(items: Seq<Json>) -> Result<Seq<Seq<char>>, Seq<char>>
    decreases items.len(),
{
    if items.len() == 0 {
        Ok(Seq::empty())
    } else {
        match opt_as_str(items[0].spec_get("isin"@)) {
            Some(isin) if isin.len() > 0 => match spec_item_isins(items.drop_first()) {
                Ok(rest) => Ok(seq![isin] + rest),
                Err(e) => Err(e),
            },
            _ => Err("Broker response invalid: missing portfolio group item ISIN"@),
        }
    }
}

/// The ISINs of a group's items.
pub open spec fn spec_group_isins(group: Json) -> Result<Seq<Seq<char>>, Seq<char>> {
    match group.spec_get("items"@) {
        Some(Json::Array(items)) => spec_item_isins(items@),
        _ => Err("Broker response invalid: missing portfolio group items"@),
    }
}

/// The ISINs of all groups, in order.
pub open spec fn spec_all_group_isins(groups: Seq<Json>) -> Result<Seq<Seq<char>>, Seq<char>>
    decreases groups.len(),
{
    if groups.len() == 0 {
        Ok(Seq::empty())
    } else {
        match spec_group_isins(groups[0]) {
            Err(e) => Err(e),
            Ok(first) => match spec_all_group_isins(groups.drop_first()) {
                Err(e) => Err(e),
                Ok(rest) => Ok(first + rest),
            },
        }
    }
}

/// The requested ISINs whose change would do nothing: for an assignment those
/// already in the group; for an unassignment those known elsewhere in the
/// portfolio but not in the group.
pub open spec fn no_op_isins(
    isins: Seq<Seq<char>>,
    assigned: Seq<Seq<char>>,
    known: Seq<Seq<char>>,
    action: PortfolioGroupMembershipAction,
) -> Seq<Seq<char>> {
    isins.filter(no_op_pred(assigned, known, action))
}

/// Whether changing one ISIN's membership would do nothing.
pub open spec fn no_op_pred(
    assigned: Seq<Seq<char>>,
    known: Seq<Seq<char>>,
    action: PortfolioGroupMembershipAction,
) -> spec_fn(Seq<char>) -> bool {
    |isin: Seq<char>|
        match action {
            PortfolioGroupMembershipAction::Assign => assigned.contains(isin),
            PortfolioGroupMembershipAction::Unassign => known.contains(isin) && !assigned.contains(
                isin,
            ),
        }
}

pub open spec fn no_op_message(
    action: PortfolioGroupMembershipAction,
    group_id: Seq<char>,
    invalid: Seq<Seq<char>>,
) -> Seq<char> {
    "Broker input invalid: ISINs "@ + match action {
        PortfolioGroupMembershipAction::Assign => "already assigned to"@,
        PortfolioGroupMembershipAction::Unassign => "not assigned to"@,
    } + " portfolio group '"@ + group_id + "': ["@ + join(invalid, ", "@) + "]"@
}

/// A membership change is refused where the state is malformed, the group is
/// unknown, or some requested ISIN would not change anything.
pub open spec fn spec_validate_membership(
    response: Json,
    group_id: Seq<char>,
    isins: Seq<Seq<char>>,
    action: PortfolioGroupMembershipAction,
) -> Result<(), Seq<char>> {
    match inventory_of(response) {
        None => Err("Broker response invalid: missing account.brokerPortfolio.inventory"@),
        Some(inv) => match group_list_of(Some(inv)) {
            None => Err(missing_groups_message()),
            Some(groups) => match find_group(groups, group_id) {
                None => Err(group_not_found_message(group_id)),
                Some(group) => match spec_group_isins(group) {
                    Err(e) => Err(e),
                    Ok(assigned) => match spec_all_group_isins(groups) {
                        Err(e) => Err(e),
                        Ok(grouped) => match opt_get(
                            inv.spec_get("ungroupedInventoryItems"@),
                            "items"@,
                        ) {
                            Some(Json::Array(items)) => match spec_item_isins(items@) {
                                Err(e) => Err(e),
                                Ok(ungrouped) => {
                                    let invalid = no_op_isins(
                                        isins,
                                        assigned,
                                        grouped + ungrouped,
                                        action,
                                    );
                                    if invalid.len() == 0 {
                                        Ok(())
                                    } else {
                                        Err(no_op_message(action, group_id, invalid))
                                    }
                                },
                            },
                            _ => Err(
                                "Broker response invalid: missing inventory.ungroupedInventoryItems.items"@,
                            ),
                        },
                    },
                },
            },
        },
    }
}

pub open spec fn strings_view(r: Result<Vec<String>, ErrorReport>) -> Result<Seq<Seq<char>>, Seq<char>> {
    match r {
        Ok(v) => Ok(views(v@)),
        Err(e) => Err(e.messages()[0]),
    }
}

/// Appends the ISINs of the items to `out`.
fn push_item_isins(items: &Vec<Json>, out: &mut Vec<String>) -> (res: Result<(), ErrorReport>)
    ensures
        plain_errors(res),
        match (res, spec_item_isins(items@)) {
            (Ok(()), Ok(found)) => views(final(out)@) == views(old(out)@) + found,
            (Err(e), Err(m)) => e.messages() == seq![m],
            _ => false,
        },
{
    let ghost start = views(out@);
    let mut i: usize = 0;
    proof {
        assert(items@.skip(0) =~= items@);
        assert(views(out@) =~= start + Seq::<Seq<char>>::empty());
    }
    while i < items.len()
        invariant
            i <= items.len(),
            start == views(old(out)@),
            match spec_item_isins(items@.skip(i as int)) {
                Ok(rest) => match spec_item_isins(items@) {
                    Ok(all) => all == views(out@).subrange(start.len() as int, views(out@).len() as int)
                        + rest,
                    Err(_) => false,
                },
                Err(m) => spec_item_isins(items@) == Err::<Seq<Seq<char>>, Seq<char>>(m),
            },
            views(out@).subrange(0, start.len() as int) == start,
            start.len() <= views(out@).len(),
        decreases items.len() - i,
    {
        let ghost rest = items@.skip(i as int);
        proof {
            assert(rest[0] == items@[i as int]);
            assert(rest.drop_first() =~= items@.skip(i + 1));
        }
        let isin = match items[i].get("isin") {
            Some(v) => match v.as_str() {
                Some(s) => s,
                None => {
                    return Err(ErrorReport::msg("Broker response invalid: missing portfolio group item ISIN"));
                },
            },
            None => {
                return Err(ErrorReport::msg("Broker response invalid: missing portfolio group item ISIN"));
            },
        };
        if chars_of(isin).len() == 0 {
            return Err(ErrorReport::msg("Broker response invalid: missing portfolio group item ISIN"));
        }
        let ghost before = views(out@);
        out.push(isin.to_owned());
        proof {
            assert(views(out@) =~= before.push(isin@));
            assert(views(out@).subrange(0, start.len() as int) =~= before.subrange(0, start.len() as int));
            let added = views(out@).subrange(start.len() as int, views(out@).len() as int);
            assert(added =~= before.subrange(start.len() as int, before.len() as int).push(isin@));
            match spec_item_isins(items@.skip(i + 1)) {
                Ok(tail) => {
                    assert(before.subrange(start.len() as int, before.len() as int) + (seq![isin@] + tail)
                        =~= added + tail);
                },
                Err(_) => {},
            }
        }
        i = i + 1;
    }
    proof {
        assert(items@.skip(i as int) =~= Seq::<Json>::empty());
        let added = views(out@).subrange(start.len() as int, views(out@).len() as int);
        assert(added + Seq::<Seq<char>>::empty() =~= added);
        assert(views(out@) =~= start + added);
    }
    Ok(())
}


/// Appends the ISINs of a group's items to `out`.
fn push_group_isins(group: &Json, out: &mut Vec<String>) -> (res: Result<(), ErrorReport>)
    ensures
        plain_errors(res),
        match (res, spec_group_isins(*group)) {
            (Ok(()), Ok(found)) => views(final(out)@) == views(old(out)@) + found,
            (Err(e), Err(m)) => e.messages() == seq![m],
            _ => false,
        },
{
    match group.get("items") {
        Some(v) => match v.as_array() {
            Some(items) => push_item_isins(items, out),
            None => Err(ErrorReport::msg("Broker response invalid: missing portfolio group items")),
        },
        None => Err(ErrorReport::msg("Broker response invalid: missing portfolio group items")),
    }
}

/// Appends the ISINs of all groups to `out`.
fn push_all_group_isins(groups: &Vec<Json>, out: &mut Vec<String>) -> (res: Result<(), ErrorReport>)
    ensures
        plain_errors(res),
        match (res, spec_all_group_isins(groups@)) {
            (Ok(()), Ok(found)) => views(final(out)@) == views(old(out)@) + found,
            (Err(e), Err(m)) => e.messages() == seq![m],
            _ => false,
        },
{
    let ghost start = views(out@);
    let mut i: usize = 0;
    proof {
        assert(groups@.skip(0) =~= groups@);
        assert(views(out@).subrange(start.len() as int, views(out@).len() as int) =~= Seq::<Seq<char>>::empty());
        assert(views(out@).subrange(0, start.len() as int) =~= start);
    }
    while i < groups.len()
        invariant
            i <= groups.len(),
            start == views(old(out)@),
            start.len() <= views(out@).len(),
            views(out@).subrange(0, start.len() as int) == start,
            match spec_all_group_isins(groups@.skip(i as int)) {
                Ok(rest) => match spec_all_group_isins(groups@) {
                    Ok(all) => all == views(out@).subrange(start.len() as int, views(out@).len() as int)
                        + rest,
                    Err(_) => false,
                },
                Err(m) => spec_all_group_isins(groups@) == Err::<Seq<Seq<char>>, Seq<char>>(m),
            },
        decreases groups.len() - i,
    {
        let ghost rest = groups@.skip(i as int);
        let ghost before = views(out@);
        proof {
            assert(rest[0] == groups@[i as int]);
            assert(rest.drop_first() =~= groups@.skip(i + 1));
        }
        match push_group_isins(&groups[i], out) {
            Ok(()) => {},
            Err(e) => {
                return Err(e);
            },
        }
        proof {
            let found = spec_group_isins(groups@[i as int])->Ok_0;
            assert(views(out@) == before + found);
            assert(views(out@).subrange(0, start.len() as int) =~= before.subrange(0, start.len() as int));
            let added = views(out@).subrange(start.len() as int, views(out@).len() as int);
            assert(added =~= before.subrange(start.len() as int, before.len() as int) + found);
            match spec_all_group_isins(groups@.skip(i + 1)) {
                Ok(tail) => {
                    assert(before.subrange(start.len() as int, before.len() as int) + (found + tail)
                        =~= added + tail);
                },
                Err(_) => {},
            }
        }
        i = i + 1;
    }
    proof {
        assert(groups@.skip(i as int) =~= Seq::<Json>::empty());
        let added = views(out@).subrange(start.len() as int, views(out@).len() as int);
        assert(added + Seq::<Seq<char>>::empty() =~= added);
        assert(views(out@) =~= start + added);
    }
    Ok(())
}

/// Refuses a membership change that the state cannot support or that would
/// change nothing.
pub fn validate_portfolio_group_membership(
    response: &Json,
    group_id: &str,
    isins: &Vec<String>,
    action: PortfolioGroupMembershipAction,
) -> (res: Result<(), ErrorReport>)
    ensures
        plain_errors(res),
        report_result(res) == spec_validate_membership(*response, group_id@, views(isins@), action),
        one_message(res),
{
    let inv = match inventory(response) {
        Some(i) => i,
        None => {
            return Err(ErrorReport::msg("Broker response invalid: missing account.brokerPortfolio.inventory"));
        },
    };
    let groups = match group_list(Some(inv)) {
        Some(g) => g,
        None => {
            return Err(ErrorReport::msg("Broker response invalid: missing inventory.portfolioGroups.items"));
        },
    };
    let group = match find_group_exec(groups, group_id) {
        Some(g) => g,
        None => {
            return Err(not_found_report(group_id));
        },
    };
    let mut assigned: Vec<String> = Vec::new();
    match push_group_isins(group, &mut assigned) {
        Ok(()) => {},
        Err(e) => {
            return Err(e);
        },
    }
    let mut known: Vec<String> = Vec::new();
    match push_all_group_isins(groups, &mut known) {
        Ok(()) => {},
        Err(e) => {
            return Err(e);
        },
    }
    let ungrouped = match member_of(inv.get("ungroupedInventoryItems"), "items") {
        Some(v) => match v.as_array() {
            Some(items) => items,
            None => {
                return Err(
                    ErrorReport::msg("Broker response invalid: missing inventory.ungroupedInventoryItems.items"),
                );
            },
        },
        None => {
            return Err(
                ErrorReport::msg("Broker response invalid: missing inventory.ungroupedInventoryItems.items"),
            );
        },
    };
    match push_item_isins(ungrouped, &mut known) {
        Ok(()) => {},
        Err(e) => {
            return Err(e);
        },
    }
    let ghost assigned_v = views(assigned@);
    let ghost known_v = views(known@);
    let mut invalid: Vec<String> = Vec::new();
    let mut i: usize = 0;
    proof {
        assert(views(isins@).take(0) =~= Seq::<Seq<char>>::empty());
        assert(views(invalid@) =~= Seq::<Seq<char>>::empty());
    }
    while i < isins.len()
        invariant
            i <= isins.len(),
            assigned_v == views(assigned@),
            known_v == views(known@),
            views(invalid@) == no_op_isins(views(isins@).take(i as int), assigned_v, known_v, action),
        decreases isins.len() - i,
    {
        let isin = isins[i].as_str();
        let in_group = position_of(&assigned, isin);
        let flagged = match action {
            PortfolioGroupMembershipAction::Assign => in_group,
            PortfolioGroupMembershipAction::Unassign => position_of(&known, isin) && !in_group,
        };
        let ghost before = views(invalid@);
        proof {
            assert(views(isins@).take(i + 1) =~= views(isins@).take(i as int).push(isin@));
            views(isins@).take(i as int).lemma_filter_push(isin@, no_op_pred(assigned_v, known_v, action));
        }
        if flagged {
            invalid.push(isins[i].clone());
            proof {
                assert(views(invalid@) =~= before.push(isin@));
            }
        }
        i = i + 1;
    }
    proof {
        assert(views(isins@).take(isins.len() as int) =~= views(isins@));
    }
    if invalid.len() == 0 {
        return Ok(());
    }
    let mut text: Vec<char> = Vec::new();
    push_str_chars(&mut text, "Broker input invalid: ISINs ");
    match action {
        PortfolioGroupMembershipAction::Assign => push_str_chars(&mut text, "already assigned to"),
        PortfolioGroupMembershipAction::Unassign => push_str_chars(&mut text, "not assigned to"),
    }
    push_str_chars(&mut text, " portfolio group '");
    push_str_chars(&mut text, group_id);
    push_str_chars(&mut text, "': [");
    let joined = join_strings(&invalid, ", ");
    push_str_chars(&mut text, joined.as_str());
    push_str_chars(&mut text, "]");
    proof {
        assert(text@ =~= no_op_message(action, group_id@, views(invalid@)));
    }
    let s = string_of(&text);
    Err(ErrorReport::msg(s.as_str()))
}


proof fn lemma_group_isins_from(raw: Seq<Seq<char>>, kept: Seq<Seq<char>>)
    requires
        kept.no_duplicates(),
        forall|i: int| 0 <= i < kept.len() ==> spec_is_valid_isin(#[trigger] kept[i]),
    ensures
        (group_isins_from(raw, kept) is Ok) <==> (forall|j: int|
            0 <= j < raw.len() ==> #[trigger] spec_normalize_isin(raw[j], "isin"@) is Ok),
        match group_isins_from(raw, kept) {
            Ok(v) => {
                &&& v.no_duplicates()
                &&& forall|i: int| 0 <= i < v.len() ==> spec_is_valid_isin(#[trigger] v[i])
                &&& v.len() >= kept.len() && v.subrange(0, kept.len() as int) == kept
                &&& forall|j: int| 0 <= j < raw.len() ==> v.contains(#[trigger] upper(trim(raw[j])))
                &&& forall|x: Seq<char>| #[trigger] v.contains(x) ==> kept.contains(x) || exists|j: int|
                    0 <= j < raw.len() && x == upper(trim(raw[j]))
            },
            Err(_) => true,
        },
    decreases raw.len(),
{
    if raw.len() > 0 {
        match spec_normalize_isin(raw[0], "isin"@) {
            Err(_) => {},
            Ok(isin) => {
                let next = if kept.contains(isin) {
                    kept
                } else {
                    kept.push(isin)
                };
                assert(isin == upper(trim(raw[0])));
                assert(next.no_duplicates()) by {
                    if !kept.contains(isin) {
                        assert forall|a: int, b: int| 0 <= a < next.len() && 0 <= b < next.len() && a != b
                            implies next[a] != next[b] by {
                            if a < kept.len() && b < kept.len() {
                            } else if a == kept.len() {
                                assert(kept.contains(next[b]) || b == a);
                            } else {
                                assert(kept.contains(next[a]) || b == a);
                            }
                        }
                    }
                }
                assert forall|i: int| 0 <= i < next.len() implies spec_is_valid_isin(#[trigger] next[i]) by {
                    if i < kept.len() {
                        assert(next[i] == kept[i]);
                    }
                }
                lemma_group_isins_from(raw.drop_first(), next);
                assert forall|j: int| 0 <= j < raw.len() implies #[trigger] spec_normalize_isin(raw[j], "isin"@) is Ok
                    <== (group_isins_from(raw, kept) is Ok) by {
                    if j > 0 {
                        assert(raw[j] == raw.drop_first()[j - 1]);
                    }
                }
                if forall|j: int| 0 <= j < raw.len() ==> #[trigger] spec_normalize_isin(raw[j], "isin"@) is Ok {
                    assert forall|j: int| 0 <= j < raw.drop_first().len() implies #[trigger] spec_normalize_isin(
                        raw.drop_first()[j],
                        "isin"@,
                    ) is Ok by {
                        assert(raw.drop_first()[j] == raw[j + 1]);
                    }
                }
                match group_isins_from(raw, kept) {
                    Ok(v) => {
                        assert(v.subrange(0, next.len() as int) == next);
                        assert(v.subrange(0, kept.len() as int) =~= next.subrange(0, kept.len() as int));
                        assert(next.subrange(0, kept.len() as int) =~= kept);
                        assert(next.contains(isin)) by {
                            if kept.contains(isin) {
                            } else {
                                assert(next[kept.len() as int] == isin);
                            }
                        }
                        assert(v.contains(isin)) by {
                            let k = choose|k: int| 0 <= k < next.len() && next[k] == isin;
                            assert(v[k] == v.subrange(0, next.len() as int)[k]);
                        }
                        assert forall|j: int| 0 <= j < raw.len() implies v.contains(#[trigger] upper(trim(raw[j]))) by {
                            if j > 0 {
                                assert(raw[j] == raw.drop_first()[j - 1]);
                            }
                        }
                        assert forall|x: Seq<char>| #[trigger] v.contains(x) implies kept.contains(x) || exists|j: int|
                            0 <= j < raw.len() && x == upper(trim(raw[j])) by {
                            if next.contains(x) {
                                if !kept.contains(x) {
                                    assert(x == isin);
                                    assert(x == upper(trim(raw[0])));
                                }
                            } else {
                                let j = choose|j: int| 0 <= j < raw.drop_first().len() && x == upper(trim(raw.drop_first()[j]));
                                assert(raw.drop_first()[j] == raw[j + 1]);
                            }
                        }
                    },
                    Err(_) => {},
                }
            },
        }
    }
}

/// The ISINs of a membership change come out valid, each once, and exactly
/// those of the input; the list is refused exactly when some input ISIN is.
pub proof fn normalized_group_isins_are_unique_and_valid(raw: Seq<Seq<char>>)
    ensures
        (spec_normalize_portfolio_group_isins(raw) is Ok) <==> (forall|j: int|
            0 <= j < raw.len() ==> #[trigger] spec_normalize_isin(raw[j], "isin"@) is Ok),
        match spec_normalize_portfolio_group_isins(raw) {
            Ok(v) => {
                &&& v.no_duplicates()
                &&& forall|i: int| 0 <= i < v.len() ==> spec_is_valid_isin(#[trigger] v[i])
                &&& forall|j: int| 0 <= j < raw.len() ==> v.contains(#[trigger] upper(trim(raw[j])))
                &&& forall|x: Seq<char>| #[trigger] v.contains(x) ==> exists|j: int|
                    0 <= j < raw.len() && x == upper(trim(raw[j]))
            },
            Err(_) => true,
        },
{
    lemma_group_isins_from(raw, Seq::empty());
}

/// The ISINs a group holds, and the ISINs the portfolio holds in any group
/// or in none, as a membership change reads them from the groups' state.
pub open spec fn membership_sets(response: Json, group_id: Seq<char>) -> Option<(Seq<Seq<char>>, Seq<Seq<char>>)> {
    match inventory_of(response) {
        None => None,
        Some(inv) => match group_list_of(Some(inv)) {
            None => None,
            Some(groups) => match find_group(groups, group_id) {
                None => None,
                Some(group) => match (spec_group_isins(group), spec_all_group_isins(groups)) {
                    (Ok(assigned), Ok(grouped)) => match opt_get(
                        inv.spec_get("ungroupedInventoryItems"@),
                        "items"@,
                    ) {
                        Some(Json::Array(items)) => match spec_item_isins(items@) {
                            Ok(ungrouped) => Some((assigned, grouped + ungrouped)),
                            Err(_) => None,
                        },
                        _ => None,
                    },
                    _ => None,
                },
            },
        },
    }
}

/// A membership change goes through only where it changes every ISIN it
/// names: an assignment names no ISIN the group already holds, and an
/// unassignment none that the portfolio holds outside the group.
pub proof fn accepted_membership_changes_change_every_isin(
    response: Json,
    group_id: Seq<char>,
    isins: Seq<Seq<char>>,
    action: PortfolioGroupMembershipAction,
)
    requires
        spec_validate_membership(response, group_id, isins, action) is Ok,
    ensures
        membership_sets(response, group_id) matches Some((assigned, known)) && forall|i: int|
            0 <= i < isins.len() ==> match action {
                PortfolioGroupMembershipAction::Assign => !assigned.contains(#[trigger] isins[i]),
                PortfolioGroupMembershipAction::Unassign => assigned.contains(isins[i]) || !known.contains(
                    isins[i],
                ),
            },
{
    let (assigned, known) = membership_sets(response, group_id)->Some_0;
    let pred = no_op_pred(assigned, known, action);
    assert(isins.filter(pred).len() == 0);
    assert forall|i: int| 0 <= i < isins.len() implies !pred(#[trigger] isins[i]) by {
        if pred(isins[i]) {
            isins.lemma_filter_contains(pred, i);
        }
    }
}

/// Conversely, a membership change on a well-formed state goes through
/// where it changes every ISIN it names; together with the law above, it is
/// accepted exactly then.
pub proof fn membership_changes_that_change_every_isin_are_accepted(
    response: Json,
    group_id: Seq<char>,
    isins: Seq<Seq<char>>,
    action: PortfolioGroupMembershipAction,
)
    requires
        membership_sets(response, group_id) matches Some((assigned, known)) && forall|i: int|
            0 <= i < isins.len() ==> match action {
                PortfolioGroupMembershipAction::Assign => !assigned.contains(#[trigger] isins[i]),
                PortfolioGroupMembershipAction::Unassign => assigned.contains(isins[i]) || !known.contains(
                    isins[i],
                ),
            },
    ensures
        spec_validate_membership(response, group_id, isins, action) is Ok,
{
    let (assigned, known) = membership_sets(response, group_id)->Some_0;
    let pred = no_op_pred(assigned, known, action);
    assert(isins.all(|x: Seq<char>| !pred(x))) by {
        assert forall|i: int| 0 <= i < isins.len() implies !pred(#[trigger] isins[i]) by {
            assert(match action {
                PortfolioGroupMembershipAction::Assign => !assigned.contains(isins[i]),
                PortfolioGroupMembershipAction::Unassign => assigned.contains(isins[i]) || !known.contains(
                    isins[i],
                ),
            });
        }
    }
    isins.lemma_all_neg_filter_empty(pred);
}

} // verus!
