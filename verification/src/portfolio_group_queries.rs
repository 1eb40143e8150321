//! The variables of the portfolio group requests, and what the group commands
//! report.
use vstd::prelude::*;

use crate::error_report::{plain_errors};
use crate::broker_queries::BrokerInput;
use crate::broker_variables::{jstr, opt_jstr, opt_slice_json, str_array, string_array_json, string_json};
use crate::documents::{
    BROKER_ASSIGN_PORTFOLIO_GROUP_ITEMS_MUTATION, BROKER_UNASSIGN_PORTFOLIO_GROUP_ITEMS_MUTATION,
};
use crate::error_report::ErrorReport;
use crate::json::{opt_get, opt_ref, Json, JsonView, ObjectBuilder};
use crate::portfolio_groups::PortfolioGroupMembershipAction;
use crate::text::{opt_slice, views};

verus! {

/// An object of the given members.
pub open spec fn obj(members: Seq<(Seq<char>, JsonView)>) -> JsonView {
    JsonView::Object(members)
}

/// `{"portfolioId": .., "input": ..}`.
pub open spec fn mutation_variables(portfolio_id: Seq<char>, input: JsonView) -> JsonView {
    obj(seq![("portfolioId"@, jstr(portfolio_id)), ("input"@, input)])
}

fn mutation_variables_exec(portfolio_id: &str, input: Json) -> (res: Json)
    ensures
        res@ == mutation_variables(portfolio_id@, input@),
{
    let mut out = ObjectBuilder::new();
    out.add("portfolioId", string_json(portfolio_id));
    out.add("input", input);
    proof {
        assert(out.members() =~= seq![("portfolioId"@, jstr(portfolio_id@)), ("input"@, input@)]);
    }
    out.build()
}

/// The variables of the groups query: the account and the portfolio.
pub fn broker_portfolio_groups_variables(input: &BrokerInput) -> (res: Result<Json, ErrorReport>)
    ensures
        plain_errors(res),
        res matches Ok(v) && v@ == obj(
            seq![
                ("accountId"@, jstr(input.spec_account_id())),
                ("portfolioId"@, jstr(input.spec_portfolio_id())),
            ],
        ),
{
    let mut out = ObjectBuilder::new();
    out.add("accountId", input.account_id_value());
    out.add("portfolioId", input.portfolio_id_value());
    proof {
        assert(out.members() =~= seq![
            ("accountId"@, jstr(input.spec_account_id())),
            ("portfolioId"@, jstr(input.spec_portfolio_id())),
        ]);
    }
    Ok(out.build())
}

/// The name and the description of a group; a missing description is null.
pub open spec fn group_details(name: Seq<char>, description: Option<Seq<char>>) -> JsonView {
    obj(seq![("name"@, jstr(name)), ("description"@, opt_jstr(description))])
}

fn group_details_exec(name: &str, description: Option<&str>) -> (res: Json)
    ensures
        res@ == group_details(name@, opt_slice(description)),
{
    let mut out = ObjectBuilder::new();
    out.add("name", string_json(name));
    out.add("description", opt_slice_json(description));
    proof {
        assert(out.members() =~= seq![("name"@, jstr(name@)), ("description"@, opt_jstr(opt_slice(description)))]);
    }
    out.build()
}

/// The variables that create a group.
pub fn broker_create_portfolio_group_variables(
    portfolio_id: &str,
    name: &str,
    description: Option<&str>,
) -> (res: Json)
    ensures
        res@ == mutation_variables(portfolio_id@, group_details(name@, opt_slice(description))),
{
    mutation_variables_exec(portfolio_id, group_details_exec(name, description))
}

/// The variables that rename a group or change its description.
pub fn broker_update_portfolio_group_variables(
    portfolio_id: &str,
    group_id: &str,
    name: &str,
    description: Option<&str>,
) -> (res: Json)
    ensures
        res@ == mutation_variables(
            portfolio_id@,
            obj(
                seq![
                    ("id"@, jstr(group_id@)),
                    ("portfolioGroupDetails"@, group_details(name@, opt_slice(description))),
                ],
            ),
        ),
{
    let details = group_details_exec(name, description);
    let ghost details_view = details@;
    let mut inner = ObjectBuilder::new();
    inner.add("id", string_json(group_id));
    inner.add("portfolioGroupDetails", details);
    proof {
        assert(inner.members() =~= seq![("id"@, jstr(group_id@)), ("portfolioGroupDetails"@, details_view)]);
    }
    mutation_variables_exec(portfolio_id, inner.build())
}

/// The variables that delete a group.
pub fn broker_delete_portfolio_group_variables(portfolio_id: &str, group_id: &str) -> (res: Json)
    ensures
        res@ == mutation_variables(portfolio_id@, obj(seq![("id"@, jstr(group_id@))])),
{
    let mut inner = ObjectBuilder::new();
    inner.add("id", string_json(group_id));
    proof {
        assert(inner.members() =~= seq![("id"@, jstr(group_id@))]);
    }
    mutation_variables_exec(portfolio_id, inner.build())
}

/// The variables that add some securities to a group and take others out.
pub open spec fn modify_items_variables(
    portfolio_id: Seq<char>,
    group_id: Seq<char>,
    to_add: Seq<Seq<char>>,
    to_remove: Seq<Seq<char>>,
) -> JsonView {
    mutation_variables(
        portfolio_id,
        obj(
            seq![
                ("id"@, jstr(group_id)),
                (
                    "portfolioGroupItems"@,
                    obj(seq![("itemsToAdd"@, str_array(to_add)), ("itemsToRemove"@, str_array(to_remove))]),
                ),
            ],
        ),
    )
}

fn broker_modify_portfolio_group_items_variables(
    portfolio_id: &str,
    group_id: &str,
    items_to_add: &Vec<String>,
    items_to_remove: &Vec<String>,
) -> (res: Json)
    ensures
        res@ == modify_items_variables(portfolio_id@, group_id@, views(items_to_add@), views(items_to_remove@)),
{
    let mut items = ObjectBuilder::new();
    items.add("itemsToAdd", string_array_json(items_to_add));
    items.add("itemsToRemove", string_array_json(items_to_remove));
    proof {
        assert(items.members() =~= seq![
            ("itemsToAdd"@, str_array(views(items_to_add@))),
            ("itemsToRemove"@, str_array(views(items_to_remove@))),
        ]);
    }
    let items_json = items.build();
    let ghost items_view = items_json@;
    let mut inner = ObjectBuilder::new();
    inner.add("id", string_json(group_id));
    inner.add("portfolioGroupItems", items_json);
    proof {
        assert(inner.members() =~= seq![("id"@, jstr(group_id@)), ("portfolioGroupItems"@, items_view)]);
    }
    mutation_variables_exec(portfolio_id, inner.build())
}

/// The variables that add securities to a group.
pub fn broker_assign_portfolio_group_items_variables(
    portfolio_id: &str,
    group_id: &str,
    isins: &Vec<String>,
) -> (res: Json)
    ensures
        res@ == modify_items_variables(portfolio_id@, group_id@, views(isins@), Seq::empty()),
{
    let none: Vec<String> = Vec::new();
    proof {
        assert(views(none@) =~= Seq::<Seq<char>>::empty());
    }
    broker_modify_portfolio_group_items_variables(portfolio_id, group_id, isins, &none)
}

/// The variables that take securities out of a group.
pub fn broker_unassign_portfolio_group_items_variables(
    portfolio_id: &str,
    group_id: &str,
    isins: &Vec<String>,
) -> (res: Json)
    ensures
        res@ == modify_items_variables(portfolio_id@, group_id@, Seq::empty(), views(isins@)),
{
    let none: Vec<String> = Vec::new();
    proof {
        assert(views(none@) =~= Seq::<Seq<char>>::empty());
    }
    broker_modify_portfolio_group_items_variables(portfolio_id, group_id, &none, isins)
}

// ---------------------------------------------------------------------------
// Membership operations
// ---------------------------------------------------------------------------

/// The GraphQL document of a membership change.
pub fn membership_document(action: PortfolioGroupMembershipAction) -> (res: &'static str)
    ensures
        action == PortfolioGroupMembershipAction::Assign ==> res@ == BROKER_ASSIGN_PORTFOLIO_GROUP_ITEMS_MUTATION@,
        action == PortfolioGroupMembershipAction::Unassign ==> res@
            == BROKER_UNASSIGN_PORTFOLIO_GROUP_ITEMS_MUTATION@,
{
    match action {
        PortfolioGroupMembershipAction::Assign => BROKER_ASSIGN_PORTFOLIO_GROUP_ITEMS_MUTATION,
        PortfolioGroupMembershipAction::Unassign => BROKER_UNASSIGN_PORTFOLIO_GROUP_ITEMS_MUTATION,
    }
}

pub open spec fn spec_membership_operation_name(action: PortfolioGroupMembershipAction) -> Seq<char> {
    match action {
        PortfolioGroupMembershipAction::Assign => "BrokerAssignPortfolioGroupItems"@,
        PortfolioGroupMembershipAction::Unassign => "BrokerUnassignPortfolioGroupItems"@,
    }
}

/// The operation name of a membership change.
pub fn membership_operation_name(action: PortfolioGroupMembershipAction) -> (res: &'static str)
    ensures
        res@ == spec_membership_operation_name(action),
{
    match action {
        PortfolioGroupMembershipAction::Assign => "BrokerAssignPortfolioGroupItems",
        PortfolioGroupMembershipAction::Unassign => "BrokerUnassignPortfolioGroupItems",
    }
}

/// The variables of a membership change: the securities go to the side the
/// action names.
pub fn membership_variables(
    action: PortfolioGroupMembershipAction,
    portfolio_id: &str,
    group_id: &str,
    isins: &Vec<String>,
) -> (res: Json)
    ensures
        action == PortfolioGroupMembershipAction::Assign ==> res@ == modify_items_variables(
            portfolio_id@,
            group_id@,
            views(isins@),
            Seq::empty(),
        ),
        action == PortfolioGroupMembershipAction::Unassign ==> res@ == modify_items_variables(
            portfolio_id@,
            group_id@,
            Seq::empty(),
            views(isins@),
        ),
{
    match action {
        PortfolioGroupMembershipAction::Assign => broker_assign_portfolio_group_items_variables(
            portfolio_id,
            group_id,
            isins,
        ),
        PortfolioGroupMembershipAction::Unassign => broker_unassign_portfolio_group_items_variables(
            portfolio_id,
            group_id,
            isins,
        ),
    }
}

// ---------------------------------------------------------------------------
// Results of the group commands
// ---------------------------------------------------------------------------

/// The id of the group a create mutation made; refused where the answer has
/// none or an empty one.
pub open spec fn spec_created_group_id(response: Json) -> Result<Seq<char>, Seq<char>> {
    match opt_get(opt_get(response.spec_get("createPortfolioGroup"@), "portfolioGroup"@), "id"@) {
        Some(Json::Str(id)) if id@.len() > 0 => Ok(id@),
        _ => Err("Broker response invalid: missing createPortfolioGroup.portfolioGroup.id"@),
    }
}

pub fn created_portfolio_group_id(response: &Json) -> (res: Result<String, ErrorReport>)
    ensures
        plain_errors(res),
        match spec_created_group_id(*response) {
            Ok(id) => res matches Ok(s) && s@ == id,
            Err(m) => res matches Err(e) && e.messages() == seq![m],
        },
{
    let id = match response.get("createPortfolioGroup") {
        Some(c) => match c.get("portfolioGroup") {
            Some(g) => g.get("id"),
            None => None,
        },
        None => None,
    };
    match id {
        Some(Json::Str(s)) => {
            if crate::text::chars_of(s.as_str()).len() > 0 {
                return Ok(s.clone());
            }
        },
        _ => {},
    }
    Err(ErrorReport::msg("Broker response invalid: missing createPortfolioGroup.portfolioGroup.id"))
}

/// What a create or an update reports: the action, the group, its name and
/// description, and the groups after the change.
pub open spec fn spec_details_result(
    action: Seq<char>,
    group_id: Seq<char>,
    name: Seq<char>,
    description: Option<Seq<char>>,
    state: JsonView,
) -> JsonView {
    obj(
        seq![
            ("action"@, jstr(action)),
            ("group_id"@, jstr(group_id)),
            ("name"@, jstr(name)),
            ("description"@, opt_jstr(description)),
            ("portfolio_groups_state"@, state),
        ],
    )
}

fn details_result(action: &str, group_id: &str, name: &str, description: Option<&str>, state: Json) -> (res:
    Json)
    ensures
        res@ == spec_details_result(action@, group_id@, name@, opt_slice(description), state@),
{
    let ghost state_view = state@;
    let mut out = ObjectBuilder::new();
    out.add("action", string_json(action));
    out.add("group_id", string_json(group_id));
    out.add("name", string_json(name));
    out.add("description", opt_slice_json(description));
    out.add("portfolio_groups_state", state);
    proof {
        assert(out.members() =~= spec_details_result(
            action@,
            group_id@,
            name@,
            opt_slice(description),
            state_view,
        )->Object_0);
    }
    out.build()
}

pub fn portfolio_group_created_result(group_id: &str, name: &str, description: Option<&str>, state: Json) -> (res:
    Json)
    ensures
        res@ == spec_details_result("create"@, group_id@, name@, opt_slice(description), state@),
{
    details_result("create", group_id, name, description, state)
}

pub fn portfolio_group_updated_result(group_id: &str, name: &str, description: Option<&str>, state: Json) -> (res:
    Json)
    ensures
        res@ == spec_details_result("update"@, group_id@, name@, opt_slice(description), state@),
{
    details_result("update", group_id, name, description, state)
}

/// What a delete reports: the action, the group, and the groups after it.
pub fn portfolio_group_deleted_result(group_id: &str, state: Json) -> (res: Json)
    ensures
        res@ == obj(
            seq![
                ("action"@, jstr("delete"@)),
                ("group_id"@, jstr(group_id@)),
                ("portfolio_groups_state"@, state@),
            ],
        ),
{
    let ghost state_view = state@;
    let mut out = ObjectBuilder::new();
    out.add("action", string_json("delete"));
    out.add("group_id", string_json(group_id));
    out.add("portfolio_groups_state", state);
    proof {
        assert(out.members() =~= seq![
            ("action"@, jstr("delete"@)),
            ("group_id"@, jstr(group_id@)),
            ("portfolio_groups_state"@, state_view),
        ]);
    }
    out.build()
}

/// What a membership change reports: the action's label, the group, the
/// securities, and the groups after it.
pub fn portfolio_group_membership_result(
    action: PortfolioGroupMembershipAction,
    group_id: &str,
    isins: &Vec<String>,
    state: Json,
) -> (res: Json)
    ensures
        res@ == obj(
            seq![
                ("action"@, jstr(action.spec_result_label())),
                ("group_id"@, jstr(group_id@)),
                ("isins"@, str_array(views(isins@))),
                ("portfolio_groups_state"@, state@),
            ],
        ),
{
    let ghost state_view = state@;
    let mut out = ObjectBuilder::new();
    out.add("action", string_json(action.result_label()));
    out.add("group_id", string_json(group_id));
    out.add("isins", string_array_json(isins));
    out.add("portfolio_groups_state", state);
    proof {
        assert(out.members() =~= seq![
            ("action"@, jstr(action.spec_result_label())),
            ("group_id"@, jstr(group_id@)),
            ("isins"@, str_array(views(isins@))),
            ("portfolio_groups_state"@, state_view),
        ]);
    }
    out.build()
}

} // verus!
