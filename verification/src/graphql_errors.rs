//! What a GraphQL `errors` array is reported as: the broker's known
//! validation failures get messages of their own, everything else a generic
//! message with the operation and the error code.
use vstd::prelude::*;

use crate::json::{member, opt_as_str, opt_get, opt_ref, Json};
use crate::markers::{
    BROKER_PORTFOLIO_GROUPS_LIMIT_REACHED_ERROR_PREFIX,
    BROKER_PORTFOLIO_GROUPS_QUOTA_EXCEEDED_ERROR_PREFIX,
    BROKER_PORTFOLIO_GROUP_ALREADY_EXISTS_ERROR_PREFIX,
    BROKER_PORTFOLIO_GROUP_CANNOT_BE_REMOVED_ERROR_PREFIX,
    BROKER_PORTFOLIO_GROUP_INVALID_CHARACTERS_ERROR_PREFIX,
    BROKER_PORTFOLIO_GROUP_NOT_FOUND_ERROR_PREFIX,
};
use crate::text::{opt_slice, push_str_chars, str_eq, string_of};

verus! {

pub open spec fn opt_string(o: Option<String>) -> Option<Seq<char>> {
    match o {
        Some(s) => Some(s@),
        None => None,
    }
}

// ---------------------------------------------------------------------------
// Reading the errors array
// ---------------------------------------------------------------------------

/// `extensions.code` of the first error.
pub open spec fn spec_error_code(errors: Json) -> Option<Seq<char>> {
    opt_as_str(opt_get(opt_get(errors.spec_first(), "extensions"@), "code"@))
}

/// `message` of the first error.
pub open spec fn spec_error_message_text(errors: Json) -> Option<Seq<char>> {
    opt_as_str(opt_get(errors.spec_first(), "message"@))
}

/// The first `errorCode` string among the items.
pub open spec fn first_error_code_in(items: Seq<Json>) -> Option<Seq<char>>
    decreases items.len(),
{
    if items.len() == 0 {
        None
    } else {
        match opt_as_str(items[0].spec_get("errorCode"@)) {
            Some(code) => Some(code),
            None => first_error_code_in(items.drop_first()),
        }
    }
}

/// The `errorCode` of a `validationErrors` value: its own for an object, the
/// first item's that has one for an array.
pub open spec fn spec_extract_validation_code(value: Option<Json>) -> Option<Seq<char>> {
    match value {
        Some(Json::Object(fields)) => opt_as_str(member(fields@, "errorCode"@)),
        Some(Json::Array(items)) => first_error_code_in(items@),
        _ => None,
    }
}

/// The validation code of the first error, from its `validationErrors` or else
/// from `extensions.validationErrors`.
pub open spec fn spec_validation_code(errors: Json) -> Option<Seq<char>> {
    match errors.spec_first() {
        Some(first) => match spec_extract_validation_code(first.spec_get("validationErrors"@)) {
            Some(code) => Some(code),
            None => spec_extract_validation_code(
                opt_get(first.spec_get("extensions"@), "validationErrors"@),
            ),
        },
        None => None,
    }
}

/// The string under `key` nearest the top of a value: an object's own member
/// first, then its members' values in order, then an array's items in order.
pub open spec fn spec_detail(value: Json, key: Seq<char>) -> Option<Seq<char>>
    decreases value, 0int,
{
    match value {
        Json::Object(fields) => match opt_as_str(member(fields@, key)) {
            Some(s) => Some(s),
            None => detail_in_members(fields@, key),
        },
        Json::Array(items) => detail_in_items(items@, key),
        _ => None,
    }
}

pub open spec fn detail_in_members(fields: Seq<(String, Json)>, key: Seq<char>) -> Option<
    Seq<char>,
>
    decreases fields, 1int,
{
    if fields.len() == 0 {
        None
    } else {
        match spec_detail(fields[0].1, key) {
            Some(s) => Some(s),
            None => detail_in_members(fields.subrange(1, fields.len() as int), key),
        }
    }
}

pub open spec fn detail_in_items(items: Seq<Json>, key: Seq<char>) -> Option<Seq<char>>
    decreases items, 1int,
{
    if items.len() == 0 {
        None
    } else {
        match spec_detail(items[0], key) {
            Some(s) => Some(s),
            None => detail_in_items(items.subrange(1, items.len() as int), key),
        }
    }
}

/// The detail `key` of the first error's validation errors.
pub open spec fn spec_validation_detail(errors: Json, key: Seq<char>) -> Option<Seq<char>> {
    match errors.spec_first() {
        Some(first) => {
            let validation = match first.spec_get("validationErrors"@) {
                Some(v) => Some(v),
                None => opt_get(first.spec_get("extensions"@), "validationErrors"@),
            };
            match validation {
                Some(v) => spec_detail(v, key),
                None => None,
            }
        },
        None => None,
    }
}


fn owned_str(v: Option<&Json>) -> (res: Option<String>)
    ensures
        opt_string(res) == opt_as_str(opt_ref(v)),
{
    match v {
        Some(value) => match value.as_str() {
            Some(s) => Some(s.to_owned()),
            None => None,
        },
        None => None,
    }
}

fn first_error(errors: &Json) -> (res: Option<&Json>)
    ensures
        opt_ref(res) == errors.spec_first(),
{
    errors.first()
}

fn opt_member<'a>(v: Option<&'a Json>, key: &str) -> (res: Option<&'a Json>)
    ensures
        opt_ref(res) == opt_get(opt_ref(v), key@),
{
    match v {
        Some(value) => value.get(key),
        None => None,
    }
}

/// `extensions.code` of the first error.
pub fn graphql_error_code(errors: &Json) -> (res: Option<String>)
    ensures
        opt_string(res) == spec_error_code(*errors),
{
    let first = first_error(errors);
    let extensions = opt_member(first, "extensions");
    owned_str(opt_member(extensions, "code"))
}

/// `message` of the first error.
pub fn graphql_error_message_text(errors: &Json) -> (res: Option<String>)
    ensures
        opt_string(res) == spec_error_message_text(*errors),
{
    owned_str(opt_member(first_error(errors), "message"))
}

/// The `errorCode` of a `validationErrors` value.
pub fn extract_validation_error_code(value: Option<&Json>) -> (res: Option<String>)
    ensures
        opt_string(res) == spec_extract_validation_code(opt_ref(value)),
{
    match value {
        Some(Json::Object(_)) => owned_str(value.unwrap().get("errorCode")),
        Some(Json::Array(items)) => {
            let mut i: usize = 0;
            proof {
                assert(items@.skip(0) =~= items@);
            }
            while i < items.len()
                invariant
                    i <= items.len(),
                    opt_ref(value) == Some(Json::Array(*items)),
                    first_error_code_in(items@) == first_error_code_in(items@.skip(i as int)),
                decreases items.len() - i,
            {
                proof {
                    assert(items@.skip(i as int).drop_first() =~= items@.skip(i + 1));
                    assert(items@.skip(i as int)[0] == items@[i as int]);
                }
                let code = owned_str(items[i].get("errorCode"));
                if code.is_some() {
                    return code;
                }
                i = i + 1;
            }
            None
        },
        _ => None,
    }
}

/// The validation code of the first error.
pub fn graphql_validation_error_code(errors: &Json) -> (res: Option<String>)
    ensures
        opt_string(res) == spec_validation_code(*errors),
{
    match first_error(errors) {
        Some(first) => {
            let direct = extract_validation_error_code(first.get("validationErrors"));
            if direct.is_some() {
                return direct;
            }
            extract_validation_error_code(opt_member(first.get("extensions"), "validationErrors"))
        },
        None => None,
    }
}

/// The string under `key` nearest the top of a validation-errors value.
///
/// An object's own member comes first, then each member's value searched in
/// full, in order; an array's items are searched in order, each as a whole.
pub fn extract_validation_error_detail(value: &Json, key: &str) -> (res: Option<String>)
    ensures
        opt_string(res) == spec_detail(*value, key@),
    decreases value,
{
    match value {
        Json::Object(fields) => {
            let own = owned_str(value.get(key));
            if own.is_some() {
                return own;
            }
            let mut i: usize = 0;
            proof {
                assert(fields@.subrange(0, fields@.len() as int) =~= fields@);
            }
            while i < fields.len()
                invariant
                    i <= fields.len(),
                    *value == Json::Object(*fields),
                    spec_detail(*value, key@) == detail_in_members(
                        fields@.subrange(i as int, fields@.len() as int),
                        key@,
                    ),
                decreases fields.len() - i,
            {
                let ghost rest = fields@.subrange(i as int, fields@.len() as int);
                proof {
                    assert(rest.subrange(1, rest.len() as int) =~= fields@.subrange(
                        i + 1,
                        fields@.len() as int,
                    ));
                    assert(rest[0] == fields@[i as int]);
                    assert(decreases_to!(fields@ => fields@[i as int]));
                }
                let found = extract_validation_error_detail(&fields[i].1, key);
                if found.is_some() {
                    return found;
                }
                i = i + 1;
            }
            None
        },
        Json::Array(items) => {
            let mut i: usize = 0;
            proof {
                assert(items@.subrange(0, items@.len() as int) =~= items@);
            }
            while i < items.len()
                invariant
                    i <= items.len(),
                    *value == Json::Array(*items),
                    spec_detail(*value, key@) == detail_in_items(
                        items@.subrange(i as int, items@.len() as int),
                        key@,
                    ),
                decreases items.len() - i,
            {
                let ghost rest = items@.subrange(i as int, items@.len() as int);
                proof {
                    assert(rest.subrange(1, rest.len() as int) =~= items@.subrange(
                        i + 1,
                        items@.len() as int,
                    ));
                    assert(rest[0] == items@[i as int]);
                    assert(decreases_to!(items@ => items@[i as int]));
                }
                let found = extract_validation_error_detail(&items[i], key);
                if found.is_some() {
                    return found;
                }
                i = i + 1;
            }
            None
        },
        _ => None,
    }
}

/// The detail `key` of the first error's validation errors.
pub fn graphql_validation_error_detail(errors: &Json, key: &str) -> (res: Option<String>)
    ensures
        opt_string(res) == spec_validation_detail(*errors, key@),
{
    match first_error(errors) {
        Some(first) => {
            let validation = match first.get("validationErrors") {
                Some(v) => Some(v),
                None => opt_member(first.get("extensions"), "validationErrors"),
            };
            match validation {
                Some(v) => extract_validation_error_detail(v, key),
                None => None,
            }
        },
        None => None,
    }
}


// ---------------------------------------------------------------------------
// Messages
// ---------------------------------------------------------------------------

pub open spec fn or_unspecified(detail: Option<Seq<char>>) -> Seq<char> {
    match detail {
        Some(d) => d,
        None => "<unspecified>"@,
    }
}

/// The message for a rejected portfolio-group request, by validation code;
/// the backend's message, or a generic one, completes it.
pub open spec fn spec_portfolio_groups_message(
    code: Option<Seq<char>>,
    errors: Json,
    backend_message: Option<Seq<char>>,
) -> Option<Seq<char>> {
    let backend = match backend_message {
        Some(m) => m,
        None => "Backend rejected the portfolio group request"@,
    };
    match code {
        Some(c) => if c == "PortfolioGroupNotFound"@ {
            Some(BROKER_PORTFOLIO_GROUP_NOT_FOUND_ERROR_PREFIX@ + " field 'group_id' was not found"@)
        } else if c == "PortfolioGroupDisallowedCharacters"@ {
            Some(BROKER_PORTFOLIO_GROUP_INVALID_CHARACTERS_ERROR_PREFIX@ + " field '"@
                + or_unspecified(spec_validation_detail(errors, "field"@))
                + "', disallowed_characters '"@
                + or_unspecified(spec_validation_detail(errors, "disallowedCharacters"@)) + "': "@
                + backend)
        } else if c == "PortfolioGroupValidation"@ || c == "BAD_REQUEST"@ {
            Some("Broker input invalid: "@ + backend)
        } else if c == "PortfolioGroupsQuotaExceeded"@ {
            Some(BROKER_PORTFOLIO_GROUPS_QUOTA_EXCEEDED_ERROR_PREFIX@ + " "@ + backend)
        } else if c == "PortfolioGroupsLimitReached"@ {
            Some(BROKER_PORTFOLIO_GROUPS_LIMIT_REACHED_ERROR_PREFIX@ + " "@ + backend)
        } else if c == "GroupAlreadyExists"@ {
            Some(BROKER_PORTFOLIO_GROUP_ALREADY_EXISTS_ERROR_PREFIX@ + " "@ + backend)
        } else if c == "PortfolioGroupCannotBeRemoved"@ {
            Some(BROKER_PORTFOLIO_GROUP_CANNOT_BE_REMOVED_ERROR_PREFIX@ + " "@ + backend)
        } else {
            None
        },
        None => None,
    }
}

pub open spec fn is_savings_plan_operation(name: Seq<char>) -> bool {
    ||| name == "BrokerSavingsPlanConfig"@
    ||| name == "BrokerSavingsPlanByIsin"@
    ||| name == "BrokerSavingsPlanExAnteCost"@
    ||| name == "BrokerCreateOrUpdateSavingsPlan"@
    ||| name == "BrokerRemoveSavingsPlan"@
}

pub open spec fn is_portfolio_group_operation(name: Seq<char>) -> bool {
    ||| name == "BrokerCreatePortfolioGroup"@
    ||| name == "BrokerUpdatePortfolioGroup"@
    ||| name == "BrokerDeletePortfolioGroup"@
    ||| name == "BrokerAssignPortfolioGroupItems"@
    ||| name == "BrokerUnassignPortfolioGroupItems"@
}

/// The backend flagged the ISIN as invalid.
pub open spec fn is_invalid_isin_error(errors: Json) -> bool {
    spec_error_code(errors) == Some("BAD_USER_INPUT"@) && spec_error_message_text(errors) == Some(
        "Invalid ISIN provided"@,
    )
}

/// The broker's own message for the errors of an operation, where it has one.
pub open spec fn spec_broker_message(operation_name: Option<Seq<char>>, errors: Json) -> Option<
    Seq<char>,
> {
    match operation_name {
        Some(name) => if is_savings_plan_operation(name) && is_invalid_isin_error(errors) {
            Some("SAVINGS_PLAN_INPUT_INVALID: field 'isin' must be a valid ISIN"@)
        } else if name == "BrokerQuote"@ && is_invalid_isin_error(errors) {
            Some("Broker input invalid: field 'isin' must be a valid ISIN"@)
        } else if name == "BrokerTransactionDetails"@ && spec_validation_code(errors) == Some(
            "TransactionNotFound"@,
        ) {
            Some("Broker transaction not found: field 'transaction_id' was not found"@)
        } else if is_portfolio_group_operation(name) {
            spec_portfolio_groups_message(
                spec_validation_code(errors),
                errors,
                spec_error_message_text(errors),
            )
        } else {
            None
        },
        None => None,
    }
}

/// The message for a response that carries errors: the broker's own where it
/// has one, else a generic one naming the operation and the error code.
pub open spec fn spec_application_error_message(operation_name: Option<Seq<char>>, errors: Json) -> Seq<
    char,
> {
    match spec_broker_message(operation_name, errors) {
        Some(m) => m,
        None => "GraphQL returned errors"@ + match operation_name {
            Some(name) => " for "@ + name,
            None => Seq::empty(),
        } + match spec_error_code(errors) {
            Some(code) => " (code: "@ + code + ")"@,
            None => Seq::empty(),
        },
    }
}

fn detail_or_unspecified(errors: &Json, key: &str) -> (res: String)
    ensures
        res@ == or_unspecified(spec_validation_detail(*errors, key@)),
{
    match graphql_validation_error_detail(errors, key) {
        Some(d) => d,
        None => "<unspecified>".to_owned(),
    }
}

fn joined(a: &str, b: &str) -> (res: Option<String>)
    ensures
        opt_string(res) == Some(a@ + b@),
{
    let mut text: Vec<char> = Vec::new();
    push_str_chars(&mut text, a);
    push_str_chars(&mut text, b);
    Some(string_of(&text))
}

fn prefixed(prefix: &str, sep: &str, message: &str) -> (res: Option<String>)
    ensures
        res is Some,
        opt_string(res) == Some(prefix@ + sep@ + message@),
{
    let mut text: Vec<char> = Vec::new();
    push_str_chars(&mut text, prefix);
    push_str_chars(&mut text, sep);
    push_str_chars(&mut text, message);
    Some(string_of(&text))
}

pub fn portfolio_groups_graphql_application_error_message(
    validation_error_code: Option<&str>,
    errors: &Json,
    backend_message: Option<&str>,
) -> (res: Option<String>)
    ensures
        opt_string(res) == spec_portfolio_groups_message(
            opt_slice(validation_error_code),
            *errors,
            opt_slice(backend_message),
        ),
{
    let backend: &str = match backend_message {
        Some(m) => m,
        None => "Backend rejected the portfolio group request",
    };
    let code = match validation_error_code {
        Some(c) => c,
        None => {
            return None;
        },
    };
    if str_eq(code, "PortfolioGroupNotFound") {
        joined(BROKER_PORTFOLIO_GROUP_NOT_FOUND_ERROR_PREFIX, " field 'group_id' was not found")
    } else if str_eq(code, "PortfolioGroupDisallowedCharacters") {
        let field = detail_or_unspecified(errors, "field");
        let chars = detail_or_unspecified(errors, "disallowedCharacters");
        let mut text: Vec<char> = Vec::new();
        push_str_chars(&mut text, BROKER_PORTFOLIO_GROUP_INVALID_CHARACTERS_ERROR_PREFIX);
        push_str_chars(&mut text, " field '");
        push_str_chars(&mut text, field.as_str());
        push_str_chars(&mut text, "', disallowed_characters '");
        push_str_chars(&mut text, chars.as_str());
        push_str_chars(&mut text, "': ");
        push_str_chars(&mut text, backend);
        Some(string_of(&text))
    } else if str_eq(code, "PortfolioGroupValidation") || str_eq(code, "BAD_REQUEST") {
        joined("Broker input invalid: ", backend)
    } else if str_eq(code, "PortfolioGroupsQuotaExceeded") {
        prefixed(BROKER_PORTFOLIO_GROUPS_QUOTA_EXCEEDED_ERROR_PREFIX, " ", backend)
    } else if str_eq(code, "PortfolioGroupsLimitReached") {
        prefixed(BROKER_PORTFOLIO_GROUPS_LIMIT_REACHED_ERROR_PREFIX, " ", backend)
    } else if str_eq(code, "GroupAlreadyExists") {
        prefixed(BROKER_PORTFOLIO_GROUP_ALREADY_EXISTS_ERROR_PREFIX, " ", backend)
    } else if str_eq(code, "PortfolioGroupCannotBeRemoved") {
        prefixed(BROKER_PORTFOLIO_GROUP_CANNOT_BE_REMOVED_ERROR_PREFIX, " ", backend)
    } else {
        None
    }
}

fn opt_eq(o: &Option<String>, s: &str) -> (res: bool)
    ensures
        res == (opt_string(*o) == Some(s@)),
{
    match o {
        Some(v) => str_eq(v.as_str(), s),
        None => false,
    }
}

fn as_opt_str(o: &Option<String>) -> (res: Option<&str>)
    ensures
        opt_slice(res) == opt_string(*o),
{
    match o {
        Some(v) => Some(v.as_str()),
        None => None,
    }
}

/// The broker's own message for the errors of an operation, where it has one.
pub fn broker_graphql_application_error_message(operation_name: Option<&str>, errors: &Json) -> (res:
    Option<String>)
    ensures
        opt_string(res) == spec_broker_message(opt_slice(operation_name), *errors),
{
    let name = match operation_name {
        Some(n) => n,
        None => {
            return None;
        },
    };
    let code = graphql_error_code(errors);
    let text = graphql_error_message_text(errors);
    let validation = graphql_validation_error_code(errors);
    let invalid_isin = opt_eq(&code, "BAD_USER_INPUT") && opt_eq(&text, "Invalid ISIN provided");
    let savings = str_eq(name, "BrokerSavingsPlanConfig") || str_eq(name, "BrokerSavingsPlanByIsin")
        || str_eq(name, "BrokerSavingsPlanExAnteCost") || str_eq(
        name,
        "BrokerCreateOrUpdateSavingsPlan",
    ) || str_eq(name, "BrokerRemoveSavingsPlan");
    let groups = str_eq(name, "BrokerCreatePortfolioGroup") || str_eq(
        name,
        "BrokerUpdatePortfolioGroup",
    ) || str_eq(name, "BrokerDeletePortfolioGroup") || str_eq(
        name,
        "BrokerAssignPortfolioGroupItems",
    ) || str_eq(name, "BrokerUnassignPortfolioGroupItems");
    if savings && invalid_isin {
        Some("SAVINGS_PLAN_INPUT_INVALID: field 'isin' must be a valid ISIN".to_owned())
    } else if str_eq(name, "BrokerQuote") && invalid_isin {
        Some("Broker input invalid: field 'isin' must be a valid ISIN".to_owned())
    } else if str_eq(name, "BrokerTransactionDetails") && opt_eq(&validation, "TransactionNotFound") {
        Some("Broker transaction not found: field 'transaction_id' was not found".to_owned())
    } else if groups {
        portfolio_groups_graphql_application_error_message(
            as_opt_str(&validation),
            errors,
            as_opt_str(&text),
        )
    } else {
        None
    }
}

/// The message for a response that carries errors.
pub fn graphql_application_error_message(operation_name: Option<&str>, errors: &Json) -> (res:
    String)
    ensures
        res@ == spec_application_error_message(opt_slice(operation_name), *errors),
{
    if let Some(message) = broker_graphql_application_error_message(operation_name, errors) {
        return message;
    }
    let mut text: Vec<char> = Vec::new();
    push_str_chars(&mut text, "GraphQL returned errors");
    if let Some(name) = operation_name {
        push_str_chars(&mut text, " for ");
        push_str_chars(&mut text, name);
    }
    if let Some(code) = graphql_error_code(errors) {
        push_str_chars(&mut text, " (code: ");
        push_str_chars(&mut text, code.as_str());
        push_str_chars(&mut text, ")");
    }
    proof {
        assert(text@ =~= spec_application_error_message(opt_slice(operation_name), *errors));
    }
    string_of(&text)
}

} // verus!
