//! The trade flow's requests and the smaller answers it reads: variables,
//! the appropriateness gate and warning, document links, and the results of
//! placing and cancelling an order.
use vstd::prelude::*;

use crate::error_report::{plain_errors};
use crate::error_report::ErrorReport;
use crate::json::{opt_as_bool, opt_as_str, opt_get, opt_ref, Json, JsonView, ObjectBuilder};
use crate::text::{chars_of, opt_slice, push_str_chars, str_eq, string_of, trim, trim_chars};
use crate::trade::{non_blank, opt_view, portfolio_of, security_of};

verus! {

pub open spec fn string_result(r: Result<String, ErrorReport>) -> Result<Seq<char>, Seq<char>> {
    match r {
        Ok(s) => Ok(s@),
        Err(e) => Err(e.messages()[0]),
    }
}

pub open spec fn trade_field_error(field: Seq<char>) -> Seq<char> {
    "Trade input invalid: field '"@ + field + "' must be a non-empty string"@
}

/// A required trade input: trimmed, and refused when blank.
pub open spec fn spec_required_non_empty(value: Seq<char>, field: Seq<char>) -> Result<
    Seq<char>,
    Seq<char>,
> {
    if trim(value).len() == 0 {
        Err(trade_field_error(field))
    } else {
        Ok(trim(value))
    }
}

pub fn required_non_empty(value: &str, field: &str) -> (res: Result<String, ErrorReport>)
    ensures
        plain_errors(res),
        string_result(res) == spec_required_non_empty(value@, field@),
        res matches Err(e) ==> e.messages().len() == 1,
{
    let t = trim_chars(value);
    if t.len() == 0 {
        let mut text: Vec<char> = Vec::new();
        push_str_chars(&mut text, "Trade input invalid: field '");
        push_str_chars(&mut text, field);
        push_str_chars(&mut text, "' must be a non-empty string");
        let s = string_of(&text);
        return Err(ErrorReport::msg(s.as_str()));
    }
    Ok(string_of(&t))
}

/// A locale as the warning query takes it: `de_DE` becomes `de-DE`.
pub open spec fn spec_warning_query_locale(locale: Seq<char>) -> Result<Seq<char>, Seq<char>> {
    match spec_required_non_empty(locale, "locale"@) {
        Ok(l) => Ok(l.map_values(|c: char| if c == '_' { '-' } else { c })),
        Err(e) => Err(e),
    }
}

pub fn normalize_warning_query_locale(locale: &str) -> (res: Result<String, ErrorReport>)
    ensures
        plain_errors(res),
        string_result(res) == spec_warning_query_locale(locale@),
        res matches Err(e) ==> e.messages().len() == 1,
{
    let l = match required_non_empty(locale, "locale") {
        Ok(l) => l,
        Err(e) => {
            return Err(e);
        },
    };
    let v = chars_of(l.as_str());
    let mut out: Vec<char> = Vec::new();
    let mut i: usize = 0;
    while i < v.len()
        invariant
            i <= v.len(),
            out@ == v@.take(i as int).map_values(|c: char| if c == '_' { '-' } else { c }),
        decreases v.len() - i,
    {
        let c = v[i];
        out.push(if c == '_' { '-' } else { c });
        proof {
            assert(out@ =~= v@.take(i + 1).map_values(|c: char| if c == '_' { '-' } else { c }));
        }
        i = i + 1;
    }
    proof {
        assert(v@.take(v.len() as int) =~= v@);
    }
    Ok(string_of(&out))
}

pub open spec fn json_result(r: Result<Json, ErrorReport>) -> Result<JsonView, Seq<char>> {
    match r {
        Ok(j) => Ok(j@),
        Err(e) => Err(e.messages()[0]),
    }
}

/// Variables of the appropriateness warning query.
pub fn trade_appropriateness_warning_variables(locale: &str) -> (res: Result<Json, ErrorReport>)
    ensures
        plain_errors(res),
        json_result(res) == match spec_warning_query_locale(locale@) {
            Ok(l) => Ok::<JsonView, Seq<char>>(JsonView::Object(seq![("locale"@, JsonView::Str(l))])),
            Err(e) => Err(e),
        },
{
    let l = match normalize_warning_query_locale(locale) {
        Ok(l) => l,
        Err(e) => {
            return Err(e);
        },
    };
    let mut out = ObjectBuilder::new();
    let ghost lv = l@;
    out.add("locale", Json::Str(l));
    proof {
        assert(out.members() =~= seq![("locale"@, JsonView::Str(lv))]);
    }
    Ok(out.build())
}

/// Variables made of two required, trimmed ids, or the first blank one's
/// error.
pub open spec fn spec_two_id_variables(
    key_a: Seq<char>,
    value_a: Seq<char>,
    field_a: Seq<char>,
    key_b: Seq<char>,
    value_b: Seq<char>,
    field_b: Seq<char>,
) -> Result<JsonView, Seq<char>> {
    match spec_required_non_empty(value_a, field_a) {
        Err(e) => Err(e),
        Ok(a) => match spec_required_non_empty(value_b, field_b) {
            Err(e) => Err(e),
            Ok(b) => Ok(JsonView::Object(seq![(key_a, JsonView::Str(a)), (key_b, JsonView::Str(b))])),
        },
    }
}

/// Variables of the tradability query: the person, the portfolio and the
/// ISIN, each required and trimmed.
pub open spec fn spec_tradability_variables(
    person_id: Seq<char>,
    portfolio_id: Seq<char>,
    isin: Seq<char>,
) -> Result<JsonView, Seq<char>> {
    match spec_required_non_empty(person_id, "person_id"@) {
        Err(e) => Err(e),
        Ok(p) => match spec_required_non_empty(portfolio_id, "portfolio_id"@) {
            Err(e) => Err(e),
            Ok(q) => match spec_required_non_empty(isin, "isin"@) {
                Err(e) => Err(e),
                Ok(i) => Ok(
                    JsonView::Object(
                        seq![
                            ("personId"@, JsonView::Str(p)),
                            ("portfolioId"@, JsonView::Str(q)),
                            ("isin"@, JsonView::Str(i)),
                        ],
                    ),
                ),
            },
        },
    }
}

/// Variables of the tradability query.
pub fn trade_tradability_variables(person_id: &str, portfolio_id: &str, isin: &str) -> (res: Result<
    Json,
    ErrorReport,
>)
    ensures
        plain_errors(res),
        json_result(res) == spec_tradability_variables(person_id@, portfolio_id@, isin@),
{
    let p = match required_non_empty(person_id, "person_id") {
        Ok(v) => v,
        Err(e) => {
            return Err(e);
        },
    };
    let q = match required_non_empty(portfolio_id, "portfolio_id") {
        Ok(v) => v,
        Err(e) => {
            return Err(e);
        },
    };
    let i = match required_non_empty(isin, "isin") {
        Ok(v) => v,
        Err(e) => {
            return Err(e);
        },
    };
    let ghost (pv, qv, iv) = (p@, q@, i@);
    let mut out = ObjectBuilder::new();
    out.add("personId", Json::Str(p));
    out.add("portfolioId", Json::Str(q));
    out.add("isin", Json::Str(i));
    proof {
        assert(out.members() =~= seq![
            ("personId"@, JsonView::Str(pv)),
            ("portfolioId"@, JsonView::Str(qv)),
            ("isin"@, JsonView::Str(iv)),
        ]);
    }
    Ok(out.build())
}

/// Variables of a query about a person's portfolio.
fn two_id_variables(
    key_a: &str,
    value_a: &str,
    field_a: &str,
    key_b: &str,
    value_b: &str,
    field_b: &str,
) -> (res: Result<Json, ErrorReport>)
    ensures
        plain_errors(res),
        json_result(res) == spec_two_id_variables(key_a@, value_a@, field_a@, key_b@, value_b@, field_b@),
{
    let a = match required_non_empty(value_a, field_a) {
        Ok(v) => v,
        Err(e) => {
            return Err(e);
        },
    };
    let b = match required_non_empty(value_b, field_b) {
        Ok(v) => v,
        Err(e) => {
            return Err(e);
        },
    };
    let ghost (av, bv) = (a@, b@);
    let mut out = ObjectBuilder::new();
    out.add(key_a, Json::Str(a));
    out.add(key_b, Json::Str(b));
    proof {
        assert(out.members() =~= seq![(key_a@, JsonView::Str(av)), (key_b@, JsonView::Str(bv))]);
    }
    Ok(out.build())
}

/// Variables of the appropriateness result query.
pub fn trade_appropriateness_result_variables(person_id: &str, portfolio_id: &str) -> (res: Result<
    Json,
    ErrorReport,
>)
    ensures
        plain_errors(res),
        json_result(res) == spec_two_id_variables(
            "personId"@,
            person_id@,
            "person_id"@,
            "portfolioId"@,
            portfolio_id@,
            "portfolio_id"@,
        ),
{
    two_id_variables("personId", person_id, "person_id", "portfolioId", portfolio_id, "portfolio_id")
}

/// Variables of the cancel-order mutation.
pub fn trade_cancel_order_variables(portfolio_id: &str, order_id: &str) -> (res: Result<
    Json,
    ErrorReport,
>)
    ensures
        plain_errors(res),
        json_result(res) == spec_two_id_variables(
            "portfolioId"@,
            portfolio_id@,
            "portfolio_id"@,
            "orderId"@,
            order_id@,
            "order_id"@,
        ),
{
    two_id_variables("portfolioId", portfolio_id, "portfolio_id", "orderId", order_id, "order_id")
}

// ---------------------------------------------------------------------------
// Answers
// ---------------------------------------------------------------------------

/// The outcome of placing an order.
#[derive(Debug, Clone)]
pub struct PlaceOrderResult {
    pub order_id: String,
    pub is_marketable: Option<bool>,
}

/// The order id (required, not empty) and marketability of a placed order.
pub open spec fn spec_place_order_result(response: Json) -> Result<(Seq<char>, Option<bool>), Seq<char>> {
    match opt_get(response.spec_get("placeOrder"@), "orderData"@) {
        None => Err("Trade response invalid: missing placeOrder.orderData"@),
        Some(data) => match opt_as_str(data.spec_get("orderId"@)) {
            Some(id) if id.len() > 0 => Ok((id, opt_as_bool(data.spec_get("isMarketable"@)))),
            _ => Err("Trade response invalid: missing order id"@),
        },
    }
}

pub fn parse_place_order_result(response: &Json) -> (res: Result<PlaceOrderResult, ErrorReport>)
    ensures
        plain_errors(res),
        match (res, spec_place_order_result(*response)) {
            (Ok(r), Ok((id, m))) => r.order_id@ == id && r.is_marketable == m,
            (Err(e), Err(m)) => e.messages() == seq![m],
            _ => false,
        },
{
    let data = match response.get("placeOrder") {
        Some(p) => match p.get("orderData") {
            Some(d) => d,
            None => {
                return Err(ErrorReport::msg("Trade response invalid: missing placeOrder.orderData"));
            },
        },
        None => {
            return Err(ErrorReport::msg("Trade response invalid: missing placeOrder.orderData"));
        },
    };
    let order_id = match data.get("orderId") {
        Some(v) => match v.as_str() {
            Some(id) => if chars_of(id).len() > 0 {
                id.to_owned()
            } else {
                return Err(ErrorReport::msg("Trade response invalid: missing order id"));
            },
            None => {
                return Err(ErrorReport::msg("Trade response invalid: missing order id"));
            },
        },
        None => {
            return Err(ErrorReport::msg("Trade response invalid: missing order id"));
        },
    };
    let is_marketable = match data.get("isMarketable") {
        Some(v) => v.as_bool(),
        None => None,
    };
    Ok(PlaceOrderResult { order_id, is_marketable })
}

/// A cancellation went through when the response holds a `cancelOrder`
/// object.
pub open spec fn spec_cancel_order_result(response: Json) -> Result<(), Seq<char>> {
    match response.spec_get("cancelOrder"@) {
        None => Err("Trade response invalid: missing cancelOrder"@),
        Some(Json::Null) => Err("Trade response invalid: cancelOrder was null"@),
        Some(Json::Object(_)) => Ok(()),
        Some(_) => Err("Trade response invalid: cancelOrder must be an object"@),
    }
}

pub fn parse_cancel_order_result(response: &Json) -> (res: Result<(), ErrorReport>)
    ensures
        plain_errors(res),
        match (res, spec_cancel_order_result(*response)) {
            (Ok(()), Ok(())) => true,
            (Err(e), Err(m)) => e.messages() == seq![m],
            _ => false,
        },
{
    match response.get("cancelOrder") {
        None => Err(ErrorReport::msg("Trade response invalid: missing cancelOrder")),
        Some(Json::Null) => Err(ErrorReport::msg("Trade response invalid: cancelOrder was null")),
        Some(Json::Object(_)) => Ok(()),
        Some(_) => Err(ErrorReport::msg("Trade response invalid: cancelOrder must be an object")),
    }
}

/// The legacy appropriateness check of an order.
#[derive(Debug, Clone)]
pub struct AppropriatenessGate {
    pub status: String,
    pub appropriateness_id: Option<String>,
    pub passed: bool,
    pub requires_warning_ack: bool,
    pub requires_questionnaire: bool,
}

/// A gate as plain values: status, id, passed, warning to acknowledge,
/// questionnaire required.
pub open spec fn spec_appropriateness_gate(response: Json, required: bool) -> Result<
    (Seq<char>, Option<Seq<char>>, bool, bool, bool),
    Seq<char>,
> {
    if !required {
        Ok(("NOT_REQUIRED"@, None, true, false, false))
    } else {
        match opt_get(portfolio_of(response), "appropriatenessInfo"@) {
            None => Err("Trade response invalid: missing appropriateness info"@),
            Some(info) => match opt_as_str(info.spec_get("result"@)) {
                None => Err("Trade response invalid: missing appropriateness result"@),
                Some(status) => Ok(
                    (
                        status,
                        match opt_as_str(info.spec_get("appropriatenessId"@)) {
                            Some(id) if id.len() > 0 => Some(id),
                            _ => None,
                        },
                        status == "APPROPRIATE"@,
                        status == "NOT_APPROPRIATE"@,
                        status == "NOT_EVALUATED"@,
                    ),
                ),
            },
        }
    }
}

pub fn evaluate_appropriateness_gate(response: &Json, appropriateness_required: bool) -> (res: Result<
    AppropriatenessGate,
    ErrorReport,
>)
    ensures
        plain_errors(res),
        match (res, spec_appropriateness_gate(*response, appropriateness_required)) {
            (Ok(g), Ok((status, id, passed, ack, questionnaire))) => g.status@ == status && opt_view(
                g.appropriateness_id,
            ) == id && g.passed == passed && g.requires_warning_ack == ack && g.requires_questionnaire
                == questionnaire,
            (Err(e), Err(m)) => e.messages() == seq![m],
            _ => false,
        },
{
    if !appropriateness_required {
        return Ok(
            AppropriatenessGate {
                status: "NOT_REQUIRED".to_owned(),
                appropriateness_id: None,
                passed: true,
                requires_warning_ack: false,
                requires_questionnaire: false,
            },
        );
    }
    let info = match response.get("account") {
        Some(a) => match a.get("brokerPortfolio") {
            Some(p) => match p.get("appropriatenessInfo") {
                Some(i) => i,
                None => {
                    return Err(ErrorReport::msg("Trade response invalid: missing appropriateness info"));
                },
            },
            None => {
                return Err(ErrorReport::msg("Trade response invalid: missing appropriateness info"));
            },
        },
        None => {
            return Err(ErrorReport::msg("Trade response invalid: missing appropriateness info"));
        },
    };
    let status = match info.get("result") {
        Some(v) => match v.as_str() {
            Some(s) => s,
            None => {
                return Err(ErrorReport::msg("Trade response invalid: missing appropriateness result"));
            },
        },
        None => {
            return Err(ErrorReport::msg("Trade response invalid: missing appropriateness result"));
        },
    };
    let appropriateness_id = match info.get("appropriatenessId") {
        Some(v) => match v.as_str() {
            Some(id) => if chars_of(id).len() > 0 {
                Some(id.to_owned())
            } else {
                None
            },
            None => None,
        },
        None => None,
    };
    Ok(
        AppropriatenessGate {
            status: status.to_owned(),
            appropriateness_id,
            passed: str_eq(status, "APPROPRIATE"),
            requires_warning_ack: str_eq(status, "NOT_APPROPRIATE"),
            requires_questionnaire: str_eq(status, "NOT_EVALUATED"),
        },
    )
}

/// The texts of the appropriateness warning.
#[derive(Debug, Clone)]
pub struct AppropriatenessWarning {
    pub version: String,
    pub locale: String,
    pub prompt_text: String,
    pub acknowledgement_text: String,
}

/// A required, non-empty text member of the warning.
pub open spec fn warning_text(warning: Json, key: Seq<char>, what: Seq<char>) -> Result<
    Seq<char>,
    Seq<char>,
> {
    match opt_as_str(warning.spec_get(key)) {
        Some(t) if t.len() > 0 => Ok(t),
        _ => Err("Trade response invalid: missing warning "@ + what),
    }
}

/// The warning's version, locale, prompt and acknowledgement, each required,
/// read in that order.
pub open spec fn spec_appropriateness_warning(response: Json) -> Result<
    (Seq<char>, Seq<char>, Seq<char>, Seq<char>),
    Seq<char>,
> {
    match response.spec_get("brokerAppropriatenessWarning"@) {
        None => Err("Trade response invalid: missing broker appropriateness warning"@),
        Some(w) => match warning_text(w, "version"@, "version"@) {
            Err(e) => Err(e),
            Ok(version) => match warning_text(w, "locale"@, "locale"@) {
                Err(e) => Err(e),
                Ok(locale) => match warning_text(w, "promptText"@, "prompt text"@) {
                    Err(e) => Err(e),
                    Ok(prompt) => match warning_text(w, "acknowledgementText"@, "acknowledgement text"@) {
                        Err(e) => Err(e),
                        Ok(ack) => Ok((version, locale, prompt, ack)),
                    },
                },
            },
        },
    }
}

fn warning_member(warning: &Json, key: &str, what: &str) -> (res: Result<String, ErrorReport>)
    ensures
        plain_errors(res),
        string_result(res) == warning_text(*warning, key@, what@),
        res matches Err(e) ==> e.messages().len() == 1,
{
    match warning.get(key) {
        Some(v) => match v.as_str() {
            Some(t) => if chars_of(t).len() > 0 {
                return Ok(t.to_owned());
            },
            None => {},
        },
        None => {},
    }
    let mut text: Vec<char> = Vec::new();
    push_str_chars(&mut text, "Trade response invalid: missing warning ");
    push_str_chars(&mut text, what);
    let s = string_of(&text);
    Err(ErrorReport::msg(s.as_str()))
}

pub fn parse_appropriateness_warning(response: &Json) -> (res: Result<
    AppropriatenessWarning,
    ErrorReport,
>)
    ensures
        plain_errors(res),
        match (res, spec_appropriateness_warning(*response)) {
            (Ok(w), Ok((version, locale, prompt, ack))) => w.version@ == version && w.locale@
                == locale && w.prompt_text@ == prompt && w.acknowledgement_text@ == ack,
            (Err(e), Err(m)) => e.messages() == seq![m],
            _ => false,
        },
{
    let warning = match response.get("brokerAppropriatenessWarning") {
        Some(w) => w,
        None => {
            return Err(ErrorReport::msg("Trade response invalid: missing broker appropriateness warning"));
        },
    };
    let version = match warning_member(warning, "version", "version") {
        Ok(v) => v,
        Err(e) => {
            return Err(e);
        },
    };
    let locale = match warning_member(warning, "locale", "locale") {
        Ok(v) => v,
        Err(e) => {
            return Err(e);
        },
    };
    let prompt_text = match warning_member(warning, "promptText", "prompt text") {
        Ok(v) => v,
        Err(e) => {
            return Err(e);
        },
    };
    let acknowledgement_text = match warning_member(warning, "acknowledgementText", "acknowledgement text") {
        Ok(v) => v,
        Err(e) => {
            return Err(e);
        },
    };
    Ok(AppropriatenessWarning { version, locale, prompt_text, acknowledgement_text })
}

/// Variables of the security tick query: the person, the portfolio and the
/// ISIN, each required and trimmed, for the consolidated quote without the
/// year to date.
pub open spec fn spec_security_tick_variables(
    person_id: Seq<char>,
    portfolio_id: Seq<char>,
    isin: Seq<char>,
) -> Result<JsonView, Seq<char>> {
    match spec_tradability_variables(person_id, portfolio_id, isin) {
        Err(e) => Err(e),
        Ok(JsonView::Object(ms)) => Ok(
            JsonView::Object(
                ms + seq![
                    ("includeYearToDate"@, JsonView::Bool(false)),
                    ("source"@, JsonView::Str("CONSOLIDATED"@)),
                ],
            ),
        ),
        Ok(other) => Ok(other),
    }
}

pub fn trade_security_tick_variables(person_id: &str, portfolio_id: &str, isin: &str) -> (res: Result<
    Json,
    ErrorReport,
>)
    ensures
        plain_errors(res),
        json_result(res) == spec_security_tick_variables(person_id@, portfolio_id@, isin@),
{
    let p = required_non_empty(person_id, "person_id")?;
    let q = required_non_empty(portfolio_id, "portfolio_id")?;
    let i = required_non_empty(isin, "isin")?;
    let mut out = ObjectBuilder::new();
    out.add("personId", Json::Str(p));
    out.add("portfolioId", Json::Str(q));
    out.add("isin", Json::Str(i));
    out.add("includeYearToDate", Json::Bool(false));
    out.add("source", Json::Str("CONSOLIDATED".to_owned()));
    proof {
        assert(out.members() =~= spec_security_tick_variables(person_id@, portfolio_id@, isin@)->Ok_0->Object_0);
    }
    Ok(out.build())
}

/// A venue that is given and not blank, trimmed.
pub open spec fn spec_optional_venue(venue: Option<Seq<char>>) -> Option<Seq<char>> {
    match venue {
        Some(v) => if trim(v).len() > 0 {
            Some(trim(v))
        } else {
            None
        },
        None => None,
    }
}

/// Variables of the fill forecast of a buy: the portfolio, the ISIN and the
/// currency, each required and trimmed, and the venue where one is given.
pub open spec fn spec_fill_forecast_variables(
    portfolio_id: Seq<char>,
    isin: Seq<char>,
    currency: Seq<char>,
    venue: Option<Seq<char>>,
) -> Result<JsonView, Seq<char>> {
    match spec_required_non_empty(portfolio_id, "portfolio_id"@) {
        Err(e) => Err(e),
        Ok(p) => match spec_required_non_empty(isin, "isin"@) {
            Err(e) => Err(e),
            Ok(i) => match spec_required_non_empty(currency, "currency"@) {
                Err(e) => Err(e),
                Ok(c) => Ok(
                    JsonView::Object(
                        seq![
                            ("portfolioId"@, JsonView::Str(p)),
                            (
                                "input"@,
                                JsonView::Object(
                                    seq![
                                        ("isin"@, JsonView::Str(i)),
                                        ("side"@, JsonView::Str("BUY"@)),
                                        ("currency"@, JsonView::Str(c)),
                                        (
                                            "venue"@,
                                            match spec_optional_venue(venue) {
                                                Some(v) => JsonView::Str(v),
                                                None => JsonView::Null,
                                            },
                                        ),
                                    ],
                                ),
                            ),
                        ],
                    ),
                ),
            },
        },
    }
}

pub fn trade_fill_forecast_variables(
    portfolio_id: &str,
    isin: &str,
    currency: &str,
    venue: Option<&str>,
) -> (res: Result<Json, ErrorReport>)
    ensures
        plain_errors(res),
        json_result(res) == spec_fill_forecast_variables(portfolio_id@, isin@, currency@, opt_slice(venue)),
{
    let p = required_non_empty(portfolio_id, "portfolio_id")?;
    let i = required_non_empty(isin, "isin")?;
    let c = required_non_empty(currency, "currency")?;
    let venue_value = match venue {
        Some(v) => {
            let t = trim_chars(v);
            if t.len() > 0 {
                Json::Str(string_of(&t))
            } else {
                Json::Null
            }
        },
        None => Json::Null,
    };
    let mut input = ObjectBuilder::new();
    input.add("isin", Json::Str(i));
    input.add("side", Json::Str("BUY".to_owned()));
    input.add("currency", Json::Str(c));
    input.add("venue", venue_value);
    let mut out = ObjectBuilder::new();
    out.add("portfolioId", Json::Str(p));
    proof {
        assert(input.members() =~= spec_fill_forecast_variables(
            portfolio_id@,
            isin@,
            currency@,
            opt_slice(venue),
        )->Ok_0->Object_0[1].1->Object_0);
    }
    out.add("input", input.build());
    proof {
        assert(out.members() =~= spec_fill_forecast_variables(
            portfolio_id@,
            isin@,
            currency@,
            opt_slice(venue),
        )->Ok_0->Object_0);
    }
    Ok(out.build())
}

// ---------------------------------------------------------------------------
// Issuer documents
// ---------------------------------------------------------------------------

/// The key information documents of a security: the primary one, and the
/// one in the asked locale.
#[derive(Debug, Clone, PartialEq, Eq)]
pub struct SecurityIssuerDocumentLinks {
    pub primary_kid_url: Option<String>,
    pub secondary_kid_url: Option<String>,
}

/// The URL of a document entry, where it is a string that is not blank.
pub open spec fn usable_url(entry: Json) -> Option<Seq<char>> {
    match opt_as_str(entry.spec_get("url"@)) {
        Some(u) => if trim(u).len() > 0 {
            Some(u)
        } else {
            None
        },
        None => None,
    }
}

pub open spec fn is_primary_entry(entry: Json) -> bool {
    opt_as_bool(entry.spec_get("isPrimary"@)) == Some(true)
}

pub open spec fn is_secondary_entry(entry: Json, locale: Seq<char>) -> bool {
    opt_as_bool(entry.spec_get("isPrimary"@)) == Some(false) && opt_as_str(entry.spec_get("locale"@))
        == Some(locale)
}

/// The first usable URL among the primary documents.
pub open spec fn first_primary_url(entries: Seq<Json>) -> Option<Seq<char>>
    decreases entries.len(),
{
    if entries.len() == 0 {
        None
    } else if is_primary_entry(entries[0]) && usable_url(entries[0]) is Some {
        usable_url(entries[0])
    } else {
        first_primary_url(entries.drop_first())
    }
}

/// The first usable URL among the other documents in the locale.
pub open spec fn first_secondary_url(entries: Seq<Json>, locale: Seq<char>) -> Option<Seq<char>>
    decreases entries.len(),
{
    if entries.len() == 0 {
        None
    } else if is_secondary_entry(entries[0], locale) && usable_url(entries[0]) is Some {
        usable_url(entries[0])
    } else {
        first_secondary_url(entries.drop_first(), locale)
    }
}

fn entry_url(entry: &Json) -> (res: Option<String>)
    ensures
        opt_view(res) == usable_url(*entry),
{
    match entry.get("url") {
        Some(v) => match v.as_str() {
            Some(u) => if trim_chars(u).len() > 0 {
                Some(u.to_owned())
            } else {
                None
            },
            None => None,
        },
        None => None,
    }
}

fn entry_is_primary(entry: &Json) -> (res: Option<bool>)
    ensures
        res == opt_as_bool(entry.spec_get("isPrimary"@)),
{
    match entry.get("isPrimary") {
        Some(v) => v.as_bool(),
        None => None,
    }
}

fn find_primary_url(entries: &Vec<Json>) -> (res: Option<String>)
    ensures
        opt_view(res) == first_primary_url(entries@),
{
    let mut i: usize = 0;
    proof {
        assert(entries@.skip(0) =~= entries@);
    }
    while i < entries.len()
        invariant
            i <= entries.len(),
            first_primary_url(entries@) == first_primary_url(entries@.skip(i as int)),
        decreases entries.len() - i,
    {
        proof {
            assert(entries@.skip(i as int)[0] == entries@[i as int]);
            assert(entries@.skip(i as int).drop_first() =~= entries@.skip(i + 1));
        }
        if entry_is_primary(&entries[i]) == Some(true) {
            let url = entry_url(&entries[i]);
            if url.is_some() {
                return url;
            }
        }
        i = i + 1;
    }
    None
}

fn find_secondary_url(entries: &Vec<Json>, locale: &str) -> (res: Option<String>)
    ensures
        opt_view(res) == first_secondary_url(entries@, locale@),
{
    let mut j: usize = 0;
    proof {
        assert(entries@.skip(0) =~= entries@);
    }
    while j < entries.len()
        invariant
            j <= entries.len(),
            first_secondary_url(entries@, locale@) == first_secondary_url(entries@.skip(j as int), locale@),
        decreases entries.len() - j,
    {
        proof {
            assert(entries@.skip(j as int)[0] == entries@[j as int]);
            assert(entries@.skip(j as int).drop_first() =~= entries@.skip(j + 1));
        }
        let entry = &entries[j];
        let locale_matches = match entry.get("locale") {
            Some(v) => match v.as_str() {
                Some(l) => str_eq(l, locale),
                None => false,
            },
            None => false,
        };
        if entry_is_primary(entry) == Some(false) && locale_matches {
            let url = entry_url(entry);
            if url.is_some() {
                return url;
            }
        }
        j = j + 1;
    }
    None
}

/// The issuer documents of a security: the first usable primary document,
/// and the first usable other document in the locale.
pub open spec fn spec_issuer_document_links(response: Json, locale: Seq<char>) -> Result<
    (Option<Seq<char>>, Option<Seq<char>>),
    Seq<char>,
> {
    match opt_get(opt_get(response.spec_get("account"@), "brokerPortfolio"@), "security"@) {
        None => Err("Trade response invalid: missing security block"@),
        Some(security) => {
            let entries = match opt_get(security.spec_get("issuerLinks"@), "kidLinks"@) {
                Some(Json::Array(items)) => items@,
                _ => Seq::empty(),
            };
            Ok((first_primary_url(entries), first_secondary_url(entries, locale)))
        },
    }
}

pub fn parse_security_issuer_document_links(response: &Json, locale: &str) -> (res: Result<
    SecurityIssuerDocumentLinks,
    ErrorReport,
>)
    ensures
        plain_errors(res),
        match (res, spec_issuer_document_links(*response, locale@)) {
            (Ok(l), Ok((p, s))) => opt_view(l.primary_kid_url) == p && opt_view(l.secondary_kid_url) == s,
            (Err(e), Err(m)) => e.messages() == seq![m],
            _ => false,
        },
{
    let security = match response.get("account") {
        Some(a) => match a.get("brokerPortfolio") {
            Some(p) => p.get("security"),
            None => None,
        },
        None => None,
    };
    let security = match security {
        Some(s) => s,
        None => {
            return Err(ErrorReport::msg("Trade response invalid: missing security block"));
        },
    };
    let empty: Vec<Json> = Vec::new();
    let entries: &Vec<Json> = match security.get("issuerLinks") {
        Some(l) => match l.get("kidLinks") {
            Some(Json::Array(items)) => items,
            _ => &empty,
        },
        None => &empty,
    };
    proof {
        assert(empty@ =~= Seq::<Json>::empty());
    }
    let primary = find_primary_url(entries);
    let secondary = find_secondary_url(entries, locale);
    Ok(SecurityIssuerDocumentLinks { primary_kid_url: primary, secondary_kid_url: secondary })
}

} // verus!
