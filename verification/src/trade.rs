//! Trade compliance: which suitability or appropriateness check a buy order
//! needs, whether a questionnaire must be answered first, and which warning
//! the order has to carry.
use vstd::prelude::*;

use crate::error_report::{plain_errors, plain_report};
use crate::error_report::ErrorReport;
use crate::json::{opt_as_bool, opt_as_str, opt_get, opt_ref, Json};
use crate::text::{chars_of, opt_slice, push_str_chars, str_eq, string_of, trim, trim_chars};

verus! {

// ---------------------------------------------------------------------------
// Vocabulary
// ---------------------------------------------------------------------------

#[derive(Debug, Clone, Copy, PartialEq, Eq, Structural)]
pub enum TradeSide {
    Buy,
    Sell,
}

impl TradeSide {
    pub open spec fn spec_as_graphql(self) -> Seq<char> {
        match self {
            TradeSide::Buy => "BUY"@,
            TradeSide::Sell => "SELL"@,
        }
    }

    pub open spec fn spec_as_label(self) -> Seq<char> {
        match self {
            TradeSide::Buy => "buy"@,
            TradeSide::Sell => "sell"@,
        }
    }

    pub open spec fn spec_tradability_field(self) -> Seq<char> {
        match self {
            TradeSide::Buy => "buyTradabilityForTrading"@,
            TradeSide::Sell => "sellTradabilityForTrading"@,
        }
    }

    pub fn as_graphql(self) -> (res: &'static str)
        ensures
            res@ == self.spec_as_graphql(),
    {
        match self {
            TradeSide::Buy => "BUY",
            TradeSide::Sell => "SELL",
        }
    }

    pub fn is_buy(self) -> (res: bool)
        ensures
            res == (self == TradeSide::Buy),
    {
        matches!(self, TradeSide::Buy)
    }

    pub fn tradability_field(self) -> (res: &'static str)
        ensures
            res@ == self.spec_tradability_field(),
    {
        match self {
            TradeSide::Buy => "buyTradabilityForTrading",
            TradeSide::Sell => "sellTradabilityForTrading",
        }
    }

    pub fn as_label(self) -> (res: &'static str)
        ensures
            res@ == self.spec_as_label(),
    {
        match self {
            TradeSide::Buy => "buy",
            TradeSide::Sell => "sell",
        }
    }
}

/// Where a compliance decision came from.
#[derive(Debug, Clone, Copy, PartialEq, Eq, Structural)]
pub enum TradeComplianceSourceKind {
    NotRequired,
    SuitabilityService,
    LegacyAppropriatenessFallback,
}

impl TradeComplianceSourceKind {
    pub open spec fn spec_as_str(self) -> Seq<char> {
        match self {
            TradeComplianceSourceKind::NotRequired => "not_required"@,
            TradeComplianceSourceKind::SuitabilityService => "suitability_service"@,
            TradeComplianceSourceKind::LegacyAppropriatenessFallback => "legacy_appropriateness_fallback"@,
        }
    }

    pub fn as_str(self) -> (res: &'static str)
        ensures
            res@ == self.spec_as_str(),
    {
        match self {
            TradeComplianceSourceKind::NotRequired => "not_required",
            TradeComplianceSourceKind::SuitabilityService => "suitability_service",
            TradeComplianceSourceKind::LegacyAppropriatenessFallback => "legacy_appropriateness_fallback",
        }
    }
}

/// The kind of suitability check a product requires.
#[derive(Debug, Clone, Copy, PartialEq, Eq, Structural)]
pub enum TradeSuitabilityType {
    Knockout,
    ComplexInstrument,
    Eltif,
    Wealth,
    LegacyFallback,
}

impl TradeSuitabilityType {
    pub open spec fn spec_as_str(self) -> Seq<char> {
        match self {
            TradeSuitabilityType::Knockout => "KNOCKOUT"@,
            TradeSuitabilityType::ComplexInstrument => "COMPLEX_INSTRUMENT"@,
            TradeSuitabilityType::Eltif => "ELTIF"@,
            TradeSuitabilityType::Wealth => "WEALTH"@,
            TradeSuitabilityType::LegacyFallback => "LEGACY_FALLBACK"@,
        }
    }

    /// The checks that the command line can take through an order.
    pub open spec fn spec_supported_in_broker_trade(self) -> bool {
        self == TradeSuitabilityType::Knockout || self == TradeSuitabilityType::ComplexInstrument
    }

    pub fn as_str(self) -> (res: &'static str)
        ensures
            res@ == self.spec_as_str(),
    {
        match self {
            TradeSuitabilityType::Knockout => "KNOCKOUT",
            TradeSuitabilityType::ComplexInstrument => "COMPLEX_INSTRUMENT",
            TradeSuitabilityType::Eltif => "ELTIF",
            TradeSuitabilityType::Wealth => "WEALTH",
            TradeSuitabilityType::LegacyFallback => "LEGACY_FALLBACK",
        }
    }

    pub fn supported_in_broker_trade(self) -> (res: bool)
        ensures
            res == self.spec_supported_in_broker_trade(),
    {
        matches!(self, TradeSuitabilityType::Knockout | TradeSuitabilityType::ComplexInstrument)
    }
}

/// The outcome of a suitability or appropriateness check.
#[derive(Debug, Clone, Copy, PartialEq, Eq, Structural)]
pub enum TradeSuitabilityStatus {
    NotRequired,
    Suitable,
    Unsuitable,
    NotEvaluated,
    NotCompleted,
}

impl TradeSuitabilityStatus {
    pub open spec fn spec_as_str(self) -> Seq<char> {
        match self {
            TradeSuitabilityStatus::NotRequired => "NOT_REQUIRED"@,
            TradeSuitabilityStatus::Suitable => "SUITABLE"@,
            TradeSuitabilityStatus::Unsuitable => "UNSUITABLE"@,
            TradeSuitabilityStatus::NotEvaluated => "NOT_EVALUATED"@,
            TradeSuitabilityStatus::NotCompleted => "NOT_COMPLETED"@,
        }
    }

    pub fn as_str(self) -> (res: &'static str)
        ensures
            res@ == self.spec_as_str(),
    {
        match self {
            TradeSuitabilityStatus::NotRequired => "NOT_REQUIRED",
            TradeSuitabilityStatus::Suitable => "SUITABLE",
            TradeSuitabilityStatus::Unsuitable => "UNSUITABLE",
            TradeSuitabilityStatus::NotEvaluated => "NOT_EVALUATED",
            TradeSuitabilityStatus::NotCompleted => "NOT_COMPLETED",
        }
    }
}

/// What the product flow does when the check finds the product unsuitable.
#[derive(Debug, Clone, Copy, PartialEq, Eq, Structural)]
pub enum TradeActionWhenUnsuitable {
    ProceedToOrderFlow,
    ReopenQuestionnaire,
}

impl TradeActionWhenUnsuitable {
    pub open spec fn spec_as_str(self) -> Seq<char> {
        match self {
            TradeActionWhenUnsuitable::ProceedToOrderFlow => "PROCEED_TO_ORDER_FLOW"@,
            TradeActionWhenUnsuitable::ReopenQuestionnaire => "REOPEN_QUESTIONNAIRE"@,
        }
    }

    pub fn as_str(self) -> (res: &'static str)
        ensures
            res@ == self.spec_as_str(),
    {
        match self {
            TradeActionWhenUnsuitable::ProceedToOrderFlow => "PROCEED_TO_ORDER_FLOW",
            TradeActionWhenUnsuitable::ReopenQuestionnaire => "REOPEN_QUESTIONNAIRE",
        }
    }
}

/// The warning an order has to carry.
#[derive(Debug, Clone, Copy, PartialEq, Eq, Structural)]
pub enum TradeWarningKind {
    /// No warning.
    NoWarning,
    LegacyAppropriatenessWarning,
    KnockoutRiskWarning,
}

impl TradeWarningKind {
    pub open spec fn spec_as_str(self) -> Seq<char> {
        match self {
            TradeWarningKind::NoWarning => "none"@,
            TradeWarningKind::LegacyAppropriatenessWarning => "legacy_appropriateness_warning"@,
            TradeWarningKind::KnockoutRiskWarning => "knockout_risk_warning"@,
        }
    }

    pub fn as_str(self) -> (res: &'static str)
        ensures
            res@ == self.spec_as_str(),
    {
        match self {
            TradeWarningKind::NoWarning => "none",
            TradeWarningKind::LegacyAppropriatenessWarning => "legacy_appropriateness_warning",
            TradeWarningKind::KnockoutRiskWarning => "knockout_risk_warning",
        }
    }
}

// ---------------------------------------------------------------------------
// Reading the vocabulary
// ---------------------------------------------------------------------------

pub open spec fn quoted_failure(prefix: Seq<char>, value: Seq<char>) -> Seq<char> {
    prefix + " '"@ + value + "'"@
}

pub open spec fn spec_parse_required_suitability_type(value: Seq<char>) -> Result<
    TradeSuitabilityType,
    Seq<char>,
> {
    if value == "KNOCKOUT"@ {
        Ok(TradeSuitabilityType::Knockout)
    } else if value == "COMPLEX_INSTRUMENT"@ {
        Ok(TradeSuitabilityType::ComplexInstrument)
    } else if value == "ELTIF"@ {
        Ok(TradeSuitabilityType::Eltif)
    } else if value == "WEALTH"@ {
        Ok(TradeSuitabilityType::Wealth)
    } else {
        Err(quoted_failure("Trade response invalid: unsupported suitability type"@, value))
    }
}

pub open spec fn spec_parse_action_when_unsuitable(value: Seq<char>) -> Result<
    TradeActionWhenUnsuitable,
    Seq<char>,
> {
    if value == "PROCEED_TO_ORDER_FLOW"@ {
        Ok(TradeActionWhenUnsuitable::ProceedToOrderFlow)
    } else if value == "REOPEN_QUESTIONNAIRE"@ {
        Ok(TradeActionWhenUnsuitable::ReopenQuestionnaire)
    } else {
        Err(quoted_failure("Trade response invalid: unsupported actionWhenUnsuitable"@, value))
    }
}

pub open spec fn spec_parse_suitability_status(value: Seq<char>) -> Result<
    TradeSuitabilityStatus,
    Seq<char>,
> {
    if value == "SUITABLE"@ {
        Ok(TradeSuitabilityStatus::Suitable)
    } else if value == "UNSUITABLE"@ {
        Ok(TradeSuitabilityStatus::Unsuitable)
    } else if value == "NOT_EVALUATED"@ {
        Ok(TradeSuitabilityStatus::NotEvaluated)
    } else if value == "NOT_COMPLETED"@ {
        Ok(TradeSuitabilityStatus::NotCompleted)
    } else {
        Err(quoted_failure("Trade response invalid: unsupported suitability result"@, value))
    }
}

/// The legacy appropriateness results, mapped onto suitability statuses.
pub open spec fn spec_parse_legacy_appropriateness_status(value: Seq<char>) -> Result<
    TradeSuitabilityStatus,
    Seq<char>,
> {
    if value == "APPROPRIATE"@ {
        Ok(TradeSuitabilityStatus::Suitable)
    } else if value == "NOT_APPROPRIATE"@ {
        Ok(TradeSuitabilityStatus::Unsuitable)
    } else if value == "NOT_EVALUATED"@ {
        Ok(TradeSuitabilityStatus::NotEvaluated)
    } else if value == "NOT_COMPLETED"@ {
        Ok(TradeSuitabilityStatus::NotCompleted)
    } else if value == "NOT_REQUIRED"@ {
        Ok(TradeSuitabilityStatus::NotRequired)
    } else {
        Err(quoted_failure("Trade response invalid: unsupported appropriateness result"@, value))
    }
}

/// The view of a result whose error is a report of one message.
pub open spec fn report_view<T>(r: Result<T, ErrorReport>) -> Result<T, Seq<char>> {
    match r {
        Ok(v) => Ok(v),
        Err(e) => Err(e.messages()[0]),
    }
}

/// A report of one message, as every failure here is.
pub open spec fn single<T>(r: Result<T, ErrorReport>) -> bool {
    match r {
        Ok(_) => true,
        Err(e) => e.messages().len() == 1,
    }
}

fn quoted_report(prefix: &str, value: &str) -> (res: ErrorReport)
    ensures
        plain_report(res),
        res.messages() == seq![quoted_failure(prefix@, value@)],
{
    let mut text: Vec<char> = Vec::new();
    push_str_chars(&mut text, prefix);
    push_str_chars(&mut text, " '");
    push_str_chars(&mut text, value);
    push_str_chars(&mut text, "'");
    let s = string_of(&text);
    ErrorReport::msg(s.as_str())
}

pub fn parse_required_suitability_type(value: &str) -> (res: Result<
    TradeSuitabilityType,
    ErrorReport,
>)
    ensures
        plain_errors(res),
        report_view(res) == spec_parse_required_suitability_type(value@),
        single(res),
{
    if str_eq(value, "KNOCKOUT") {
        Ok(TradeSuitabilityType::Knockout)
    } else if str_eq(value, "COMPLEX_INSTRUMENT") {
        Ok(TradeSuitabilityType::ComplexInstrument)
    } else if str_eq(value, "ELTIF") {
        Ok(TradeSuitabilityType::Eltif)
    } else if str_eq(value, "WEALTH") {
        Ok(TradeSuitabilityType::Wealth)
    } else {
        Err(quoted_report("Trade response invalid: unsupported suitability type", value))
    }
}

pub fn parse_action_when_unsuitable(value: &str) -> (res: Result<
    TradeActionWhenUnsuitable,
    ErrorReport,
>)
    ensures
        plain_errors(res),
        report_view(res) == spec_parse_action_when_unsuitable(value@),
        single(res),
{
    if str_eq(value, "PROCEED_TO_ORDER_FLOW") {
        Ok(TradeActionWhenUnsuitable::ProceedToOrderFlow)
    } else if str_eq(value, "REOPEN_QUESTIONNAIRE") {
        Ok(TradeActionWhenUnsuitable::ReopenQuestionnaire)
    } else {
        Err(quoted_report("Trade response invalid: unsupported actionWhenUnsuitable", value))
    }
}

pub fn parse_suitability_status(value: &str) -> (res: Result<TradeSuitabilityStatus, ErrorReport>)
    ensures
        plain_errors(res),
        report_view(res) == spec_parse_suitability_status(value@),
        single(res),
{
    if str_eq(value, "SUITABLE") {
        Ok(TradeSuitabilityStatus::Suitable)
    } else if str_eq(value, "UNSUITABLE") {
        Ok(TradeSuitabilityStatus::Unsuitable)
    } else if str_eq(value, "NOT_EVALUATED") {
        Ok(TradeSuitabilityStatus::NotEvaluated)
    } else if str_eq(value, "NOT_COMPLETED") {
        Ok(TradeSuitabilityStatus::NotCompleted)
    } else {
        Err(quoted_report("Trade response invalid: unsupported suitability result", value))
    }
}

pub fn parse_legacy_appropriateness_status(value: &str) -> (res: Result<
    TradeSuitabilityStatus,
    ErrorReport,
>)
    ensures
        plain_errors(res),
        report_view(res) == spec_parse_legacy_appropriateness_status(value@),
        single(res),
{
    if str_eq(value, "APPROPRIATE") {
        Ok(TradeSuitabilityStatus::Suitable)
    } else if str_eq(value, "NOT_APPROPRIATE") {
        Ok(TradeSuitabilityStatus::Unsuitable)
    } else if str_eq(value, "NOT_EVALUATED") {
        Ok(TradeSuitabilityStatus::NotEvaluated)
    } else if str_eq(value, "NOT_COMPLETED") {
        Ok(TradeSuitabilityStatus::NotCompleted)
    } else if str_eq(value, "NOT_REQUIRED") {
        Ok(TradeSuitabilityStatus::NotRequired)
    } else {
        Err(quoted_report("Trade response invalid: unsupported appropriateness result", value))
    }
}


// ---------------------------------------------------------------------------
// Decisions
// ---------------------------------------------------------------------------

pub const KNOCKOUT_RISK_WARNING_TITLE: &'static str = "Risk warning";

pub const KNOCKOUT_RISK_WARNING_BODY: &'static str =
    "On average, 7 out of 10 retail investors incur losses when trading turbo certificates. Turbo certificates are high-risk products and are not suitable for long-term investment strategies.";

/// The warning an order has to carry, with its texts where it has them.
#[derive(Debug, Clone, PartialEq, Eq)]
pub struct TradeWarningDecision {
    pub kind: TradeWarningKind,
    pub title: Option<String>,
    pub body: Option<String>,
    pub locale: Option<String>,
    pub version_for_order: Option<String>,
    pub acknowledgement_text: Option<String>,
}

/// A warning as plain values.
pub struct WarningView {
    pub kind: TradeWarningKind,
    pub title: Option<Seq<char>>,
    pub body: Option<Seq<char>>,
    pub locale: Option<Seq<char>>,
    pub version_for_order: Option<Seq<char>>,
    pub acknowledgement_text: Option<Seq<char>>,
}

pub open spec fn opt_view(o: Option<String>) -> Option<Seq<char>> {
    match o {
        Some(s) => Some(s@),
        None => None,
    }
}

impl View for TradeWarningDecision {
    type V = WarningView;

    open spec fn view(&self) -> WarningView {
        WarningView {
            kind: self.kind,
            title: opt_view(self.title),
            body: opt_view(self.body),
            locale: opt_view(self.locale),
            version_for_order: opt_view(self.version_for_order),
            acknowledgement_text: opt_view(self.acknowledgement_text),
        }
    }
}

/// A warning of the given kind with no texts.
pub open spec fn bare_warning(kind: TradeWarningKind) -> WarningView {
    WarningView {
        kind,
        title: None,
        body: None,
        locale: None,
        version_for_order: None,
        acknowledgement_text: None,
    }
}

/// The knockout risk warning, in the texts the order flow shows.
pub open spec fn knockout_warning() -> WarningView {
    WarningView {
        kind: TradeWarningKind::KnockoutRiskWarning,
        title: Some(KNOCKOUT_RISK_WARNING_TITLE@),
        body: Some(KNOCKOUT_RISK_WARNING_BODY@),
        locale: Some("en_DE"@),
        version_for_order: None,
        acknowledgement_text: None,
    }
}

impl TradeWarningDecision {
    pub fn none() -> (res: Self)
        ensures
            res@ == bare_warning(TradeWarningKind::NoWarning),
    {
        Self::bare(TradeWarningKind::NoWarning)
    }

    fn bare(kind: TradeWarningKind) -> (res: Self)
        ensures
            res@ == bare_warning(kind),
    {
        TradeWarningDecision {
            kind,
            title: None,
            body: None,
            locale: None,
            version_for_order: None,
            acknowledgement_text: None,
        }
    }

    fn knockout() -> (res: Self)
        ensures
            res@ == knockout_warning(),
    {
        TradeWarningDecision {
            kind: TradeWarningKind::KnockoutRiskWarning,
            title: Some(KNOCKOUT_RISK_WARNING_TITLE.to_owned()),
            body: Some(KNOCKOUT_RISK_WARNING_BODY.to_owned()),
            locale: Some("en_DE".to_owned()),
            version_for_order: None,
            acknowledgement_text: None,
        }
    }
}

/// What an order needs before it may be placed.
#[derive(Debug, Clone, PartialEq, Eq)]
pub struct TradeComplianceDecision {
    pub source_kind: TradeComplianceSourceKind,
    pub suitability_type: Option<TradeSuitabilityType>,
    pub status: TradeSuitabilityStatus,
    pub action_when_unsuitable: Option<TradeActionWhenUnsuitable>,
    pub questionnaire_required: bool,
    pub questionnaire_reason: Option<&'static str>,
    pub requires_accept_unsuitable: bool,
    pub submission_appropriateness_id: Option<String>,
    pub warning: TradeWarningDecision,
}

/// A decision as plain values.
pub struct DecisionView {
    pub source_kind: TradeComplianceSourceKind,
    pub suitability_type: Option<TradeSuitabilityType>,
    pub status: TradeSuitabilityStatus,
    pub action_when_unsuitable: Option<TradeActionWhenUnsuitable>,
    pub questionnaire_required: bool,
    pub questionnaire_reason: Option<Seq<char>>,
    pub requires_accept_unsuitable: bool,
    pub submission_appropriateness_id: Option<Seq<char>>,
    pub warning: WarningView,
}

impl View for TradeComplianceDecision {
    type V = DecisionView;

    open spec fn view(&self) -> DecisionView {
        DecisionView {
            source_kind: self.source_kind,
            suitability_type: self.suitability_type,
            status: self.status,
            action_when_unsuitable: self.action_when_unsuitable,
            questionnaire_required: self.questionnaire_required,
            questionnaire_reason: opt_slice(self.questionnaire_reason),
            requires_accept_unsuitable: self.requires_accept_unsuitable,
            submission_appropriateness_id: opt_view(self.submission_appropriateness_id),
            warning: self.warning@,
        }
    }
}

/// The decision when no check applies.
pub open spec fn not_required_decision() -> DecisionView {
    DecisionView {
        source_kind: TradeComplianceSourceKind::NotRequired,
        suitability_type: None,
        status: TradeSuitabilityStatus::NotRequired,
        action_when_unsuitable: None,
        questionnaire_required: false,
        questionnaire_reason: None,
        requires_accept_unsuitable: false,
        submission_appropriateness_id: None,
        warning: bare_warning(TradeWarningKind::NoWarning),
    }
}

impl TradeComplianceDecision {
    pub fn not_required() -> (res: Self)
        ensures
            res@ == not_required_decision(),
    {
        TradeComplianceDecision {
            source_kind: TradeComplianceSourceKind::NotRequired,
            suitability_type: None,
            status: TradeSuitabilityStatus::NotRequired,
            action_when_unsuitable: None,
            questionnaire_required: false,
            questionnaire_reason: None,
            requires_accept_unsuitable: false,
            submission_appropriateness_id: None,
            warning: TradeWarningDecision::none(),
        }
    }
}


// ---------------------------------------------------------------------------
// Reading the compliance response
// ---------------------------------------------------------------------------

/// `account.brokerPortfolio` of a response.
pub open spec fn portfolio_of(response: Json) -> Option<Json> {
    opt_get(response.spec_get("account"@), "brokerPortfolio"@)
}

/// `account.brokerPortfolio.security` of a response.
pub open spec fn security_of(response: Json) -> Option<Json> {
    opt_get(portfolio_of(response), "security"@)
}

/// A text that is not blank once trimmed.
pub open spec fn non_blank(o: Option<Seq<char>>) -> Option<Seq<char>> {
    match o {
        Some(s) => if trim(s).len() > 0 {
            Some(s)
        } else {
            None
        },
        None => None,
    }
}

/// The check that the security requires, if any.
pub open spec fn spec_required_suitability(response: Json) -> Result<
    Option<(TradeSuitabilityType, TradeActionWhenUnsuitable)>,
    Seq<char>,
> {
    match opt_get(security_of(response), "requiredSuitability"@) {
        None => Ok(None),
        Some(required) => if required is Null {
            Ok(None)
        } else {
            match opt_as_str(required.spec_get("suitabilityType"@)) {
                None => Err("Trade response invalid: missing requiredSuitability type"@),
                Some(t) => match spec_parse_required_suitability_type(t) {
                    Err(e) => Err(e),
                    Ok(ty) => match opt_as_str(required.spec_get("actionWhenUnsuitable"@)) {
                        None => Err("Trade response invalid: missing actionWhenUnsuitable"@),
                        Some(a) => match spec_parse_action_when_unsuitable(a) {
                            Err(e) => Err(e),
                            Ok(act) => Ok(Some((ty, act))),
                        },
                    },
                },
            }
        },
    }
}

/// A suitability status as plain values: type, result, suitability id.
pub type EntryView = (TradeSuitabilityType, TradeSuitabilityStatus, Option<Seq<char>>);

/// One entry of `suitabilityStatuses`: skipped when it is of another type
/// than the required one, or of a type this flow does not know.
pub open spec fn spec_status_entry(entry: Json, required: Option<TradeSuitabilityType>) -> Result<
    Option<EntryView>,
    Seq<char>,
> {
    match opt_as_str(entry.spec_get("suitabilityType"@)) {
        None => Err("Trade response invalid: missing suitability status type"@),
        Some(tv) => if required is Some && tv != required.unwrap().spec_as_str() {
            Ok(None)
        } else {
            match spec_parse_required_suitability_type(tv) {
                Err(_) => Ok(None),
                Ok(ty) => match opt_as_str(entry.spec_get("result"@)) {
                    None => Err("Trade response invalid: missing suitability status result"@),
                    Some(r) => match spec_parse_suitability_status(r) {
                        Err(e) => Err(e),
                        Ok(st) => Ok(
                            Some((ty, st, non_blank(opt_as_str(entry.spec_get("suitabilityId"@))))),
                        ),
                    },
                },
            }
        },
    }
}

/// The entries of a list in order; the first failing entry fails the list.
pub open spec fn spec_status_entries_from(
    items: Seq<Json>,
    required: Option<TradeSuitabilityType>,
) -> Result<Seq<EntryView>, Seq<char>>
    decreases items.len(),
{
    if items.len() == 0 {
        Ok(Seq::empty())
    } else {
        match spec_status_entry(items[0], required) {
            Err(e) => Err(e),
            Ok(first) => match spec_status_entries_from(items.drop_first(), required) {
                Err(e) => Err(e),
                Ok(rest) => Ok(
                    match first {
                        Some(x) => seq![x] + rest,
                        None => rest,
                    },
                ),
            },
        }
    }
}

/// `account.brokerPortfolio.suitabilityStatuses`, empty where it is no array.
pub open spec fn status_items(response: Json) -> Seq<Json> {
    match opt_get(portfolio_of(response), "suitabilityStatuses"@) {
        Some(Json::Array(items)) => items@,
        _ => Seq::empty(),
    }
}

/// The first entry of the given type.
pub open spec fn first_entry_of(entries: Seq<EntryView>, ty: TradeSuitabilityType) -> Option<
    EntryView,
>
    decreases entries.len(),
{
    if entries.len() == 0 {
        None
    } else if entries[0].0 == ty {
        Some(entries[0])
    } else {
        first_entry_of(entries.drop_first(), ty)
    }
}

/// The legacy appropriateness result and id, if the response has them.
pub open spec fn spec_legacy_info(response: Json) -> Result<
    Option<(TradeSuitabilityStatus, Option<Seq<char>>)>,
    Seq<char>,
> {
    match opt_get(portfolio_of(response), "appropriatenessInfo"@) {
        None => Ok(None),
        Some(info) => if info is Null {
            Ok(None)
        } else {
            match opt_as_str(info.spec_get("result"@)) {
                None => Err("Trade response invalid: missing appropriateness result"@),
                Some(r) => match spec_parse_legacy_appropriateness_status(r) {
                    Err(e) => Err(e),
                    Ok(st) => Ok(Some((st, non_blank(opt_as_str(info.spec_get("appropriatenessId"@)))))),
                },
            }
        },
    }
}

/// The portfolio's feature flag for knockout risk warnings.
pub open spec fn knockout_warnings_enabled(response: Json) -> bool {
    opt_as_bool(opt_get(opt_get(portfolio_of(response), "featureFlags"@), "knockoutWarnings"@))
        == Some(true)
}

// ---------------------------------------------------------------------------
// The decision
// ---------------------------------------------------------------------------

/// Why a questionnaire must be answered first, if it must.
pub open spec fn questionnaire_reason_for(
    status: TradeSuitabilityStatus,
    action: TradeActionWhenUnsuitable,
) -> Option<Seq<char>> {
    if status == TradeSuitabilityStatus::NotEvaluated {
        Some("not_evaluated"@)
    } else if status == TradeSuitabilityStatus::NotCompleted {
        Some("not_completed"@)
    } else if status == TradeSuitabilityStatus::Unsuitable && action
        == TradeActionWhenUnsuitable::ReopenQuestionnaire {
        Some("unsuitable_reopens_questionnaire"@)
    } else {
        None
    }
}

/// An order may go ahead on this status: suitable, or unsuitable in a flow
/// that proceeds anyway.
pub open spec fn proceedable(status: TradeSuitabilityStatus, action: TradeActionWhenUnsuitable) -> bool {
    status == TradeSuitabilityStatus::Suitable || (status == TradeSuitabilityStatus::Unsuitable
        && action == TradeActionWhenUnsuitable::ProceedToOrderFlow)
}

pub open spec fn unsupported_type_message(ty: TradeSuitabilityType) -> Seq<char> {
    "UNSUPPORTED_TRADE_SUITABILITY_TYPE: "@ + ty.spec_as_str()
        + " suitability is not supported in sc broker trade; use web or mobile for this product flow."@
}

pub open spec fn missing_suitability_id_message(
    ty: TradeSuitabilityType,
    status: TradeSuitabilityStatus,
) -> Seq<char> {
    "SUITABILITY_ID_MISSING: suitabilityId is missing for proceedable "@ + ty.spec_as_str()
        + " trade (status="@ + status.spec_as_str() + ")"@
}

/// The decision for a security that requires a suitability check.
pub open spec fn spec_evaluate_required_suitability(
    response: Json,
    ty: TradeSuitabilityType,
    action: TradeActionWhenUnsuitable,
    entries: Seq<EntryView>,
) -> Result<DecisionView, Seq<char>> {
    if !ty.spec_supported_in_broker_trade() {
        Err(unsupported_type_message(ty))
    } else {
        let entry = first_entry_of(entries, ty);
        let status = match entry {
            Some(e) => e.1,
            None => TradeSuitabilityStatus::NotEvaluated,
        };
        let id = match entry {
            Some(e) => e.2,
            None => None,
        };
        let reason = questionnaire_reason_for(status, action);
        let questionnaire = reason is Some;
        let accept = ty == TradeSuitabilityType::ComplexInstrument && status
            == TradeSuitabilityStatus::Unsuitable && action
            == TradeActionWhenUnsuitable::ProceedToOrderFlow;
        if !questionnaire && proceedable(status, action) && id is None {
            Err(missing_suitability_id_message(ty, status))
        } else {
            Ok(
                DecisionView {
                    source_kind: TradeComplianceSourceKind::SuitabilityService,
                    suitability_type: Some(ty),
                    status,
                    action_when_unsuitable: Some(action),
                    questionnaire_required: questionnaire,
                    questionnaire_reason: reason,
                    requires_accept_unsuitable: accept,
                    submission_appropriateness_id: if !questionnaire && proceedable(status, action) {
                        id
                    } else {
                        None
                    },
                    warning: if questionnaire {
                        bare_warning(TradeWarningKind::NoWarning)
                    } else if ty == TradeSuitabilityType::Knockout && knockout_warnings_enabled(
                        response,
                    ) {
                        knockout_warning()
                    } else if accept {
                        bare_warning(TradeWarningKind::LegacyAppropriatenessWarning)
                    } else {
                        bare_warning(TradeWarningKind::NoWarning)
                    },
                },
            )
        }
    }
}

pub open spec fn legacy_reason_for(status: TradeSuitabilityStatus) -> Option<Seq<char>> {
    if status == TradeSuitabilityStatus::NotEvaluated {
        Some("not_evaluated"@)
    } else if status == TradeSuitabilityStatus::NotCompleted {
        Some("not_completed"@)
    } else {
        None
    }
}

/// The decision from the legacy appropriateness result.
pub open spec fn spec_evaluate_legacy_appropriateness_fallback(
    response: Json,
    appropriateness_required: bool,
) -> Result<DecisionView, Seq<char>> {
    if !appropriateness_required {
        Ok(not_required_decision())
    } else {
        match spec_legacy_info(response) {
            Err(e) => Err(e),
            Ok(None) => Err("Trade response invalid: missing appropriateness info"@),
            Ok(Some((status, id))) => {
                let reason = legacy_reason_for(status);
                let questionnaire = reason is Some;
                let accept = status == TradeSuitabilityStatus::Unsuitable;
                let needs_id = status == TradeSuitabilityStatus::Suitable || accept;
                if !questionnaire && needs_id && id is None {
                    Err(
                        "APPROPRIATENESS_REQUIRED: appropriateness id is missing for appropriateness-required trade."@,
                    )
                } else {
                    Ok(
                        DecisionView {
                            source_kind: TradeComplianceSourceKind::LegacyAppropriatenessFallback,
                            suitability_type: Some(TradeSuitabilityType::LegacyFallback),
                            status,
                            action_when_unsuitable: if accept {
                                Some(TradeActionWhenUnsuitable::ProceedToOrderFlow)
                            } else {
                                None
                            },
                            questionnaire_required: questionnaire,
                            questionnaire_reason: reason,
                            requires_accept_unsuitable: accept,
                            submission_appropriateness_id: if !questionnaire && needs_id {
                                id
                            } else {
                                None
                            },
                            warning: if accept {
                                bare_warning(TradeWarningKind::LegacyAppropriatenessWarning)
                            } else {
                                bare_warning(TradeWarningKind::NoWarning)
                            },
                        },
                    )
                }
            },
        }
    }
}

/// The compliance decision for an order: a sell needs none; a buy follows
/// the security's required suitability check where it has one, else the
/// legacy appropriateness result where that is required or no suitability
/// status is known.
pub open spec fn spec_evaluate_trade_compliance(
    response: Json,
    side: TradeSide,
    appropriateness_required: bool,
) -> Result<DecisionView, Seq<char>> {
    if side != TradeSide::Buy {
        Ok(not_required_decision())
    } else {
        match spec_required_suitability(response) {
            Err(e) => Err(e),
            Ok(required) => match spec_status_entries_from(
                status_items(response),
                match required {
                    Some(r) => Some(r.0),
                    None => None,
                },
            ) {
                Err(e) => Err(e),
                Ok(entries) => match required {
                    Some((ty, action)) => spec_evaluate_required_suitability(
                        response,
                        ty,
                        action,
                        entries,
                    ),
                    None => if appropriateness_required || entries.len() == 0 {
                        spec_evaluate_legacy_appropriateness_fallback(
                            response,
                            appropriateness_required,
                        )
                    } else {
                        Ok(not_required_decision())
                    },
                },
            },
        }
    }
}


// ---------------------------------------------------------------------------
// Executable reading and decision
// ---------------------------------------------------------------------------

fn member_of<'a>(v: Option<&'a Json>, key: &str) -> (res: Option<&'a Json>)
    ensures
        opt_ref(res) == opt_get(opt_ref(v), key@),
{
    match v {
        Some(value) => value.get(key),
        None => None,
    }
}

fn portfolio(response: &Json) -> (res: Option<&Json>)
    ensures
        opt_ref(res) == portfolio_of(*response),
{
    member_of(response.get("account"), "brokerPortfolio")
}

fn text_of(v: Option<&Json>) -> (res: Option<&str>)
    ensures
        opt_slice(res) == opt_as_str(opt_ref(v)),
{
    match v {
        Some(value) => value.as_str(),
        None => None,
    }
}

fn non_blank_text(v: Option<&str>) -> (res: Option<String>)
    ensures
        opt_view(res) == non_blank(opt_slice(v)),
{
    match v {
        Some(s) => {
            let t = trim_chars(s);
            if t.len() > 0 {
                Some(s.to_owned())
            } else {
                None
            }
        },
        None => None,
    }
}

/// The check a security requires and what its flow does on an unsuitable
/// result.
#[derive(Debug, Clone, Copy, PartialEq, Eq, Structural)]
pub struct RequiredSuitability {
    pub suitability_type: TradeSuitabilityType,
    pub action_when_unsuitable: TradeActionWhenUnsuitable,
}

pub open spec fn required_view(r: Result<Option<RequiredSuitability>, ErrorReport>) -> Result<
    Option<(TradeSuitabilityType, TradeActionWhenUnsuitable)>,
    Seq<char>,
> {
    match r {
        Ok(Some(req)) => Ok(Some((req.suitability_type, req.action_when_unsuitable))),
        Ok(None) => Ok(None),
        Err(e) => Err(e.messages()[0]),
    }
}

pub fn parse_required_suitability(response: &Json) -> (res: Result<
    Option<RequiredSuitability>,
    ErrorReport,
>)
    ensures
        plain_errors(res),
        required_view(res) == spec_required_suitability(*response),
        single(res),
{
    let security = member_of(portfolio(response), "security");
    let required = match member_of(security, "requiredSuitability") {
        Some(r) => r,
        None => {
            return Ok(None);
        },
    };
    if required.is_null() {
        return Ok(None);
    }
    let type_text = match text_of(required.get("suitabilityType")) {
        Some(t) => t,
        None => {
            return Err(ErrorReport::msg("Trade response invalid: missing requiredSuitability type"));
        },
    };
    let suitability_type = match parse_required_suitability_type(type_text) {
        Ok(t) => t,
        Err(e) => {
            return Err(e);
        },
    };
    let action_text = match text_of(required.get("actionWhenUnsuitable")) {
        Some(a) => a,
        None => {
            return Err(ErrorReport::msg("Trade response invalid: missing actionWhenUnsuitable"));
        },
    };
    let action_when_unsuitable = match parse_action_when_unsuitable(action_text) {
        Ok(a) => a,
        Err(e) => {
            return Err(e);
        },
    };
    Ok(Some(RequiredSuitability { suitability_type, action_when_unsuitable }))
}

/// A suitability status reported for the portfolio.
#[derive(Debug, Clone)]
pub struct SuitabilityStatusEntry {
    pub suitability_type: TradeSuitabilityType,
    pub status: TradeSuitabilityStatus,
    pub suitability_id: Option<String>,
}

pub open spec fn entry_view(e: SuitabilityStatusEntry) -> EntryView {
    (e.suitability_type, e.status, opt_view(e.suitability_id))
}

pub open spec fn entries_view(v: Seq<SuitabilityStatusEntry>) -> Seq<EntryView> {
    v.map_values(|e: SuitabilityStatusEntry| entry_view(e))
}

pub open spec fn entry_result_view(r: Result<Option<SuitabilityStatusEntry>, ErrorReport>) -> Result<
    Option<EntryView>,
    Seq<char>,
> {
    match r {
        Ok(Some(e)) => Ok(Some(entry_view(e))),
        Ok(None) => Ok(None),
        Err(e) => Err(e.messages()[0]),
    }
}

pub open spec fn entries_result_view(r: Result<Vec<SuitabilityStatusEntry>, ErrorReport>) -> Result<
    Seq<EntryView>,
    Seq<char>,
> {
    match r {
        Ok(v) => Ok(entries_view(v@)),
        Err(e) => Err(e.messages()[0]),
    }
}

pub fn parse_suitability_status_entry(
    entry: &Json,
    required: Option<TradeSuitabilityType>,
) -> (res: Result<Option<SuitabilityStatusEntry>, ErrorReport>)
    ensures
        plain_errors(res),
        entry_result_view(res) == spec_status_entry(*entry, required),
        single(res),
{
    let type_text = match text_of(entry.get("suitabilityType")) {
        Some(t) => t,
        None => {
            return Err(ErrorReport::msg("Trade response invalid: missing suitability status type"));
        },
    };
    if let Some(required_type) = required {
        if !str_eq(type_text, required_type.as_str()) {
            return Ok(None);
        }
    }
    let suitability_type = match parse_required_suitability_type(type_text) {
        Ok(t) => t,
        Err(_) => {
            return Ok(None);
        },
    };
    let result_text = match text_of(entry.get("result")) {
        Some(r) => r,
        None => {
            return Err(
                ErrorReport::msg("Trade response invalid: missing suitability status result"),
            );
        },
    };
    let status = match parse_suitability_status(result_text) {
        Ok(st) => st,
        Err(e) => {
            return Err(e);
        },
    };
    let suitability_id = non_blank_text(text_of(entry.get("suitabilityId")));
    Ok(Some(SuitabilityStatusEntry { suitability_type, status, suitability_id }))
}

pub open spec fn with_prefix(acc: Seq<EntryView>, r: Result<Seq<EntryView>, Seq<char>>) -> Result<
    Seq<EntryView>,
    Seq<char>,
> {
    match r {
        Ok(rest) => Ok(acc + rest),
        Err(e) => Err(e),
    }
}

pub fn parse_suitability_statuses(response: &Json, required: Option<TradeSuitabilityType>) -> (res:
    Result<Vec<SuitabilityStatusEntry>, ErrorReport>)
    ensures
        plain_errors(res),
        entries_result_view(res) == spec_status_entries_from(status_items(*response), required),
        single(res),
{
    let mut out: Vec<SuitabilityStatusEntry> = Vec::new();
    let items: &Vec<Json> = match member_of(portfolio(response), "suitabilityStatuses") {
        Some(v) => match v.as_array() {
            Some(items) => items,
            None => {
                proof {
                    assert(entries_view(out@) =~= Seq::<EntryView>::empty());
                }
                return Ok(out);
            },
        },
        None => {
            proof {
                assert(entries_view(out@) =~= Seq::<EntryView>::empty());
            }
            return Ok(out);
        },
    };
    let ghost all = status_items(*response);
    proof {
        assert(all == items@);
        assert(items@.skip(0) =~= items@);
        assert(entries_view(out@) =~= Seq::<EntryView>::empty());
        assert(Seq::<EntryView>::empty() + Seq::<EntryView>::empty() =~= Seq::<EntryView>::empty());
    }
    let mut i: usize = 0;
    while i < items.len()
        invariant
            i <= items.len(),
            all == items@,
            all == status_items(*response),
            spec_status_entries_from(all, required) == with_prefix(
                entries_view(out@),
                spec_status_entries_from(items@.skip(i as int), required),
            ),
        decreases items.len() - i,
    {
        let ghost rest = items@.skip(i as int);
        proof {
            assert(rest[0] == items@[i as int]);
            assert(rest.drop_first() =~= items@.skip(i + 1));
        }
        let parsed = parse_suitability_status_entry(&items[i], required);
        match parsed {
            Err(e) => {
                proof {
                    assert(spec_status_entry(rest[0], required) == Err::<Option<EntryView>, Seq<char>>(
                        e.messages()[0],
                    ));
                    assert(spec_status_entries_from(rest, required) == Err::<Seq<EntryView>, Seq<char>>(
                        e.messages()[0],
                    ));
                }
                return Err(e);
            },
            Ok(None) => {},
            Ok(Some(entry)) => {
                let ghost before = entries_view(out@);
                out.push(entry);
                proof {
                    assert(entries_view(out@) =~= before.push(entry_view(entry)));
                    match spec_status_entries_from(items@.skip(i + 1), required) {
                        Ok(tail) => {
                            assert(before + (seq![entry_view(entry)] + tail) =~= before.push(
                                entry_view(entry),
                            ) + tail);
                        },
                        Err(_) => {},
                    }
                }
            },
        }
        i = i + 1;
    }
    proof {
        assert(items@.skip(i as int) =~= Seq::<Json>::empty());
        assert(entries_view(out@) + Seq::<EntryView>::empty() =~= entries_view(out@));
    }
    Ok(out)
}

pub open spec fn legacy_view(r: Result<Option<(TradeSuitabilityStatus, Option<String>)>, ErrorReport>) -> Result<
    Option<(TradeSuitabilityStatus, Option<Seq<char>>)>,
    Seq<char>,
> {
    match r {
        Ok(Some((st, id))) => Ok(Some((st, opt_view(id)))),
        Ok(None) => Ok(None),
        Err(e) => Err(e.messages()[0]),
    }
}

/// The legacy appropriateness result and id, if the response has them.
pub fn parse_legacy_appropriateness_info(response: &Json) -> (res: Result<
    Option<(TradeSuitabilityStatus, Option<String>)>,
    ErrorReport,
>)
    ensures
        plain_errors(res),
        legacy_view(res) == spec_legacy_info(*response),
        single(res),
{
    let info = match member_of(portfolio(response), "appropriatenessInfo") {
        Some(i) => i,
        None => {
            return Ok(None);
        },
    };
    if info.is_null() {
        return Ok(None);
    }
    let result_text = match text_of(info.get("result")) {
        Some(r) => r,
        None => {
            return Err(ErrorReport::msg("Trade response invalid: missing appropriateness result"));
        },
    };
    let status = match parse_legacy_appropriateness_status(result_text) {
        Ok(st) => st,
        Err(e) => {
            return Err(e);
        },
    };
    Ok(Some((status, non_blank_text(text_of(info.get("appropriatenessId"))))))
}

pub fn knockout_warning_enabled(response: &Json) -> (res: bool)
    ensures
        res == knockout_warnings_enabled(*response),
{
    match member_of(member_of(portfolio(response), "featureFlags"), "knockoutWarnings") {
        Some(v) => match v.as_bool() {
            Some(b) => b,
            None => false,
        },
        None => false,
    }
}


pub open spec fn decision_result_view(r: Result<TradeComplianceDecision, ErrorReport>) -> Result<
    DecisionView,
    Seq<char>,
> {
    match r {
        Ok(d) => Ok(d@),
        Err(e) => Err(e.messages()[0]),
    }
}

fn find_entry(statuses: &Vec<SuitabilityStatusEntry>, ty: TradeSuitabilityType) -> (res: Option<
    usize,
>)
    ensures
        match res {
            Some(k) => k < statuses.len() && first_entry_of(entries_view(statuses@), ty) == Some(
                entry_view(statuses@[k as int]),
            ),
            None => first_entry_of(entries_view(statuses@), ty) is None,
        },
{
    let ghost all = entries_view(statuses@);
    let mut i: usize = 0;
    proof {
        assert(all.skip(0) =~= all);
    }
    while i < statuses.len()
        invariant
            i <= statuses.len(),
            all == entries_view(statuses@),
            first_entry_of(all, ty) == first_entry_of(all.skip(i as int), ty),
        decreases statuses.len() - i,
    {
        proof {
            assert(all.skip(i as int)[0] == entry_view(statuses@[i as int]));
            assert(all.skip(i as int).drop_first() =~= all.skip(i + 1));
        }
        if statuses[i].suitability_type == ty {
            return Some(i);
        }
        i = i + 1;
    }
    None
}

fn questionnaire_reason(status: TradeSuitabilityStatus, action: TradeActionWhenUnsuitable) -> (res:
    Option<&'static str>)
    ensures
        opt_slice(res) == questionnaire_reason_for(status, action),
{
    match status {
        TradeSuitabilityStatus::NotEvaluated => Some("not_evaluated"),
        TradeSuitabilityStatus::NotCompleted => Some("not_completed"),
        TradeSuitabilityStatus::Unsuitable => match action {
            TradeActionWhenUnsuitable::ReopenQuestionnaire => Some("unsuitable_reopens_questionnaire"),
            TradeActionWhenUnsuitable::ProceedToOrderFlow => None,
        },
        _ => None,
    }
}

fn text_report(text: &Vec<char>) -> (res: ErrorReport)
    ensures
        plain_report(res),
        res.messages() == seq![text@],
{
    let s = string_of(text);
    ErrorReport::msg(s.as_str())
}

/// The decision for a security that requires a suitability check.
pub fn evaluate_required_suitability(
    response: &Json,
    required: RequiredSuitability,
    statuses: &Vec<SuitabilityStatusEntry>,
) -> (res: Result<TradeComplianceDecision, ErrorReport>)
    ensures
        plain_errors(res),
        decision_result_view(res) == spec_evaluate_required_suitability(
            *response,
            required.suitability_type,
            required.action_when_unsuitable,
            entries_view(statuses@),
        ),
        single(res),
{
    let ty = required.suitability_type;
    let action = required.action_when_unsuitable;
    if !ty.supported_in_broker_trade() {
        let mut text: Vec<char> = Vec::new();
        push_str_chars(&mut text, "UNSUPPORTED_TRADE_SUITABILITY_TYPE: ");
        push_str_chars(&mut text, ty.as_str());
        push_str_chars(
            &mut text,
            " suitability is not supported in sc broker trade; use web or mobile for this product flow.",
        );
        proof {
            assert(text@ =~= unsupported_type_message(ty));
        }
        return Err(text_report(&text));
    }
    let found = find_entry(statuses, ty);
    let status = match found {
        Some(k) => statuses[k].status,
        None => TradeSuitabilityStatus::NotEvaluated,
    };
    let reason = questionnaire_reason(status, action);
    let questionnaire = reason.is_some();
    let accept = ty == TradeSuitabilityType::ComplexInstrument && status
        == TradeSuitabilityStatus::Unsuitable && action
        == TradeActionWhenUnsuitable::ProceedToOrderFlow;
    let can_proceed = status == TradeSuitabilityStatus::Suitable || (status
        == TradeSuitabilityStatus::Unsuitable && action
        == TradeActionWhenUnsuitable::ProceedToOrderFlow);
    let submission_appropriateness_id = if !questionnaire && can_proceed {
        let id = match found {
            Some(k) => statuses[k].suitability_id.clone(),
            None => None,
        };
        if id.is_none() {
            let mut text: Vec<char> = Vec::new();
            push_str_chars(&mut text, "SUITABILITY_ID_MISSING: suitabilityId is missing for proceedable ");
            push_str_chars(&mut text, ty.as_str());
            push_str_chars(&mut text, " trade (status=");
            push_str_chars(&mut text, status.as_str());
            push_str_chars(&mut text, ")");
            proof {
                assert(text@ =~= missing_suitability_id_message(ty, status));
            }
            return Err(text_report(&text));
        }
        id
    } else {
        None
    };
    let warning = if questionnaire {
        TradeWarningDecision::none()
    } else if ty == TradeSuitabilityType::Knockout && knockout_warning_enabled(response) {
        TradeWarningDecision::knockout()
    } else if accept {
        TradeWarningDecision::bare(TradeWarningKind::LegacyAppropriatenessWarning)
    } else {
        TradeWarningDecision::none()
    };
    Ok(
        TradeComplianceDecision {
            source_kind: TradeComplianceSourceKind::SuitabilityService,
            suitability_type: Some(ty),
            status,
            action_when_unsuitable: Some(action),
            questionnaire_required: questionnaire,
            questionnaire_reason: reason,
            requires_accept_unsuitable: accept,
            submission_appropriateness_id,
            warning,
        },
    )
}

fn legacy_reason(status: TradeSuitabilityStatus) -> (res: Option<&'static str>)
    ensures
        opt_slice(res) == legacy_reason_for(status),
{
    match status {
        TradeSuitabilityStatus::NotEvaluated => Some("not_evaluated"),
        TradeSuitabilityStatus::NotCompleted => Some("not_completed"),
        _ => None,
    }
}

/// The decision from the legacy appropriateness result.
pub fn evaluate_legacy_appropriateness_fallback(response: &Json, appropriateness_required: bool) -> (res:
    Result<TradeComplianceDecision, ErrorReport>)
    ensures
        plain_errors(res),
        decision_result_view(res) == spec_evaluate_legacy_appropriateness_fallback(
            *response,
            appropriateness_required,
        ),
        single(res),
{
    if !appropriateness_required {
        return Ok(TradeComplianceDecision::not_required());
    }
    let (status, id) = match parse_legacy_appropriateness_info(response) {
        Err(e) => {
            return Err(e);
        },
        Ok(None) => {
            return Err(ErrorReport::msg("Trade response invalid: missing appropriateness info"));
        },
        Ok(Some(info)) => info,
    };
    let reason = legacy_reason(status);
    let questionnaire = reason.is_some();
    let accept = status == TradeSuitabilityStatus::Unsuitable;
    let needs_id = status == TradeSuitabilityStatus::Suitable || accept;
    let submission_appropriateness_id = if !questionnaire && needs_id {
        if id.is_none() {
            return Err(
                ErrorReport::msg(
                    "APPROPRIATENESS_REQUIRED: appropriateness id is missing for appropriateness-required trade.",
                ),
            );
        }
        id
    } else {
        None
    };
    let warning = if accept {
        TradeWarningDecision::bare(TradeWarningKind::LegacyAppropriatenessWarning)
    } else {
        TradeWarningDecision::none()
    };
    Ok(
        TradeComplianceDecision {
            source_kind: TradeComplianceSourceKind::LegacyAppropriatenessFallback,
            suitability_type: Some(TradeSuitabilityType::LegacyFallback),
            status,
            action_when_unsuitable: if accept {
                Some(TradeActionWhenUnsuitable::ProceedToOrderFlow)
            } else {
                None
            },
            questionnaire_required: questionnaire,
            questionnaire_reason: reason,
            requires_accept_unsuitable: accept,
            submission_appropriateness_id,
            warning,
        },
    )
}

/// The compliance decision for an order, read from the compliance response.
pub fn evaluate_trade_compliance(
    response: &Json,
    side: TradeSide,
    appropriateness_required: bool,
) -> (res: Result<TradeComplianceDecision, ErrorReport>)
    ensures
        plain_errors(res),
        decision_result_view(res) == spec_evaluate_trade_compliance(
            *response,
            side,
            appropriateness_required,
        ),
        single(res),
{
    if !side.is_buy() {
        return Ok(TradeComplianceDecision::not_required());
    }
    let required = match parse_required_suitability(response) {
        Ok(r) => r,
        Err(e) => {
            return Err(e);
        },
    };
    let required_type = match required {
        Some(r) => Some(r.suitability_type),
        None => None,
    };
    let statuses = match parse_suitability_statuses(response, required_type) {
        Ok(s) => s,
        Err(e) => {
            return Err(e);
        },
    };
    match required {
        Some(r) => evaluate_required_suitability(response, r, &statuses),
        None => {
            if appropriateness_required || statuses.len() == 0 {
                evaluate_legacy_appropriateness_fallback(response, appropriateness_required)
            } else {
                Ok(TradeComplianceDecision::not_required())
            }
        },
    }
}


// ---------------------------------------------------------------------------
// Tradability
// ---------------------------------------------------------------------------

/// Whether and where a security can be traded. The sellable quantity is kept
/// as the text of the JSON number the backend sent.
#[derive(Debug, Clone)]
pub struct TradeTradabilityGate {
    pub status: String,
    pub tradable: bool,
    pub requires_appropriateness: bool,
    pub selected_venue: String,
    pub selected_venue_status: String,
    pub selected_venue_unavailability_reason: Option<String>,
    pub selected_venue_sellable: Option<String>,
}

/// A tradability gate as plain values.
pub struct TradabilityGateView {
    pub status: Seq<char>,
    pub tradable: bool,
    pub requires_appropriateness: bool,
    pub selected_venue: Seq<char>,
    pub selected_venue_status: Seq<char>,
    pub selected_venue_unavailability_reason: Option<Seq<char>>,
    pub selected_venue_sellable: Option<Seq<char>>,
}

impl View for TradeTradabilityGate {
    type V = TradabilityGateView;

    open spec fn view(&self) -> TradabilityGateView {
        TradabilityGateView {
            status: self.status@,
            tradable: self.tradable,
            requires_appropriateness: self.requires_appropriateness,
            selected_venue: self.selected_venue@,
            selected_venue_status: self.selected_venue_status@,
            selected_venue_unavailability_reason: opt_view(self.selected_venue_unavailability_reason),
            selected_venue_sellable: opt_view(self.selected_venue_sellable),
        }
    }
}

/// The venue named by an entry.
pub open spec fn venue_name(item: Json) -> Option<Seq<char>> {
    opt_as_str(item.spec_get("venue"@))
}

/// The first entry for the named venue.
pub open spec fn first_with_venue(venues: Seq<Json>, name: Seq<char>) -> Option<Json>
    decreases venues.len(),
{
    if venues.len() == 0 {
        None
    } else if venue_name(venues[0]) == Some(name) {
        Some(venues[0])
    } else {
        first_with_venue(venues.drop_first(), name)
    }
}

/// The first non-empty venue name among the entries.
pub open spec fn first_named_venue(venues: Seq<Json>) -> Option<Seq<char>>
    decreases venues.len(),
{
    if venues.len() == 0 {
        None
    } else {
        match venue_name(venues[0]) {
            Some(v) if v.len() > 0 => Some(v),
            _ => first_named_venue(venues.drop_first()),
        }
    }
}

pub open spec fn venues_of(block: Json) -> Seq<Json> {
    match block.spec_get("venues"@) {
        Some(Json::Array(items)) => items@,
        _ => Seq::empty(),
    }
}

/// The venue an order goes to: the requested one, which must be listed; else
/// the primary venue; else the first listed venue with a name.
pub open spec fn spec_selected_venue(block: Json, venue_override: Option<Seq<char>>) -> Result<
    Seq<char>,
    Seq<char>,
> {
    match venue_override {
        Some(o) if trim(o).len() > 0 => if first_with_venue(venues_of(block), trim(o)) is Some {
            Ok(trim(o))
        } else {
            Err("Trade input invalid: venue '"@ + trim(o) + "' not available for this security"@)
        },
        _ => match opt_as_str(opt_get(block.spec_get("primaryVenue"@), "venue"@)) {
            Some(p) if p.len() > 0 => Ok(p),
            _ => match first_named_venue(venues_of(block)) {
                Some(v) => Ok(v),
                None => Err("Trade response invalid: no tradable venue available"@),
            },
        },
    }
}

pub open spec fn sellable_entries_of(response: Json) -> Option<Json> {
    opt_get(opt_get(opt_get(security_of(response), "inventory"@), "position"@), "sellableByVenue"@)
}

/// The quantity sellable at the venue, for a sell.
pub open spec fn spec_sellable(response: Json, side: TradeSide, venue: Seq<char>) -> Result<
    Option<Seq<char>>,
    Seq<char>,
> {
    if side != TradeSide::Sell {
        Ok(None)
    } else {
        match sellable_entries_of(response) {
            Some(Json::Array(items)) => match opt_get(first_with_venue(items@, venue), "sellable"@) {
                Some(Json::Number(n)) => Ok(Some(n@)),
                _ => Err(
                    "Trade response invalid: missing sellable quantity for selected venue '"@ + venue
                        + "'"@,
                ),
            },
            _ => Err(
                "Trade response invalid: missing sellableByVenue for "@ + side.spec_as_label()
                    + " tradability"@,
            ),
        }
    }
}

/// The tradability of a security for one side: its status, the venue the
/// order goes to and that venue's status; it is tradable unless either says
/// `NOT_TRADABLE`, and needs appropriateness if either says so.
pub open spec fn spec_parse_tradability_gate(
    response: Json,
    side: TradeSide,
    venue_override: Option<Seq<char>>,
) -> Result<TradabilityGateView, Seq<char>> {
    match opt_get(security_of(response), side.spec_tradability_field()) {
        None => Err(
            "Trade response invalid: missing "@ + side.spec_as_label() + " tradability block"@,
        ),
        Some(block) => match opt_as_str(block.spec_get("tradabilityStatus"@)) {
            None => Err("Trade response invalid: missing tradability status"@),
            Some(status) => match spec_selected_venue(block, venue_override) {
                Err(e) => Err(e),
                Ok(venue) => {
                    let entry = first_with_venue(venues_of(block), venue);
                    let venue_status = match opt_as_str(opt_get(entry, "tradabilityStatus"@)) {
                        Some(s) => s,
                        None => status,
                    };
                    let reason = match opt_as_str(opt_get(entry, "unavailabilityReason"@)) {
                        Some(r) if r.len() > 0 => Some(r),
                        _ => None,
                    };
                    match spec_sellable(response, side, venue) {
                        Err(e) => Err(e),
                        Ok(sellable) => Ok(
                            TradabilityGateView {
                                status,
                                tradable: status != "NOT_TRADABLE"@ && venue_status != "NOT_TRADABLE"@,
                                requires_appropriateness: status == "TRADABLE_WITH_APPROPRIATENESS"@
                                    || venue_status == "TRADABLE_WITH_APPROPRIATENESS"@,
                                selected_venue: venue,
                                selected_venue_status: venue_status,
                                selected_venue_unavailability_reason: reason,
                                selected_venue_sellable: sellable,
                            },
                        ),
                    }
                },
            },
        },
    }
}

fn first_with_venue_exec<'a>(venues: &'a Vec<Json>, name: &str) -> (res: Option<&'a Json>)
    ensures
        opt_ref(res) == first_with_venue(venues@, name@),
{
    let mut i: usize = 0;
    proof {
        assert(venues@.skip(0) =~= venues@);
    }
    while i < venues.len()
        invariant
            i <= venues.len(),
            first_with_venue(venues@, name@) == first_with_venue(venues@.skip(i as int), name@),
        decreases venues.len() - i,
    {
        proof {
            assert(venues@.skip(i as int)[0] == venues@[i as int]);
            assert(venues@.skip(i as int).drop_first() =~= venues@.skip(i + 1));
        }
        if let Some(v) = text_of(venues[i].get("venue")) {
            if str_eq(v, name) {
                return Some(&venues[i]);
            }
        }
        i = i + 1;
    }
    None
}

fn first_named_venue_exec(venues: &Vec<Json>) -> (res: Option<&str>)
    ensures
        opt_slice(res) == first_named_venue(venues@),
{
    let mut i: usize = 0;
    proof {
        assert(venues@.skip(0) =~= venues@);
    }
    while i < venues.len()
        invariant
            i <= venues.len(),
            first_named_venue(venues@) == first_named_venue(venues@.skip(i as int)),
        decreases venues.len() - i,
    {
        proof {
            assert(venues@.skip(i as int)[0] == venues@[i as int]);
            assert(venues@.skip(i as int).drop_first() =~= venues@.skip(i + 1));
        }
        if let Some(v) = text_of(venues[i].get("venue")) {
            if chars_of(v).len() > 0 {
                return Some(v);
            }
        }
        i = i + 1;
    }
    None
}

pub open spec fn gate_view(r: Result<TradeTradabilityGate, ErrorReport>) -> Result<
    TradabilityGateView,
    Seq<char>,
> {
    match r {
        Ok(g) => Ok(g@),
        Err(e) => Err(e.messages()[0]),
    }
}

fn selected_venue(block: &Json, venue_override: Option<&str>) -> (res: Result<String, ErrorReport>)
    ensures
        plain_errors(res),
        match (res, spec_selected_venue(*block, opt_slice(venue_override))) {
            (Ok(v), Ok(w)) => v@ == w,
            (Err(e), Err(m)) => e.messages() == seq![m],
            _ => false,
        },
{
    let empty: Vec<Json> = Vec::new();
    let venues: &Vec<Json> = match block.get("venues") {
        Some(v) => match v.as_array() {
            Some(items) => items,
            None => &empty,
        },
        None => &empty,
    };
    proof {
        assert(venues@ == venues_of(*block));
    }
    if let Some(o) = venue_override {
        let t = string_of(&trim_chars(o));
        if chars_of(t.as_str()).len() > 0 {
            if first_with_venue_exec(venues, t.as_str()).is_some() {
                return Ok(t);
            }
            let mut text: Vec<char> = Vec::new();
            push_str_chars(&mut text, "Trade input invalid: venue '");
            push_str_chars(&mut text, t.as_str());
            push_str_chars(&mut text, "' not available for this security");
            return Err(text_report(&text));
        }
    }
    if let Some(p) = text_of(member_of(block.get("primaryVenue"), "venue")) {
        if chars_of(p).len() > 0 {
            return Ok(p.to_owned());
        }
    }
    match first_named_venue_exec(venues) {
        Some(v) => Ok(v.to_owned()),
        None => Err(ErrorReport::msg("Trade response invalid: no tradable venue available")),
    }
}


/// Where and whether a security can be traded for one side, read from the
/// tradability response.
pub fn parse_tradability_gate(response: &Json, side: TradeSide, venue_override: Option<&str>) -> (res:
    Result<TradeTradabilityGate, ErrorReport>)
    ensures
        plain_errors(res),
        gate_view(res) == spec_parse_tradability_gate(*response, side, opt_slice(venue_override)),
{
    let security = member_of(portfolio(response), "security");
    let block = match member_of(security, side.tradability_field()) {
        Some(b) => b,
        None => {
            let mut text: Vec<char> = Vec::new();
            push_str_chars(&mut text, "Trade response invalid: missing ");
            push_str_chars(&mut text, side.as_label());
            push_str_chars(&mut text, " tradability block");
            return Err(text_report(&text));
        },
    };
    let status = match text_of(block.get("tradabilityStatus")) {
        Some(s) => s,
        None => {
            return Err(ErrorReport::msg("Trade response invalid: missing tradability status"));
        },
    };
    let venue = match selected_venue(block, venue_override) {
        Ok(v) => v,
        Err(e) => {
            return Err(e);
        },
    };
    let empty: Vec<Json> = Vec::new();
    let venues: &Vec<Json> = match block.get("venues") {
        Some(v) => match v.as_array() {
            Some(items) => items,
            None => &empty,
        },
        None => &empty,
    };
    let entry = first_with_venue_exec(venues, venue.as_str());
    let venue_status: &str = match text_of(member_of(entry, "tradabilityStatus")) {
        Some(s) => s,
        None => status,
    };
    let reason = match text_of(member_of(entry, "unavailabilityReason")) {
        Some(r) => if chars_of(r).len() > 0 {
            Some(r.to_owned())
        } else {
            None
        },
        None => None,
    };
    let sellable = if side == TradeSide::Sell {
        let entries = member_of(
            member_of(member_of(security, "inventory"), "position"),
            "sellableByVenue",
        );
        let items = match entries {
            Some(v) => match v.as_array() {
                Some(items) => items,
                None => {
                    return Err(missing_sellable_entries(side));
                },
            },
            None => {
                return Err(missing_sellable_entries(side));
            },
        };
        match member_of(first_with_venue_exec(items, venue.as_str()), "sellable") {
            Some(Json::Number(n)) => Some(n.clone()),
            _ => {
                let mut text: Vec<char> = Vec::new();
                push_str_chars(&mut text, "Trade response invalid: missing sellable quantity for selected venue '");
                push_str_chars(&mut text, venue.as_str());
                push_str_chars(&mut text, "'");
                return Err(text_report(&text));
            },
        }
    } else {
        None
    };
    let not_tradable = str_eq(status, "NOT_TRADABLE") || str_eq(venue_status, "NOT_TRADABLE");
    let requires_appropriateness = str_eq(status, "TRADABLE_WITH_APPROPRIATENESS") || str_eq(
        venue_status,
        "TRADABLE_WITH_APPROPRIATENESS",
    );
    Ok(
        TradeTradabilityGate {
            status: status.to_owned(),
            tradable: !not_tradable,
            requires_appropriateness,
            selected_venue_status: venue_status.to_owned(),
            selected_venue: venue,
            selected_venue_unavailability_reason: reason,
            selected_venue_sellable: sellable,
        },
    )
}

fn missing_sellable_entries(side: TradeSide) -> (res: ErrorReport)
    ensures
        plain_report(res),
        res.messages() == seq![
            "Trade response invalid: missing sellableByVenue for "@ + side.spec_as_label()
                + " tradability"@,
        ],
{
    let mut text: Vec<char> = Vec::new();
    push_str_chars(&mut text, "Trade response invalid: missing sellableByVenue for ");
    push_str_chars(&mut text, side.as_label());
    push_str_chars(&mut text, " tradability");
    text_report(&text)
}

// ---------------------------------------------------------------------------
// What the decisions promise
// ---------------------------------------------------------------------------

/// A decision from the legacy appropriateness result asks for the
/// questionnaire exactly when the result is `NOT_EVALUATED` or
/// `NOT_COMPLETED`, giving that as the reason, and then passes no
/// appropriateness id on; on any other result the order proceeds without it.
pub open spec fn legacy_questionnaire_rule(d: DecisionView) -> bool {
    &&& d.status == TradeSuitabilityStatus::NotEvaluated ==> d.questionnaire_required
        && d.questionnaire_reason == Some("not_evaluated"@)
    &&& d.status == TradeSuitabilityStatus::NotCompleted ==> d.questionnaire_required
        && d.questionnaire_reason == Some("not_completed"@)
    &&& (d.status != TradeSuitabilityStatus::NotEvaluated && d.status
        != TradeSuitabilityStatus::NotCompleted) ==> !d.questionnaire_required
        && d.questionnaire_reason is None
    &&& d.questionnaire_required ==> d.submission_appropriateness_id is None
}

/// Every decision an order gets from the legacy appropriateness result follows
/// the questionnaire rule: a buy whose result is not evaluated or not
/// completed must go through the questionnaire first, and carries no
/// appropriateness id.
pub proof fn legacy_fallback_decisions_require_the_questionnaire_when_unanswered(
    response: Json,
    side: TradeSide,
    appropriateness_required: bool,
)
    ensures
        spec_evaluate_trade_compliance(response, side, appropriateness_required) matches Ok(d) ==> (
        d.source_kind == TradeComplianceSourceKind::LegacyAppropriatenessFallback ==> legacy_questionnaire_rule(d)),
        spec_evaluate_legacy_appropriateness_fallback(response, appropriateness_required) matches Ok(d) ==> (
        d.source_kind == TradeComplianceSourceKind::LegacyAppropriatenessFallback ==> legacy_questionnaire_rule(d)),
{
}

/// Where the appropriateness result is required and reads `NOT_EVALUATED` or
/// `NOT_COMPLETED`, the decision is always given (no id is needed) and it
/// requires the questionnaire for that reason.
pub proof fn unanswered_appropriateness_always_sends_to_the_questionnaire(
    response: Json,
    status: TradeSuitabilityStatus,
    id: Option<Seq<char>>,
)
    requires
        spec_legacy_info(response) == Ok::<Option<(TradeSuitabilityStatus, Option<Seq<char>>)>, Seq<char>>(
            Some((status, id)),
        ),
        status == TradeSuitabilityStatus::NotEvaluated || status == TradeSuitabilityStatus::NotCompleted,
    ensures
        spec_evaluate_legacy_appropriateness_fallback(response, true) matches Ok(d) && {
            &&& d.source_kind == TradeComplianceSourceKind::LegacyAppropriatenessFallback
            &&& d.status == status
            &&& d.questionnaire_required
            &&& d.questionnaire_reason == Some(
                if status == TradeSuitabilityStatus::NotEvaluated {
                    "not_evaluated"@
                } else {
                    "not_completed"@
                },
            )
            &&& d.submission_appropriateness_id is None
        },
{
}

/// The tradability gate says tradable exactly when neither the security's
/// status nor the selected venue's status is `NOT_TRADABLE`, and asks for
/// appropriateness exactly when either is `TRADABLE_WITH_APPROPRIATENESS`.
pub proof fn tradable_only_where_neither_status_says_not_tradable(
    response: Json,
    side: TradeSide,
    venue_override: Option<Seq<char>>,
)
    ensures
        spec_parse_tradability_gate(response, side, venue_override) matches Ok(g) ==> {
            &&& g.tradable <==> (g.status != "NOT_TRADABLE"@ && g.selected_venue_status != "NOT_TRADABLE"@)
            &&& g.requires_appropriateness <==> (g.status == "TRADABLE_WITH_APPROPRIATENESS"@
                || g.selected_venue_status == "TRADABLE_WITH_APPROPRIATENESS"@)
        },
{
}

} // verus!
