//! Overnight savings account request inputs.
use vstd::prelude::*;

use crate::error_report::{plain_errors};
use crate::broker_queries::{
    enum_filter_error_report, enum_filter_message, normalize_optional_non_empty_string, opt_int,
    opt_views, parse_iso_8601_timestamp, spec_optional_non_empty, spec_timestamp,
};
use crate::enum_filter::{
    all_filter_chars, is_separator, push_separator, push_word, run_normalizer,
    spec_normalize_enum, spec_normalize_enum_values, strip_char_both_ends, trim_underscores,
    EnumFilterError, NormalizerState, first_enum_error, normalized_all,
};
use crate::error_report::ErrorReport;
use crate::sorted::{sorted_dedup, sorted_list};
use crate::text::{
    concat3, is_alnum, is_alnum_char, is_digit_char, is_lower_char, is_upper_char, opt_slice,
    opt_str, string_of, trim, trim_chars, trimmed, upper_char_exec, views,
};
use crate::time::instant_after;

verus! {

/// `Overnight input invalid: `.
pub open spec fn overnight_prefix() -> Seq<char> {
    "Overnight input invalid: "@
}

/// `Overnight input invalid: field '<field>' must be a non-empty string`.
pub open spec fn overnight_blank_error(field: Seq<char>) -> Seq<char> {
    "Overnight input invalid: field '"@ + field + "' must be a non-empty string"@
}

/// A required text, trimmed; refused when blank.
pub open spec fn spec_required_non_empty(value: Seq<char>, field: Seq<char>) -> Result<Seq<char>, Seq<char>> {
    if trim(value).len() == 0 {
        Err(overnight_blank_error(field))
    } else {
        Ok(trim(value))
    }
}

pub fn required_non_empty(value: &str, field: &str) -> (res: Result<String, ErrorReport>)
    ensures
        plain_errors(res),
        match spec_required_non_empty(value@, field@) {
            Ok(v) => res matches Ok(s) && s@ == v,
            Err(m) => res matches Err(e) && e.messages() == seq![m],
        },
{
    let t = trimmed(value);
    if t.as_str().is_empty() {
        let m = concat3("Overnight input invalid: field '", field, "' must be a non-empty string");
        return Err(ErrorReport::msg(m.as_str()));
    }
    Ok(t)
}

/// The account and overnight savings account that a summary is about.
#[derive(Debug, Clone, PartialEq, Eq)]
pub struct OvernightSummaryInput {
    account_id: String,
    savings_account_id: String,
}

impl OvernightSummaryInput {
    pub closed spec fn spec_account_id(&self) -> Seq<char> {
        self.account_id@
    }

    pub closed spec fn spec_savings_account_id(&self) -> Seq<char> {
        self.savings_account_id@
    }

    /// Both ids trimmed; the account id is checked first.
    pub fn new(account_id: &str, savings_account_id: &str) -> (res: Result<Self, ErrorReport>)
        ensures
            plain_errors(res),
            match spec_required_non_empty(account_id@, "account_id"@) {
                Err(m) => res matches Err(e) && e.messages() == seq![m],
                Ok(a) => match spec_required_non_empty(savings_account_id@, "savings_account_id"@) {
                    Err(m) => res matches Err(e) && e.messages() == seq![m],
                    Ok(s) => res matches Ok(x) && x.spec_account_id() == a
                        && x.spec_savings_account_id() == s,
                },
            },
    {
        let account_id = required_non_empty(account_id, "account_id")?;
        let savings_account_id = required_non_empty(savings_account_id, "savings_account_id")?;
        Ok(Self { account_id, savings_account_id })
    }

    pub fn account_id(&self) -> (res: &str)
        ensures
            res@ == self.spec_account_id(),
    {
        self.account_id.as_str()
    }

    pub fn savings_account_id(&self) -> (res: &str)
        ensures
            res@ == self.spec_savings_account_id(),
    {
        self.savings_account_id.as_str()
    }
}

// ---------------------------------------------------------------------------
// Filter values
// ---------------------------------------------------------------------------

/// One character of a filter value: a word character, or a separator.
pub enum FilterCharacter {
    Word(char),
    Separator,
}

/// Sorts a filter character; anything else is refused for the field.
pub fn classify_filter_character(character: char, field: &str) -> (res: Result<FilterCharacter, ErrorReport>)
    ensures
        plain_errors(res),
        is_alnum(character) ==> (res matches Ok(FilterCharacter::Word(c)) && c == character),
        !is_alnum(character) && is_separator(character) ==> (res matches Ok(FilterCharacter::Separator)),
        !is_alnum(character) && !is_separator(character) ==> (res matches Err(e) && e.messages()
            == seq![enum_filter_message(overnight_prefix(), field@, EnumFilterError::Unsupported)]),
{
    if is_alnum_char(character) {
        return Ok(FilterCharacter::Word(character));
    }
    if character == '_' || character == '-' || character == ' ' {
        return Ok(FilterCharacter::Separator);
    }
    Err(enum_filter_error_report("Overnight input invalid: ", field, EnumFilterError::Unsupported))
}

/// Builds the `UPPER_SNAKE_CASE` form of a filter value one character at a time.
pub struct EnumFilterNormalizer {
    value: Vec<char>,
    previous_was_word: bool,
    previous_was_lower_or_digit: bool,
}

impl EnumFilterNormalizer {
    /// The state: the text so far and the two flags.
    pub closed spec fn state(&self) -> NormalizerState {
        (self.value@, self.previous_was_word, self.previous_was_lower_or_digit)
    }

    pub fn new(input_len: usize) -> (res: Self)
        ensures
            res.state() == (Seq::<char>::empty(), false, false),
    {
        let _ = input_len;
        EnumFilterNormalizer {
            value: Vec::new(),
            previous_was_word: false,
            previous_was_lower_or_digit: false,
        }
    }

    fn ends_with_underscore(&self) -> (res: bool)
        ensures
            res == (self.value@.len() > 0 && self.value@.last() == '_'),
    {
        self.value.len() > 0 && self.value[self.value.len() - 1] == '_'
    }

    pub fn push_word_character(&mut self, character: char)
        requires
            is_alnum(character),
        ensures
            final(self).state() == push_word(old(self).state(), character),
    {
        if is_upper_char(character) && self.previous_was_lower_or_digit
            && !self.ends_with_underscore() {
            self.value.push('_');
        }
        self.value.push(upper_char_exec(character));
        self.previous_was_word = true;
        self.previous_was_lower_or_digit = is_lower_char(character) || is_digit_char(character);
    }

    pub fn push_separator(&mut self)
        ensures
            final(self).state() == push_separator(old(self).state()),
    {
        if self.previous_was_word && !self.ends_with_underscore() {
            self.value.push('_');
        }
        self.previous_was_word = false;
        self.previous_was_lower_or_digit = false;
    }

    /// The text with leading and trailing `_` removed.
    pub fn finish(self) -> (res: String)
        ensures
            res@ == trim_underscores(self.state().0),
    {
        let v = strip_char_both_ends(&self.value, '_');
        string_of(&v)
    }
}

/// One overnight filter value normalized, or the overnight error for it.
pub fn normalize_enum_filter_value(raw: &str, field: &str) -> (res: Result<String, ErrorReport>)
    ensures
        plain_errors(res),
        match spec_normalize_enum(raw@) {
            Ok(v) => res matches Ok(s) && s@ == v,
            Err(k) => res matches Err(e) && e.messages() == seq![
                enum_filter_message(overnight_prefix(), field@, k),
            ],
        },
{
    let t = trim_chars(raw);
    if t.len() == 0 {
        return Err(enum_filter_error_report("Overnight input invalid: ", field, EnumFilterError::Empty));
    }
    let mut normalizer = EnumFilterNormalizer::new(t.len());
    let mut i: usize = 0;
    while i < t.len()
        invariant
            i <= t.len(),
            t@ == trim(raw@),
            all_filter_chars(t@.take(i as int)),
            run_normalizer(t@.take(i as int)) == normalizer.state(),
        decreases t.len() - i,
    {
        proof {
            assert(t@.take(i + 1).drop_last() =~= t@.take(i as int));
            assert(t@.take(i + 1).last() == t@[i as int]);
        }
        match classify_filter_character(t[i], field) {
            Ok(FilterCharacter::Word(c)) => normalizer.push_word_character(c),
            Ok(FilterCharacter::Separator) => normalizer.push_separator(),
            Err(e) => {
                proof {
                    assert(!all_filter_chars(t@)) by {
                        assert(!(is_alnum(t@[i as int]) || is_separator(t@[i as int])));
                    }
                }
                return Err(e);
            },
        }
        proof {
            assert forall|k: int| 0 <= k < i + 1 implies is_alnum(#[trigger] t@.take(i + 1)[k])
                || is_separator(t@.take(i + 1)[k]) by {
                if k < i {
                    assert(t@.take(i + 1)[k] == t@.take(i as int)[k]);
                }
            }
        }
        i = i + 1;
    }
    proof {
        assert(t@.take(t.len() as int) =~= t@);
    }
    let normalized = normalizer.finish();
    if normalized.as_str().is_empty() {
        return Err(enum_filter_error_report("Overnight input invalid: ", field, EnumFilterError::Empty));
    }
    Ok(normalized)
}

/// The overnight filter list: none for no values, else the distinct
/// normalized values in increasing order.
pub fn normalize_enum_filter_values(values: &[String], field: &str) -> (res: Result<Option<Vec<String>>, ErrorReport>)
    ensures
        plain_errors(res),
        match spec_normalize_enum_values(views(values@)) {
            Ok(v) => res matches Ok(x) && opt_views(x) == v,
            Err(k) => res matches Err(e) && e.messages() == seq![
                enum_filter_message(overnight_prefix(), field@, k),
            ],
        },
{
    if values.len() == 0 {
        return Ok(None);
    }
    let mut normalized: Vec<String> = Vec::new();
    let mut i: usize = 0;
    let ghost vs = views(values@);
    proof {
        assert(vs.skip(0) =~= vs);
    }
    while i < values.len()
        invariant
            i <= values.len(),
            vs == views(values@),
            first_enum_error(vs) == first_enum_error(vs.skip(i as int)),
            views(normalized@) == normalized_all(vs.take(i as int)),
        decreases values.len() - i,
    {
        proof {
            assert(vs.skip(i as int)[0] == vs[i as int]);
            assert(vs.skip(i as int).drop_first() =~= vs.skip(i + 1));
        }
        let v = normalize_enum_filter_value(values[i].as_str(), field)?;
        let ghost before = views(normalized@);
        normalized.push(v);
        proof {
            assert(vs[i as int] == values@[i as int]@);
            assert(normalized_all(vs.take(i + 1)) =~= normalized_all(vs.take(i as int)).push(v@));
            assert(views(normalized@) =~= before.push(v@));
        }
        i = i + 1;
    }
    proof {
        assert(vs.take(values.len() as int) =~= vs);
        assert(vs.skip(values.len() as int) =~= Seq::<Seq<char>>::empty());
    }
    let sorted = sorted_dedup(normalized);
    Ok(Some(sorted))
}

pub fn overnight_transactions_type_filter_help() -> (res: String)
    ensures
        res@ == "Backend transaction type filter (repeatable). Input is normalized to uppercase snake case. For example: `interest`, `deposit`, `withdrawal`, `cash transfer in`, `cash transfer out`."@,
{
    "Backend transaction type filter (repeatable). Input is normalized to uppercase snake case. For example: `interest`, `deposit`, `withdrawal`, `cash transfer in`, `cash transfer out`.".to_owned()
}

// ---------------------------------------------------------------------------
// Transaction list options
// ---------------------------------------------------------------------------

/// The checked options of an overnight transaction list query.
#[derive(Debug, Clone, PartialEq, Eq)]
pub struct OvernightTransactionsOptions {
    pub page_size: u16,
    pub cursor: Option<String>,
    pub type_filter: Option<Vec<String>>,
    pub search_term: Option<String>,
    pub from_time_seconds: Option<i64>,
    pub to_time_seconds: Option<i64>,
}

/// An overnight time bound: absent, or read from its text.
pub open spec fn spec_overnight_time_bound(raw: Option<Seq<char>>, field: Seq<char>) -> Result<Option<(int, int)>, Seq<char>> {
    match raw {
        None => Ok(None),
        Some(r) => match spec_timestamp(r, field, overnight_prefix()) {
            Ok(i) => Ok(Some(i)),
            Err(m) => Err(m),
        },
    }
}

/// The first check that overnight list options fail.
pub open spec fn spec_overnight_options_error(page_size: u16, types: Seq<Seq<char>>, from: Option<Seq<char>>, to: Option<Seq<char>>) -> Option<Seq<char>> {
    if page_size == 0 || page_size > 100 {
        Some("Overnight input invalid: field 'page_size' must be between 1 and 100"@)
    } else {
        match spec_normalize_enum_values(types) {
            Err(k) => Some(enum_filter_message(overnight_prefix(), "type_filter"@, k)),
            Ok(_) => match spec_overnight_time_bound(from, "from_time"@) {
                Err(m) => Some(m),
                Ok(f) => match spec_overnight_time_bound(to, "to_time"@) {
                    Err(m) => Some(m),
                    Ok(t) => match (f, t) {
                        (Some(x), Some(y)) => if instant_after(x, y) {
                            Some("Overnight input invalid: field 'from_time' must be before or equal to 'to_time'"@)
                        } else {
                            None
                        },
                        _ => None,
                    },
                },
            },
        }
    }
}

/// The seconds of an overnight time bound that was read.
pub open spec fn overnight_bound_seconds(b: Result<Option<(int, int)>, Seq<char>>) -> Option<int> {
    match b {
        Ok(Some(x)) => Some(x.0),
        _ => None,
    }
}

fn overnight_time_bound(raw: Option<&str>, field: &str) -> (res: Result<Option<(i64, u32)>, ErrorReport>)
    ensures
        plain_errors(res),
        match spec_overnight_time_bound(opt_slice(raw), field@) {
            Ok(b) => res matches Ok(x) && match x {
                Some(i) => b == Some((i.0 as int, i.1 as int)),
                None => b is None,
            },
            Err(m) => res matches Err(e) && e.messages() == seq![m],
        },
{
    match raw {
        None => Ok(None),
        Some(r) => {
            let i = parse_iso_8601_timestamp(r, field, "Overnight input invalid: ")?;
            Ok(Some(i))
        },
    }
}

impl OvernightTransactionsOptions {
    /// Checks the page size (1 to 100), normalizes the type filter, drops
    /// blank optional texts, and reads the two timestamps, which must be in
    /// order.
    #[verifier::rlimit(40)]
    pub fn new(
        page_size: u16,
        cursor: Option<&str>,
        type_filter: &[String],
        search_term: Option<&str>,
        from_time: Option<&str>,
        to_time: Option<&str>,
    ) -> (res: Result<Self, ErrorReport>)
        ensures
            plain_errors(res),
            match spec_overnight_options_error(page_size, views(type_filter@), opt_slice(from_time), opt_slice(to_time)) {
                Some(m) => res matches Err(e) && e.messages() == seq![m],
                None => res matches Ok(o) && {
                    &&& o.page_size == page_size
                    &&& opt_str(o.cursor) == spec_optional_non_empty(opt_slice(cursor))
                    &&& opt_str(o.search_term) == spec_optional_non_empty(opt_slice(search_term))
                    &&& spec_normalize_enum_values(views(type_filter@)) == Ok::<Option<Seq<Seq<char>>>, EnumFilterError>(opt_views(o.type_filter))
                    &&& opt_int(o.from_time_seconds) == overnight_bound_seconds(spec_overnight_time_bound(opt_slice(from_time), "from_time"@))
                    &&& opt_int(o.to_time_seconds) == overnight_bound_seconds(spec_overnight_time_bound(opt_slice(to_time), "to_time"@))
                },
            },
    {
        if page_size == 0 || page_size > 100 {
            return Err(ErrorReport::msg(
                "Overnight input invalid: field 'page_size' must be between 1 and 100",
            ));
        }
        let type_filter = normalize_enum_filter_values(type_filter, "type_filter")?;
        let from = overnight_time_bound(from_time, "from_time")?;
        let to = overnight_time_bound(to_time, "to_time")?;
        if let (Some(f), Some(t)) = (from, to) {
            if crate::time::instant_after_exec(f, t) {
                return Err(ErrorReport::msg(
                    "Overnight input invalid: field 'from_time' must be before or equal to 'to_time'",
                ));
            }
        }
        Ok(Self {
            page_size,
            cursor: normalize_optional_non_empty_string(cursor),
            type_filter,
            search_term: normalize_optional_non_empty_string(search_term),
            from_time_seconds: match from {
                Some(f) => Some(f.0),
                None => None,
            },
            to_time_seconds: match to {
                Some(t) => Some(t.0),
                None => None,
            },
        })
    }
}

/// The account, the overnight savings account and the list options.
#[derive(Debug, Clone, PartialEq, Eq)]
pub struct OvernightTransactionsInput {
    account_id: String,
    savings_account_id: String,
    options: OvernightTransactionsOptions,
}

impl OvernightTransactionsInput {
    pub closed spec fn spec_account_id(&self) -> Seq<char> {
        self.account_id@
    }

    pub closed spec fn spec_savings_account_id(&self) -> Seq<char> {
        self.savings_account_id@
    }

    pub closed spec fn spec_options(&self) -> OvernightTransactionsOptions {
        self.options
    }

    pub fn new(account_id: &str, savings_account_id: &str, options: OvernightTransactionsOptions) -> (res: Result<Self, ErrorReport>)
        ensures
            plain_errors(res),
            match spec_required_non_empty(account_id@, "account_id"@) {
                Err(m) => res matches Err(e) && e.messages() == seq![m],
                Ok(a) => match spec_required_non_empty(savings_account_id@, "savings_account_id"@) {
                    Err(m) => res matches Err(e) && e.messages() == seq![m],
                    Ok(s) => res matches Ok(x) && x.spec_account_id() == a
                        && x.spec_savings_account_id() == s && x.spec_options() == options,
                },
            },
    {
        let account_id = required_non_empty(account_id, "account_id")?;
        let savings_account_id = required_non_empty(savings_account_id, "savings_account_id")?;
        Ok(Self { account_id, savings_account_id, options })
    }

    pub fn account_id(&self) -> (res: &str)
        ensures
            res@ == self.spec_account_id(),
    {
        self.account_id.as_str()
    }

    pub fn savings_account_id(&self) -> (res: &str)
        ensures
            res@ == self.spec_savings_account_id(),
    {
        self.savings_account_id.as_str()
    }

    pub fn options(&self) -> (res: &OvernightTransactionsOptions)
        ensures
            *res == self.spec_options(),
    {
        &self.options
    }
}

} // verus!
