//! Normalizing free-form filter values to `UPPER_SNAKE_CASE` enum names:
//! `cash transfer in`, `cash-transfer-in` and `CashTransferIn` all become
//! `CASH_TRANSFER_IN`.
use vstd::prelude::*;

use crate::sorted::{sorted_dedup, sorted_list, sorted_unique};
use crate::text::{
    chars_of, is_alnum, is_alnum_char, is_digit, is_digit_char, is_lower, is_lower_char, is_upper,
    is_upper_char, string_of, sub_chars, trim, trim_chars, upper_char, upper_char_exec, views,
};

verus! {

/// Why a filter value was refused.
#[derive(Debug, Clone, Copy, PartialEq, Eq, Structural)]
pub enum EnumFilterError {
    /// Nothing but whitespace or separators.
    Empty,
    /// A character that is neither an ASCII letter or digit nor a separator.
    Unsupported,
}

/// `_`, `-` and space separate words.
pub open spec fn is_separator(c: char) -> bool {
    c == '_' || c == '-' || c == ' '
}

pub open spec fn ends_with_underscore(v: Seq<char>) -> bool {
    v.len() > 0 && v.last() == '_'
}

/// The normalizer's state: the text so far, whether the last character was a
/// word character, and whether it was a lower-case letter or a digit.
pub type NormalizerState = (Seq<char>, bool, bool);

/// A word character: upper-cased, and preceded by `_` when an upper-case
/// letter follows a lower-case letter or a digit.
pub open spec fn push_word(st: NormalizerState, c: char) -> NormalizerState {
    let v = if is_upper(c) && st.2 && !ends_with_underscore(st.0) {
        st.0.push('_')
    } else {
        st.0
    };
    (v.push(upper_char(c)), true, is_lower(c) || is_digit(c))
}

/// A separator: one `_` after a word, none after another separator.
pub open spec fn push_separator(st: NormalizerState) -> NormalizerState {
    let v = if st.1 && !ends_with_underscore(st.0) {
        st.0.push('_')
    } else {
        st.0
    };
    (v, false, false)
}

/// The normalizer run over a text whose characters are all word characters or
/// separators.
pub open spec fn run_normalizer(s: Seq<char>) -> NormalizerState
    decreases s.len(),
{
    if s.len() == 0 {
        (Seq::empty(), false, false)
    } else if is_alnum(s.last()) {
        push_word(run_normalizer(s.drop_last()), s.last())
    } else {
        push_separator(run_normalizer(s.drop_last()))
    }
}

/// `s` without the leading occurrences of `c`.
pub open spec fn strip_leading(s: Seq<char>, c: char) -> Seq<char>
    decreases s.len(),
{
    if s.len() > 0 && s[0] == c {
        strip_leading(s.drop_first(), c)
    } else {
        s
    }
}

/// `s` without the trailing occurrences of `c`.
pub open spec fn strip_trailing(s: Seq<char>, c: char) -> Seq<char>
    decreases s.len(),
{
    if s.len() > 0 && s.last() == c {
        strip_trailing(s.drop_last(), c)
    } else {
        s
    }
}

/// `str::trim_matches('_')`.
pub open spec fn trim_underscores(s: Seq<char>) -> Seq<char> {
    strip_trailing(strip_leading(s, '_'), '_')
}

pub open spec fn all_filter_chars(s: Seq<char>) -> bool {
    forall|i: int| 0 <= i < s.len() ==> is_alnum(#[trigger] s[i]) || is_separator(s[i])
}

/// The normalized form of one filter value, or why it is refused.
pub open spec fn spec_normalize_enum(raw: Seq<char>) -> Result<Seq<char>, EnumFilterError> {
    let t = trim(raw);
    if t.len() == 0 {
        Err(EnumFilterError::Empty)
    } else if !all_filter_chars(t) {
        Err(EnumFilterError::Unsupported)
    } else {
        let out = trim_underscores(run_normalizer(t).0);
        if out.len() == 0 {
            Err(EnumFilterError::Empty)
        } else {
            Ok(out)
        }
    }
}

/// The first refusal among the values, in order.
pub open spec fn first_enum_error(values: Seq<Seq<char>>) -> Option<EnumFilterError>
    decreases values.len(),
{
    if values.len() == 0 {
        None
    } else {
        match spec_normalize_enum(values[0]) {
            Err(e) => Some(e),
            Ok(_) => first_enum_error(values.drop_first()),
        }
    }
}

/// The normalized forms of values that are all accepted.
pub open spec fn normalized_all(values: Seq<Seq<char>>) -> Seq<Seq<char>> {
    values.map_values(|v: Seq<char>| spec_normalize_enum(v)->Ok_0)
}

/// The normalized list of filter values: `None` for no values, else the
/// distinct normalized values in increasing order; or the first refusal.
pub open spec fn spec_normalize_enum_values(values: Seq<Seq<char>>) -> Result<
    Option<Seq<Seq<char>>>,
    EnumFilterError,
> {
    if values.len() == 0 {
        Ok(None)
    } else {
        match first_enum_error(values) {
            Some(e) => Err(e),
            None => Ok(Some(sorted_list(normalized_all(values).to_set()))),
        }
    }
}

/// The view of a normalized list of filter values.
pub open spec fn enum_values_view(r: Result<Option<Vec<String>>, EnumFilterError>) -> Result<
    Option<Seq<Seq<char>>>,
    EnumFilterError,
> {
    match r {
        Ok(Some(v)) => Ok(Some(views(v@))),
        Ok(None) => Ok(None),
        Err(e) => Err(e),
    }
}

/// `s` with the leading and trailing `c` removed.
pub fn strip_char_both_ends(v: &Vec<char>, c: char) -> (res: Vec<char>)
    ensures
        res@ == strip_trailing(strip_leading(v@, c), c),
{
    let mut a: usize = 0;
    proof {
        assert(v@.subrange(0, v.len() as int) =~= v@);
    }
    while a < v.len() && v[a] == c
        invariant
            a <= v.len(),
            strip_leading(v@, c) == strip_leading(v@.subrange(a as int, v.len() as int), c),
        decreases v.len() - a,
    {
        proof {
            assert(v@.subrange(a as int, v.len() as int).drop_first() =~= v@.subrange(
                a + 1,
                v.len() as int,
            ));
        }
        a = a + 1;
    }
    let mut b: usize = v.len();
    while b > a && v[b - 1] == c
        invariant
            a <= b <= v.len(),
            strip_trailing(v@.subrange(a as int, v.len() as int), c) == strip_trailing(
                v@.subrange(a as int, b as int),
                c,
            ),
        decreases b,
    {
        proof {
            assert(v@.subrange(a as int, b as int).drop_last() =~= v@.subrange(a as int, b - 1));
        }
        b = b - 1;
    }
    sub_chars(v, a, b)
}

/// Normalizes one filter value, character by character.
pub fn normalize_enum_value(raw: &str) -> (res: Result<String, EnumFilterError>)
    ensures
        match res {
            Ok(s) => spec_normalize_enum(raw@) == Ok::<Seq<char>, EnumFilterError>(s@),
            Err(e) => spec_normalize_enum(raw@) == Err::<Seq<char>, EnumFilterError>(e),
        },
{
    let trimmed = trim_chars(raw);
    if trimmed.len() == 0 {
        return Err(EnumFilterError::Empty);
    }
    let mut normalized: Vec<char> = Vec::new();
    let mut prev_was_word = false;
    let mut prev_was_lower_or_digit = false;
    let mut i: usize = 0;
    while i < trimmed.len()
        invariant
            i <= trimmed.len(),
            trimmed@ == trim(raw@),
            all_filter_chars(trimmed@.take(i as int)),
            run_normalizer(trimmed@.take(i as int)) == (
                normalized@,
                prev_was_word,
                prev_was_lower_or_digit,
            ),
        decreases trimmed.len() - i,
    {
        let ch = trimmed[i];
        proof {
            assert(trimmed@.take(i + 1).drop_last() =~= trimmed@.take(i as int));
            assert(trimmed@.take(i + 1).last() == ch);
        }
        let ends_underscore = normalized.len() > 0 && normalized[normalized.len() - 1] == '_';
        if is_alnum_char(ch) {
            if is_upper_char(ch) && prev_was_lower_or_digit && !ends_underscore {
                normalized.push('_');
            }
            normalized.push(upper_char_exec(ch));
            prev_was_word = true;
            prev_was_lower_or_digit = is_lower_char(ch) || is_digit_char(ch);
        } else if ch == '_' || ch == '-' || ch == ' ' {
            if prev_was_word && !ends_underscore {
                normalized.push('_');
            }
            prev_was_word = false;
            prev_was_lower_or_digit = false;
        } else {
            proof {
                assert(!all_filter_chars(trimmed@)) by {
                    assert(!(is_alnum(trimmed@[i as int]) || is_separator(trimmed@[i as int])));
                }
            }
            return Err(EnumFilterError::Unsupported);
        }
        proof {
            assert forall|k: int| 0 <= k < i + 1 implies is_alnum(
                #[trigger] trimmed@.take(i + 1)[k],
            ) || is_separator(trimmed@.take(i + 1)[k]) by {
                if k < i {
                    assert(trimmed@.take(i + 1)[k] == trimmed@.take(i as int)[k]);
                }
            }
        }
        i = i + 1;
    }
    proof {
        assert(trimmed@.take(trimmed.len() as int) =~= trimmed@);
    }
    let collapsed = strip_char_both_ends(&normalized, '_');
    if collapsed.len() == 0 {
        return Err(EnumFilterError::Empty);
    }
    Ok(string_of(&collapsed))
}

/// Normalizes every value, stopping at the first refusal.
pub fn normalize_enum_value_list(values: &[String]) -> (res: Result<Vec<String>, EnumFilterError>)
    ensures
        match res {
            Ok(v) => first_enum_error(views(values@)) is None && views(v@) == normalized_all(
                views(values@),
            ),
            Err(e) => first_enum_error(views(values@)) == Some(e),
        },
{
    let mut out: Vec<String> = Vec::new();
    let mut i: usize = 0;
    let ghost vs = views(values@);
    proof {
        assert(vs.skip(0) =~= vs);
    }
    while i < values.len()
        invariant
            i <= values.len(),
            vs == views(values@),
            first_enum_error(vs) == first_enum_error(vs.skip(i as int)),
            views(out@) == normalized_all(vs.take(i as int)),
            forall|k: int| 0 <= k < i ==> spec_normalize_enum(vs[k]) is Ok,
        decreases values.len() - i,
    {
        proof {
            assert(vs.skip(i as int)[0] == vs[i as int]);
            assert(vs.skip(i as int).drop_first() =~= vs.skip(i + 1));
        }
        match normalize_enum_value(values[i].as_str()) {
            Ok(v) => {
                let ghost old_out = views(out@);
                out.push(v);
                proof {
                    assert(vs[i as int] == values@[i as int]@);
                    assert(spec_normalize_enum(vs[i as int])->Ok_0 == v@);
                    assert(normalized_all(vs.take(i + 1)) =~= normalized_all(vs.take(i as int)).push(
                        v@,
                    ));
                    assert(views(out@) =~= old_out.push(v@));
                }
            },
            Err(e) => {
                return Err(e);
            },
        }
        i = i + 1;
    }
    proof {
        assert(vs.take(values.len() as int) =~= vs);
        assert(vs.skip(values.len() as int) =~= Seq::<Seq<char>>::empty());
    }
    Ok(out)
}

/// The normalized list of filter values: `None` for no values, else the
/// distinct normalized values in increasing order; or the first refusal.
pub fn normalize_enum_values(values: &[String]) -> (res: Result<
    Option<Vec<String>>,
    EnumFilterError,
>)
    ensures
        enum_values_view(res) == spec_normalize_enum_values(views(values@)),
{
    if values.len() == 0 {
        return Ok(None);
    }
    let normalized = normalize_enum_value_list(values)?;
    let sorted = sorted_dedup(normalized);
    Ok(Some(sorted))
}

// ---------------------------------------------------------------------------
// The shape of a normalized value
// ---------------------------------------------------------------------------

/// A character of an enum name: an upper-case ASCII letter, a digit, or `_`.
pub open spec fn is_enum_char(c: char) -> bool {
    is_upper(c) || is_digit(c) || c == '_'
}

/// No two `_` in a row.
pub open spec fn single_underscores(s: Seq<char>) -> bool {
    forall|i: int| 0 <= i < s.len() - 1 ==> !(#[trigger] s[i] == '_' && s[i + 1] == '_')
}

/// `UPPER_SNAKE_CASE`: enum characters only, words joined by single `_`,
/// no `_` at either end.
pub open spec fn is_upper_snake_case(s: Seq<char>) -> bool {
    &&& s.len() > 0
    &&& forall|i: int| 0 <= i < s.len() ==> is_enum_char(#[trigger] s[i])
    &&& single_underscores(s)
    &&& s[0] != '_'
    &&& s.last() != '_'
}

/// What the normalizer keeps true of the text so far.
pub open spec fn normalizer_invariant(st: NormalizerState) -> bool {
    &&& forall|i: int| 0 <= i < st.0.len() ==> is_enum_char(#[trigger] st.0[i])
    &&& single_underscores(st.0)
}

proof fn lemma_upper_char(c: char)
    requires
        is_alnum(c),
    ensures
        is_upper(upper_char(c)) || is_digit(upper_char(c)),
{
}

proof fn lemma_push_keeps_shape(v: Seq<char>, c: char)
    requires
        forall|i: int| 0 <= i < v.len() ==> is_enum_char(#[trigger] v[i]),
        single_underscores(v),
        is_enum_char(c),
        c == '_' ==> !ends_with_underscore(v),
    ensures
        forall|i: int| 0 <= i < v.push(c).len() ==> is_enum_char(#[trigger] v.push(c)[i]),
        single_underscores(v.push(c)),
{
    let w = v.push(c);
    assert forall|i: int| 0 <= i < w.len() implies is_enum_char(#[trigger] w[i]) by {
        if i < v.len() {
            assert(w[i] == v[i]);
        }
    }
    assert forall|i: int| 0 <= i < w.len() - 1 implies !(#[trigger] w[i] == '_' && w[i + 1] == '_') by {
        assert(w[i] == v[i]);
        if i + 1 < v.len() {
            assert(w[i + 1] == v[i + 1]);
        } else {
            assert(v.last() == v[i]);
        }
    }
}

proof fn lemma_run_normalizer_shape(s: Seq<char>)
    ensures
        normalizer_invariant(run_normalizer(s)),
    decreases s.len(),
{
    if s.len() > 0 {
        lemma_run_normalizer_shape(s.drop_last());
        let st = run_normalizer(s.drop_last());
        if is_alnum(s.last()) {
            let c = s.last();
            let v = if is_upper(c) && st.2 && !ends_with_underscore(st.0) {
                lemma_push_keeps_shape(st.0, '_');
                st.0.push('_')
            } else {
                st.0
            };
            lemma_upper_char(c);
            lemma_push_keeps_shape(v, upper_char(c));
        } else if st.1 && !ends_with_underscore(st.0) {
            lemma_push_keeps_shape(st.0, '_');
        }
    }
}

pub proof fn lemma_strip_leading(s: Seq<char>, c: char)
    ensures
        exists|k: int| 0 <= k <= s.len() && #[trigger] strip_leading(s, c) == s.subrange(k, s.len() as int),
        strip_leading(s, c).len() > 0 ==> strip_leading(s, c)[0] != c,
    decreases s.len(),
{
    if s.len() > 0 && s[0] == c {
        lemma_strip_leading(s.drop_first(), c);
        let k = choose|k: int|
            0 <= k <= s.drop_first().len() && #[trigger] strip_leading(s.drop_first(), c)
                == s.drop_first().subrange(k, s.drop_first().len() as int);
        assert(s.drop_first().subrange(k, s.drop_first().len() as int) =~= s.subrange(k + 1, s.len() as int));
    } else {
        assert(s.subrange(0, s.len() as int) =~= s);
    }
}

pub proof fn lemma_strip_trailing(s: Seq<char>, c: char)
    ensures
        exists|k: int| 0 <= k <= s.len() && #[trigger] strip_trailing(s, c) == s.subrange(0, k),
        strip_trailing(s, c).len() > 0 ==> strip_trailing(s, c).last() != c,
    decreases s.len(),
{
    if s.len() > 0 && s.last() == c {
        lemma_strip_trailing(s.drop_last(), c);
        let k = choose|k: int|
            0 <= k <= s.drop_last().len() && #[trigger] strip_trailing(s.drop_last(), c)
                == s.drop_last().subrange(0, k);
        assert(s.drop_last().subrange(0, k) =~= s.subrange(0, k));
    } else {
        assert(s.subrange(0, s.len() as int) =~= s);
    }
}

proof fn lemma_subrange_keeps_shape(s: Seq<char>, a: int, b: int)
    requires
        0 <= a <= b <= s.len(),
        forall|i: int| 0 <= i < s.len() ==> is_enum_char(#[trigger] s[i]),
        single_underscores(s),
    ensures
        forall|i: int| 0 <= i < s.subrange(a, b).len() ==> is_enum_char(#[trigger] s.subrange(a, b)[i]),
        single_underscores(s.subrange(a, b)),
{
    let t = s.subrange(a, b);
    assert forall|i: int| 0 <= i < t.len() implies is_enum_char(#[trigger] t[i]) by {
        assert(t[i] == s[a + i]);
    }
    assert forall|i: int| 0 <= i < t.len() - 1 implies !(#[trigger] t[i] == '_' && t[i + 1] == '_') by {
        assert(t[i] == s[a + i]);
        assert(t[i + 1] == s[a + i + 1]);
    }
}

/// Every value a filter accepts comes out in `UPPER_SNAKE_CASE`: upper-case
/// letters, digits and single underscores between words.
pub proof fn normalized_enum_values_are_upper_snake_case(raw: Seq<char>)
    ensures
        spec_normalize_enum(raw) matches Ok(v) ==> is_upper_snake_case(v),
{
    let t = trim(raw);
    if t.len() > 0 && all_filter_chars(t) {
        let v = run_normalizer(t).0;
        lemma_run_normalizer_shape(t);
        lemma_strip_leading(v, '_');
        let lead = strip_leading(v, '_');
        let k1 = choose|k: int| 0 <= k <= v.len() && #[trigger] strip_leading(v, '_') == v.subrange(k, v.len() as int);
        lemma_subrange_keeps_shape(v, k1, v.len() as int);
        lemma_strip_trailing(lead, '_');
        let k2 = choose|k: int| 0 <= k <= lead.len() && #[trigger] strip_trailing(lead, '_') == lead.subrange(0, k);
        lemma_subrange_keeps_shape(lead, 0, k2);
        let out = trim_underscores(v);
        if out.len() > 0 {
            assert(out[0] == lead[0]);
        }
    }
}

} // verus!
