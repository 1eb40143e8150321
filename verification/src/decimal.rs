//! Decimal numbers written as text: validation, normal form and order.
use vstd::prelude::*;

use crate::enum_filter::{strip_leading, strip_trailing};
use crate::text::{
    all_digits, chars_of, find, find_from_exec, is_digit, is_digit_char, lemma_find_contains,
    string_of, sub_chars, trim, trim_chars,
};
use core::cmp::Ordering;

verus! {

/// The text before and after the first `.` (the whole text and nothing when
/// there is no `.`).
pub open spec fn split_at_dot(u: Seq<char>) -> (Seq<char>, Seq<char>) {
    match find(u, seq!['.']) {
        Some(i) => (u.take(i), u.skip(i + 1)),
        None => (u, Seq::empty()),
    }
}

/// The components of a decimal: the sign (-1, 0 or 1), the whole digits
/// without leading zeros (`0` for none), the fraction digits without trailing
/// zeros.
pub type DecimalSpec = (int, Seq<char>, Seq<char>);

/// A decimal in text: an optional sign (`-` only when negatives are allowed),
/// digits, optionally a `.` and more digits, at least one digit in all;
/// whitespace around it is ignored.
pub open spec fn spec_parse_decimal(raw: Seq<char>, allow_negative: bool) -> Option<DecimalSpec> {
    let t = trim(raw);
    if t.len() == 0 || (t[0] == '-' && !allow_negative) {
        None
    } else {
        let negative = t[0] == '-';
        let u = if t[0] == '-' || t[0] == '+' {
            t.drop_first()
        } else {
            t
        };
        let whole = split_at_dot(u).0;
        let fraction = split_at_dot(u).1;
        if !all_digits(whole) || !all_digits(fraction) || (whole.len() == 0 && fraction.len()
            == 0) {
            None
        } else {
            let w = strip_leading(whole, '0');
            let nw = if w.len() == 0 {
                seq!['0']
            } else {
                w
            };
            let nf = strip_trailing(fraction, '0');
            let sign = if nw == seq!['0'] && nf.len() == 0 {
                0
            } else if negative {
                -1
            } else {
                1
            };
            Some((sign, nw, nf))
        }
    }
}

fn strip_leading_zeros(v: &Vec<char>) -> (res: Vec<char>)
    ensures
        res@ == strip_leading(v@, '0'),
{
    let mut a: usize = 0;
    proof {
        assert(v@.subrange(0, v.len() as int) =~= v@);
    }
    while a < v.len() && v[a] == '0'
        invariant
            a <= v.len(),
            strip_leading(v@, '0') == strip_leading(v@.subrange(a as int, v.len() as int), '0'),
        decreases v.len() - a,
    {
        proof {
            assert(v@.subrange(a as int, v.len() as int).drop_first() =~= v@.subrange(
                a + 1,
                v.len() as int,
            ));
        }
        a = a + 1;
    }
    sub_chars(v, a, v.len())
}

fn strip_trailing_zeros(v: &Vec<char>) -> (res: Vec<char>)
    ensures
        res@ == strip_trailing(v@, '0'),
{
    let mut b: usize = v.len();
    proof {
        assert(v@.subrange(0, v.len() as int) =~= v@);
    }
    while b > 0 && v[b - 1] == '0'
        invariant
            b <= v.len(),
            strip_trailing(v@, '0') == strip_trailing(v@.subrange(0, b as int), '0'),
        decreases b,
    {
        proof {
            assert(v@.subrange(0, b as int).drop_last() =~= v@.subrange(0, b - 1));
        }
        b = b - 1;
    }
    sub_chars(v, 0, b)
}

fn all_digits_exec(v: &Vec<char>) -> (res: bool)
    ensures
        res == all_digits(v@),
{
    let mut i: usize = 0;
    while i < v.len()
        invariant
            i <= v.len(),
            forall|k: int| 0 <= k < i ==> is_digit(#[trigger] v@[k]),
        decreases v.len() - i,
    {
        if !is_digit_char(v[i]) {
            return false;
        }
        i = i + 1;
    }
    true
}

/// Parses a decimal into its components.
pub fn parse_decimal(raw: &str, allow_negative: bool) -> (res: Option<(i8, String, String)>)
    ensures
        match res {
            Some((sign, whole, fraction)) => spec_parse_decimal(raw@, allow_negative) == Some(
                (sign as int, whole@, fraction@),
            ),
            None => spec_parse_decimal(raw@, allow_negative) is None,
        },
{
    let t = trim_chars(raw);
    if t.len() == 0 || (t[0] == '-' && !allow_negative) {
        return None;
    }
    let negative = t[0] == '-';
    let u = if t[0] == '-' || t[0] == '+' {
        sub_chars(&t, 1, t.len())
    } else {
        sub_chars(&t, 0, t.len())
    };
    proof {
        assert(t@.subrange(1, t.len() as int) =~= t@.drop_first());
        assert(t@.subrange(0, t.len() as int) =~= t@);
        lemma_find_contains(u@, seq!['.']);
    }
    let dot: Vec<char> = vec!['.'];
    proof {
        assert(dot@ =~= seq!['.']);
    }
    let (whole, fraction) = match find_from_exec(&u, &dot, 0) {
        Some(i) => {
            proof {
                assert(u@.subrange(0, i as int) =~= u@.take(i as int));
                assert(u@.subrange(i + 1, u.len() as int) =~= u@.skip(i + 1));
            }
            (sub_chars(&u, 0, i), sub_chars(&u, i + 1, u.len()))
        },
        None => {
            proof {
                assert(u@.subrange(0, u.len() as int) =~= u@);
            }
            (sub_chars(&u, 0, u.len()), Vec::new())
        },
    };
    proof {
        assert(fraction@ == split_at_dot(u@).1);
    }
    if !all_digits_exec(&whole) || !all_digits_exec(&fraction) || (whole.len() == 0
        && fraction.len() == 0) {
        return None;
    }
    let w = strip_leading_zeros(&whole);
    let nw: Vec<char> = if w.len() == 0 {
        vec!['0']
    } else {
        w
    };
    let nf = strip_trailing_zeros(&fraction);
    let is_zero = nw.len() == 1 && nw[0] == '0' && nf.len() == 0;
    proof {
        if nw.len() == 1 && nw[0] == '0' {
            assert(nw@ =~= seq!['0']);
        }
    }
    let sign: i8 = if is_zero {
        0
    } else if negative {
        -1
    } else {
        1
    };
    Some((sign, string_of(&nw), string_of(&nf)))
}

// ---------------------------------------------------------------------------
// Order
// ---------------------------------------------------------------------------

/// -1, 0 or 1 as `a` is below, equal to or above `b`.
pub open spec fn int_order(a: int, b: int) -> int {
    if a < b {
        -1
    } else if a > b {
        1
    } else {
        0
    }
}

/// The order of two digit strings of the same length, digit by digit.
pub open spec fn digits_order(a: Seq<char>, b: Seq<char>) -> int
    decreases a.len(),
{
    if a.len() == 0 || b.len() == 0 {
        0
    } else if a[0] != b[0] {
        if a[0] < b[0] {
            -1
        } else {
            1
        }
    } else {
        digits_order(a.drop_first(), b.drop_first())
    }
}

/// The order of two fraction digit strings, the shorter one padded with zeros.
pub open spec fn fraction_order(a: Seq<char>, b: Seq<char>) -> int
    decreases a.len() + b.len(),
{
    if a.len() == 0 && b.len() == 0 {
        0
    } else {
        let x = if a.len() > 0 {
            a[0]
        } else {
            '0'
        };
        let y = if b.len() > 0 {
            b[0]
        } else {
            '0'
        };
        if x != y {
            if x < y {
                -1
            } else {
                1
            }
        } else {
            fraction_order(
                if a.len() > 0 {
                    a.drop_first()
                } else {
                    a
                },
                if b.len() > 0 {
                    b.drop_first()
                } else {
                    b
                },
            )
        }
    }
}

/// The order of two magnitudes: more whole digits is larger; with as many
/// whole digits, the whole digits decide, then the fraction digits.
pub open spec fn magnitude_order(lw: Seq<char>, lf: Seq<char>, rw: Seq<char>, rf: Seq<char>) -> int {
    if lw.len() != rw.len() {
        int_order(lw.len() as int, rw.len() as int)
    } else if digits_order(lw, rw) != 0 {
        digits_order(lw, rw)
    } else {
        fraction_order(lf, rf)
    }
}

/// The order of two parsed decimals: by sign first, then by magnitude,
/// reversed for negatives.
pub open spec fn decimal_order(l: DecimalSpec, r: DecimalSpec) -> int {
    if l.0 != r.0 {
        int_order(l.0, r.0)
    } else if l.0 == 0 {
        0
    } else if l.0 > 0 {
        magnitude_order(l.1, l.2, r.1, r.2)
    } else {
        -magnitude_order(l.1, l.2, r.1, r.2)
    }
}

/// Parsed components as plain values.
pub open spec fn components_view(c: (i8, String, String)) -> DecimalSpec {
    (c.0 as int, c.1@, c.2@)
}

/// -1, 0 or 1 for `Less`, `Equal`, `Greater`.
pub open spec fn ordering_value(o: Ordering) -> int {
    match o {
        Ordering::Less => -1,
        Ordering::Equal => 0,
        Ordering::Greater => 1,
    }
}

fn ordering_of(v: i8) -> (res: Ordering)
    requires
        -1 <= v <= 1,
    ensures
        ordering_value(res) == v,
{
    if v < 0 {
        Ordering::Less
    } else if v > 0 {
        Ordering::Greater
    } else {
        Ordering::Equal
    }
}

fn digits_order_exec(a: &Vec<char>, b: &Vec<char>) -> (res: i8)
    requires
        a.len() == b.len(),
    ensures
        res == digits_order(a@, b@),
        -1 <= res <= 1,
{
    let mut i: usize = 0;
    proof {
        assert(a@.skip(0) =~= a@);
        assert(b@.skip(0) =~= b@);
    }
    while i < a.len()
        invariant
            a.len() == b.len(),
            i <= a.len(),
            digits_order(a@, b@) == digits_order(a@.skip(i as int), b@.skip(i as int)),
        decreases a.len() - i,
    {
        if a[i] != b[i] {
            if a[i] < b[i] {
                return -1;
            } else {
                return 1;
            }
        }
        proof {
            assert(a@.skip(i as int).drop_first() =~= a@.skip(i + 1));
            assert(b@.skip(i as int).drop_first() =~= b@.skip(i + 1));
        }
        i = i + 1;
    }
    0
}

fn padded_digit(v: &Vec<char>, i: usize) -> (res: char)
    ensures
        res == if i < v.len() {
            v@[i as int]
        } else {
            '0'
        },
{
    if i < v.len() {
        v[i]
    } else {
        '0'
    }
}

/// The padded suffix of a fraction from index `i`.
pub open spec fn padded_suffix(a: Seq<char>, i: int) -> Seq<char> {
    if i <= a.len() {
        a.skip(i)
    } else {
        Seq::empty()
    }
}

/// The digit of a fraction at index `i`, `0` past its end.
pub open spec fn padded_at(a: Seq<char>, i: int) -> char {
    if i < a.len() {
        a[i]
    } else {
        '0'
    }
}

proof fn lemma_fraction_step(a: Seq<char>, b: Seq<char>, i: int)
    requires
        0 <= i,
        i < a.len() || i < b.len(),
    ensures
        fraction_order(padded_suffix(a, i), padded_suffix(b, i)) == if padded_at(a, i)
            != padded_at(b, i) {
            if padded_at(a, i) < padded_at(b, i) {
                -1
            } else {
                1
            }
        } else {
            fraction_order(padded_suffix(a, i + 1), padded_suffix(b, i + 1))
        },
{
    let sa = padded_suffix(a, i);
    let sb = padded_suffix(b, i);
    let ta = padded_suffix(a, i + 1);
    let tb = padded_suffix(b, i + 1);
    if i < a.len() {
        assert(sa.len() > 0 && sa[0] == a[i]);
        assert(sa.drop_first() =~= ta);
    } else {
        assert(sa.len() == 0);
        assert(ta.len() == 0);
        assert(sa =~= ta);
    }
    if i < b.len() {
        assert(sb.len() > 0 && sb[0] == b[i]);
        assert(sb.drop_first() =~= tb);
    } else {
        assert(sb.len() == 0);
        assert(tb.len() == 0);
        assert(sb =~= tb);
    }
}

fn fraction_order_exec(a: &Vec<char>, b: &Vec<char>) -> (res: i8)
    ensures
        res == fraction_order(a@, b@),
        -1 <= res <= 1,
{
    let n = if a.len() > b.len() {
        a.len()
    } else {
        b.len()
    };
    let mut i: usize = 0;
    proof {
        assert(a@.skip(0) =~= a@);
        assert(b@.skip(0) =~= b@);
    }
    while i < n
        invariant
            i <= n,
            n == if a.len() > b.len() {
                a.len()
            } else {
                b.len()
            },
            fraction_order(a@, b@) == fraction_order(
                padded_suffix(a@, i as int),
                padded_suffix(b@, i as int),
            ),
        decreases n - i,
    {
        proof {
            lemma_fraction_step(a@, b@, i as int);
        }
        let x = padded_digit(a, i);
        let y = padded_digit(b, i);
        if x != y {
            if x < y {
                return -1;
            } else {
                return 1;
            }
        }
        i = i + 1;
    }
    proof {
        assert(padded_suffix(a@, n as int).len() == 0);
        assert(padded_suffix(b@, n as int).len() == 0);
    }
    0
}

/// Compares two magnitudes given by whole and fraction digits.
pub fn compare_decimal_abs(
    left_whole: &str,
    left_fraction: &str,
    right_whole: &str,
    right_fraction: &str,
) -> (res: Ordering)
    ensures
        ordering_value(res) == magnitude_order(
            left_whole@,
            left_fraction@,
            right_whole@,
            right_fraction@,
        ),
{
    let lw = chars_of(left_whole);
    let rw = chars_of(right_whole);
    if lw.len() != rw.len() {
        return if lw.len() < rw.len() {
            Ordering::Less
        } else {
            Ordering::Greater
        };
    }
    let whole = digits_order_exec(&lw, &rw);
    if whole != 0 {
        return ordering_of(whole);
    }
    let lf = chars_of(left_fraction);
    let rf = chars_of(right_fraction);
    ordering_of(fraction_order_exec(&lf, &rf))
}

/// Compares two parsed decimals.
pub fn compare_decimal_components(left: &(i8, String, String), right: &(i8, String, String)) -> (res:
    Ordering)
    requires
        -1 <= left.0 <= 1,
        -1 <= right.0 <= 1,
    ensures
        ordering_value(res) == decimal_order(components_view(*left), components_view(*right)),
{
    if left.0 != right.0 {
        return if left.0 < right.0 {
            Ordering::Less
        } else {
            Ordering::Greater
        };
    }
    if left.0 == 0 {
        return Ordering::Equal;
    }
    let abs = compare_decimal_abs(left.1.as_str(), left.2.as_str(), right.1.as_str(), right.2.as_str());
    if left.0 > 0 {
        abs
    } else {
        match abs {
            Ordering::Less => Ordering::Greater,
            Ordering::Equal => Ordering::Equal,
            Ordering::Greater => Ordering::Less,
        }
    }
}


/// A parsed decimal's sign is -1, 0 or 1.
pub proof fn lemma_parse_sign_range(raw: Seq<char>, allow_negative: bool)
    ensures
        spec_parse_decimal(raw, allow_negative) matches Some(c) ==> -1 <= c.0 <= 1,
{
}

} // verus!
