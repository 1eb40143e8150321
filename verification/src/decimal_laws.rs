//! What the order of decimals means: the order of the numbers they denote.
use vstd::prelude::*;

use crate::decimal::{
    decimal_order, digits_order, fraction_order, int_order, magnitude_order, spec_parse_decimal,
    split_at_dot, DecimalSpec,
};
use crate::derivatives::{range_error, spec_range_order};
use crate::enum_filter::{lemma_strip_leading, lemma_strip_trailing, strip_leading, strip_trailing};
use crate::text::{all_digits, digit_value, is_digit, trim};

verus! {

/// Ten to the power `n`.
pub open spec fn pow10(n: nat) -> int
    decreases n,
{
    if n == 0 {
        1
    } else {
        10 * pow10((n - 1) as nat)
    }
}

/// The number a string of decimal digits denotes.
pub open spec fn digits_value(s: Seq<char>) -> int
    decreases s.len(),
{
    if s.len() == 0 {
        0
    } else {
        digit_value(s[0]) * pow10((s.len() - 1) as nat) + digits_value(s.drop_first())
    }
}

/// The components of a decimal as the parser gives them: digits only, whole
/// digits without a leading zero (`0` for none), fraction digits without a
/// trailing zero, and sign 0 exactly for zero.
pub open spec fn canonical_decimal(x: DecimalSpec) -> bool {
    &&& -1 <= x.0 <= 1
    &&& all_digits(x.1)
    &&& all_digits(x.2)
    &&& x.1.len() > 0
    &&& x.1.len() > 1 ==> x.1[0] != '0'
    &&& x.2.len() > 0 ==> x.2.last() != '0'
    &&& (x.0 == 0 <==> (x.1 == seq!['0'] && x.2.len() == 0))
}

/// The magnitude of a decimal times ten to the power `n` (`n` at least the
/// number of its fraction digits): whole part and fraction as one integer.
pub open spec fn scaled_magnitude(x: DecimalSpec, n: nat) -> int {
    digits_value(x.1) * pow10(n) + digits_value(x.2) * pow10((n - x.2.len()) as nat)
}

/// The value of a decimal times ten to the power `n`.
pub open spec fn scaled_value(x: DecimalSpec, n: nat) -> int {
    if x.0 > 0 {
        scaled_magnitude(x, n)
    } else if x.0 < 0 {
        -scaled_magnitude(x, n)
    } else {
        0
    }
}

/// A scale that writes both decimals as integers.
pub open spec fn common_scale(x: DecimalSpec, y: DecimalSpec) -> nat {
    if x.2.len() >= y.2.len() {
        x.2.len()
    } else {
        y.2.len()
    }
}

pub open spec fn zeros(k: nat) -> Seq<char> {
    Seq::new(k, |i: int| '0')
}

spec fn pad(f: Seq<char>, n: nat) -> Seq<char> {
    f + zeros((n - f.len()) as nat)
}

proof fn lemma_pow10(m: nat, n: nat)
    ensures
        pow10(n) >= 1,
        m <= n ==> pow10(m) <= pow10(n),
        pow10(m + n) == pow10(m) * pow10(n),
    decreases n,
{
    if n > 0 {
        lemma_pow10(m, (n - 1) as nat);
        assert(pow10(m + n) == 10 * pow10((m + n - 1) as nat));
        assert(pow10(m + n) == pow10(m) * pow10(n)) by (nonlinear_arith)
            requires
                pow10(m + n) == 10 * pow10((m + n - 1) as nat),
                pow10((m + n - 1) as nat) == pow10(m) * pow10((n - 1) as nat),
                pow10(n) == 10 * pow10((n - 1) as nat),
        ;
        if m < n {
            lemma_pow10(m, (n - 1) as nat);
        }
    }
}

proof fn lemma_digit(c: char)
    requires
        is_digit(c),
    ensures
        0 <= digit_value(c) <= 9,
        digit_value(c) == 0 <==> c == '0',
{
}

/// A string of `k` digits denotes less than ten to the power `k`.
proof fn lemma_digits_value_bounds(s: Seq<char>)
    requires
        all_digits(s),
    ensures
        0 <= digits_value(s) < pow10(s.len()),
    decreases s.len(),
{
    if s.len() > 0 {
        let p = pow10((s.len() - 1) as nat);
        let d = digit_value(s[0]);
        lemma_digit(s[0]);
        lemma_pow10(0, (s.len() - 1) as nat);
        assert(all_digits(s.drop_first())) by {
            assert forall|i: int| 0 <= i < s.drop_first().len() implies is_digit(#[trigger] s.drop_first()[i]) by {
                assert(s.drop_first()[i] == s[i + 1]);
            }
        }
        lemma_digits_value_bounds(s.drop_first());
        assert(0 <= d * p <= 9 * p) by (nonlinear_arith)
            requires
                0 <= d <= 9,
                p >= 1,
        ;
    }
}

proof fn lemma_all_digits_rest(s: Seq<char>)
    requires
        all_digits(s),
        s.len() > 0,
    ensures
        all_digits(s.drop_first()),
{
    assert forall|i: int| 0 <= i < s.drop_first().len() implies is_digit(#[trigger] s.drop_first()[i]) by {
        assert(s.drop_first()[i] == s[i + 1]);
    }
}

/// A string of digits with a digit other than zero denotes at least one; one
/// that starts with such a digit denotes at least ten to the power of its
/// length less one.
proof fn lemma_digits_value_below(s: Seq<char>, k: int)
    requires
        all_digits(s),
        0 <= k < s.len(),
        s[k] != '0',
    ensures
        digits_value(s) >= 1,
        k == 0 ==> digits_value(s) >= pow10((s.len() - 1) as nat),
    decreases s.len(),
{
    let p = pow10((s.len() - 1) as nat);
    let d = digit_value(s[0]);
    lemma_digit(s[0]);
    lemma_pow10(0, (s.len() - 1) as nat);
    lemma_all_digits_rest(s);
    lemma_digits_value_bounds(s.drop_first());
    assert(d * p >= 0) by (nonlinear_arith)
        requires
            d >= 0,
            p >= 1,
    ;
    if k == 0 {
        assert(d * p >= p) by (nonlinear_arith)
            requires
                d >= 1,
                p >= 1,
        ;
    } else {
        assert(s.drop_first()[k - 1] == s[k]);
        lemma_digits_value_below(s.drop_first(), k - 1);
    }
}

/// Two strings of digits of one length are ordered digit by digit as the
/// numbers they denote.
proof fn lemma_digits_order_value(a: Seq<char>, b: Seq<char>)
    requires
        all_digits(a),
        all_digits(b),
        a.len() == b.len(),
    ensures
        digits_order(a, b) == int_order(digits_value(a), digits_value(b)),
    decreases a.len(),
{
    if a.len() > 0 {
        let p = pow10((a.len() - 1) as nat);
        let da = digit_value(a[0]);
        let db = digit_value(b[0]);
        lemma_digit(a[0]);
        lemma_digit(b[0]);
        lemma_pow10(0, (a.len() - 1) as nat);
        lemma_all_digits_rest(a);
        lemma_all_digits_rest(b);
        lemma_digits_order_value(a.drop_first(), b.drop_first());
        lemma_digits_value_bounds(a.drop_first());
        lemma_digits_value_bounds(b.drop_first());
        let ra = digits_value(a.drop_first());
        let rb = digits_value(b.drop_first());
        if da < db {
            assert(da * p + ra < db * p + rb) by (nonlinear_arith)
                requires
                    da < db,
                    p >= 1,
                    0 <= ra < p,
                    0 <= rb,
            ;
        } else if db < da {
            assert(db * p + rb < da * p + ra) by (nonlinear_arith)
                requires
                    db < da,
                    p >= 1,
                    0 <= rb < p,
                    0 <= ra,
            ;
        }
    }
}

proof fn lemma_digits_order_concat(a: Seq<char>, c: Seq<char>, b: Seq<char>, d: Seq<char>)
    requires
        a.len() == b.len(),
    ensures
        digits_order(a + c, b + d) == if digits_order(a, b) != 0 {
            digits_order(a, b)
        } else {
            digits_order(c, d)
        },
    decreases a.len(),
{
    if a.len() > 0 {
        assert((a + c)[0] == a[0]);
        assert((b + d)[0] == b[0]);
        assert((a + c).drop_first() =~= a.drop_first() + c);
        assert((b + d).drop_first() =~= b.drop_first() + d);
        lemma_digits_order_concat(a.drop_first(), c, b.drop_first(), d);
    } else {
        assert(a + c =~= c);
        assert(b + d =~= d);
    }
}

proof fn lemma_digits_value_concat(a: Seq<char>, b: Seq<char>)
    ensures
        digits_value(a + b) == digits_value(a) * pow10(b.len()) + digits_value(b),
    decreases a.len(),
{
    if a.len() == 0 {
        assert(a + b =~= b);
    } else {
        let ab = a + b;
        assert(ab[0] == a[0]);
        assert(ab.drop_first() =~= a.drop_first() + b);
        lemma_digits_value_concat(a.drop_first(), b);
        let la1 = (a.len() - 1) as nat;
        lemma_pow10(la1, b.len());
        assert((ab.len() - 1) as nat == la1 + b.len());
        let d = digit_value(a[0]);
        let pa = pow10(la1);
        let pb = pow10(b.len());
        let ra = digits_value(a.drop_first());
        assert(d * (pa * pb) + (ra * pb + digits_value(b)) == (d * pa + ra) * pb + digits_value(b))
            by (nonlinear_arith);
    }
}

proof fn lemma_zeros_value(k: nat)
    ensures
        digits_value(zeros(k)) == 0,
        all_digits(zeros(k)),
    decreases k,
{
    if k > 0 {
        assert(zeros(k).drop_first() =~= zeros((k - 1) as nat));
        lemma_zeros_value((k - 1) as nat);
        assert(digit_value(zeros(k)[0]) == 0);
    }
}

proof fn lemma_digits_order_same(a: Seq<char>)
    ensures
        digits_order(a, a) == 0,
    decreases a.len(),
{
    if a.len() > 0 {
        lemma_digits_order_same(a.drop_first());
    }
}

/// Fractions compare as their digits padded with zeros to one length.
proof fn lemma_fraction_order_padded(f: Seq<char>, g: Seq<char>, n: nat)
    requires
        f.len() <= n,
        g.len() <= n,
    ensures
        fraction_order(f, g) == digits_order(pad(f, n), pad(g, n)),
    decreases f.len() + g.len(),
{
    if f.len() == 0 && g.len() == 0 {
        assert(pad(f, n) =~= zeros(n));
        assert(pad(g, n) =~= zeros(n));
        lemma_digits_order_same(zeros(n));
    } else {
        let pf = pad(f, n);
        let pg = pad(g, n);
        assert(n > 0);
        let f2 = if f.len() > 0 {
            f.drop_first()
        } else {
            f
        };
        let g2 = if g.len() > 0 {
            g.drop_first()
        } else {
            g
        };
        assert(pf[0] == if f.len() > 0 {
            f[0]
        } else {
            '0'
        });
        assert(pg[0] == if g.len() > 0 {
            g[0]
        } else {
            '0'
        });
        assert(pf.drop_first() =~= pad(f2, (n - 1) as nat));
        assert(pg.drop_first() =~= pad(g2, (n - 1) as nat));
        if pf[0] == pg[0] {
            lemma_fraction_order_padded(f2, g2, (n - 1) as nat);
        }
    }
}

proof fn lemma_all_digits_concat(a: Seq<char>, b: Seq<char>)
    requires
        all_digits(a),
        all_digits(b),
    ensures
        all_digits(a + b),
{
    assert forall|i: int| 0 <= i < (a + b).len() implies is_digit(#[trigger] (a + b)[i]) by {
        if i < a.len() {
            assert((a + b)[i] == a[i]);
        } else {
            assert((a + b)[i] == b[i - a.len()]);
        }
    }
}

/// The scaled magnitude is the number the whole digits followed by the
/// padded fraction digits denote.
proof fn lemma_scaled_magnitude(x: DecimalSpec, n: nat)
    requires
        canonical_decimal(x),
        x.2.len() <= n,
    ensures
        scaled_magnitude(x, n) == digits_value(x.1 + pad(x.2, n)),
        all_digits(x.1 + pad(x.2, n)),
        (x.1 + pad(x.2, n)).len() == x.1.len() + n,
        x.0 == 0 ==> scaled_magnitude(x, n) == 0,
        x.0 != 0 ==> scaled_magnitude(x, n) >= 1,
        x.1.len() > 1 ==> digits_value(x.1 + pad(x.2, n)) >= pow10((x.1.len() + n - 1) as nat),
{
    let k = (n - x.2.len()) as nat;
    lemma_zeros_value(k);
    lemma_digits_value_concat(x.2, zeros(k));
    lemma_digits_value_concat(x.1, pad(x.2, n));
    lemma_all_digits_concat(x.2, zeros(k));
    lemma_all_digits_concat(x.1, pad(x.2, n));
    let s = x.1 + pad(x.2, n);
    if x.0 == 0 {
        assert(digit_value(x.1[0]) == 0);
        assert(x.1.drop_first().len() == 0);
        assert(digits_value(x.1.drop_first()) == 0);
        assert(digits_value(x.1) == 0);
        assert(digits_value(x.2) == 0);
        assert(scaled_magnitude(x, n) == 0 * pow10(n) + 0 * pow10(k));
    } else if x.1 != seq!['0'] {
        if x.1.len() == 1 {
            assert(x.1 =~= seq![x.1[0]]);
        }
        assert(s[0] == x.1[0]);
        lemma_digits_value_below(s, 0);
    } else {
        let j = x.1.len() + x.2.len() - 1;
        assert(s[j] == x.2.last());
        lemma_digits_value_below(s, j);
    }
    if x.1.len() > 1 {
        assert(s[0] == x.1[0]);
        lemma_digits_value_below(s, 0);
    }
}

/// The order of two parsed decimals is the order of the numbers they denote:
/// `decimal_order(x, y)` is 1, 0 or -1 exactly as the value of `x` is above,
/// equal to or below the value of `y` (both written as integers at a scale
/// that holds every fraction digit).
pub proof fn decimal_order_is_the_order_of_values(x: DecimalSpec, y: DecimalSpec)
    requires
        canonical_decimal(x),
        canonical_decimal(y),
    ensures
        decimal_order(x, y) == int_order(
            scaled_value(x, common_scale(x, y)),
            scaled_value(y, common_scale(x, y)),
        ),
{
    let n = common_scale(x, y);
    lemma_scaled_magnitude(x, n);
    lemma_scaled_magnitude(y, n);
    let sx = x.1 + pad(x.2, n);
    let sy = y.1 + pad(y.2, n);
    if x.0 == y.0 && x.0 != 0 {
        // The magnitudes decide.
        if x.1.len() != y.1.len() {
            if x.1.len() > y.1.len() {
                lemma_digits_value_bounds(sy);
                lemma_pow10(sy.len(), (sx.len() - 1) as nat);
            } else {
                lemma_digits_value_bounds(sx);
                lemma_pow10(sx.len(), (sy.len() - 1) as nat);
            }
        } else {
            lemma_fraction_order_padded(x.2, y.2, n);
            lemma_digits_order_concat(x.1, pad(x.2, n), y.1, pad(y.2, n));
            lemma_digits_order_value(sx, sy);
        }
        assert(magnitude_order(x.1, x.2, y.1, y.2) == int_order(scaled_magnitude(x, n), scaled_magnitude(y, n)));
    }
}

/// The parser gives canonical components.
pub proof fn parsed_decimals_are_canonical(raw: Seq<char>, allow_negative: bool)
    ensures
        spec_parse_decimal(raw, allow_negative) matches Some(x) ==> canonical_decimal(x),
{
    if let Some(x) = spec_parse_decimal(raw, allow_negative) {
        let t = trim(raw);
        let u = if t[0] == '-' || t[0] == '+' {
            t.drop_first()
        } else {
            t
        };
        let whole = split_at_dot(u).0;
        let fraction = split_at_dot(u).1;
        lemma_strip_leading(whole, '0');
        lemma_strip_trailing(fraction, '0');
        let w = strip_leading(whole, '0');
        let f = strip_trailing(fraction, '0');
        let kw = choose|k: int| 0 <= k <= whole.len() && #[trigger] strip_leading(whole, '0') == whole.subrange(k, whole.len() as int);
        let kf = choose|k: int| 0 <= k <= fraction.len() && #[trigger] strip_trailing(fraction, '0') == fraction.subrange(0, k);
        assert forall|i: int| 0 <= i < w.len() implies is_digit(#[trigger] w[i]) by {
            assert(w[i] == whole[kw + i]);
        }
        assert forall|i: int| 0 <= i < f.len() implies is_digit(#[trigger] f[i]) by {
            assert(f[i] == fraction[i]);
        }
        assert(x.2 == f);
        if w.len() == 0 {
            assert(x.1 == seq!['0']);
            assert(all_digits(x.1)) by {
                assert forall|i: int| 0 <= i < x.1.len() implies is_digit(#[trigger] x.1[i]) by {}
            }
        } else {
            assert(x.1 == w);
            if w.len() == 1 {
                assert(w != seq!['0']) by {
                    assert(w[0] != '0');
                }
            }
        }
    }
}

/// A range of decimals is refused for its order exactly when the value of
/// its lower end is above the value of its upper end.
pub proof fn ranges_are_refused_exactly_when_inverted(
    a: Seq<char>,
    b: Seq<char>,
    min_field: Seq<char>,
    max_field: Seq<char>,
)
    requires
        spec_parse_decimal(a, true) is Some,
        spec_parse_decimal(b, true) is Some,
    ensures
        ({
            let x = spec_parse_decimal(a, true)->Some_0;
            let y = spec_parse_decimal(b, true)->Some_0;
            let n = common_scale(x, y);
            &&& spec_range_order(Some(a), Some(b), min_field, max_field) is Some <==> scaled_value(x, n)
                > scaled_value(y, n)
            &&& spec_range_order(Some(a), Some(b), min_field, max_field) is Some ==> spec_range_order(
                Some(a),
                Some(b),
                min_field,
                max_field,
            ) == Some(range_error(min_field, max_field))
        }),
{
    parsed_decimals_are_canonical(a, true);
    parsed_decimals_are_canonical(b, true);
    decimal_order_is_the_order_of_values(spec_parse_decimal(a, true)->Some_0, spec_parse_decimal(b, true)->Some_0);
}

} // verus!
