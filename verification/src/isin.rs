//! International Securities Identification Numbers: shape and check digit.
use vstd::prelude::*;

use crate::text::{
    digit_value, digit_value_exec, is_alnum, is_alnum_char, is_alpha, is_digit, is_digit_char,
    is_lower_char, is_upper_char, letter_value, letter_value_exec,
};

verus! {

/// The digits that one ISIN character stands for in the check-digit
/// computation: a digit stands for itself, a letter for the two digits of its
/// value (`A` = 10 ... `Z` = 35).
pub open spec fn expand_char(c: char) -> Seq<int> {
    if is_digit(c) {
        seq![digit_value(c)]
    } else if is_alpha(c) {
        seq![letter_value(c) / 10, letter_value(c) % 10]
    } else {
        Seq::empty()
    }
}

/// The digit string of an ISIN, character by character.
pub open spec fn expand(s: Seq<char>) -> Seq<int>
    decreases s.len(),
{
    if s.len() == 0 {
        Seq::empty()
    } else {
        expand(s.drop_last()) + expand_char(s.last())
    }
}

/// What one digit adds to the Luhn sum: itself, or when doubled the sum of the
/// digits of its double.
pub open spec fn luhn_term(d: int, doubled: bool) -> int {
    if doubled {
        if 2 * d > 9 {
            (2 * d) / 10 + (2 * d) % 10
        } else {
            2 * d
        }
    } else {
        d
    }
}

/// The Luhn sum of a digit string: counting from the right, every second digit
/// (the second, fourth, ...) is doubled.
pub open spec fn luhn_sum(d: Seq<int>) -> int
    decreases d.len(),
{
    if d.len() == 0 {
        0
    } else {
        luhn_term(d[0], (d.len() - 1) % 2 == 1) + luhn_sum(d.drop_first())
    }
}

/// The shape of an ISIN: two letters, nine letters or digits, one check digit.
pub open spec fn isin_shape(s: Seq<char>) -> bool {
    &&& s.len() == 12
    &&& forall|i: int| 0 <= i < 2 ==> is_alpha(#[trigger] s[i])
    &&& forall|i: int| 2 <= i < 11 ==> is_alnum(#[trigger] s[i])
    &&& is_digit(s[11])
}

/// A valid ISIN: the right shape, and a Luhn sum of its digit string that is a
/// multiple of ten.
pub open spec fn spec_is_valid_isin(s: Seq<char>) -> bool {
    isin_shape(s) && luhn_sum(expand(s)) % 10 == 0
}

proof fn lemma_luhn_suffix(d: Seq<int>, k: int)
    requires
        0 < k <= d.len(),
    ensures
        luhn_sum(d.subrange(k - 1, d.len() as int)) == luhn_term(
            d[k - 1],
            (d.len() - k) % 2 == 1,
        ) + luhn_sum(d.subrange(k, d.len() as int)),
{
    let sub = d.subrange(k - 1, d.len() as int);
    assert(sub.drop_first() =~= d.subrange(k, d.len() as int));
}

/// Whether `isin` is a valid ISIN.
pub fn is_valid_isin(isin: &Vec<char>) -> (res: bool)
    ensures
        res == spec_is_valid_isin(isin@),
{
    if isin.len() != 12 {
        return false;
    }
    let mut i: usize = 0;
    while i < 12
        invariant
            isin.len() == 12,
            i <= 12,
            forall|k: int| 0 <= k < i && k < 2 ==> is_alpha(#[trigger] isin@[k]),
            forall|k: int| 2 <= k < i && k < 11 ==> is_alnum(#[trigger] isin@[k]),
            i == 12 ==> is_digit(isin@[11]),
        decreases 12 - i,
    {
        let c = isin[i];
        let ok = if i < 2 {
            is_upper_char(c) || is_lower_char(c)
        } else if i < 11 {
            is_alnum_char(c)
        } else {
            is_digit_char(c)
        };
        if !ok {
            return false;
        }
        i = i + 1;
    }
    let ghost shape = isin_shape(isin@);
    assert(shape);
    // Expand into digits.
    let mut digits: Vec<u32> = Vec::new();
    let mut j: usize = 0;
    while j < 12
        invariant
            isin.len() == 12,
            j <= 12,
            digits@.map_values(|x: u32| x as int) == expand(isin@.take(j as int)),
            digits.len() <= 2 * j,
            forall|k: int| 0 <= k < digits.len() ==> #[trigger] digits@[k] <= 9,
            isin_shape(isin@),
        decreases 12 - j,
    {
        let c = isin[j];
        let ghost before = digits@;
        proof {
            assert(isin@.take(j + 1).drop_last() =~= isin@.take(j as int));
        }
        if is_digit_char(c) {
            digits.push(digit_value_exec(c));
        } else {
            assert(is_alnum(isin@[j as int]));
            let v = letter_value_exec(c);
            digits.push(v / 10);
            digits.push(v % 10);
        }
        proof {
            assert(digits@.map_values(|x: u32| x as int) =~= expand(isin@.take(j + 1)));
        }
        j = j + 1;
    }
    proof {
        assert(isin@.take(12) =~= isin@);
    }
    let ghost d = digits@.map_values(|x: u32| x as int);
    let n = digits.len();
    let mut sum: u32 = 0;
    let mut k: usize = n;
    let mut doubled = false;
    proof {
        assert(d.subrange(n as int, n as int) =~= Seq::<int>::empty());
    }
    while k > 0
        invariant
            n == digits.len(),
            n <= 24,
            k <= n,
            d == digits@.map_values(|x: u32| x as int),
            forall|m: int| 0 <= m < digits.len() ==> #[trigger] digits@[m] <= 9,
            sum == luhn_sum(d.subrange(k as int, n as int)),
            sum <= 9 * (n - k),
            doubled == ((n - k) % 2 == 1),
        decreases k,
    {
        proof {
            lemma_luhn_suffix(d, k as int);
        }
        let mut digit = digits[k - 1];
        if doubled {
            digit = digit * 2;
            if digit > 9 {
                digit = (digit / 10) + (digit % 10);
            }
        }
        sum = sum + digit;
        doubled = !doubled;
        k = k - 1;
    }
    proof {
        assert(d.subrange(0, n as int) =~= d);
    }
    sum % 10 == 0
}

proof fn lemma_expand_concat(a: Seq<char>, b: Seq<char>)
    ensures
        expand(a + b) == expand(a) + expand(b),
    decreases b.len(),
{
    if b.len() == 0 {
        assert(a + b =~= a);
        assert(expand(a) + expand(b) =~= expand(a));
    } else {
        assert((a + b).drop_last() =~= a + b.drop_last());
        assert((a + b).last() == b.last());
        lemma_expand_concat(a, b.drop_last());
        assert(expand(a) + expand(b.drop_last()) + expand_char(b.last()) =~= expand(a) + (expand(
            b.drop_last(),
        ) + expand_char(b.last())));
    }
}

proof fn lemma_expand_digit(c: char)
    requires
        is_digit(c),
    ensures
        expand(seq![c]) == seq![digit_value(c)],
{
    let one = seq![c];
    assert(one.drop_last() =~= Seq::<char>::empty());
    assert(one.last() == c);
    assert(expand(one.drop_last()) =~= Seq::<int>::empty());
    assert(expand(one) =~= Seq::<int>::empty() + seq![digit_value(c)]);
}

/// Changing one digit of a digit string changes its Luhn sum by the change
/// of that digit's term.
proof fn lemma_luhn_one_digit(a: Seq<int>, x: int, y: int, b: Seq<int>)
    ensures
        luhn_sum(a + seq![x] + b) == luhn_sum(a + seq![y] + b) + luhn_term(x, b.len() % 2 == 1)
            - luhn_term(y, b.len() % 2 == 1),
    decreases a.len(),
{
    if a.len() == 0 {
        assert(a + seq![x] + b =~= seq![x] + b);
        assert(a + seq![y] + b =~= seq![y] + b);
        assert((seq![x] + b).drop_first() =~= b);
        assert((seq![y] + b).drop_first() =~= b);
    } else {
        assert((a + seq![x] + b).drop_first() =~= a.drop_first() + seq![x] + b);
        assert((a + seq![y] + b).drop_first() =~= a.drop_first() + seq![y] + b);
        assert((a + seq![x] + b)[0] == a[0]);
        assert((a + seq![y] + b)[0] == a[0]);
        lemma_luhn_one_digit(a.drop_first(), x, y, b);
    }
}

/// Each digit has its own Luhn term, a digit itself.
proof fn lemma_luhn_term_digits(x: int, y: int, doubled: bool)
    requires
        0 <= x <= 9,
        0 <= y <= 9,
        x != y,
    ensures
        0 <= luhn_term(x, doubled) <= 9,
        luhn_term(x, doubled) != luhn_term(y, doubled),
{
}

/// The check digit catches every change of a single digit: where an ISIN is
/// valid, putting another digit in place of any one of its digits gives an
/// invalid one.
pub proof fn a_changed_digit_makes_a_valid_isin_invalid(s: Seq<char>, j: int, d: char)
    requires
        spec_is_valid_isin(s),
        0 <= j < 12,
        is_digit(s[j]),
        is_digit(d),
        d != s[j],
    ensures
        !spec_is_valid_isin(s.update(j, d)),
{
    let t = s.update(j, d);
    let pre = s.take(j);
    let post = s.skip(j + 1);
    assert(s =~= pre + seq![s[j]] + post);
    assert(t =~= pre + seq![d] + post);
    lemma_expand_concat(pre + seq![s[j]], post);
    lemma_expand_concat(pre, seq![s[j]]);
    lemma_expand_concat(pre + seq![d], post);
    lemma_expand_concat(pre, seq![d]);
    lemma_expand_digit(s[j]);
    lemma_expand_digit(d);
    let a = expand(pre);
    let b = expand(post);
    assert(expand(s) =~= a + seq![digit_value(s[j])] + b);
    assert(expand(t) =~= a + seq![digit_value(d)] + b);
    let doubled = b.len() % 2 == 1;
    lemma_luhn_one_digit(a, digit_value(d), digit_value(s[j]), b);
    lemma_luhn_term_digits(digit_value(d), digit_value(s[j]), doubled);
    lemma_luhn_term_digits(digit_value(s[j]), digit_value(d), doubled);
    let before = luhn_sum(expand(s));
    let after = luhn_sum(expand(t));
    let k = luhn_term(digit_value(d), doubled) - luhn_term(digit_value(s[j]), doubled);
    assert(after == before + k);
    assert(after % 10 != 0) by (nonlinear_arith)
        requires
            after == before + k,
            before % 10 == 0,
            -10 < k < 10,
            k != 0,
    ;
}

} // verus!
